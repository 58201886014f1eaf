//! What stands around the panes: the bars at the top and at the bottom, the
//! list of repositories, the inspector and the command palette.
use vstd::prelude::*;
use vstd::string::*;

use crate::actions;
use crate::actions::{PaletteAction, WorkTab};
use crate::app::{AppView, GitControlApp};
use crate::clicks::{Click, ClickView};
use crate::graph;
use crate::model::{
    BranchEntry, BranchEntryView, CommitEntry, CommitEntryView, FileChange, FileChangeView,
    RepoSnapshot, RepoSnapshotView, RepoSummary, RepoSummaryView, ResolutionStrategy,
};
use crate::text;
use crate::widgets;
use crate::widgets::colour;
use crate::widgets::{
    Button, ButtonView, Chip, ChipView, Footer, FooterView, InfoRow, InfoRowView, Inspector,
    InspectorBody, InspectorBodyView, InspectorView, LeftRail, LeftRailView, RepoCard,
    RepoCardView, Rgb, RiskBadge, RiskBadgeView, ToolButton, ToolButtonView,
};

verus! {

/// How safe it is to go on in a repository.
pub open spec fn risk_of(summary: RepoSummaryView) -> RiskBadgeView {
    if summary.conflict_count > 0 {
        RiskBadgeView {
            icon: "⚠"@,
            label: "Unresolved conflicts"@,
            fill: widgets::rgb(255, 240, 240),
            ink: widgets::rgb(200, 50, 50),
            border: widgets::rgb(255, 200, 200),
        }
    } else if summary.unstaged_count > 0 || summary.behind > 0 {
        RiskBadgeView {
            icon: "●"@,
            label: "Pending changes"@,
            fill: widgets::rgb(255, 250, 235),
            ink: widgets::rgb(180, 120, 20),
            border: widgets::rgb(255, 230, 180),
        }
    } else {
        RiskBadgeView {
            icon: "✓"@,
            label: "Clean working tree"@,
            fill: widgets::rgb(235, 252, 240),
            ink: widgets::rgb(40, 140, 70),
            border: widgets::rgb(200, 240, 210),
        }
    }
}

/// How safe it is to go on in a repository.
pub fn risk_panel(snapshot: &RepoSnapshot) -> (r: RiskBadge)
    ensures
        r.deep_view() == risk_of(snapshot.deep_view().summary),
{
    if snapshot.summary.conflict_count > 0 {
        RiskBadge {
            icon: "⚠".to_owned(),
            label: "Unresolved conflicts".to_owned(),
            fill: colour(255, 240, 240),
            ink: colour(200, 50, 50),
            border: colour(255, 200, 200),
        }
    } else if snapshot.summary.unstaged_count > 0 || snapshot.summary.behind > 0 {
        RiskBadge {
            icon: "●".to_owned(),
            label: "Pending changes".to_owned(),
            fill: colour(255, 250, 235),
            ink: colour(180, 120, 20),
            border: colour(255, 230, 180),
        }
    } else {
        RiskBadge {
            icon: "✓".to_owned(),
            label: "Clean working tree".to_owned(),
            fill: colour(235, 252, 240),
            ink: colour(40, 140, 70),
            border: colour(200, 240, 210),
        }
    }
}

/// `yes` or `no`.
pub open spec fn yes_or_no(flag: bool) -> Seq<char> {
    if flag {
        "yes"@
    } else {
        "no"@
    }
}

/// `yes` or `no`.
pub fn yes_no(flag: bool) -> (r: &'static str)
    ensures
        r@ == yes_or_no(flag),
{
    if flag {
        "yes"
    } else {
        "no"
    }
}

/// A value under its name, which a colon follows.
pub open spec fn named(label: Seq<char>, value: Seq<char>) -> InfoRowView {
    InfoRowView { label: label + ":"@, value }
}

/// A value under its name.
pub fn info_row(label: &str, value: &str) -> (r: InfoRow)
    ensures
        r.deep_view() == named(label@, value@),
{
    InfoRow { label: text::join2(label, ":"), value: value.to_owned() }
}

/// What is told of a change.
pub open spec fn change_rows(change: FileChangeView) -> Seq<InfoRowView> {
    seq![
        named("Path"@, change.path),
        named("Type"@, change.kind),
        named("Staged"@, yes_or_no(change.staged)),
        named("Unstaged"@, yes_or_no(change.unstaged)),
    ]
}

/// What is told of a change.
pub fn render_change_info(change: &FileChange) -> (r: Vec<InfoRow>)
    ensures
        r.deep_view() == change_rows(change.deep_view()),
{
    let r = vec![
        info_row("Path", change.path.as_str()),
        info_row("Type", change.kind.as_str()),
        info_row("Staged", yes_no(change.staged)),
        info_row("Unstaged", yes_no(change.unstaged)),
    ];
    assert(r.deep_view() =~= change_rows(change.deep_view()));
    r
}

/// What is told of a commit.
pub open spec fn commit_rows(commit: CommitEntryView) -> Seq<InfoRowView> {
    let rows = seq![
        named("Commit"@, commit.id),
        named("Action"@, graph::action_label(commit.summary)),
        named("Summary"@, commit.summary),
        named("Author"@, commit.author),
        named("Time"@, commit.timestamp),
        named("Parents"@, text::decimal(commit.parents.len())),
    ];
    if commit.branch_labels.len() == 0 {
        rows
    } else {
        rows.push(named("Branches"@, text::joined(commit.branch_labels, ", "@)))
    }
}

/// What is told of a commit.
pub fn render_commit_info(commit: &CommitEntry) -> (r: Vec<InfoRow>)
    ensures
        r.deep_view() == commit_rows(commit.deep_view()),
{
    let parents = text::decimal_text(commit.parents.len());
    let mut r = vec![
        info_row("Commit", commit.id.as_str()),
        info_row("Action", graph::commit_action_label(commit.summary.as_str())),
        info_row("Summary", commit.summary.as_str()),
        info_row("Author", commit.author.as_str()),
        info_row("Time", commit.timestamp.as_str()),
        info_row("Parents", parents.as_str()),
    ];
    if commit.branch_labels.len() > 0 {
        let labels = text::join_with(&commit.branch_labels, ", ");
        r.push(info_row("Branches", labels.as_str()));
    }
    assert(r.deep_view() =~= commit_rows(commit.deep_view()));
    r
}

/// What is told of a branch.
pub open spec fn branch_rows(branch: BranchEntryView) -> Seq<InfoRowView> {
    seq![
        named("Branch"@, branch.name),
        named("Current"@, yes_or_no(branch.is_head)),
        named(
            "Upstream"@,
            match branch.upstream {
                Some(upstream) => upstream,
                None => "none"@,
            },
        ),
    ]
}

/// What is told of a branch.
pub fn render_branch_info(branch: &BranchEntry) -> (r: Vec<InfoRow>)
    ensures
        r.deep_view() == branch_rows(branch.deep_view()),
{
    let upstream = match &branch.upstream {
        Some(upstream) => upstream.as_str(),
        None => "none",
    };
    let r = vec![
        info_row("Branch", branch.name.as_str()),
        info_row("Current", yes_no(branch.is_head)),
        info_row("Upstream", upstream),
    ];
    assert(r.deep_view() =~= branch_rows(branch.deep_view()));
    r
}

/// The chips of a repository in the list.
pub open spec fn card_chips(repo: RepoSummaryView, selected: bool) -> Seq<ChipView> {
    let fill = if selected {
        widgets::rgb(205, 227, 248)
    } else {
        widgets::rgb(220, 220, 220)
    };
    let ink = if selected {
        widgets::rgb(47, 87, 135)
    } else {
        widgets::rgb(80, 80, 80)
    };
    seq![
        ChipView { label: "S:"@ + text::decimal(repo.staged_count as nat), fill, ink },
        ChipView { label: "U:"@ + text::decimal(repo.unstaged_count as nat), fill, ink },
        ChipView { label: "C:"@ + text::decimal(repo.conflict_count as nat), fill, ink },
        ChipView {
            label: "↑"@ + text::decimal(repo.ahead as nat) + "↓"@ + text::decimal(
                repo.behind as nat,
            ),
            fill,
            ink,
        },
    ]
}

/// A repository in the list.
pub open spec fn card_of(repo: RepoSummaryView, index: usize, selected: bool) -> RepoCardView {
    RepoCardView {
        name: repo.name,
        branch: "("@ + repo.current_branch + ")"@,
        fill: if selected {
            widgets::rgb(225, 240, 255)
        } else {
            widgets::rgb(252, 252, 253)
        },
        border: if selected {
            widgets::rgb(64, 156, 255)
        } else {
            widgets::rgb(224, 224, 226)
        },
        name_ink: if selected {
            widgets::rgb(18, 86, 163)
        } else {
            widgets::rgb(29, 29, 31)
        },
        branch_ink: if selected {
            widgets::rgb(66, 114, 170)
        } else {
            widgets::rgb(140, 140, 140)
        },
        chips: card_chips(repo, selected),
        click: ClickView::SelectRepo { index },
    }
}

/// The list of repositories.
pub open spec fn left_rail(s: AppView) -> LeftRailView {
    LeftRailView {
        found: text::decimal(s.repositories.len()) + " found"@,
        scan: ButtonView { label: "🔍 Scan"@, click: ClickView::Refresh },
        add: ButtonView { label: "Add"@, click: ClickView::AddRepo },
        cards: Seq::new(
            s.repositories.len(),
            |i: int| card_of(s.repositories[i], i as usize, s.selected_repo == Some(i as usize)),
        ),
    }
}

fn repo_chips(repo: &RepoSummary, selected: bool) -> (r: Vec<Chip>)
    ensures
        r.deep_view() == card_chips(repo.deep_view(), selected),
{
    let fill = if selected {
        colour(205, 227, 248)
    } else {
        colour(220, 220, 220)
    };
    let ink = if selected {
        colour(47, 87, 135)
    } else {
        colour(80, 80, 80)
    };
    let staged = text::decimal_text(repo.staged_count);
    let unstaged = text::decimal_text(repo.unstaged_count);
    let conflicts = text::decimal_text(repo.conflict_count);
    let ahead = text::decimal_text(repo.ahead);
    let behind = text::decimal_text(repo.behind);
    let r = vec![
        Chip { label: text::join2("S:", staged.as_str()), fill, ink },
        Chip { label: text::join2("U:", unstaged.as_str()), fill, ink },
        Chip { label: text::join2("C:", conflicts.as_str()), fill, ink },
        Chip { label: text::join4("↑", ahead.as_str(), "↓", behind.as_str()), fill, ink },
    ];
    assert(r.deep_view() =~= card_chips(repo.deep_view(), selected));
    r
}

fn repo_card(repo: &RepoSummary, index: usize, selected: bool) -> (r: RepoCard)
    ensures
        r.deep_view() == card_of(repo.deep_view(), index, selected),
{
    RepoCard {
        name: repo.name.clone(),
        branch: text::join3("(", repo.current_branch.as_str(), ")"),
        fill: if selected {
            colour(225, 240, 255)
        } else {
            colour(252, 252, 253)
        },
        border: if selected {
            colour(64, 156, 255)
        } else {
            colour(224, 224, 226)
        },
        name_ink: if selected {
            colour(18, 86, 163)
        } else {
            colour(29, 29, 31)
        },
        branch_ink: if selected {
            colour(66, 114, 170)
        } else {
            colour(140, 140, 140)
        },
        chips: repo_chips(repo, selected),
        click: Click::SelectRepo { index },
    }
}

/// Tells whether the position is the selected one.
pub fn is_selected(selection: Option<usize>, index: usize) -> (r: bool)
    ensures
        r == (selection == Some(index)),
{
    match selection {
        Some(i) => i == index,
        None => false,
    }
}

/// The status at the bottom.
pub open spec fn footer(s: AppView) -> FooterView {
    FooterView {
        message: s.status_line,
        ink: if s.status_is_error {
            widgets::rgb(180, 40, 40)
        } else {
            widgets::rgb(100, 100, 100)
        },
    }
}

/// A button of a bar; it stands out if it is the main one or the open one.
pub open spec fn bar_button(
    label: Seq<char>,
    stands_out: bool,
    plain_fill: Rgb,
    plain_ink: Rgb,
    click: ClickView,
) -> ToolButtonView {
    ToolButtonView {
        label,
        fill: if stands_out {
            widgets::rgb(0, 122, 255)
        } else {
            plain_fill
        },
        ink: if stands_out {
            widgets::rgb(255, 255, 255)
        } else {
            plain_ink
        },
        border: if stands_out {
            widgets::rgb(0, 108, 230)
        } else {
            widgets::rgb(210, 210, 214)
        },
        click,
    }
}

/// A button of the bar at the top.
pub open spec fn tool_button(label: Seq<char>, primary: bool, click: ClickView) -> ToolButtonView {
    bar_button(label, primary, widgets::rgb(244, 244, 246), widgets::rgb(44, 44, 48), click)
}

/// The button that opens a pane.
pub open spec fn tab_button(tab: WorkTab, active: bool) -> ToolButtonView {
    bar_button(
        actions::tab_title(tab),
        active,
        widgets::rgb(241, 241, 243),
        widgets::rgb(84, 84, 88),
        ClickView::OpenTab { tab },
    )
}

/// The buttons of the bar at the top.
pub open spec fn command_bar() -> Seq<ToolButtonView> {
    seq![
        tool_button("Refresh"@, false, ClickView::Refresh),
        tool_button("Reload"@, false, ClickView::Reload),
        tool_button("Stage All"@, false, ClickView::StageAll),
        tool_button("Unstage All"@, false, ClickView::UnstageAll),
        tool_button("Commit"@, true, ClickView::Commit),
        tool_button("Conflicts"@, false, ClickView::OpenTab { tab: WorkTab::Conflicts }),
        tool_button("Actions"@, false, ClickView::ShowPalette),
    ]
}

fn make_bar_button(
    label: &str,
    stands_out: bool,
    plain_fill: Rgb,
    plain_ink: Rgb,
    click: Click,
) -> (r: ToolButton)
    ensures
        r.deep_view() == bar_button(
            label@,
            stands_out,
            plain_fill,
            plain_ink,
            click.deep_view(),
        ),
{
    ToolButton {
        label: label.to_owned(),
        fill: if stands_out {
            colour(0, 122, 255)
        } else {
            plain_fill
        },
        ink: if stands_out {
            colour(255, 255, 255)
        } else {
            plain_ink
        },
        border: if stands_out {
            colour(0, 108, 230)
        } else {
            colour(210, 210, 214)
        },
        click,
    }
}

/// A button of the bar at the top.
pub fn toolbar_button(label: &str, primary: bool, click: Click) -> (r: ToolButton)
    ensures
        r.deep_view() == tool_button(label@, primary, click.deep_view()),
{
    make_bar_button(label, primary, colour(244, 244, 246), colour(44, 44, 48), click)
}

/// The button that opens a pane.
pub fn segmented_tab(tab: WorkTab, active: bool) -> (r: ToolButton)
    ensures
        r.deep_view() == tab_button(tab, active),
{
    make_bar_button(
        tab.title(),
        active,
        colour(241, 241, 243),
        colour(84, 84, 88),
        Click::OpenTab { tab },
    )
}

/// The buttons of the bar at the top.
pub fn show_command_bar() -> (r: Vec<ToolButton>)
    ensures
        r.deep_view() == command_bar(),
{
    let r = vec![
        toolbar_button("Refresh", false, Click::Refresh),
        toolbar_button("Reload", false, Click::Reload),
        toolbar_button("Stage All", false, Click::StageAll),
        toolbar_button("Unstage All", false, Click::UnstageAll),
        toolbar_button("Commit", true, Click::Commit),
        toolbar_button("Conflicts", false, Click::OpenTab { tab: WorkTab::Conflicts }),
        toolbar_button("Actions", false, Click::ShowPalette),
    ];
    assert(r.deep_view() =~= command_bar());
    r
}

/// The buttons of the command palette, for the actions that are offered.
pub open spec fn palette_buttons(offered: Seq<PaletteAction>) -> Seq<ButtonView> {
    offered.map_values(
        |action: PaletteAction|
            ButtonView {
                label: actions::action_name(action) + "    "@ + actions::action_keys(action),
                click: ClickView::Palette { action },
            },
    )
}

/// The buttons of the command palette, for the actions that are offered.
pub fn buttons_for_actions(offered: &Vec<PaletteAction>) -> (r: Vec<Button>)
    ensures
        r.deep_view() == palette_buttons(offered@),
{
    let mut r: Vec<Button> = Vec::new();
    let mut i: usize = 0;
    while i < offered.len()
        invariant
            i <= offered@.len(),
            r@.len() == i,
            forall|k: int|
                0 <= k < i ==> #[trigger] r@[k].deep_view() == palette_buttons(offered@)[k],
        decreases offered@.len() - i,
    {
        let action = offered[i];
        r.push(
            Button {
                label: text::join3(action.label(), "    ", action.shortcut()),
                click: Click::Palette { action },
            },
        );
        i += 1;
    }
    assert(r.deep_view() =~= palette_buttons(offered@));
    r
}

/// How a strategy is named in the inspector.
pub open spec fn strategy_name(strategy: ResolutionStrategy) -> Seq<char> {
    match strategy {
        ResolutionStrategy::SmartBlend => "SmartBlend"@,
        ResolutionStrategy::KeepOurs => "KeepOurs"@,
        ResolutionStrategy::KeepTheirs => "KeepTheirs"@,
    }
}

/// What stands above what is known of the selection, in each pane.
pub open spec fn inspector_heading(tab: WorkTab) -> Seq<char> {
    match tab {
        WorkTab::Changes => "Selected Change"@,
        WorkTab::History => "Selected Commit"@,
        WorkTab::Branches => "Selected Branch"@,
        WorkTab::Sync => "Sync State"@,
        WorkTab::Conflicts => "AI Agent"@,
        WorkTab::Recovery => "Recovery Actions"@,
    }
}

/// What is known of an item of a list that is selected: rows if there is such
/// an item.
pub open spec fn rows_or(
    selection: Option<usize>,
    rows: Seq<Seq<InfoRowView>>,
    missing: Seq<char>,
    hint: Seq<char>,
) -> InspectorBodyView {
    match selection {
        Some(i) => if i < rows.len() {
            InspectorBodyView::Rows { rows: rows[i as int] }
        } else {
            InspectorBodyView::Missing { missing }
        },
        None => InspectorBodyView::Hint { hint },
    }
}

/// What is known of what is selected in the pane that is open.
pub open spec fn inspector_body(s: AppView, snapshot: RepoSnapshotView) -> InspectorBodyView {
    match s.active_tab {
        WorkTab::Changes => rows_or(
            s.selected_change,
            snapshot.changes.map_values(|c: FileChangeView| change_rows(c)),
            "No change selected"@,
            "Pick a file in Changes"@,
        ),
        WorkTab::History => rows_or(
            s.selected_commit,
            snapshot.commits.map_values(|c: CommitEntryView| commit_rows(c)),
            "No commit selected"@,
            "Pick a commit in History"@,
        ),
        WorkTab::Branches => rows_or(
            s.selected_branch,
            snapshot.branches.map_values(|b: BranchEntryView| branch_rows(b)),
            "No branch selected"@,
            "Pick a branch in Branch Lab"@,
        ),
        WorkTab::Sync => InspectorBodyView::Lines {
            lines: seq![
                "↑ Ahead: "@ + text::decimal(snapshot.summary.ahead as nat),
                "↓ Behind: "@ + text::decimal(snapshot.summary.behind as nat),
                "⑂ Branch: "@ + snapshot.summary.current_branch,
            ],
        },
        WorkTab::Conflicts => InspectorBodyView::Agent {
            agent: seq![
                "Provider: "@ + actions::provider_title(s.ai_provider),
                "Strategy: "@ + strategy_name(s.ai_strategy),
            ],
            waiting: s.ai_request_in_flight,
            suggestion: s.ai_suggestion,
        },
        WorkTab::Recovery => if s.pending_reset_to is Some {
            InspectorBodyView::Armed {
                warning: "⚠ Reset armed"@,
                advice: "Click confirm in Recovery Center to execute"@,
            }
        } else {
            InspectorBodyView::Hint {
                hint: "Select an entry and arm reset to restore previous state"@,
            }
        },
    }
}

/// What the inspector says while there is no repository to inspect.
pub open spec fn inspector_empty_text() -> Seq<char> {
    "Select a repository to inspect"@
}

/// The repository and what is selected in it.
pub open spec fn inspector(s: AppView) -> Option<InspectorView> {
    match s.snapshot {
        Some(snapshot) => Some(
            InspectorView {
                name: snapshot.summary.name,
                path: snapshot.summary.path.text,
                risk: risk_of(snapshot.summary),
                heading: inspector_heading(s.active_tab),
                body: inspector_body(s, snapshot),
            },
        ),
        None => None,
    }
}

fn strategy_label(strategy: ResolutionStrategy) -> (r: &'static str)
    ensures
        r@ == strategy_name(strategy),
{
    match strategy {
        ResolutionStrategy::SmartBlend => "SmartBlend",
        ResolutionStrategy::KeepOurs => "KeepOurs",
        ResolutionStrategy::KeepTheirs => "KeepTheirs",
    }
}

fn heading_for(tab: WorkTab) -> (r: &'static str)
    ensures
        r@ == inspector_heading(tab),
{
    match tab {
        WorkTab::Changes => "Selected Change",
        WorkTab::History => "Selected Commit",
        WorkTab::Branches => "Selected Branch",
        WorkTab::Sync => "Sync State",
        WorkTab::Conflicts => "AI Agent",
        WorkTab::Recovery => "Recovery Actions",
    }
}

impl GitControlApp {
    /// The list of repositories.
    pub fn show_left_rail(&self) -> (r: LeftRail)
        ensures
            r.deep_view() == left_rail(self@),
    {
        let count = text::decimal_text(self.repositories.len());
        let ghost cards_view = left_rail(self@).cards;
        let mut cards: Vec<RepoCard> = Vec::new();
        let mut i: usize = 0;
        while i < self.repositories.len()
            invariant
                i <= self.repositories@.len(),
                cards@.len() == i,
                cards_view == left_rail(self@).cards,
                forall|k: int| 0 <= k < i ==> #[trigger] cards@[k].deep_view() == cards_view[k],
            decreases self.repositories@.len() - i,
        {
            assert(self@.repositories[i as int] == self.repositories@[i as int].deep_view());
            cards.push(repo_card(&self.repositories[i], i, is_selected(self.selected_repo, i)));
            i += 1;
        }
        assert(cards.deep_view() =~= cards_view);
        LeftRail {
            found: text::join2(count.as_str(), " found"),
            scan: Button { label: "🔍 Scan".to_owned(), click: Click::Refresh },
            add: Button { label: "Add".to_owned(), click: Click::AddRepo },
            cards,
        }
    }

    /// The status at the bottom.
    pub fn show_footer(&self) -> (r: Footer)
        ensures
            r.deep_view() == footer(self@),
    {
        Footer {
            message: self.status_line.clone(),
            ink: if self.status_is_error {
                colour(180, 40, 40)
            } else {
                colour(100, 100, 100)
            },
        }
    }

    /// The buttons that open the panes.
    pub fn show_main_workbench(&self) -> (r: Vec<ToolButton>)
        ensures
            r.deep_view() == actions::all_tabs().map_values(
                |tab: WorkTab| tab_button(tab, tab == self@.active_tab),
            ),
    {
        let tabs = WorkTab::all();
        let ghost made = actions::all_tabs().map_values(
            |tab: WorkTab| tab_button(tab, tab == self@.active_tab),
        );
        let mut r: Vec<ToolButton> = Vec::new();
        let mut i: usize = 0;
        while i < 6
            invariant
                i <= 6,
                tabs@ == actions::all_tabs(),
                r@.len() == i,
                made == actions::all_tabs().map_values(
                    |tab: WorkTab| tab_button(tab, tab == self@.active_tab),
                ),
                forall|k: int| 0 <= k < i ==> #[trigger] r@[k].deep_view() == made[k],
            decreases 6 - i,
        {
            let tab = tabs[i];
            r.push(segmented_tab(tab, tab == self.active_tab));
            i += 1;
        }
        assert(r.deep_view() =~= made);
        r
    }

    /// The buttons of the command palette, if it is open: those for the actions
    /// that match what was typed.
    pub fn show_command_palette(&self) -> (r: Option<Vec<Button>>)
        ensures
            r.deep_view() == (if self@.command_palette_open {
                Some(
                    palette_buttons(
                        actions::offered_actions(
                            text::lower_case(text::trimmed(self@.command_palette_query)),
                        ),
                    ),
                )
            } else {
                None
            }),
    {
        if self.command_palette_open {
            let offered = actions::filter_actions(self.command_palette_query.as_str());
            Some(buttons_for_actions(&offered))
        } else {
            None
        }
    }

    fn selection_info(&self, snapshot: &RepoSnapshot) -> (r: InspectorBody)
        requires
            self@.active_tab is Changes || self@.active_tab is History
                || self@.active_tab is Branches,
        ensures
            r.deep_view() == inspector_body(self@, snapshot.deep_view()),
    {
        match self.active_tab {
            WorkTab::Changes => match self.selected_change {
                Some(i) => if i < snapshot.changes.len() {
                    assert(snapshot.deep_view().changes[i as int]
                        == snapshot.changes@[i as int].deep_view());
                    InspectorBody::Rows { rows: render_change_info(&snapshot.changes[i]) }
                } else {
                    InspectorBody::Missing { missing: "No change selected".to_owned() }
                },
                None => InspectorBody::Hint { hint: "Pick a file in Changes".to_owned() },
            },
            WorkTab::History => match self.selected_commit {
                Some(i) => if i < snapshot.commits.len() {
                    assert(snapshot.deep_view().commits[i as int]
                        == snapshot.commits@[i as int].deep_view());
                    InspectorBody::Rows { rows: render_commit_info(&snapshot.commits[i]) }
                } else {
                    InspectorBody::Missing { missing: "No commit selected".to_owned() }
                },
                None => InspectorBody::Hint { hint: "Pick a commit in History".to_owned() },
            },
            _ => match self.selected_branch {
                Some(i) => if i < snapshot.branches.len() {
                    assert(snapshot.deep_view().branches[i as int]
                        == snapshot.branches@[i as int].deep_view());
                    InspectorBody::Rows { rows: render_branch_info(&snapshot.branches[i]) }
                } else {
                    InspectorBody::Missing { missing: "No branch selected".to_owned() }
                },
                None => InspectorBody::Hint { hint: "Pick a branch in Branch Lab".to_owned() },
            },
        }
    }

    fn state_info(&self, snapshot: &RepoSnapshot) -> (r: InspectorBody)
        requires
            self@.active_tab is Sync || self@.active_tab is Conflicts
                || self@.active_tab is Recovery,
        ensures
            r.deep_view() == inspector_body(self@, snapshot.deep_view()),
    {
        match self.active_tab {
            WorkTab::Sync => {
                let ahead = text::decimal_text(snapshot.summary.ahead);
                let behind = text::decimal_text(snapshot.summary.behind);
                let lines = vec![
                    text::join2("↑ Ahead: ", ahead.as_str()),
                    text::join2("↓ Behind: ", behind.as_str()),
                    text::join2("⑂ Branch: ", snapshot.summary.current_branch.as_str()),
                ];
                assert(lines.deep_view() =~= inspector_body(
                    self@,
                    snapshot.deep_view(),
                )->lines);
                InspectorBody::Lines { lines }
            },
            WorkTab::Conflicts => {
                let agent = vec![
                    text::join2("Provider: ", self.ai_provider.title()),
                    text::join2("Strategy: ", strategy_label(self.ai_strategy)),
                ];
                assert(agent.deep_view() =~= inspector_body(
                    self@,
                    snapshot.deep_view(),
                )->agent);
                let suggestion = self.ai_suggestion.clone();
                assert(suggestion.deep_view() == self@.ai_suggestion);
                InspectorBody::Agent { agent, waiting: self.ai_request_in_flight, suggestion }
            },
            _ => if self.pending_reset_to.is_some() {
                InspectorBody::Armed {
                    warning: "⚠ Reset armed".to_owned(),
                    advice: "Click confirm in Recovery Center to execute".to_owned(),
                }
            } else {
                InspectorBody::Hint {
                    hint: "Select an entry and arm reset to restore previous state".to_owned(),
                }
            },
        }
    }

    /// What the inspector says while there is no repository to inspect.
    pub fn inspector_note(&self) -> (r: Option<&'static str>)
        ensures
            r is Some <==> inspector(self@) is None,
            r matches Some(said) ==> said@ == inspector_empty_text(),
    {
        match &self.snapshot {
            Some(_) => None,
            None => Some("Select a repository to inspect"),
        }
    }

    /// The repository and what is selected in it.
    pub fn show_right_inspector(&self) -> (r: Option<Inspector>)
        ensures
            r.deep_view() == inspector(self@),
    {
        match &self.snapshot {
            Some(snapshot) => {
                let body = match self.active_tab {
                    WorkTab::Changes | WorkTab::History | WorkTab::Branches => self.selection_info(
                        snapshot,
                    ),
                    WorkTab::Sync | WorkTab::Conflicts | WorkTab::Recovery => self.state_info(
                        snapshot,
                    ),
                };
                Some(
                    Inspector {
                        name: snapshot.summary.name.clone(),
                        path: snapshot.summary.path.text.clone(),
                        risk: risk_panel(snapshot),
                        heading: heading_for(self.active_tab).to_owned(),
                        body,
                    },
                )
            },
            None => None,
        }
    }
}

}
