//! What the six panes of the application show.
use vstd::prelude::*;
use vstd::string::*;

use crate::actions;
use crate::actions::{AiProvider, WorkTab};
use crate::app;
use crate::app::{contains_conflict_markers, AppView, GitControlApp};
use crate::clicks;
use crate::clicks::{Click, ClickView};
use crate::graph;
use crate::graph::{
    build_commit_graph_rows, commit_action_label, graph_lane_color, merge_target_lane,
    CommitGraphRow,
};
use crate::model::{
    BranchEntry, BranchEntryView, CommitEntry, CommitEntryView, ConflictEntry, ConflictEntryView,
    FileChange, FileChangeView, RecoveryEntry, RecoveryEntryView, RepoSnapshotView, RepoSummary,
    RepoSummaryView, ResolutionStrategy,
};
use crate::panels;
use crate::text;
use crate::text_laws;
use crate::widgets;
use crate::widgets::colour;
use crate::widgets::{
    Advice, AdviceView, BranchRow, BranchRowView, BranchesPane, BranchesPaneView, Button,
    ButtonView, ChangeRow, ChangeRowView, ChangesPane, ChangesPaneView, Chip, ChipView, Choice,
    ChoiceView, ConflictDetail, ConflictDetailView, ConflictsPane, ConflictsPaneView, HistoryPane,
    HistoryPaneView, HistoryRow, HistoryRowView, RecoveryPane, RecoveryPaneView, RecoveryRow,
    RecoveryRowView, Rgb, SyncPane, SyncPaneView,
};

verus! {

/// What a pane says while no repository is selected.
pub open spec fn empty_text(tab: WorkTab) -> Seq<char> {
    match tab {
        WorkTab::Changes => "Select a repository to view changes."@,
        WorkTab::History => "Select a repository to view history."@,
        WorkTab::Branches => "Select a repository to manage branches."@,
        WorkTab::Sync => "Select a repository to view sync status."@,
        WorkTab::Conflicts => "Select a repository to resolve conflicts."@,
        WorkTab::Recovery => "Select a repository to access recovery timeline."@,
    }
}

/// What a pane says while no repository is selected.
pub fn text_without_repo(tab: WorkTab) -> (r: &'static str)
    ensures
        r@ == empty_text(tab),
{
    match tab {
        WorkTab::Changes => "Select a repository to view changes.",
        WorkTab::History => "Select a repository to view history.",
        WorkTab::Branches => "Select a repository to manage branches.",
        WorkTab::Sync => "Select a repository to view sync status.",
        WorkTab::Conflicts => "Select a repository to resolve conflicts.",
        WorkTab::Recovery => "Select a repository to access recovery timeline.",
    }
}

/// A chip with white text.
pub open spec fn bright_chip(label: Seq<char>, fill: Rgb) -> ChipView {
    ChipView { label, fill, ink: widgets::rgb(255, 255, 255) }
}

/// A chip with white text.
pub fn status_chip(label: String, fill: Rgb) -> (r: Chip)
    ensures
        r.deep_view() == bright_chip(label@, fill),
{
    Chip { label, fill, ink: colour(255, 255, 255) }
}

/// A chip with a number in it.
pub open spec fn number_chip(label: Seq<char>, number: usize, fill: Rgb) -> ChipView {
    bright_chip(label + text::decimal(number as nat), fill)
}

fn make_number_chip(label: &str, number: usize, fill: Rgb) -> (r: Chip)
    ensures
        r.deep_view() == number_chip(label@, number, fill),
{
    let shown = text::decimal_text(number);
    status_chip(text::join2(label, shown.as_str()), fill)
}

/// A button.
pub open spec fn button_of(label: Seq<char>, click: ClickView) -> ButtonView {
    ButtonView { label, click }
}

fn make_button(label: &str, click: Click) -> (r: Button)
    ensures
        r.deep_view() == button_of(label@, click.deep_view()),
{
    Button { label: label.to_owned(), click }
}

/// The items of a list, if they are to be there.
pub open spec fn shown_if<A>(shown: bool, item: A) -> Seq<A> {
    if shown {
        seq![item]
    } else {
        Seq::empty()
    }
}

// The pane of changes.

/// The counts of a summary.
pub open spec fn count_chips(summary: RepoSummaryView) -> Seq<ChipView> {
    seq![
        number_chip("Staged "@, summary.staged_count, widgets::rgb(52, 168, 83)),
        number_chip("Unstaged "@, summary.unstaged_count, widgets::rgb(251, 140, 0)),
        number_chip("Untracked "@, summary.untracked_count, widgets::rgb(117, 117, 117)),
        number_chip("Conflicts "@, summary.conflict_count, widgets::rgb(234, 67, 53)),
    ]
}

/// What is offered to do next, given a summary.
pub open spec fn quick_buttons(summary: RepoSummaryView) -> Seq<ButtonView> {
    shown_if(
        summary.conflict_count > 0,
        button_of("Open Conflict Studio"@, ClickView::OpenTab { tab: WorkTab::Conflicts }),
    ) + shown_if(
        summary.behind > 0,
        button_of("Open Sync"@, ClickView::OpenTab { tab: WorkTab::Sync }),
    ) + shown_if(summary.staged_count > 0, button_of("Commit Now"@, ClickView::Commit)) + seq![
        button_of("Stage All"@, ClickView::StageAll),
        button_of("Unstage All"@, ClickView::UnstageAll),
    ]
}

/// The buttons under the commit message.
pub open spec fn message_buttons() -> Seq<ButtonView> {
    seq![
        button_of("Template: feat"@, ClickView::StartMessage { start: "feat: "@ }),
        button_of("Template: fix"@, ClickView::StartMessage { start: "fix: "@ }),
        button_of("Template: chore"@, ClickView::StartMessage { start: "chore: "@ }),
        button_of("Create Commit"@, ClickView::Commit),
    ]
}

/// A change in the list: it can be staged while it is not, unstaged while it is,
/// and resolved while it is in conflict.
pub open spec fn change_row(change: FileChangeView, index: usize, selected: bool) -> ChangeRowView {
    ChangeRowView {
        choice: ChoiceView {
            label: change.path + " ("@ + change.kind + ")"@,
            selected,
            click: ClickView::SelectChange { index },
        },
        buttons: shown_if(
            change.unstaged,
            button_of("Stage"@, ClickView::StagePath { path: change.path }),
        ) + shown_if(
            change.staged,
            button_of("Unstage"@, ClickView::UnstagePath { path: change.path }),
        ) + shown_if(
            change.kind == "conflicted"@,
            button_of("Resolve"@, ClickView::ResolveChange { path: change.path }),
        ),
        chips: shown_if(change.staged, bright_chip("staged"@, widgets::rgb(52, 168, 83)))
            + shown_if(change.unstaged, bright_chip("unstaged"@, widgets::rgb(251, 140, 0))),
    }
}

/// Whether a change is shown, given the lower-case forms of its path and of the
/// filter.
pub open spec fn passes(lower_path: Seq<char>, filter: Seq<char>) -> bool {
    filter.len() == 0 || text::has_part(lower_path, filter)
}

/// A change is shown exactly when its path is something, then the filter, then
/// something.
pub proof fn law_filter_is_any_part(lower_path: Seq<char>, filter: Seq<char>)
    ensures
        passes(lower_path, filter) <==> exists|before: Seq<char>, after: Seq<char>|
            lower_path == #[trigger] (before + filter + after),
{
    text_laws::law_part_is_in_the_middle(lower_path, filter);
    if filter.len() == 0 {
        assert(lower_path =~= lower_path + filter + Seq::<char>::empty());
    }
}

/// Tells whether a change is shown, given the lower-case forms of its path and
/// of the filter.
pub fn passes_filter(lower_path: &str, filter: &str) -> (r: bool)
    ensures
        r == passes(lower_path@, filter@),
        r <==> exists|before: Seq<char>, after: Seq<char>|
            lower_path@ == #[trigger] (before + filter@ + after),
{
    proof {
        law_filter_is_any_part(lower_path@, filter@);
    }
    filter.is_empty() || text::contains(lower_path, filter)
}

/// The rows of the changes that are shown, given the lower-case forms of their
/// paths and of the filter. Each row keeps the position of its change.
pub open spec fn shown_changes(
    changes: Seq<FileChangeView>,
    lower_paths: Seq<Seq<char>>,
    filter: Seq<char>,
    selection: Option<usize>,
) -> Seq<ChangeRowView>
    decreases changes.len(),
{
    if changes.len() == 0 {
        Seq::empty()
    } else {
        let i = changes.len() - 1;
        shown_changes(changes.drop_last(), lower_paths, filter, selection) + shown_if(
            passes(lower_paths[i], filter),
            change_row(changes[i], i as usize, selection == Some(i as usize)),
        )
    }
}

/// The lower-case forms of the paths of changes.
pub open spec fn lower_paths(changes: Seq<FileChangeView>) -> Seq<Seq<char>> {
    changes.map_values(|c: FileChangeView| text::lower_case(c.path))
}

/// The pane of changes.
pub open spec fn changes_pane(s: AppView, snapshot: RepoSnapshotView) -> ChangesPaneView {
    ChangesPaneView {
        next_step: snapshot.summary.next_step,
        chips: count_chips(snapshot.summary),
        buttons: quick_buttons(snapshot.summary),
        templates: message_buttons(),
        note: if snapshot.changes.len() == 0 {
            Some("Working tree is clean."@)
        } else {
            None
        },
        rows: shown_changes(
            snapshot.changes,
            lower_paths(snapshot.changes),
            text::lower_case(text::trimmed(s.changes_filter)),
            s.selected_change,
        ),
    }
}

fn make_count_chips(summary: &RepoSummary) -> (r: Vec<Chip>)
    ensures
        r.deep_view() == count_chips(summary.deep_view()),
{
    let r = vec![
        make_number_chip("Staged ", summary.staged_count, colour(52, 168, 83)),
        make_number_chip("Unstaged ", summary.unstaged_count, colour(251, 140, 0)),
        make_number_chip("Untracked ", summary.untracked_count, colour(117, 117, 117)),
        make_number_chip("Conflicts ", summary.conflict_count, colour(234, 67, 53)),
    ];
    assert(r.deep_view() =~= count_chips(summary.deep_view()));
    r
}

fn make_quick_buttons(summary: &RepoSummary) -> (r: Vec<Button>)
    ensures
        r.deep_view() == quick_buttons(summary.deep_view()),
{
    let mut r: Vec<Button> = Vec::new();
    if summary.conflict_count > 0 {
        r.push(make_button("Open Conflict Studio", Click::OpenTab { tab: WorkTab::Conflicts }));
    }
    if summary.behind > 0 {
        r.push(make_button("Open Sync", Click::OpenTab { tab: WorkTab::Sync }));
    }
    if summary.staged_count > 0 {
        r.push(make_button("Commit Now", Click::Commit));
    }
    r.push(make_button("Stage All", Click::StageAll));
    r.push(make_button("Unstage All", Click::UnstageAll));
    assert(r.deep_view() =~= quick_buttons(summary.deep_view()));
    r
}

fn make_message_buttons() -> (r: Vec<Button>)
    ensures
        r.deep_view() == message_buttons(),
{
    let r = vec![
        make_button("Template: feat", Click::StartMessage { start: "feat: ".to_owned() }),
        make_button("Template: fix", Click::StartMessage { start: "fix: ".to_owned() }),
        make_button("Template: chore", Click::StartMessage { start: "chore: ".to_owned() }),
        make_button("Create Commit", Click::Commit),
    ];
    assert(r.deep_view() =~= message_buttons());
    r
}

fn make_change_row(change: &FileChange, index: usize, selected: bool) -> (r: ChangeRow)
    ensures
        r.deep_view() == change_row(change.deep_view(), index, selected),
{
    let mut buttons: Vec<Button> = Vec::new();
    let mut chips: Vec<Chip> = Vec::new();
    if change.unstaged {
        buttons.push(make_button("Stage", Click::StagePath { path: change.path.clone() }));
    }
    if change.staged {
        buttons.push(make_button("Unstage", Click::UnstagePath { path: change.path.clone() }));
        chips.push(status_chip("staged".to_owned(), colour(52, 168, 83)));
    }
    if text::same_text(change.kind.as_str(), "conflicted") {
        buttons.push(make_button("Resolve", Click::ResolveChange { path: change.path.clone() }));
    }
    if change.unstaged {
        chips.push(status_chip("unstaged".to_owned(), colour(251, 140, 0)));
    }
    let ghost made = change_row(change.deep_view(), index, selected);
    assert(buttons.deep_view() =~= made.buttons);
    assert(chips.deep_view() =~= made.chips);
    let label = text::join4(change.path.as_str(), " (", change.kind.as_str(), ")");
    ChangeRow {
        choice: Choice { label, selected, click: Click::SelectChange { index } },
        buttons,
        chips,
    }
}

/// The rows of the changes that are shown, given the lower-case forms of their
/// paths and of the filter.
pub fn rows_for_changes(
    changes: &Vec<FileChange>,
    lower_paths: &Vec<String>,
    filter: &str,
    selection: Option<usize>,
) -> (r: Vec<ChangeRow>)
    requires
        changes@.len() == lower_paths@.len(),
    ensures
        r.deep_view() == shown_changes(
            changes.deep_view(),
            lower_paths.deep_view(),
            filter@,
            selection,
        ),
{
    let ghost all = changes.deep_view();
    let ghost lower = lower_paths.deep_view();
    let mut r: Vec<ChangeRow> = Vec::new();
    let mut i: usize = 0;
    assert(r.deep_view() =~= shown_changes(all.take(0), lower, filter@, selection));
    while i < changes.len()
        invariant
            i <= changes@.len(),
            changes@.len() == lower_paths@.len(),
            all == changes.deep_view(),
            lower == lower_paths.deep_view(),
            r.deep_view() == shown_changes(all.take(i as int), lower, filter@, selection),
        decreases changes@.len() - i,
    {
        let ghost before = r.deep_view();
        assert(all.take(i + 1).drop_last() =~= all.take(i as int));
        assert(all[i as int] == changes@[i as int].deep_view());
        assert(lower[i as int] == lower_paths@[i as int]@);
        if passes_filter(lower_paths[i].as_str(), filter) {
            let row = make_change_row(&changes[i], i, panels::is_selected(selection, i));
            r.push(row);
            assert(r.deep_view() =~= before + seq![row.deep_view()]);
        } else {
            assert(before + Seq::<ChangeRowView>::empty() =~= before);
        }
        i += 1;
    }
    assert(all.take(i as int) =~= all);
    r
}

fn lower_change_paths(changes: &Vec<FileChange>) -> (r: Vec<String>)
    ensures
        r.deep_view() == lower_paths(changes.deep_view()),
{
    let ghost made = lower_paths(changes.deep_view());
    let mut r: Vec<String> = Vec::new();
    let mut i: usize = 0;
    while i < changes.len()
        invariant
            i <= changes@.len(),
            r@.len() == i,
            made == lower_paths(changes.deep_view()),
            forall|k: int| 0 <= k < i ==> #[trigger] r@[k]@ == made[k],
        decreases changes@.len() - i,
    {
        assert(changes.deep_view()[i as int] == changes@[i as int].deep_view());
        r.push(changes[i].path.as_str().to_lowercase());
        i += 1;
    }
    assert(r.deep_view() =~= made);
    r
}

// The pane of history.

/// The chips of a commit: at most four of its labels, and whether it is a merge.
pub open spec fn commit_chips(commit: CommitEntryView) -> Seq<ChipView> {
    let labels = if commit.branch_labels.len() <= 4 {
        commit.branch_labels
    } else {
        commit.branch_labels.take(4)
    };
    labels.map_values(
        |label: Seq<char>|
            ChipView {
                label,
                fill: widgets::rgb(233, 239, 246),
                ink: widgets::rgb(47, 87, 135),
            },
    ) + shown_if(
        commit.parents.len() > 1,
        ChipView {
            label: "merge"@,
            fill: widgets::rgb(246, 234, 214),
            ink: widgets::rgb(131, 92, 33),
        },
    )
}

/// A commit in the history. The first one is the head.
pub open spec fn history_row(
    commit: CommitEntryView,
    row: CommitGraphRow,
    index: usize,
    selected: bool,
) -> HistoryRowView {
    HistoryRowView {
        id: commit.id,
        is_head: index == 0,
        badge: if index == 0 {
            Some(bright_chip("HEAD"@, widgets::rgb(0, 122, 255)))
        } else {
            None
        },
        chips: commit_chips(commit),
        summary: commit.summary,
        summary_ink: if selected {
            widgets::rgb(0, 60, 120)
        } else {
            widgets::rgb(40, 40, 45)
        },
        caption: graph::action_label(commit.summary) + " • "@ + commit.author + " • "@
            + commit.timestamp,
        fill: if selected {
            Some(widgets::rgb(230, 242, 255))
        } else {
            None
        },
        border: if selected {
            widgets::rgb(150, 196, 252)
        } else {
            widgets::rgb(230, 230, 232)
        },
        lanes: Seq::new(row.lane_count as nat, |lane: int| graph::lane_colours()[lane % 8]),
        lane: row.lane,
        node: if selected || index == 0 {
            widgets::rgb(0, 122, 255)
        } else {
            graph::lane_colours()[row.lane as int % 8]
        },
        merge_lane: graph::merge_lane(row),
        click: ClickView::SelectCommit { index },
    }
}

/// The pane of history.
pub open spec fn history_pane(s: AppView, snapshot: RepoSnapshotView) -> HistoryPaneView {
    HistoryPaneView {
        note: if snapshot.commits.len() == 0 {
            Some("No commits found."@)
        } else {
            None
        },
        rows: Seq::new(
            snapshot.commits.len(),
            |i: int|
                history_row(
                    snapshot.commits[i],
                    graph::graph_rows(snapshot.commits)[i],
                    i as usize,
                    s.selected_commit == Some(i as usize),
                ),
        ),
    }
}

fn make_commit_chips(commit: &CommitEntry) -> (r: Vec<Chip>)
    ensures
        r.deep_view() == commit_chips(commit.deep_view()),
{
    let ghost made = commit_chips(commit.deep_view());
    let fill = colour(233, 239, 246);
    let ink = colour(47, 87, 135);
    let mut r: Vec<Chip> = Vec::new();
    let mut i: usize = 0;
    while i < commit.branch_labels.len() && i < 4
        invariant
            i <= commit.branch_labels@.len(),
            i <= 4,
            r@.len() == i,
            made == commit_chips(commit.deep_view()),
            fill == widgets::rgb(233, 239, 246),
            ink == widgets::rgb(47, 87, 135),
            forall|k: int| 0 <= k < i ==> #[trigger] r@[k].deep_view() == made[k],
        decreases commit.branch_labels@.len() - i,
    {
        assert(commit.deep_view().branch_labels[i as int] == commit.branch_labels@[i as int]@);
        r.push(Chip { label: commit.branch_labels[i].clone(), fill, ink });
        i += 1;
    }
    if commit.parents.len() > 1 {
        r.push(
            Chip {
                label: "merge".to_owned(),
                fill: colour(246, 234, 214),
                ink: colour(131, 92, 33),
            },
        );
    }
    assert(r.deep_view() =~= made);
    r
}

fn make_lanes(count: usize) -> (r: Vec<Rgb>)
    ensures
        r.deep_view() == Seq::new(count as nat, |lane: int| graph::lane_colours()[lane % 8]),
{
    let mut r: Vec<Rgb> = Vec::new();
    let mut lane: usize = 0;
    while lane < count
        invariant
            lane <= count,
            r@.len() == lane,
            forall|k: int| 0 <= k < lane ==> #[trigger] r@[k] == graph::lane_colours()[k % 8],
        decreases count - lane,
    {
        r.push(graph_lane_color(lane));
        lane += 1;
    }
    assert(r.deep_view() =~= Seq::new(
        count as nat,
        |lane: int| graph::lane_colours()[lane % 8],
    ));
    r
}

fn make_history_row(
    commit: &CommitEntry,
    row: &CommitGraphRow,
    index: usize,
    selected: bool,
) -> (r: HistoryRow)
    ensures
        r.deep_view() == history_row(commit.deep_view(), *row, index, selected),
{
    let mut caption = text::join3(
        commit_action_label(commit.summary.as_str()),
        " • ",
        commit.author.as_str(),
    );
    caption.append(" • ");
    caption.append(commit.timestamp.as_str());
    HistoryRow {
        id: commit.id.clone(),
        is_head: index == 0,
        badge: if index == 0 {
            Some(status_chip("HEAD".to_owned(), colour(0, 122, 255)))
        } else {
            None
        },
        chips: make_commit_chips(commit),
        summary: commit.summary.clone(),
        summary_ink: if selected {
            colour(0, 60, 120)
        } else {
            colour(40, 40, 45)
        },
        caption,
        fill: if selected {
            Some(colour(230, 242, 255))
        } else {
            None
        },
        border: if selected {
            colour(150, 196, 252)
        } else {
            colour(230, 230, 232)
        },
        lanes: make_lanes(row.lane_count),
        lane: row.lane,
        node: if selected || index == 0 {
            colour(0, 122, 255)
        } else {
            graph_lane_color(row.lane)
        },
        merge_lane: merge_target_lane(row),
        click: Click::SelectCommit { index },
    }
}

// The pane of branches.

/// A branch in the list. One that is not checked out can be.
pub open spec fn branch_row(
    branch: BranchEntryView,
    index: usize,
    selected: bool,
) -> BranchRowView {
    BranchRowView {
        choice: ChoiceView {
            label: if branch.is_head {
                branch.name + "  (current)"@
            } else {
                branch.name
            },
            selected,
            click: ClickView::SelectBranch { index },
        },
        checkout: if branch.is_head {
            None
        } else {
            Some(button_of("Checkout"@, ClickView::CheckoutBranch { name: branch.name }))
        },
        upstream: match branch.upstream {
            Some(upstream) => Some("Upstream: "@ + upstream),
            None => None,
        },
    }
}

/// The pane of branches.
pub open spec fn branches_pane(s: AppView, snapshot: RepoSnapshotView) -> BranchesPaneView {
    BranchesPaneView {
        create: button_of("Create + Checkout"@, ClickView::CreateBranch),
        note: if snapshot.branches.len() == 0 {
            Some("No local branches found."@)
        } else {
            None
        },
        rows: Seq::new(
            snapshot.branches.len(),
            |i: int|
                branch_row(
                    snapshot.branches[i],
                    i as usize,
                    s.selected_branch == Some(i as usize),
                ),
        ),
    }
}

fn make_branch_row(branch: &BranchEntry, index: usize, selected: bool) -> (r: BranchRow)
    ensures
        r.deep_view() == branch_row(branch.deep_view(), index, selected),
{
    let label = if branch.is_head {
        text::join2(branch.name.as_str(), "  (current)")
    } else {
        branch.name.clone()
    };
    BranchRow {
        choice: Choice { label, selected, click: Click::SelectBranch { index } },
        checkout: if branch.is_head {
            None
        } else {
            Some(make_button("Checkout", Click::CheckoutBranch { name: branch.name.clone() }))
        },
        upstream: match &branch.upstream {
            Some(upstream) => Some(text::join2("Upstream: ", upstream.as_str())),
            None => None,
        },
    }
}

// The pane of syncing.

/// What is recommended, given how far the branch is from its upstream.
pub open spec fn sync_advice(summary: RepoSummaryView) -> Seq<AdviceView> {
    shown_if(
        summary.behind > 0,
        AdviceView {
            message: "Recommended: pull with rebase before additional commits."@,
            button: Some(button_of("Copy `git pull --rebase` command"@, ClickView::CopyPull)),
        },
    ) + shown_if(
        summary.ahead > 0,
        AdviceView {
            message: "Recommended: push branch to publish local commits."@,
            button: Some(button_of("Copy `git push` command"@, ClickView::CopyPush)),
        },
    ) + shown_if(
        summary.ahead == 0 && summary.behind == 0,
        AdviceView { message: "Branch is in sync with upstream."@, button: None },
    )
}

/// The pane of syncing.
pub open spec fn sync_pane(s: AppView, snapshot: RepoSnapshotView) -> SyncPaneView {
    SyncPaneView {
        chips: seq![
            number_chip("↑ Ahead "@, snapshot.summary.ahead, widgets::rgb(66, 133, 244)),
            number_chip("↓ Behind "@, snapshot.summary.behind, widgets::rgb(251, 140, 0)),
            bright_chip("⑂ "@ + snapshot.summary.current_branch, widgets::rgb(100, 100, 100)),
        ],
        buttons: seq![
            button_of("Fetch"@, ClickView::Fetch),
            button_of("Pull --rebase"@, ClickView::PullRebase),
            button_of("Push"@, ClickView::Push),
        ],
        advice: sync_advice(snapshot.summary),
        output: if s.sync_output.len() == 0 {
            None
        } else {
            Some(s.sync_output)
        },
        silence: if s.sync_output.len() == 0 {
            Some("No sync command has been run yet."@)
        } else {
            None
        },
    }
}

fn make_sync_advice(summary: &RepoSummary) -> (r: Vec<Advice>)
    ensures
        r.deep_view() == sync_advice(summary.deep_view()),
{
    let mut r: Vec<Advice> = Vec::new();
    if summary.behind > 0 {
        r.push(
            Advice {
                message: "Recommended: pull with rebase before additional commits.".to_owned(),
                button: Some(make_button("Copy `git pull --rebase` command", Click::CopyPull)),
            },
        );
    }
    if summary.ahead > 0 {
        r.push(
            Advice {
                message: "Recommended: push branch to publish local commits.".to_owned(),
                button: Some(make_button("Copy `git push` command", Click::CopyPush)),
            },
        );
    }
    if summary.ahead == 0 && summary.behind == 0 {
        r.push(Advice { message: "Branch is in sync with upstream.".to_owned(), button: None });
    }
    assert(r.deep_view() =~= sync_advice(summary.deep_view()));
    r
}

// The pane of conflicts.

/// How a strategy is labelled.
pub open spec fn strategy_title(strategy: ResolutionStrategy) -> Seq<char> {
    match strategy {
        ResolutionStrategy::SmartBlend => "Smart Blend"@,
        ResolutionStrategy::KeepOurs => "Keep Ours"@,
        ResolutionStrategy::KeepTheirs => "Keep Theirs"@,
    }
}

/// A provider to choose.
pub open spec fn provider_choice(s: AppView, provider: AiProvider) -> ChoiceView {
    ChoiceView {
        label: actions::provider_title(provider),
        selected: s.ai_provider == provider,
        click: ClickView::SetProvider { provider },
    }
}

/// A strategy to choose.
pub open spec fn strategy_choice(s: AppView, strategy: ResolutionStrategy) -> ChoiceView {
    ChoiceView {
        label: strategy_title(strategy),
        selected: s.ai_strategy == strategy,
        click: ClickView::SetStrategy { strategy },
    }
}

/// A file in conflict. While the remote agent is to answer, no other suggestion
/// can be asked for; a suggestion at hand can be taken over or restored; and
/// conflict markers that are left are warned about.
pub open spec fn conflict_detail(s: AppView, conflict: ConflictEntryView) -> ConflictDetailView {
    ConflictDetailView {
        path: conflict.path,
        sides: "Current: "@ + conflict.ours_label + "  •  Incoming: "@ + conflict.theirs_label,
        content: conflict.content,
        suggestion: s.ai_suggestion,
        ask: button_of("Generate AI Suggestion"@, ClickView::Suggest),
        can_ask: !s.ai_request_in_flight,
        running: if s.ai_request_in_flight {
            Some("Request in progress..."@)
        } else {
            None
        },
        buttons: if s.ai_suggestion is Some {
            seq![
                button_of("Apply Suggestion and Stage"@, ClickView::ApplySuggestion),
                button_of("Reset Edited Text to Suggestion"@, ClickView::RestoreSuggestion),
            ]
        } else {
            Seq::empty()
        },
        warning: if app::has_conflict_markers(s.ai_edited_text) {
            Some("⚠ Text still contains conflict markers"@)
        } else {
            None
        },
    }
}

/// The pane of conflicts.
pub open spec fn conflicts_pane(s: AppView, snapshot: RepoSnapshotView) -> ConflictsPaneView {
    ConflictsPaneView {
        providers: seq![
            provider_choice(s, AiProvider::LocalHeuristic),
            provider_choice(s, AiProvider::OpenAi),
        ],
        strategies: seq![
            strategy_choice(s, ResolutionStrategy::SmartBlend),
            strategy_choice(s, ResolutionStrategy::KeepOurs),
            strategy_choice(s, ResolutionStrategy::KeepTheirs),
        ],
        shows_settings: s.ai_provider == AiProvider::OpenAi,
        note: if snapshot.conflicts.len() == 0 {
            Some("No merge conflicts detected."@)
        } else {
            None
        },
        files: Seq::new(
            snapshot.conflicts.len(),
            |i: int|
                ChoiceView {
                    label: snapshot.conflicts[i].path,
                    selected: s.selected_conflict == Some(i as usize),
                    click: ClickView::SelectConflict { index: i as usize },
                },
        ),
        detail: match s.selected_conflict {
            Some(i) => if i < snapshot.conflicts.len() {
                Some(conflict_detail(s, snapshot.conflicts[i as int]))
            } else {
                None
            },
            None => None,
        },
    }
}

fn make_provider_choice(selected: AiProvider, provider: AiProvider) -> (r: Choice)
    ensures
        r.deep_view() == (ChoiceView {
            label: actions::provider_title(provider),
            selected: selected == provider,
            click: ClickView::SetProvider { provider },
        }),
{
    Choice {
        label: provider.title().to_owned(),
        selected: selected == provider,
        click: Click::SetProvider { provider },
    }
}

fn make_strategy_choice(selected: ResolutionStrategy, strategy: ResolutionStrategy) -> (r: Choice)
    ensures
        r.deep_view() == (ChoiceView {
            label: strategy_title(strategy),
            selected: selected == strategy,
            click: ClickView::SetStrategy { strategy },
        }),
{
    let label = match strategy {
        ResolutionStrategy::SmartBlend => "Smart Blend",
        ResolutionStrategy::KeepOurs => "Keep Ours",
        ResolutionStrategy::KeepTheirs => "Keep Theirs",
    };
    Choice {
        label: label.to_owned(),
        selected: selected == strategy,
        click: Click::SetStrategy { strategy },
    }
}

// The pane of recovery.

/// An entry in the log.
pub open spec fn recovery_row(
    entry: RecoveryEntryView,
    index: usize,
    selected: bool,
) -> RecoveryRowView {
    RecoveryRowView {
        choice: ChoiceView {
            label: entry.to_id_short + "  "@ + entry.message,
            selected,
            click: ClickView::SelectRecovery { index },
        },
        caption: entry.timestamp + "  "@ + entry.from_id_short + " -> "@ + entry.to_id_short,
    }
}

/// The buttons for the selected entry: a reset is armed first, and only then
/// confirmed or canceled.
pub open spec fn recovery_buttons(s: AppView) -> Seq<ButtonView> {
    if clicks::chosen_recovery(s) is None {
        Seq::empty()
    } else if clicks::reset_armed(s) {
        seq![
            button_of("Confirm Reset"@, ClickView::ConfirmReset),
            button_of("Cancel"@, ClickView::CancelReset),
        ]
    } else {
        seq![button_of("Arm Reset"@, ClickView::ArmReset)]
    }
}

/// The pane of recovery.
pub open spec fn recovery_pane(s: AppView, snapshot: RepoSnapshotView) -> RecoveryPaneView {
    if snapshot.recovery.len() == 0 {
        RecoveryPaneView {
            note: Some("No reflog entries available yet."@),
            rows: Seq::empty(),
            chosen: None,
            buttons: Seq::empty(),
        }
    } else {
        RecoveryPaneView {
            note: if s.selected_recovery is None {
                Some("Select an entry to arm a recovery reset."@)
            } else {
                None
            },
            rows: Seq::new(
                snapshot.recovery.len(),
                |i: int|
                    recovery_row(
                        snapshot.recovery[i],
                        i as usize,
                        s.selected_recovery == Some(i as usize),
                    ),
            ),
            chosen: match clicks::chosen_recovery(s) {
                Some(entry) => Some("Selected: "@ + entry.message),
                None => None,
            },
            buttons: recovery_buttons(s),
        }
    }
}

fn make_recovery_row(entry: &RecoveryEntry, index: usize, selected: bool) -> (r: RecoveryRow)
    ensures
        r.deep_view() == recovery_row(entry.deep_view(), index, selected),
{
    let mut caption = text::join4(
        entry.timestamp.as_str(),
        "  ",
        entry.from_id_short.as_str(),
        " -> ",
    );
    caption.append(entry.to_id_short.as_str());
    RecoveryRow {
        choice: Choice {
            label: text::join3(entry.to_id_short.as_str(), "  ", entry.message.as_str()),
            selected,
            click: Click::SelectRecovery { index },
        },
        caption,
    }
}

impl GitControlApp {
    /// The pane of changes.
    pub fn render_changes_tab(&self) -> (r: Option<ChangesPane>)
        ensures
            r.deep_view() == (match self@.snapshot {
                Some(snapshot) => Some(changes_pane(self@, snapshot)),
                None => None,
            }),
    {
        match &self.snapshot {
            Some(snapshot) => {
                let filter = text::trim(self.changes_filter.as_str()).as_str().to_lowercase();
                let lower = lower_change_paths(&snapshot.changes);
                assert(lower@.len() == lower.deep_view().len());
                let rows = rows_for_changes(
                    &snapshot.changes,
                    &lower,
                    filter.as_str(),
                    self.selected_change,
                );
                Some(
                    ChangesPane {
                        next_step: snapshot.summary.next_step.clone(),
                        chips: make_count_chips(&snapshot.summary),
                        buttons: make_quick_buttons(&snapshot.summary),
                        templates: make_message_buttons(),
                        note: if snapshot.changes.len() == 0 {
                            Some("Working tree is clean.".to_owned())
                        } else {
                            None
                        },
                        rows,
                    },
                )
            },
            None => None,
        }
    }

    /// The pane of history.
    pub fn render_history_tab(&self) -> (r: Option<HistoryPane>)
        ensures
            r.deep_view() == (match self@.snapshot {
                Some(snapshot) => Some(history_pane(self@, snapshot)),
                None => None,
            }),
            r matches Some(pane) ==> forall|i: int|
                0 <= i < pane.rows@.len() ==> (#[trigger] pane.rows@[i]).lane
                    < pane.rows@[i].lanes@.len(),
    {
        match &self.snapshot {
            Some(snapshot) => {
                let ghost view = snapshot.deep_view();
                let ghost made = history_pane(self@, view).rows;
                let graph_rows = build_commit_graph_rows(&snapshot.commits);
                let mut rows: Vec<HistoryRow> = Vec::new();
                let mut i: usize = 0;
                while i < snapshot.commits.len()
                    invariant
                        i <= snapshot.commits@.len(),
                        view == snapshot.deep_view(),
                        made == history_pane(self@, view).rows,
                        graph_rows.deep_view() == graph::graph_rows(view.commits),
                        rows@.len() == i,
                        forall|k: int| 0 <= k < i ==> #[trigger] rows@[k].deep_view() == made[k],
                        forall|k: int|
                            0 <= k < graph_rows@.len() ==> (#[trigger] graph_rows@[k]).lane
                                < graph_rows@[k].lane_count,
                        forall|k: int|
                            0 <= k < i ==> (#[trigger] rows@[k]).lane < rows@[k].lanes@.len(),
                    decreases snapshot.commits@.len() - i,
                {
                    assert(view.commits[i as int] == snapshot.commits@[i as int].deep_view());
                    assert(graph_rows.deep_view().len() == view.commits.len());
                    assert(graph_rows.deep_view()[i as int] == graph_rows@[i as int]);
                    let row = make_history_row(
                        &snapshot.commits[i],
                        &graph_rows[i],
                        i,
                        panels::is_selected(self.selected_commit, i),
                    );
                    assert(row.lanes@.len() == row.deep_view().lanes.len());
                    assert(row.lane == row.deep_view().lane);
                    rows.push(row);
                    i += 1;
                }
                assert(rows.deep_view() =~= made);
                Some(
                    HistoryPane {
                        note: if snapshot.commits.len() == 0 {
                            Some("No commits found.".to_owned())
                        } else {
                            None
                        },
                        rows,
                    },
                )
            },
            None => None,
        }
    }

    /// The pane of branches.
    pub fn render_branches_tab(&self) -> (r: Option<BranchesPane>)
        ensures
            r.deep_view() == (match self@.snapshot {
                Some(snapshot) => Some(branches_pane(self@, snapshot)),
                None => None,
            }),
    {
        match &self.snapshot {
            Some(snapshot) => {
                let ghost view = snapshot.deep_view();
                let ghost made = branches_pane(self@, view).rows;
                let mut rows: Vec<BranchRow> = Vec::new();
                let mut i: usize = 0;
                while i < snapshot.branches.len()
                    invariant
                        i <= snapshot.branches@.len(),
                        view == snapshot.deep_view(),
                        made == branches_pane(self@, view).rows,
                        rows@.len() == i,
                        forall|k: int| 0 <= k < i ==> #[trigger] rows@[k].deep_view() == made[k],
                    decreases snapshot.branches@.len() - i,
                {
                    assert(view.branches[i as int] == snapshot.branches@[i as int].deep_view());
                    rows.push(
                        make_branch_row(
                            &snapshot.branches[i],
                            i,
                            panels::is_selected(self.selected_branch, i),
                        ),
                    );
                    i += 1;
                }
                assert(rows.deep_view() =~= made);
                Some(
                    BranchesPane {
                        create: make_button("Create + Checkout", Click::CreateBranch),
                        note: if snapshot.branches.len() == 0 {
                            Some("No local branches found.".to_owned())
                        } else {
                            None
                        },
                        rows,
                    },
                )
            },
            None => None,
        }
    }

    /// The pane of syncing.
    pub fn render_sync_tab(&self) -> (r: Option<SyncPane>)
        ensures
            r.deep_view() == (match self@.snapshot {
                Some(snapshot) => Some(sync_pane(self@, snapshot)),
                None => None,
            }),
    {
        match &self.snapshot {
            Some(snapshot) => {
                let ghost made = sync_pane(self@, snapshot.deep_view());
                let branch = text::join2("⑂ ", snapshot.summary.current_branch.as_str());
                let chips = vec![
                    make_number_chip("↑ Ahead ", snapshot.summary.ahead, colour(66, 133, 244)),
                    make_number_chip("↓ Behind ", snapshot.summary.behind, colour(251, 140, 0)),
                    status_chip(branch, colour(100, 100, 100)),
                ];
                let buttons = vec![
                    make_button("Fetch", Click::Fetch),
                    make_button("Pull --rebase", Click::PullRebase),
                    make_button("Push", Click::Push),
                ];
                assert(chips.deep_view() =~= made.chips);
                assert(buttons.deep_view() =~= made.buttons);
                let (output, silence) = if self.sync_output.as_str().is_empty() {
                    (None, Some("No sync command has been run yet.".to_owned()))
                } else {
                    (Some(self.sync_output.clone()), None)
                };
                Some(
                    SyncPane {
                        chips,
                        buttons,
                        advice: make_sync_advice(&snapshot.summary),
                        output,
                        silence,
                    },
                )
            },
            None => None,
        }
    }

    /// A file in conflict.
    pub fn conflict_detail_ui(&self, conflict: &ConflictEntry) -> (r: ConflictDetail)
        ensures
            r.deep_view() == conflict_detail(self@, conflict.deep_view()),
    {
        let mut buttons: Vec<Button> = Vec::new();
        if self.ai_suggestion.is_some() {
            buttons.push(make_button("Apply Suggestion and Stage", Click::ApplySuggestion));
            buttons.push(make_button("Reset Edited Text to Suggestion", Click::RestoreSuggestion));
        }
        assert(buttons.deep_view() =~= conflict_detail(self@, conflict.deep_view()).buttons);
        let suggestion = self.ai_suggestion.clone();
        assert(suggestion.deep_view() == self@.ai_suggestion);
        ConflictDetail {
            path: conflict.path.clone(),
            sides: text::join4(
                "Current: ",
                conflict.ours_label.as_str(),
                "  •  Incoming: ",
                conflict.theirs_label.as_str(),
            ),
            content: conflict.content.clone(),
            suggestion,
            ask: make_button("Generate AI Suggestion", Click::Suggest),
            can_ask: !self.ai_request_in_flight,
            running: if self.ai_request_in_flight {
                Some("Request in progress...".to_owned())
            } else {
                None
            },
            buttons,
            warning: if contains_conflict_markers(self.ai_edited_text.as_str()) {
                Some("⚠ Text still contains conflict markers".to_owned())
            } else {
                None
            },
        }
    }

    fn conflict_choices(&self, conflicts: &Vec<ConflictEntry>) -> (r: Vec<Choice>)
        ensures
            r.deep_view() == Seq::new(
                conflicts.deep_view().len(),
                |i: int|
                    ChoiceView {
                        label: conflicts.deep_view()[i].path,
                        selected: self@.selected_conflict == Some(i as usize),
                        click: ClickView::SelectConflict { index: i as usize },
                    },
            ),
    {
        let ghost view = conflicts.deep_view();
        let ghost made = Seq::new(
            view.len(),
            |i: int|
                ChoiceView {
                    label: view[i].path,
                    selected: self@.selected_conflict == Some(i as usize),
                    click: ClickView::SelectConflict { index: i as usize },
                },
        );
        let mut r: Vec<Choice> = Vec::new();
        let mut i: usize = 0;
        while i < conflicts.len()
            invariant
                i <= conflicts@.len(),
                view == conflicts.deep_view(),
                r@.len() == i,
                made == Seq::new(
                    view.len(),
                    |i: int|
                        ChoiceView {
                            label: view[i].path,
                            selected: self@.selected_conflict == Some(i as usize),
                            click: ClickView::SelectConflict { index: i as usize },
                        },
                ),
                forall|k: int| 0 <= k < i ==> #[trigger] r@[k].deep_view() == made[k],
            decreases conflicts@.len() - i,
        {
            assert(view[i as int] == conflicts@[i as int].deep_view());
            r.push(
                Choice {
                    label: conflicts[i].path.clone(),
                    selected: panels::is_selected(self.selected_conflict, i),
                    click: Click::SelectConflict { index: i },
                },
            );
            i += 1;
        }
        assert(r.deep_view() =~= made);
        r
    }

    /// The pane of conflicts.
    pub fn render_conflicts_tab(&self) -> (r: Option<ConflictsPane>)
        ensures
            r.deep_view() == (match self@.snapshot {
                Some(snapshot) => Some(conflicts_pane(self@, snapshot)),
                None => None,
            }),
    {
        match &self.snapshot {
            Some(snapshot) => {
                let ghost made = conflicts_pane(self@, snapshot.deep_view());
                let providers = vec![
                    make_provider_choice(self.ai_provider, AiProvider::LocalHeuristic),
                    make_provider_choice(self.ai_provider, AiProvider::OpenAi),
                ];
                let strategies = vec![
                    make_strategy_choice(self.ai_strategy, ResolutionStrategy::SmartBlend),
                    make_strategy_choice(self.ai_strategy, ResolutionStrategy::KeepOurs),
                    make_strategy_choice(self.ai_strategy, ResolutionStrategy::KeepTheirs),
                ];
                assert(providers.deep_view() =~= made.providers);
                assert(strategies.deep_view() =~= made.strategies);
                let detail = match self.selected_conflict {
                    Some(i) => if i < snapshot.conflicts.len() {
                        assert(snapshot.deep_view().conflicts[i as int]
                            == snapshot.conflicts@[i as int].deep_view());
                        Some(self.conflict_detail_ui(&snapshot.conflicts[i]))
                    } else {
                        None
                    },
                    None => None,
                };
                Some(
                    ConflictsPane {
                        providers,
                        strategies,
                        shows_settings: self.ai_provider == AiProvider::OpenAi,
                        note: if snapshot.conflicts.len() == 0 {
                            Some("No merge conflicts detected.".to_owned())
                        } else {
                            None
                        },
                        files: self.conflict_choices(&snapshot.conflicts),
                        detail,
                    },
                )
            },
            None => None,
        }
    }

    fn make_recovery_buttons(&self) -> (r: Vec<Button>)
        ensures
            r.deep_view() == recovery_buttons(self@),
    {
        let mut r: Vec<Button> = Vec::new();
        if self.armed_reset().is_some() {
            r.push(make_button("Confirm Reset", Click::ConfirmReset));
            r.push(make_button("Cancel", Click::CancelReset));
        } else if self.selected_recovery_entry().is_some() {
            r.push(make_button("Arm Reset", Click::ArmReset));
        }
        assert(r.deep_view() =~= recovery_buttons(self@));
        r
    }

    /// The pane of recovery.
    pub fn render_recovery_tab(&self) -> (r: Option<RecoveryPane>)
        ensures
            r.deep_view() == (match self@.snapshot {
                Some(snapshot) => Some(recovery_pane(self@, snapshot)),
                None => None,
            }),
    {
        let snapshot = match &self.snapshot {
            Some(snapshot) => snapshot,
            None => return None,
        };
        let ghost view = snapshot.deep_view();
        let ghost made = recovery_pane(self@, view).rows;
        let mut rows: Vec<RecoveryRow> = Vec::new();
        if snapshot.recovery.len() == 0 {
            let buttons: Vec<Button> = Vec::new();
            assert(rows.deep_view() =~= made);
            assert(buttons.deep_view() =~= Seq::<ButtonView>::empty());
            return Some(
                RecoveryPane {
                    note: Some("No reflog entries available yet.".to_owned()),
                    rows,
                    chosen: None,
                    buttons,
                },
            );
        }
        let mut i: usize = 0;
        while i < snapshot.recovery.len()
            invariant
                i <= snapshot.recovery@.len(),
                view == snapshot.deep_view(),
                view.recovery.len() > 0,
                made == recovery_pane(self@, view).rows,
                rows@.len() == i,
                forall|k: int| 0 <= k < i ==> #[trigger] rows@[k].deep_view() == made[k],
            decreases snapshot.recovery@.len() - i,
        {
            assert(view.recovery[i as int] == snapshot.recovery@[i as int].deep_view());
            rows.push(
                make_recovery_row(
                    &snapshot.recovery[i],
                    i,
                    panels::is_selected(self.selected_recovery, i),
                ),
            );
            i += 1;
        }
        assert(rows.deep_view() =~= made);
        let chosen = match self.selected_recovery_entry() {
            Some(entry) => Some(text::join2("Selected: ", entry.message.as_str())),
            None => None,
        };
        Some(
            RecoveryPane {
                note: if self.selected_recovery.is_none() {
                    Some("Select an entry to arm a recovery reset.".to_owned())
                } else {
                    None
                },
                rows,
                chosen,
                buttons: self.make_recovery_buttons(),
            },
        )
    }
}

}
