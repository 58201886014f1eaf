//! What the panes of the application show: texts, colours and what can be
//! clicked. How it is laid out on the screen is left to the caller.
use vstd::prelude::*;
use vstd::string::*;

use crate::clicks::{Click, ClickView};
use crate::model::{AiSuggestion, AiSuggestionView};

verus! {

/// A colour.
#[derive(Clone, Copy, PartialEq, Eq, Structural, Debug)]
pub struct Rgb {
    pub r: u8,
    pub g: u8,
    pub b: u8,
}

impl DeepView for Rgb {
    type V = Rgb;

    open spec fn deep_view(&self) -> Rgb {
        *self
    }
}

/// A colour from its three parts.
pub open spec fn rgb(r: u8, g: u8, b: u8) -> Rgb {
    Rgb { r, g, b }
}

/// A colour from its three parts.
pub fn colour(r: u8, g: u8, b: u8) -> (c: Rgb)
    ensures
        c == rgb(r, g, b),
{
    Rgb { r, g, b }
}

/// A short text on a coloured ground.
#[derive(Debug, PartialEq, Eq)]
pub struct Chip {
    pub label: String,
    pub fill: Rgb,
    pub ink: Rgb,
}

/// What a chip stands for.
pub struct ChipView {
    pub label: Seq<char>,
    pub fill: Rgb,
    pub ink: Rgb,
}

impl DeepView for Chip {
    type V = ChipView;

    open spec fn deep_view(&self) -> ChipView {
        ChipView {
            label: self.label@,
            fill: self.fill,
            ink: self.ink,
        }
    }
}

/// A button.
#[derive(Debug, PartialEq, Eq)]
pub struct Button {
    pub label: String,
    pub click: Click,
}

/// What a button stands for.
pub struct ButtonView {
    pub label: Seq<char>,
    pub click: ClickView,
}

impl DeepView for Button {
    type V = ButtonView;

    open spec fn deep_view(&self) -> ButtonView {
        ButtonView {
            label: self.label@,
            click: self.click.deep_view(),
        }
    }
}

/// A button with colours of its own.
#[derive(Debug, PartialEq, Eq)]
pub struct ToolButton {
    pub label: String,
    pub fill: Rgb,
    pub ink: Rgb,
    pub border: Rgb,
    pub click: Click,
}

/// What a button with colours of its own stands for.
pub struct ToolButtonView {
    pub label: Seq<char>,
    pub fill: Rgb,
    pub ink: Rgb,
    pub border: Rgb,
    pub click: ClickView,
}

impl DeepView for ToolButton {
    type V = ToolButtonView;

    open spec fn deep_view(&self) -> ToolButtonView {
        ToolButtonView {
            label: self.label@,
            fill: self.fill,
            ink: self.ink,
            border: self.border,
            click: self.click.deep_view(),
        }
    }
}

/// One of several things to select.
#[derive(Debug, PartialEq, Eq)]
pub struct Choice {
    pub label: String,
    pub selected: bool,
    pub click: Click,
}

/// What a choice stands for.
pub struct ChoiceView {
    pub label: Seq<char>,
    pub selected: bool,
    pub click: ClickView,
}

impl DeepView for Choice {
    type V = ChoiceView;

    open spec fn deep_view(&self) -> ChoiceView {
        ChoiceView {
            label: self.label@,
            selected: self.selected,
            click: self.click.deep_view(),
        }
    }
}

/// A named value.
#[derive(Debug, PartialEq, Eq)]
pub struct InfoRow {
    pub label: String,
    pub value: String,
}

/// What a named value stands for.
pub struct InfoRowView {
    pub label: Seq<char>,
    pub value: Seq<char>,
}

impl DeepView for InfoRow {
    type V = InfoRowView;

    open spec fn deep_view(&self) -> InfoRowView {
        InfoRowView {
            label: self.label@,
            value: self.value@,
        }
    }
}

/// A repository in the list of repositories.
#[derive(Debug, PartialEq, Eq)]
pub struct RepoCard {
    pub name: String,
    pub branch: String,
    pub fill: Rgb,
    pub border: Rgb,
    pub name_ink: Rgb,
    pub branch_ink: Rgb,
    pub chips: Vec<Chip>,
    pub click: Click,
}

/// What a repository in the list stands for.
pub struct RepoCardView {
    pub name: Seq<char>,
    pub branch: Seq<char>,
    pub fill: Rgb,
    pub border: Rgb,
    pub name_ink: Rgb,
    pub branch_ink: Rgb,
    pub chips: Seq<ChipView>,
    pub click: ClickView,
}

impl DeepView for RepoCard {
    type V = RepoCardView;

    open spec fn deep_view(&self) -> RepoCardView {
        RepoCardView {
            name: self.name@,
            branch: self.branch@,
            fill: self.fill,
            border: self.border,
            name_ink: self.name_ink,
            branch_ink: self.branch_ink,
            chips: self.chips.deep_view(),
            click: self.click.deep_view(),
        }
    }
}

/// The list of repositories.
#[derive(Debug, PartialEq, Eq)]
pub struct LeftRail {
    pub found: String,
    pub scan: Button,
    pub add: Button,
    pub cards: Vec<RepoCard>,
}

/// What the list of repositories stands for.
pub struct LeftRailView {
    pub found: Seq<char>,
    pub scan: ButtonView,
    pub add: ButtonView,
    pub cards: Seq<RepoCardView>,
}

impl DeepView for LeftRail {
    type V = LeftRailView;

    open spec fn deep_view(&self) -> LeftRailView {
        LeftRailView {
            found: self.found@,
            scan: self.scan.deep_view(),
            add: self.add.deep_view(),
            cards: self.cards.deep_view(),
        }
    }
}

/// How safe it is to go on in a repository.
#[derive(Debug, PartialEq, Eq)]
pub struct RiskBadge {
    pub icon: String,
    pub label: String,
    pub fill: Rgb,
    pub ink: Rgb,
    pub border: Rgb,
}

/// What a risk badge stands for.
pub struct RiskBadgeView {
    pub icon: Seq<char>,
    pub label: Seq<char>,
    pub fill: Rgb,
    pub ink: Rgb,
    pub border: Rgb,
}

impl DeepView for RiskBadge {
    type V = RiskBadgeView;

    open spec fn deep_view(&self) -> RiskBadgeView {
        RiskBadgeView {
            icon: self.icon@,
            label: self.label@,
            fill: self.fill,
            ink: self.ink,
            border: self.border,
        }
    }
}

/// What is known of what is selected.
#[derive(Debug, PartialEq, Eq)]
pub enum InspectorBody {
    /// What to do to see more.
    Hint { hint: String },
    /// What is selected is not there.
    Missing { missing: String },
    /// Named values.
    Rows { rows: Vec<InfoRow> },
    /// Lines of text.
    Lines { lines: Vec<String> },
    /// The agent, whether it is still to answer, and its suggestion.
    Agent { agent: Vec<String>, waiting: bool, suggestion: Option<AiSuggestion> },
    /// A reset is armed.
    Armed { warning: String, advice: String },
}

/// What what is known of what is selected stands for.
pub enum InspectorBodyView {
    Hint { hint: Seq<char> },
    Missing { missing: Seq<char> },
    Rows { rows: Seq<InfoRowView> },
    Lines { lines: Seq<Seq<char>> },
    Agent { agent: Seq<Seq<char>>, waiting: bool, suggestion: Option<AiSuggestionView> },
    Armed { warning: Seq<char>, advice: Seq<char> },
}

impl DeepView for InspectorBody {
    type V = InspectorBodyView;

    open spec fn deep_view(&self) -> InspectorBodyView {
        match self {
            InspectorBody::Hint { hint } => InspectorBodyView::Hint {
                hint: hint@,
            },
            InspectorBody::Missing { missing } => InspectorBodyView::Missing {
                missing: missing@,
            },
            InspectorBody::Rows { rows } => InspectorBodyView::Rows {
                rows: rows.deep_view(),
            },
            InspectorBody::Lines { lines } => InspectorBodyView::Lines {
                lines: lines.deep_view(),
            },
            InspectorBody::Agent { agent, waiting, suggestion } => InspectorBodyView::Agent {
                agent: agent.deep_view(),
                waiting: *waiting,
                suggestion: suggestion.deep_view(),
            },
            InspectorBody::Armed { warning, advice } => InspectorBodyView::Armed {
                warning: warning@,
                advice: advice@,
            },
        }
    }
}

/// The repository and what is selected in it.
#[derive(Debug, PartialEq, Eq)]
pub struct Inspector {
    pub name: String,
    pub path: String,
    pub risk: RiskBadge,
    pub heading: String,
    pub body: InspectorBody,
}

/// What the inspector stands for.
pub struct InspectorView {
    pub name: Seq<char>,
    pub path: Seq<char>,
    pub risk: RiskBadgeView,
    pub heading: Seq<char>,
    pub body: InspectorBodyView,
}

impl DeepView for Inspector {
    type V = InspectorView;

    open spec fn deep_view(&self) -> InspectorView {
        InspectorView {
            name: self.name@,
            path: self.path@,
            risk: self.risk.deep_view(),
            heading: self.heading@,
            body: self.body.deep_view(),
        }
    }
}

/// A change in the list of changes.
#[derive(Debug, PartialEq, Eq)]
pub struct ChangeRow {
    pub choice: Choice,
    pub buttons: Vec<Button>,
    pub chips: Vec<Chip>,
}

/// What a change in the list stands for.
pub struct ChangeRowView {
    pub choice: ChoiceView,
    pub buttons: Seq<ButtonView>,
    pub chips: Seq<ChipView>,
}

impl DeepView for ChangeRow {
    type V = ChangeRowView;

    open spec fn deep_view(&self) -> ChangeRowView {
        ChangeRowView {
            choice: self.choice.deep_view(),
            buttons: self.buttons.deep_view(),
            chips: self.chips.deep_view(),
        }
    }
}

/// The pane of changes.
#[derive(Debug, PartialEq, Eq)]
pub struct ChangesPane {
    pub next_step: String,
    pub chips: Vec<Chip>,
    pub buttons: Vec<Button>,
    pub templates: Vec<Button>,
    pub note: Option<String>,
    pub rows: Vec<ChangeRow>,
}

/// What the pane of changes stands for.
pub struct ChangesPaneView {
    pub next_step: Seq<char>,
    pub chips: Seq<ChipView>,
    pub buttons: Seq<ButtonView>,
    pub templates: Seq<ButtonView>,
    pub note: Option<Seq<char>>,
    pub rows: Seq<ChangeRowView>,
}

impl DeepView for ChangesPane {
    type V = ChangesPaneView;

    open spec fn deep_view(&self) -> ChangesPaneView {
        ChangesPaneView {
            next_step: self.next_step@,
            chips: self.chips.deep_view(),
            buttons: self.buttons.deep_view(),
            templates: self.templates.deep_view(),
            note: self.note.deep_view(),
            rows: self.rows.deep_view(),
        }
    }
}

/// A commit in the history, with its part of the graph.
#[derive(Debug, PartialEq, Eq)]
pub struct HistoryRow {
    pub id: String,
    pub is_head: bool,
    /// What marks the head.
    pub badge: Option<Chip>,
    pub chips: Vec<Chip>,
    pub summary: String,
    pub summary_ink: Rgb,
    pub caption: String,
    pub fill: Option<Rgb>,
    pub border: Rgb,
    /// The colours of the lanes beside the commit.
    pub lanes: Vec<Rgb>,
    /// The lane of the commit.
    pub lane: usize,
    /// The colour of the commit.
    pub node: Rgb,
    /// The lane that a merge is drawn towards.
    pub merge_lane: Option<usize>,
    pub click: Click,
}

/// What a commit in the history stands for.
pub struct HistoryRowView {
    pub id: Seq<char>,
    pub is_head: bool,
    pub badge: Option<ChipView>,
    pub chips: Seq<ChipView>,
    pub summary: Seq<char>,
    pub summary_ink: Rgb,
    pub caption: Seq<char>,
    pub fill: Option<Rgb>,
    pub border: Rgb,
    pub lanes: Seq<Rgb>,
    pub lane: usize,
    pub node: Rgb,
    pub merge_lane: Option<usize>,
    pub click: ClickView,
}

impl DeepView for HistoryRow {
    type V = HistoryRowView;

    open spec fn deep_view(&self) -> HistoryRowView {
        HistoryRowView {
            id: self.id@,
            is_head: self.is_head,
            badge: self.badge.deep_view(),
            chips: self.chips.deep_view(),
            summary: self.summary@,
            summary_ink: self.summary_ink,
            caption: self.caption@,
            fill: self.fill.deep_view(),
            border: self.border,
            lanes: self.lanes.deep_view(),
            lane: self.lane,
            node: self.node,
            merge_lane: self.merge_lane.deep_view(),
            click: self.click.deep_view(),
        }
    }
}

/// The pane of history.
#[derive(Debug, PartialEq, Eq)]
pub struct HistoryPane {
    pub note: Option<String>,
    pub rows: Vec<HistoryRow>,
}

/// What the pane of history stands for.
pub struct HistoryPaneView {
    pub note: Option<Seq<char>>,
    pub rows: Seq<HistoryRowView>,
}

impl DeepView for HistoryPane {
    type V = HistoryPaneView;

    open spec fn deep_view(&self) -> HistoryPaneView {
        HistoryPaneView {
            note: self.note.deep_view(),
            rows: self.rows.deep_view(),
        }
    }
}

/// A branch in the list of branches.
#[derive(Debug, PartialEq, Eq)]
pub struct BranchRow {
    pub choice: Choice,
    pub checkout: Option<Button>,
    pub upstream: Option<String>,
}

/// What a branch in the list stands for.
pub struct BranchRowView {
    pub choice: ChoiceView,
    pub checkout: Option<ButtonView>,
    pub upstream: Option<Seq<char>>,
}

impl DeepView for BranchRow {
    type V = BranchRowView;

    open spec fn deep_view(&self) -> BranchRowView {
        BranchRowView {
            choice: self.choice.deep_view(),
            checkout: self.checkout.deep_view(),
            upstream: self.upstream.deep_view(),
        }
    }
}

/// The pane of branches.
#[derive(Debug, PartialEq, Eq)]
pub struct BranchesPane {
    pub create: Button,
    pub note: Option<String>,
    pub rows: Vec<BranchRow>,
}

/// What the pane of branches stands for.
pub struct BranchesPaneView {
    pub create: ButtonView,
    pub note: Option<Seq<char>>,
    pub rows: Seq<BranchRowView>,
}

impl DeepView for BranchesPane {
    type V = BranchesPaneView;

    open spec fn deep_view(&self) -> BranchesPaneView {
        BranchesPaneView {
            create: self.create.deep_view(),
            note: self.note.deep_view(),
            rows: self.rows.deep_view(),
        }
    }
}

/// What is recommended, and a button for it.
#[derive(Debug, PartialEq, Eq)]
pub struct Advice {
    pub message: String,
    pub button: Option<Button>,
}

/// What a piece of advice stands for.
pub struct AdviceView {
    pub message: Seq<char>,
    pub button: Option<ButtonView>,
}

impl DeepView for Advice {
    type V = AdviceView;

    open spec fn deep_view(&self) -> AdviceView {
        AdviceView {
            message: self.message@,
            button: self.button.deep_view(),
        }
    }
}

/// The pane of syncing.
#[derive(Debug, PartialEq, Eq)]
pub struct SyncPane {
    pub chips: Vec<Chip>,
    pub buttons: Vec<Button>,
    pub advice: Vec<Advice>,
    pub output: Option<String>,
    /// What is said where there is no output.
    pub silence: Option<String>,
}

/// What the pane of syncing stands for.
pub struct SyncPaneView {
    pub chips: Seq<ChipView>,
    pub buttons: Seq<ButtonView>,
    pub advice: Seq<AdviceView>,
    pub output: Option<Seq<char>>,
    pub silence: Option<Seq<char>>,
}

impl DeepView for SyncPane {
    type V = SyncPaneView;

    open spec fn deep_view(&self) -> SyncPaneView {
        SyncPaneView {
            chips: self.chips.deep_view(),
            buttons: self.buttons.deep_view(),
            advice: self.advice.deep_view(),
            output: self.output.deep_view(),
            silence: self.silence.deep_view(),
        }
    }
}

/// A file in conflict.
#[derive(Debug, PartialEq, Eq)]
pub struct ConflictDetail {
    pub path: String,
    pub sides: String,
    pub content: String,
    pub suggestion: Option<AiSuggestion>,
    /// The button that asks for a suggestion, and whether it can be clicked.
    pub ask: Button,
    pub can_ask: bool,
    /// What is said while a request runs.
    pub running: Option<String>,
    pub buttons: Vec<Button>,
    pub warning: Option<String>,
}

/// What a file in conflict stands for.
pub struct ConflictDetailView {
    pub path: Seq<char>,
    pub sides: Seq<char>,
    pub content: Seq<char>,
    pub suggestion: Option<AiSuggestionView>,
    pub ask: ButtonView,
    pub can_ask: bool,
    pub running: Option<Seq<char>>,
    pub buttons: Seq<ButtonView>,
    pub warning: Option<Seq<char>>,
}

impl DeepView for ConflictDetail {
    type V = ConflictDetailView;

    open spec fn deep_view(&self) -> ConflictDetailView {
        ConflictDetailView {
            path: self.path@,
            sides: self.sides@,
            content: self.content@,
            suggestion: self.suggestion.deep_view(),
            ask: self.ask.deep_view(),
            can_ask: self.can_ask,
            running: self.running.deep_view(),
            buttons: self.buttons.deep_view(),
            warning: self.warning.deep_view(),
        }
    }
}

/// The pane of conflicts.
#[derive(Debug, PartialEq, Eq)]
pub struct ConflictsPane {
    pub providers: Vec<Choice>,
    pub strategies: Vec<Choice>,
    pub shows_settings: bool,
    pub note: Option<String>,
    pub files: Vec<Choice>,
    pub detail: Option<ConflictDetail>,
}

/// What the pane of conflicts stands for.
pub struct ConflictsPaneView {
    pub providers: Seq<ChoiceView>,
    pub strategies: Seq<ChoiceView>,
    pub shows_settings: bool,
    pub note: Option<Seq<char>>,
    pub files: Seq<ChoiceView>,
    pub detail: Option<ConflictDetailView>,
}

impl DeepView for ConflictsPane {
    type V = ConflictsPaneView;

    open spec fn deep_view(&self) -> ConflictsPaneView {
        ConflictsPaneView {
            providers: self.providers.deep_view(),
            strategies: self.strategies.deep_view(),
            shows_settings: self.shows_settings,
            note: self.note.deep_view(),
            files: self.files.deep_view(),
            detail: self.detail.deep_view(),
        }
    }
}

/// An entry in the log of `HEAD`.
#[derive(Debug, PartialEq, Eq)]
pub struct RecoveryRow {
    pub choice: Choice,
    pub caption: String,
}

/// What an entry in the log stands for.
pub struct RecoveryRowView {
    pub choice: ChoiceView,
    pub caption: Seq<char>,
}

impl DeepView for RecoveryRow {
    type V = RecoveryRowView;

    open spec fn deep_view(&self) -> RecoveryRowView {
        RecoveryRowView {
            choice: self.choice.deep_view(),
            caption: self.caption@,
        }
    }
}

/// The pane of recovery.
#[derive(Debug, PartialEq, Eq)]
pub struct RecoveryPane {
    pub note: Option<String>,
    pub rows: Vec<RecoveryRow>,
    pub chosen: Option<String>,
    pub buttons: Vec<Button>,
}

/// What the pane of recovery stands for.
pub struct RecoveryPaneView {
    pub note: Option<Seq<char>>,
    pub rows: Seq<RecoveryRowView>,
    pub chosen: Option<Seq<char>>,
    pub buttons: Seq<ButtonView>,
}

impl DeepView for RecoveryPane {
    type V = RecoveryPaneView;

    open spec fn deep_view(&self) -> RecoveryPaneView {
        RecoveryPaneView {
            note: self.note.deep_view(),
            rows: self.rows.deep_view(),
            chosen: self.chosen.deep_view(),
            buttons: self.buttons.deep_view(),
        }
    }
}

/// The status at the bottom.
#[derive(Debug, PartialEq, Eq)]
pub struct Footer {
    pub message: String,
    pub ink: Rgb,
}

/// What the status at the bottom stands for.
pub struct FooterView {
    pub message: Seq<char>,
    pub ink: Rgb,
}

impl DeepView for Footer {
    type V = FooterView;

    open spec fn deep_view(&self) -> FooterView {
        FooterView {
            message: self.message@,
            ink: self.ink,
        }
    }
}

}
