//! The tabs, the providers of suggestions, and the command palette.
use vstd::prelude::*;
use vstd::string::*;
use vstd::utf8::*;

use crate::text;

verus! {

/// A pane of the workbench.
#[derive(Clone, Copy, PartialEq, Eq, Structural, Debug)]
pub enum WorkTab {
    Changes,
    History,
    Branches,
    Sync,
    Conflicts,
    Recovery,
}

/// What a tab is called.
pub open spec fn tab_title(tab: WorkTab) -> Seq<char> {
    match tab {
        WorkTab::Changes => "Changes"@,
        WorkTab::History => "History Graph"@,
        WorkTab::Branches => "Branch Lab"@,
        WorkTab::Sync => "Sync"@,
        WorkTab::Conflicts => "Conflict Studio"@,
        WorkTab::Recovery => "Recovery Center"@,
    }
}

/// All tabs, in the order in which they are shown.
pub open spec fn all_tabs() -> Seq<WorkTab> {
    seq![
        WorkTab::Changes,
        WorkTab::History,
        WorkTab::Branches,
        WorkTab::Sync,
        WorkTab::Conflicts,
        WorkTab::Recovery,
    ]
}

impl WorkTab {
    /// All tabs, in the order in which they are shown.
    pub fn all() -> (r: [WorkTab; 6])
        ensures
            r@ == all_tabs(),
    {
        let r: [WorkTab; 6] = [
            WorkTab::Changes,
            WorkTab::History,
            WorkTab::Branches,
            WorkTab::Sync,
            WorkTab::Conflicts,
            WorkTab::Recovery,
        ];
        assert(r@ =~= all_tabs());
        r
    }

    /// What the tab is called.
    pub fn title(self) -> (r: &'static str)
        ensures
            r@ == tab_title(self),
    {
        match self {
            WorkTab::Changes => "Changes",
            WorkTab::History => "History Graph",
            WorkTab::Branches => "Branch Lab",
            WorkTab::Sync => "Sync",
            WorkTab::Conflicts => "Conflict Studio",
            WorkTab::Recovery => "Recovery Center",
        }
    }
}

/// Who is asked for a suggestion.
#[derive(Clone, Copy, PartialEq, Eq, Structural, Debug)]
pub enum AiProvider {
    LocalHeuristic,
    OpenAi,
}

/// What a provider is called.
pub open spec fn provider_title(provider: AiProvider) -> Seq<char> {
    match provider {
        AiProvider::LocalHeuristic => "Local Heuristic"@,
        AiProvider::OpenAi => "OpenAI"@,
    }
}

impl AiProvider {
    /// What the provider is called.
    pub fn title(self) -> (r: &'static str)
        ensures
            r@ == provider_title(self),
    {
        match self {
            AiProvider::LocalHeuristic => "Local Heuristic",
            AiProvider::OpenAi => "OpenAI",
        }
    }
}

/// An action of the command palette.
#[derive(Clone, Copy, PartialEq, Eq, Structural, Debug)]
pub enum PaletteAction {
    RefreshRepositories,
    ReloadSelectedRepo,
    StageAll,
    UnstageAll,
    Commit,
    Fetch,
    PullRebase,
    Push,
    OpenTab(WorkTab),
}

/// What an action is called.
pub open spec fn action_name(action: PaletteAction) -> Seq<char> {
    match action {
        PaletteAction::RefreshRepositories => "Refresh Repositories"@,
        PaletteAction::ReloadSelectedRepo => "Reload Selected Repo"@,
        PaletteAction::StageAll => "Stage All"@,
        PaletteAction::UnstageAll => "Unstage All"@,
        PaletteAction::Commit => "Create Commit"@,
        PaletteAction::Fetch => "Fetch All Remotes"@,
        PaletteAction::PullRebase => "Pull --rebase"@,
        PaletteAction::Push => "Push Branch"@,
        PaletteAction::OpenTab(WorkTab::Changes) => "Open Changes"@,
        PaletteAction::OpenTab(WorkTab::History) => "Open History Graph"@,
        PaletteAction::OpenTab(WorkTab::Branches) => "Open Branch Lab"@,
        PaletteAction::OpenTab(WorkTab::Sync) => "Open Sync"@,
        PaletteAction::OpenTab(WorkTab::Conflicts) => "Open Conflict Studio"@,
        PaletteAction::OpenTab(WorkTab::Recovery) => "Open Recovery Center"@,
    }
}

/// The keys for an action; `Action` where it has none.
pub open spec fn action_keys(action: PaletteAction) -> Seq<char> {
    match action {
        PaletteAction::RefreshRepositories => "Cmd/Ctrl+R"@,
        PaletteAction::Commit => "Cmd/Ctrl+Enter"@,
        PaletteAction::OpenTab(_) => "Cmd/Ctrl+K"@,
        _ => "Action"@,
    }
}

impl PaletteAction {
    /// What the action is called.
    pub fn label(self) -> (r: &'static str)
        ensures
            r@ == action_name(self),
            is_ascii_chars(r@),
    {
        proof {
            reveal_strlit("Refresh Repositories");
            reveal_strlit("Reload Selected Repo");
            reveal_strlit("Stage All");
            reveal_strlit("Unstage All");
            reveal_strlit("Create Commit");
            reveal_strlit("Fetch All Remotes");
            reveal_strlit("Pull --rebase");
            reveal_strlit("Push Branch");
            reveal_strlit("Open Changes");
            reveal_strlit("Open History Graph");
            reveal_strlit("Open Branch Lab");
            reveal_strlit("Open Sync");
            reveal_strlit("Open Conflict Studio");
            reveal_strlit("Open Recovery Center");
        }
        match self {
            PaletteAction::RefreshRepositories => "Refresh Repositories",
            PaletteAction::ReloadSelectedRepo => "Reload Selected Repo",
            PaletteAction::StageAll => "Stage All",
            PaletteAction::UnstageAll => "Unstage All",
            PaletteAction::Commit => "Create Commit",
            PaletteAction::Fetch => "Fetch All Remotes",
            PaletteAction::PullRebase => "Pull --rebase",
            PaletteAction::Push => "Push Branch",
            PaletteAction::OpenTab(tab) => match tab {
                WorkTab::Changes => "Open Changes",
                WorkTab::History => "Open History Graph",
                WorkTab::Branches => "Open Branch Lab",
                WorkTab::Sync => "Open Sync",
                WorkTab::Conflicts => "Open Conflict Studio",
                WorkTab::Recovery => "Open Recovery Center",
            },
        }
    }

    /// The keys for the action; `Action` where it has none.
    pub fn shortcut(self) -> (r: &'static str)
        ensures
            r@ == action_keys(self),
            is_ascii_chars(r@),
    {
        proof {
            reveal_strlit("Cmd/Ctrl+R");
            reveal_strlit("Cmd/Ctrl+Enter");
            reveal_strlit("Cmd/Ctrl+K");
            reveal_strlit("Action");
        }
        match self {
            PaletteAction::RefreshRepositories => "Cmd/Ctrl+R",
            PaletteAction::Commit => "Cmd/Ctrl+Enter",
            PaletteAction::OpenTab(_) => "Cmd/Ctrl+K",
            PaletteAction::ReloadSelectedRepo
            | PaletteAction::StageAll
            | PaletteAction::UnstageAll
            | PaletteAction::Fetch
            | PaletteAction::PullRebase
            | PaletteAction::Push => "Action",
        }
    }
}

/// All actions, in the order in which they are offered.
pub open spec fn all_actions() -> Seq<PaletteAction> {
    seq![
        PaletteAction::RefreshRepositories,
        PaletteAction::ReloadSelectedRepo,
        PaletteAction::StageAll,
        PaletteAction::UnstageAll,
        PaletteAction::Commit,
        PaletteAction::Fetch,
        PaletteAction::PullRebase,
        PaletteAction::Push,
        PaletteAction::OpenTab(WorkTab::Changes),
        PaletteAction::OpenTab(WorkTab::History),
        PaletteAction::OpenTab(WorkTab::Branches),
        PaletteAction::OpenTab(WorkTab::Sync),
        PaletteAction::OpenTab(WorkTab::Conflicts),
        PaletteAction::OpenTab(WorkTab::Recovery),
    ]
}

/// All actions, in the order in which they are offered.
pub fn palette_actions() -> (r: Vec<PaletteAction>)
    ensures
        r@ == all_actions(),
{
    let r: Vec<PaletteAction> = vec![
        PaletteAction::RefreshRepositories,
        PaletteAction::ReloadSelectedRepo,
        PaletteAction::StageAll,
        PaletteAction::UnstageAll,
        PaletteAction::Commit,
        PaletteAction::Fetch,
        PaletteAction::PullRebase,
        PaletteAction::Push,
        PaletteAction::OpenTab(WorkTab::Changes),
        PaletteAction::OpenTab(WorkTab::History),
        PaletteAction::OpenTab(WorkTab::Branches),
        PaletteAction::OpenTab(WorkTab::Sync),
        PaletteAction::OpenTab(WorkTab::Conflicts),
        PaletteAction::OpenTab(WorkTab::Recovery),
    ];
    assert(r@ =~= all_actions());
    r
}

/// Whether an action is offered for what was typed, in lower case: for nothing,
/// and for any part of its name or keys.
pub open spec fn offered(action: PaletteAction, query: Seq<char>) -> bool {
    ||| query.len() == 0
    ||| text::has_part(text::ascii_lower(action_name(action)), query)
    ||| text::has_part(text::ascii_lower(action_keys(action)), query)
}

/// The actions that are offered for what was typed, in lower case.
pub open spec fn offered_actions(query: Seq<char>) -> Seq<PaletteAction> {
    all_actions().filter(|a: PaletteAction| offered(a, query))
}

/// Tells whether an action is offered for what was typed, in lower case.
pub fn is_offered(action: PaletteAction, query: &str) -> (r: bool)
    ensures
        r == offered(action, query@),
{
    query.is_empty() || text::contains(action.label().to_lowercase().as_str(), query)
        || text::contains(action.shortcut().to_lowercase().as_str(), query)
}

/// The actions that are offered for what was typed, in lower case.
pub fn actions_matching(query: &str) -> (r: Vec<PaletteAction>)
    ensures
        r@ == offered_actions(query@),
{
    let actions = palette_actions();
    let ghost pick = |a: PaletteAction| offered(a, query@);
    let mut r: Vec<PaletteAction> = Vec::new();
    let mut i: usize = 0;
    assert(all_actions().take(0).filter(pick) =~= Seq::<PaletteAction>::empty()) by {
        reveal(Seq::filter);
    }
    while i < actions.len()
        invariant
            i <= actions@.len(),
            actions@ == all_actions(),
            pick == (|a: PaletteAction| offered(a, query@)),
            r@ == all_actions().take(i as int).filter(pick),
        decreases actions@.len() - i,
    {
        proof {
            reveal(Seq::filter);
            assert(all_actions().take(i + 1).drop_last() =~= all_actions().take(i as int));
        }
        if is_offered(actions[i], query) {
            r.push(actions[i]);
        }
        i += 1;
    }
    assert(all_actions().take(i as int) =~= all_actions());
    r
}

/// The actions that are offered for what was typed: white space around it and
/// the case of its letters do not matter.
pub fn filter_actions(typed: &str) -> (r: Vec<PaletteAction>)
    ensures
        r@ == offered_actions(text::lower_case(text::trimmed(typed@))),
{
    let query = text::trim(typed).as_str().to_lowercase();
    actions_matching(query.as_str())
}

proof fn lemma_filter_keeps_all(s: Seq<PaletteAction>, pick: spec_fn(PaletteAction) -> bool)
    requires
        forall|a: PaletteAction| #[trigger] pick(a),
    ensures
        s.filter(pick) == s,
    decreases s.len(),
{
    reveal(Seq::filter);
    if s.len() > 0 {
        lemma_filter_keeps_all(s.drop_last(), pick);
        assert(pick(s.last()));
        assert(s.drop_last().push(s.last()) =~= s);
    }
}

/// With nothing typed, every action is offered.
pub proof fn law_empty_query_offers_all()
    ensures
        offered_actions(Seq::empty()) == all_actions(),
{
    let pick = |a: PaletteAction| offered(a, Seq::empty());
    lemma_filter_keeps_all(all_actions(), pick);
}

}
