//! The state of the application, and how it moves from one user action to the
//! next.
//!
//! What has to be done outside is returned as a [`Step`]; once it is done, its
//! outcome is reported through the method that the step calls for.
use vstd::prelude::*;
use vstd::string::*;

use crate::actions::{AiProvider, PaletteAction, WorkTab};
use crate::effects;
use crate::effects::{
    AddOutcome, AddOutcomeView, AiPoll, AiPollView, RepoAction, RepoActionView, Shortcut, Step,
    StepView,
};
use crate::git_error;
use crate::git_error::GitError;
use crate::model::{
    AiSuggestion, AiSuggestionView, ConflictEntry, ConflictEntryView, OpenAiConfig,
    OpenAiConfigView, RepoSnapshot, RepoSnapshotView, RepoSummary, RepoSummaryView,
    ResolutionStrategy,
};
use crate::paths::{RepoPath, RepoPathView};
use crate::sort;
use crate::sort::stable_sort;
use crate::text;

verus! {

/// How deep repositories are looked for.
pub const SCAN_DEPTH: usize = 6;

/// The state of the application.
pub struct GitControlApp {
    /// The directory to look for repositories in, as typed.
    pub repo_root_input: String,
    /// The path of a repository to add, as typed.
    pub manual_repo_input: String,
    /// The repositories that are listed.
    pub repositories: Vec<RepoSummary>,
    /// Which of them is selected.
    pub selected_repo: Option<usize>,
    /// What is known of the selected repository.
    pub snapshot: Option<RepoSnapshot>,
    /// The pane that is open.
    pub active_tab: WorkTab,
    /// The message for the next commit, as typed.
    pub commit_message: String,
    /// The name for a new branch, as typed.
    pub branch_name_input: String,
    /// What the list of changes is filtered by, as typed.
    pub changes_filter: String,
    /// Which change is selected.
    pub selected_change: Option<usize>,
    /// Which commit is selected.
    pub selected_commit: Option<usize>,
    /// Which branch is selected.
    pub selected_branch: Option<usize>,
    /// Which file in conflict is selected.
    pub selected_conflict: Option<usize>,
    /// Which log entry is selected.
    pub selected_recovery: Option<usize>,
    /// How conflicts are to be resolved.
    pub ai_strategy: ResolutionStrategy,
    /// Who is asked for suggestions.
    pub ai_provider: AiProvider,
    /// The suggestion at hand.
    pub ai_suggestion: Option<AiSuggestion>,
    /// The suggested text, as edited.
    pub ai_edited_text: String,
    /// Whether the remote agent is still to answer.
    pub ai_request_in_flight: bool,
    /// The key for the remote agent, as typed.
    pub openai_api_key_input: String,
    /// The model of the remote agent, as typed.
    pub openai_model_input: String,
    /// The address of the remote agent, as typed.
    pub openai_base_url_input: String,
    /// The commit that a reset is armed for.
    pub pending_reset_to: Option<String>,
    /// What the last sync command printed.
    pub sync_output: String,
    /// Whether the command palette is open.
    pub command_palette_open: bool,
    /// What is typed into the command palette.
    pub command_palette_query: String,
    /// The status shown at the bottom.
    pub status_line: String,
    /// Whether that status is about a failure.
    pub status_is_error: bool,
}

/// What the state of the application stands for.
pub struct AppView {
    pub repo_root_input: Seq<char>,
    pub manual_repo_input: Seq<char>,
    pub repositories: Seq<RepoSummaryView>,
    pub selected_repo: Option<usize>,
    pub snapshot: Option<RepoSnapshotView>,
    pub active_tab: WorkTab,
    pub commit_message: Seq<char>,
    pub branch_name_input: Seq<char>,
    pub changes_filter: Seq<char>,
    pub selected_change: Option<usize>,
    pub selected_commit: Option<usize>,
    pub selected_branch: Option<usize>,
    pub selected_conflict: Option<usize>,
    pub selected_recovery: Option<usize>,
    pub ai_strategy: ResolutionStrategy,
    pub ai_provider: AiProvider,
    pub ai_suggestion: Option<AiSuggestionView>,
    pub ai_edited_text: Seq<char>,
    pub ai_request_in_flight: bool,
    pub openai_api_key_input: Seq<char>,
    pub openai_model_input: Seq<char>,
    pub openai_base_url_input: Seq<char>,
    pub pending_reset_to: Option<Seq<char>>,
    pub sync_output: Seq<char>,
    pub command_palette_open: bool,
    pub command_palette_query: Seq<char>,
    pub status_line: Seq<char>,
    pub status_is_error: bool,
}

impl View for GitControlApp {
    type V = AppView;

    open spec fn view(&self) -> AppView {
        AppView {
            repo_root_input: self.repo_root_input@,
            manual_repo_input: self.manual_repo_input@,
            repositories: self.repositories.deep_view(),
            selected_repo: self.selected_repo,
            snapshot: self.snapshot.deep_view(),
            active_tab: self.active_tab,
            commit_message: self.commit_message@,
            branch_name_input: self.branch_name_input@,
            changes_filter: self.changes_filter@,
            selected_change: self.selected_change,
            selected_commit: self.selected_commit,
            selected_branch: self.selected_branch,
            selected_conflict: self.selected_conflict,
            selected_recovery: self.selected_recovery,
            ai_strategy: self.ai_strategy,
            ai_provider: self.ai_provider,
            ai_suggestion: self.ai_suggestion.deep_view(),
            ai_edited_text: self.ai_edited_text@,
            ai_request_in_flight: self.ai_request_in_flight,
            openai_api_key_input: self.openai_api_key_input@,
            openai_model_input: self.openai_model_input@,
            openai_base_url_input: self.openai_base_url_input@,
            pending_reset_to: self.pending_reset_to.deep_view(),
            sync_output: self.sync_output@,
            command_palette_open: self.command_palette_open,
            command_palette_query: self.command_palette_query@,
            status_line: self.status_line@,
            status_is_error: self.status_is_error,
        }
    }
}

/// Whether a text still has conflict markers.
pub open spec fn has_conflict_markers(content: Seq<char>) -> bool {
    ||| text::has_part(content, "<<<<<<<"@)
    ||| text::has_part(content, "======="@)
    ||| text::has_part(content, ">>>>>>>"@)
}

/// Tells whether a text still has conflict markers.
pub fn contains_conflict_markers(content: &str) -> (r: bool)
    ensures
        r == has_conflict_markers(content@),
        r <==> exists|i: int|
            0 <= i <= content@.len() - 7 && (#[trigger] content@[i] == '<' || content@[i] == '='
                || content@[i] == '>') && (forall|k: int|
                i <= k < i + 7 ==> #[trigger] content@[k] == content@[i]),
{
    proof {
        law_markers_are_seven_in_a_row(content@);
    }
    text::contains(content, "<<<<<<<") || text::contains(content, "=======") || text::contains(
        content,
        ">>>>>>>",
    )
}

proof fn lemma_row_of_seven(content: Seq<char>, marker: Seq<char>, c: char)
    requires
        marker.len() == 7,
        forall|k: int| 0 <= k < 7 ==> #[trigger] marker[k] == c,
    ensures
        text::has_part(content, marker) <==> exists|i: int|
            0 <= i <= content.len() - 7 && #[trigger] content[i] == c && (forall|k: int|
                i <= k < i + 7 ==> #[trigger] content[k] == content[i]),
{
    if text::has_part(content, marker) {
        let i = choose|i: int|
            0 <= i <= content.len() - marker.len() && #[trigger] content.subrange(
                i,
                i + marker.len(),
            ) == marker;
        assert forall|k: int| i <= k < i + 7 implies #[trigger] content[k] == c by {
            assert(content.subrange(i, i + 7)[k - i] == marker[k - i]);
        }
        assert(content[i] == c);
    }
    if exists|i: int|
        0 <= i <= content.len() - 7 && #[trigger] content[i] == c && (forall|k: int|
            i <= k < i + 7 ==> #[trigger] content[k] == content[i]) {
        let i = choose|i: int|
            0 <= i <= content.len() - 7 && #[trigger] content[i] == c && (forall|k: int|
                i <= k < i + 7 ==> #[trigger] content[k] == content[i]);
        assert(content.subrange(i, i + 7) =~= marker) by {
            assert forall|k: int| 0 <= k < 7 implies content.subrange(i, i + 7)[k] == marker[k] by {
                assert(content[i + k] == c);
            }
        }
    }
}

/// A text has conflict markers exactly when it has, at some position, the same
/// character seven times in a row, and that is `<`, `=` or `>`.
pub proof fn law_markers_are_seven_in_a_row(content: Seq<char>)
    ensures
        has_conflict_markers(content) <==> exists|i: int|
            0 <= i <= content.len() - 7 && (#[trigger] content[i] == '<' || content[i] == '='
                || content[i] == '>') && (forall|k: int|
                i <= k < i + 7 ==> #[trigger] content[k] == content[i]),
{
    reveal_strlit("<<<<<<<");
    reveal_strlit("=======");
    reveal_strlit(">>>>>>>");
    lemma_row_of_seven(content, "<<<<<<<"@, '<');
    lemma_row_of_seven(content, "======="@, '=');
    lemma_row_of_seven(content, ">>>>>>>"@, '>');
}

/// Whether the selection fits what there is to select: the selected repository
/// is listed, and there is a snapshot only of a selected repository.
pub open spec fn consistent(s: AppView) -> bool {
    &&& s.selected_repo matches Some(i) ==> i < s.repositories.len()
    &&& s.snapshot is Some ==> s.selected_repo is Some
}

/// The state with a status that tells of no failure.
pub open spec fn with_status(s: AppView, message: Seq<char>) -> AppView {
    AppView { status_line: message, status_is_error: false, ..s }
}

/// The state with a status that tells of a failure.
pub open spec fn with_error(s: AppView, message: Seq<char>) -> AppView {
    AppView { status_line: message, status_is_error: true, ..s }
}

/// The state with a status, where there is one to announce.
pub open spec fn announced(s: AppView, message: Option<Seq<char>>) -> AppView {
    match message {
        Some(told) => with_status(s, told),
        None => s,
    }
}

/// The path of the selected repository.
pub open spec fn selected_path(s: AppView) -> Option<RepoPathView> {
    match s.selected_repo {
        Some(i) => if i < s.repositories.len() {
            Some(s.repositories[i as int].path)
        } else {
            None
        },
        None => None,
    }
}

/// The state at the start, before any repository was looked for.
pub open spec fn initial_state(root: Seq<char>, api_key: Seq<char>) -> AppView {
    AppView {
        repo_root_input: root,
        manual_repo_input: Seq::empty(),
        repositories: Seq::empty(),
        selected_repo: None,
        snapshot: None,
        active_tab: WorkTab::Changes,
        commit_message: Seq::empty(),
        branch_name_input: Seq::empty(),
        changes_filter: Seq::empty(),
        selected_change: None,
        selected_commit: None,
        selected_branch: None,
        selected_conflict: None,
        selected_recovery: None,
        ai_strategy: ResolutionStrategy::SmartBlend,
        ai_provider: AiProvider::LocalHeuristic,
        ai_suggestion: None,
        ai_edited_text: Seq::empty(),
        ai_request_in_flight: false,
        openai_api_key_input: api_key,
        openai_model_input: "gpt-4.1-mini"@,
        openai_base_url_input: "https://api.openai.com/v1"@,
        pending_reset_to: None,
        sync_output: Seq::empty(),
        command_palette_open: false,
        command_palette_query: Seq::empty(),
        status_line: "Ready"@,
        status_is_error: false,
    }
}

/// The state with nothing selected in the repository, no suggestion at hand and
/// no reset armed.
pub open spec fn selection_cleared(s: AppView) -> AppView {
    AppView {
        selected_change: None,
        selected_commit: None,
        selected_branch: None,
        selected_conflict: None,
        selected_recovery: None,
        ai_suggestion: None,
        ai_edited_text: Seq::empty(),
        pending_reset_to: None,
        ..s
    }
}

/// Where repositories are looked for at first: on the desktop, if there is one,
/// else in the home directory, else where the application was started.
pub open spec fn default_root(
    home: Option<Seq<char>>,
    desktop: Option<Seq<char>>,
    current: Option<Seq<char>>,
) -> Seq<char> {
    match (home, desktop, current) {
        (Some(_), Some(desktop), _) => desktop,
        (Some(home), None, _) => home,
        (None, _, Some(current)) => current,
        (None, _, None) => "."@,
    }
}

/// Chooses where repositories are looked for at first, given the home
/// directory, the desktop in it and the current directory, as far as they are
/// there.
pub fn default_repo_root(
    home: Option<String>,
    desktop: Option<String>,
    current: Option<String>,
) -> (r: String)
    ensures
        r@ == default_root(home.deep_view(), desktop.deep_view(), current.deep_view()),
{
    match (home, desktop, current) {
        (Some(_), Some(desktop), _) => desktop,
        (Some(home), None, _) => home,
        (None, _, Some(current)) => current,
        (None, _, None) => ".".to_owned(),
    }
}

/// Looks for repositories under the directory that was typed.
pub open spec fn scan_step(s: AppView, announce: Option<Seq<char>>) -> StepView {
    StepView::Scan { root: text::trimmed(s.repo_root_input), depth: SCAN_DEPTH, announce }
}

/// Reads the selected repository again; where none is selected, there is no
/// snapshot any more.
pub open spec fn reloading(s: AppView, announce: Option<Seq<char>>) -> (AppView, StepView) {
    match selected_path(s) {
        Some(path) => (s, StepView::LoadSnapshot { repo: path, announce }),
        None => (announced(AppView { snapshot: None, ..s }, announce), StepView::Idle),
    }
}

/// The repositories with the selected one replaced by a newer summary.
pub open spec fn resummed(s: AppView, summary: RepoSummaryView) -> Seq<RepoSummaryView> {
    match s.selected_repo {
        Some(i) => if i < s.repositories.len() {
            s.repositories.update(i as int, summary)
        } else {
            s.repositories
        },
        None => s.repositories,
    }
}

/// The state once the selected repository was read, or could not be.
pub open spec fn reloaded(
    s: AppView,
    loaded: Result<RepoSnapshotView, Seq<char>>,
    announce: Option<Seq<char>>,
) -> AppView {
    announced(
        match loaded {
            Ok(snapshot) => selection_cleared(
                AppView {
                    repositories: resummed(s, snapshot.summary),
                    snapshot: Some(snapshot),
                    ..s
                },
            ),
            Err(reason) => with_error(
                AppView { snapshot: None, ..s },
                "Failed to load repository: "@ + reason,
            ),
        },
        announce,
    )
}

/// What is said of the repositories that were found.
pub open spec fn found_status(count: nat, root: Seq<char>) -> Seq<char> {
    "Found "@ + text::decimal(count) + " repositor"@ + (if count == 1 {
        "y"@
    } else {
        "ies"@
    }) + " in "@ + root
}

/// Which repository is selected once the list has a given length: the one that
/// was, if there still is one in its place, else the first.
pub open spec fn kept_selection(selected: Option<usize>, count: nat) -> Option<usize> {
    match selected {
        Some(i) => if i < count {
            Some(i)
        } else {
            Some(0usize)
        },
        None => Some(0usize),
    }
}

/// The state once repositories were looked for under a directory, which may not
/// exist.
pub open spec fn scanned(
    s: AppView,
    root: Seq<char>,
    found: Option<Seq<RepoSummaryView>>,
    announce: Option<Seq<char>>,
) -> (AppView, StepView) {
    match found {
        None => (
            announced(with_error(s, "Path does not exist: "@ + root), announce),
            StepView::Idle,
        ),
        Some(summaries) => {
            let listed = sort::stably_sorted(summaries, sort::rank::<RepoSummary>());
            if listed.len() == 0 {
                (
                    announced(
                        with_status(
                            AppView {
                                repositories: listed,
                                selected_repo: None,
                                snapshot: None,
                                ..s
                            },
                            "No git repositories found in "@ + root,
                        ),
                        announce,
                    ),
                    StepView::Idle,
                )
            } else {
                reloading(
                    AppView {
                        repositories: listed,
                        selected_repo: kept_selection(s.selected_repo, listed.len()),
                        ..s
                    },
                    Some(
                        match announce {
                            Some(told) => told,
                            None => found_status(listed.len(), root),
                        },
                    ),
                )
            }
        },
    }
}

/// The position of the first repository with the given path; zero where there
/// is none.
pub open spec fn position_of(repositories: Seq<RepoSummaryView>, path: RepoPathView) -> nat
    decreases repositories.len(),
{
    if !lists_repo(repositories, path) || repositories.len() == 0 {
        0
    } else if repositories[0].path.parts == path.parts {
        0
    } else {
        1 + position_of(repositories.drop_first(), path)
    }
}

/// Whether a repository with the given path is listed.
pub open spec fn lists_repo(repositories: Seq<RepoSummaryView>, path: RepoPathView) -> bool {
    exists|i: int|
        0 <= i < repositories.len() && (#[trigger] repositories[i]).path.parts == path.parts
}

/// The state once a repository was added, or could not be.
pub open spec fn added(s: AppView, outcome: AddOutcomeView) -> (AppView, StepView) {
    match outcome {
        AddOutcomeView::Missing { path } => (
            with_error(s, "Path does not exist: "@ + path),
            StepView::Idle,
        ),
        AddOutcomeView::NotFound { reason } => (
            with_error(s, "No existing repository found: "@ + reason),
            StepView::Idle,
        ),
        AddOutcomeView::Invalid { reason } => (
            with_error(s, "Not a valid git repository: "@ + reason),
            StepView::Idle,
        ),
        AddOutcomeView::Found { summary, root } => {
            let listed = sort::stably_sorted(
                s.repositories.push(summary),
                sort::rank::<RepoSummary>(),
            );
            reloading(
                AppView {
                    repositories: listed,
                    selected_repo: Some(position_of(listed, root) as usize),
                    ..s
                },
                Some("Added repository: "@ + root.text),
            )
        },
    }
}

/// What came of adding the repository at a path, given whether there is
/// something at the path and, if so, the root of the repository there or above
/// and its summary, or why there is none.
pub open spec fn outcome_of_adding(
    path: Seq<char>,
    found: Option<Result<(RepoPath, Result<RepoSummary, GitError>), GitError>>,
) -> AddOutcomeView {
    match found {
        None => AddOutcomeView::Missing { path },
        Some(Err(error)) => AddOutcomeView::NotFound { reason: git_error::error_report(error) },
        Some(Ok((root, Err(error)))) => AddOutcomeView::Invalid {
            reason: git_error::error_report(error),
        },
        Some(Ok((root, Ok(summary)))) => AddOutcomeView::Found {
            summary: summary.deep_view(),
            root: root.deep_view(),
        },
    }
}

/// What came of adding the repository at a path.
pub fn add_outcome(
    path: &str,
    found: Option<Result<(RepoPath, Result<RepoSummary, GitError>), GitError>>,
) -> (r: AddOutcome)
    ensures
        r.deep_view() == outcome_of_adding(path@, found),
{
    match found {
        None => AddOutcome::Missing { path: path.to_owned() },
        Some(Err(error)) => AddOutcome::NotFound { reason: error.report() },
        Some(Ok((root, summary))) => match summary {
            Err(error) => AddOutcome::Invalid { reason: error.report() },
            Ok(summary) => AddOutcome::Found { summary, root },
        },
    }
}

/// Sets out to carry out an operation on the selected repository.
pub open spec fn acting(s: AppView, action: RepoActionView) -> (AppView, StepView) {
    match selected_path(s) {
        Some(path) => (s, StepView::Perform { repo: path, action }),
        None => (with_error(s, "No repository selected"@), StepView::Idle),
    }
}

/// The state once an operation was carried out, or failed.
pub open spec fn acted(
    s: AppView,
    action: RepoActionView,
    outcome: Result<Seq<char>, Seq<char>>,
) -> (AppView, StepView) {
    match outcome {
        Ok(returned) => reloading(
            AppView {
                commit_message: if action is Commit {
                    Seq::empty()
                } else {
                    s.commit_message
                },
                sync_output: if effects::shows_output(action) {
                    returned
                } else {
                    s.sync_output
                },
                ..s
            },
            Some(effects::success_status(action, returned)),
        ),
        Err(reason) => (
            with_error(s, effects::failure_status(action, reason)),
            StepView::Idle,
        ),
    }
}

/// Sets out to commit, with the message that was typed.
pub open spec fn committing(s: AppView) -> (AppView, StepView) {
    let message = text::trimmed(s.commit_message);
    if message.len() == 0 {
        (with_error(s, "Commit message cannot be empty"@), StepView::Idle)
    } else {
        acting(s, RepoActionView::Commit { message })
    }
}

/// Sets out to make a branch, with the name that was typed.
pub open spec fn branching(s: AppView) -> (AppView, StepView) {
    let name = text::trimmed(s.branch_name_input);
    if name.len() == 0 {
        (with_error(s, "Branch name cannot be empty"@), StepView::Idle)
    } else {
        let (t, step) = acting(s, RepoActionView::CreateBranch { name });
        (AppView { branch_name_input: Seq::empty(), ..t }, step)
    }
}

/// The file in conflict that is selected, or what stands in the way.
pub open spec fn chosen_conflict(s: AppView) -> Result<ConflictEntryView, Seq<char>> {
    match s.snapshot {
        None => Err("No repository loaded"@),
        Some(snapshot) => match s.selected_conflict {
            None => Err("Select a conflict file first"@),
            Some(i) => if i < snapshot.conflicts.len() {
                Ok(snapshot.conflicts[i as int])
            } else {
                Err("Conflict selection is out of range"@)
            },
        },
    }
}

/// Sets out to take over the suggested text, as edited. It must be free of
/// conflict markers.
pub open spec fn resolving(s: AppView) -> (AppView, StepView) {
    match chosen_conflict(s) {
        Err(reason) => (with_error(s, reason), StepView::Idle),
        Ok(conflict) => if s.ai_suggestion is None {
            (with_error(s, "Generate an AI suggestion first"@), StepView::Idle)
        } else if has_conflict_markers(s.ai_edited_text) {
            (with_error(s, "Resolved text still contains conflict markers"@), StepView::Idle)
        } else {
            acting(
                s,
                RepoActionView::ApplyResolution { path: conflict.path, resolved: s.ai_edited_text },
            )
        },
    }
}

/// Sets out to get a suggestion for the selected file in conflict.
pub open spec fn suggesting(s: AppView) -> (AppView, StepView) {
    match chosen_conflict(s) {
        Err(reason) => (with_error(s, reason), StepView::Idle),
        Ok(conflict) => {
            let t = AppView { ai_suggestion: None, ..s };
            match s.ai_provider {
                AiProvider::LocalHeuristic => (
                    t,
                    StepView::SuggestLocally {
                        content: conflict.content,
                        strategy: s.ai_strategy,
                    },
                ),
                AiProvider::OpenAi => if text::trimmed(s.openai_api_key_input).len() == 0 {
                    (
                        with_error(t, "Set OpenAI API key before remote suggestion"@),
                        StepView::Idle,
                    )
                } else if s.ai_request_in_flight {
                    (with_status(t, "AI request already in progress"@), StepView::Idle)
                } else {
                    (
                        with_status(
                            AppView { ai_request_in_flight: true, ..t },
                            "Generating remote AI suggestion..."@,
                        ),
                        StepView::SuggestRemotely {
                            conflict,
                            strategy: s.ai_strategy,
                            config: OpenAiConfigView {
                                base_url: text::trimmed(s.openai_base_url_input),
                                model: text::trimmed(s.openai_model_input),
                                api_key: text::trimmed(s.openai_api_key_input),
                            },
                        },
                    )
                },
            }
        },
    }
}

/// The state with a suggestion at hand, ready to be edited.
pub open spec fn suggested(s: AppView, suggestion: AiSuggestionView) -> AppView {
    AppView { ai_edited_text: suggestion.resolved_text, ai_suggestion: Some(suggestion), ..s }
}

/// The state once the remote agent was asked for its answer.
pub open spec fn polled(s: AppView, poll: AiPollView) -> AppView {
    if !s.ai_request_in_flight {
        s
    } else {
        let t = AppView { ai_request_in_flight: false, ..s };
        match poll {
            AiPollView::Waiting => s,
            AiPollView::Answered { suggestion } => with_status(
                suggested(t, suggestion),
                "Remote AI suggestion ready"@,
            ),
            AiPollView::Failed { reason } => with_error(t, "Remote AI failed: "@ + reason),
            AiPollView::Disconnected => with_error(t, "Remote AI request disconnected"@),
        }
    }
}

/// Carries out an action of the command palette.
pub open spec fn palette(s: AppView, action: PaletteAction) -> (AppView, StepView) {
    match action {
        PaletteAction::RefreshRepositories => (s, scan_step(s, None)),
        PaletteAction::ReloadSelectedRepo => reloading(s, None),
        PaletteAction::StageAll => acting(s, RepoActionView::StageAll),
        PaletteAction::UnstageAll => acting(s, RepoActionView::UnstageAll),
        PaletteAction::Commit => committing(s),
        PaletteAction::Fetch => acting(s, RepoActionView::Fetch),
        PaletteAction::PullRebase => acting(s, RepoActionView::PullRebase),
        PaletteAction::Push => acting(s, RepoActionView::Push),
        PaletteAction::OpenTab(tab) => (AppView { active_tab: tab, ..s }, StepView::Idle),
    }
}

/// The key combinations that are carried out, in their order, given whether the
/// command key and the keys `K`, `R` and `Enter` are pressed. Without the
/// command key there are none.
pub open spec fn combinations(command: bool, k: bool, r: bool, enter: bool) -> Seq<Shortcut> {
    (if command && k {
        seq![Shortcut::OpenPalette]
    } else {
        Seq::empty()
    }) + (if command && r {
        seq![Shortcut::Refresh]
    } else {
        Seq::empty()
    }) + (if command && enter {
        seq![Shortcut::Commit]
    } else {
        Seq::empty()
    })
}

/// The key combinations that are carried out, given which keys are pressed.
pub fn shortcuts_pressed(command: bool, k: bool, r: bool, enter: bool) -> (s: Vec<Shortcut>)
    ensures
        s@ == combinations(command, k, r, enter),
        !command ==> s@.len() == 0,
{
    let mut s: Vec<Shortcut> = Vec::new();
    if command && k {
        s.push(Shortcut::OpenPalette);
    }
    if command && r {
        s.push(Shortcut::Refresh);
    }
    if command && enter {
        s.push(Shortcut::Commit);
    }
    assert(s@ =~= combinations(command, k, r, enter));
    s
}

/// Carries out a key combination.
pub open spec fn pressed(s: AppView, shortcut: Shortcut) -> (AppView, StepView) {
    match shortcut {
        Shortcut::OpenPalette => (AppView { command_palette_open: true, ..s }, StepView::Idle),
        Shortcut::Refresh => (s, scan_step(s, Some("Refreshed repositories"@))),
        Shortcut::Commit => committing(s),
    }
}

impl GitControlApp {
    /// The state at the start, with the directory to look for repositories in
    /// and the key for the remote agent filled in.
    pub fn new(default_root: &str, api_key: &str) -> (r: GitControlApp)
        ensures
            r@ == initial_state(default_root@, api_key@),
            consistent(r@),
    {
        let repositories: Vec<RepoSummary> = Vec::new();
        assert(repositories.deep_view() =~= Seq::<RepoSummaryView>::empty());
        GitControlApp {
            repo_root_input: default_root.to_owned(),
            manual_repo_input: String::new(),
            repositories,
            selected_repo: None,
            snapshot: None,
            active_tab: WorkTab::Changes,
            commit_message: String::new(),
            branch_name_input: String::new(),
            changes_filter: String::new(),
            selected_change: None,
            selected_commit: None,
            selected_branch: None,
            selected_conflict: None,
            selected_recovery: None,
            ai_strategy: ResolutionStrategy::SmartBlend,
            ai_provider: AiProvider::LocalHeuristic,
            ai_suggestion: None,
            ai_edited_text: String::new(),
            ai_request_in_flight: false,
            openai_api_key_input: api_key.to_owned(),
            openai_model_input: "gpt-4.1-mini".to_owned(),
            openai_base_url_input: "https://api.openai.com/v1".to_owned(),
            pending_reset_to: None,
            sync_output: String::new(),
            command_palette_open: false,
            command_palette_query: String::new(),
            status_line: "Ready".to_owned(),
            status_is_error: false,
        }
    }

    /// Shows a status that tells of no failure.
    pub fn set_status(&mut self, message: String)
        ensures
            final(self)@ == with_status(old(self)@, message@),
    {
        self.status_line = message;
        self.status_is_error = false;
    }

    /// Shows a status that tells of a failure.
    pub fn set_error(&mut self, message: String)
        ensures
            final(self)@ == with_error(old(self)@, message@),
    {
        self.status_line = message;
        self.status_is_error = true;
    }

    /// Shows a status, where there is one to announce.
    fn announce(&mut self, message: Option<String>)
        ensures
            final(self)@ == announced(old(self)@, message.deep_view()),
    {
        if let Some(told) = message {
            self.set_status(told);
        }
    }

    /// Forgets what was selected in the repository, the suggestion at hand and
    /// the reset that was armed.
    pub fn clear_selection_context(&mut self)
        ensures
            final(self)@ == selection_cleared(old(self)@),
    {
        self.selected_change = None;
        self.selected_commit = None;
        self.selected_branch = None;
        self.selected_conflict = None;
        self.selected_recovery = None;
        self.ai_suggestion = None;
        self.ai_edited_text = String::new();
        self.pending_reset_to = None;
    }

    /// The path of the selected repository.
    pub fn selected_repo_path(&self) -> (r: Option<RepoPath>)
        ensures
            r.deep_view() == selected_path(self@),
    {
        match self.selected_repo {
            Some(i) => if i < self.repositories.len() {
                assert(self@.repositories[i as int] == self.repositories@[i as int].deep_view());
                Some(self.repositories[i].path.clone())
            } else {
                None
            },
            None => None,
        }
    }

    /// A copy of what is known of the selected repository.
    pub fn snapshot_cloned(&self) -> (r: Option<RepoSnapshot>)
        ensures
            r.deep_view() == self@.snapshot,
    {
        match &self.snapshot {
            Some(snapshot) => Some(snapshot.clone()),
            None => None,
        }
    }

    /// Sets out to look for repositories under the directory that was typed.
    pub fn refresh_repositories(&self) -> (r: Step)
        ensures
            r.deep_view() == scan_step(self@, None),
    {
        Step::Scan {
            root: text::trim(self.repo_root_input.as_str()),
            depth: SCAN_DEPTH,
            announce: None,
        }
    }

    /// Sets out to read the selected repository again, and to announce a status
    /// then, if there is one.
    pub fn refresh_selected_repo_snapshot(&mut self, announce: Option<String>) -> (r: Step)
        ensures
            (final(self)@, r.deep_view()) == reloading(old(self)@, announce.deep_view()),
    {
        match self.selected_repo_path() {
            Some(path) => Step::LoadSnapshot { repo: path, announce },
            None => {
                self.snapshot = None;
                self.announce(announce);
                Step::Idle
            },
        }
    }

    /// Takes in what was read of the selected repository, and announces a
    /// status, if there is one.
    pub fn snapshot_loaded(
        &mut self,
        loaded: Result<RepoSnapshot, String>,
        announce: Option<String>,
    )
        ensures
            final(self)@ == reloaded(
                old(self)@,
                effects::outcome_view(loaded),
                announce.deep_view(),
            ),
    {
        match loaded {
            Ok(snapshot) => {
                if let Some(i) = self.selected_repo {
                    if i < self.repositories.len() {
                        let ghost before = self.repositories.deep_view();
                        let summary = snapshot.summary.clone();
                        self.repositories.set(i, summary);
                        assert(self.repositories.deep_view() =~= before.update(
                            i as int,
                            snapshot.summary.deep_view(),
                        ));
                    }
                }
                self.snapshot = Some(snapshot);
                self.clear_selection_context();
            },
            Err(reason) => {
                self.snapshot = None;
                self.set_error(text::join2("Failed to load repository: ", reason.as_str()));
            },
        }
        self.announce(announce);
    }

    /// Takes in the repositories that were found under a directory, or that the
    /// directory does not exist.
    pub fn repositories_scanned(
        &mut self,
        root: &str,
        found: Option<Vec<RepoSummary>>,
        announce: Option<String>,
    ) -> (r: Step)
        ensures
            (final(self)@, r.deep_view()) == scanned(
                old(self)@,
                root@,
                found.deep_view(),
                announce.deep_view(),
            ),
    {
        match found {
            None => {
                self.set_error(text::join2("Path does not exist: ", root));
                self.announce(announce);
                Step::Idle
            },
            Some(summaries) => {
                let listed = stable_sort(summaries);
                let count: usize = listed.len();
                self.repositories = listed;
                if count == 0 {
                    self.selected_repo = None;
                    self.snapshot = None;
                    self.set_status(text::join2("No git repositories found in ", root));
                    self.announce(announce);
                    return Step::Idle;
                }
                let keep = match self.selected_repo {
                    Some(i) => i < count,
                    None => false,
                };
                if !keep {
                    self.selected_repo = Some(0);
                }
                let told = match announce {
                    Some(told) => told,
                    None => {
                        let number = text::decimal_text(count);
                        let ending = if count == 1 {
                            "y"
                        } else {
                            "ies"
                        };
                        let mut told = text::join4("Found ", number.as_str(), " repositor", ending);
                        told.append(" in ");
                        told.append(root);
                        told
                    },
                };
                self.refresh_selected_repo_snapshot(Some(told))
            },
        }
    }

    /// Sets out to add the repository at the path that was typed.
    pub fn add_typed_repository(&self) -> (r: Step)
        ensures
            r.deep_view() == (StepView::Add { typed: text::trimmed(self@.manual_repo_input) }),
    {
        Step::Add { typed: text::trim(self.manual_repo_input.as_str()) }
    }

    /// Takes in a repository to add, or that there is none.
    pub fn add_repository(&mut self, outcome: AddOutcome) -> (r: Step)
        ensures
            (final(self)@, r.deep_view()) == added(old(self)@, outcome.deep_view()),
    {
        match outcome {
            AddOutcome::Missing { path } => {
                self.set_error(text::join2("Path does not exist: ", path.as_str()));
                Step::Idle
            },
            AddOutcome::NotFound { reason } => {
                self.set_error(text::join2("No existing repository found: ", reason.as_str()));
                Step::Idle
            },
            AddOutcome::Invalid { reason } => {
                self.set_error(text::join2("Not a valid git repository: ", reason.as_str()));
                Step::Idle
            },
            AddOutcome::Found { summary, root } => {
                let mut all: Vec<RepoSummary> = Vec::new();
                std::mem::swap(&mut all, &mut self.repositories);
                let ghost before = all.deep_view();
                all.push(summary);
                assert(all.deep_view() =~= before.push(summary.deep_view()));
                self.repositories = stable_sort(all);
                let selected = find_repository(&self.repositories, &root);
                self.selected_repo = Some(selected);
                self.refresh_selected_repo_snapshot(
                    Some(text::join2("Added repository: ", root.text.as_str())),
                )
            },
        }
    }

    /// Sets out to carry out an operation on the selected repository.
    pub fn run_repo_action(&mut self, action: RepoAction) -> (r: Step)
        ensures
            (final(self)@, r.deep_view()) == acting(old(self)@, action.deep_view()),
    {
        match self.selected_repo_path() {
            Some(path) => Step::Perform { repo: path, action },
            None => {
                self.set_error("No repository selected".to_owned());
                Step::Idle
            },
        }
    }

    /// Takes in what came of an operation: what it returned, or why it failed.
    pub fn repo_action_finished(
        &mut self,
        action: &RepoAction,
        outcome: Result<String, String>,
    ) -> (r: Step)
        ensures
            (final(self)@, r.deep_view()) == acted(
                old(self)@,
                action.deep_view(),
                effects::outcome_view(outcome),
            ),
    {
        match outcome {
            Ok(returned) => {
                let told = action.success_text(returned.as_str());
                match action {
                    RepoAction::Commit { .. } => {
                        self.commit_message = String::new();
                    },
                    RepoAction::Fetch | RepoAction::PullRebase | RepoAction::Push => {
                        self.sync_output = returned;
                    },
                    _ => {},
                }
                self.refresh_selected_repo_snapshot(Some(told))
            },
            Err(reason) => {
                self.set_error(action.failure_text(reason.as_str()));
                Step::Idle
            },
        }
    }

    /// Sets out to commit, with the message that was typed.
    pub fn commit(&mut self) -> (r: Step)
        ensures
            (final(self)@, r.deep_view()) == committing(old(self)@),
    {
        let message = text::trim(self.commit_message.as_str());
        if message.as_str().is_empty() {
            self.set_error("Commit message cannot be empty".to_owned());
            return Step::Idle;
        }
        self.run_repo_action(RepoAction::Commit { message })
    }

    /// Sets out to make a branch, with the name that was typed.
    pub fn create_branch(&mut self) -> (r: Step)
        ensures
            (final(self)@, r.deep_view()) == branching(old(self)@),
    {
        let name = text::trim(self.branch_name_input.as_str());
        if name.as_str().is_empty() {
            self.set_error("Branch name cannot be empty".to_owned());
            return Step::Idle;
        }
        let step = self.run_repo_action(RepoAction::CreateBranch { name });
        self.branch_name_input = String::new();
        step
    }

    /// The file in conflict that is selected, or what stands in the way.
    fn selected_conflict_entry(&self) -> (r: Result<&ConflictEntry, &'static str>)
        ensures
            match r {
                Ok(conflict) => chosen_conflict(self@) == Ok::<ConflictEntryView, Seq<char>>(
                    conflict.deep_view(),
                ),
                Err(reason) => chosen_conflict(self@) == Err::<ConflictEntryView, Seq<char>>(
                    reason@,
                ),
            },
    {
        match &self.snapshot {
            None => Err("No repository loaded"),
            Some(snapshot) => match self.selected_conflict {
                None => Err("Select a conflict file first"),
                Some(i) => if i < snapshot.conflicts.len() {
                    assert(snapshot.deep_view().conflicts[i as int]
                        == snapshot.conflicts@[i as int].deep_view());
                    Ok(&snapshot.conflicts[i])
                } else {
                    Err("Conflict selection is out of range")
                },
            },
        }
    }

    /// Sets out to take over the suggested text, as edited.
    pub fn apply_ai_resolution(&mut self) -> (r: Step)
        ensures
            (final(self)@, r.deep_view()) == resolving(old(self)@),
    {
        let path = match self.selected_conflict_entry() {
            Ok(conflict) => conflict.path.clone(),
            Err(reason) => {
                let told = reason.to_owned();
                self.set_error(told);
                return Step::Idle;
            },
        };
        if self.ai_suggestion.is_none() {
            self.set_error("Generate an AI suggestion first".to_owned());
            return Step::Idle;
        }
        if contains_conflict_markers(self.ai_edited_text.as_str()) {
            self.set_error("Resolved text still contains conflict markers".to_owned());
            return Step::Idle;
        }
        let resolved = self.ai_edited_text.clone();
        self.run_repo_action(RepoAction::ApplyResolution { path, resolved })
    }

    /// Sets out to get a suggestion for the selected file in conflict.
    pub fn request_ai_suggestion(&mut self) -> (r: Step)
        ensures
            (final(self)@, r.deep_view()) == suggesting(old(self)@),
    {
        let conflict = match self.selected_conflict_entry() {
            Ok(conflict) => conflict.clone(),
            Err(reason) => {
                let told = reason.to_owned();
                self.set_error(told);
                return Step::Idle;
            },
        };
        self.ai_suggestion = None;
        let strategy = self.ai_strategy;
        match self.ai_provider {
            AiProvider::LocalHeuristic => Step::SuggestLocally {
                content: conflict.content,
                strategy,
            },
            AiProvider::OpenAi => {
                let api_key = text::trim(self.openai_api_key_input.as_str());
                if api_key.as_str().is_empty() {
                    self.set_error("Set OpenAI API key before remote suggestion".to_owned());
                    return Step::Idle;
                }
                if self.ai_request_in_flight {
                    self.set_status("AI request already in progress".to_owned());
                    return Step::Idle;
                }
                let config = OpenAiConfig {
                    base_url: text::trim(self.openai_base_url_input.as_str()),
                    model: text::trim(self.openai_model_input.as_str()),
                    api_key,
                };
                self.ai_request_in_flight = true;
                self.set_status("Generating remote AI suggestion...".to_owned());
                Step::SuggestRemotely { conflict, strategy, config }
            },
        }
    }

    /// Takes in the suggestion of the local agent.
    pub fn local_suggestion(&mut self, suggestion: AiSuggestion)
        ensures
            final(self)@ == with_status(
                suggested(old(self)@, suggestion.deep_view()),
                "Generated local AI suggestion"@,
            ),
    {
        self.ai_edited_text = suggestion.resolved_text.clone();
        self.ai_suggestion = Some(suggestion);
        self.set_status("Generated local AI suggestion".to_owned());
    }

    /// Takes in what the remote agent has answered so far.
    pub fn poll_ai_request(&mut self, poll: AiPoll)
        ensures
            final(self)@ == polled(old(self)@, poll.deep_view()),
    {
        if !self.ai_request_in_flight {
            return;
        }
        match poll {
            AiPoll::Waiting => {},
            AiPoll::Answered { suggestion } => {
                self.ai_request_in_flight = false;
                self.ai_edited_text = suggestion.resolved_text.clone();
                self.ai_suggestion = Some(suggestion);
                self.set_status("Remote AI suggestion ready".to_owned());
            },
            AiPoll::Failed { reason } => {
                self.ai_request_in_flight = false;
                self.set_error(text::join2("Remote AI failed: ", reason.as_str()));
            },
            AiPoll::Disconnected => {
                self.ai_request_in_flight = false;
                self.set_error("Remote AI request disconnected".to_owned());
            },
        }
    }

    /// Carries out an action of the command palette.
    pub fn perform_palette_action(&mut self, action: PaletteAction) -> (r: Step)
        ensures
            (final(self)@, r.deep_view()) == palette(old(self)@, action),
    {
        match action {
            PaletteAction::RefreshRepositories => self.refresh_repositories(),
            PaletteAction::ReloadSelectedRepo => self.refresh_selected_repo_snapshot(None),
            PaletteAction::StageAll => self.run_repo_action(RepoAction::StageAll),
            PaletteAction::UnstageAll => self.run_repo_action(RepoAction::UnstageAll),
            PaletteAction::Commit => self.commit(),
            PaletteAction::Fetch => self.run_repo_action(RepoAction::Fetch),
            PaletteAction::PullRebase => self.run_repo_action(RepoAction::PullRebase),
            PaletteAction::Push => self.run_repo_action(RepoAction::Push),
            PaletteAction::OpenTab(tab) => {
                self.active_tab = tab;
                Step::Idle
            },
        }
    }

    /// Carries out a key combination.
    pub fn handle_shortcut(&mut self, shortcut: Shortcut) -> (r: Step)
        ensures
            (final(self)@, r.deep_view()) == pressed(old(self)@, shortcut),
    {
        match shortcut {
            Shortcut::OpenPalette => {
                self.command_palette_open = true;
                Step::Idle
            },
            Shortcut::Refresh => Step::Scan {
                root: text::trim(self.repo_root_input.as_str()),
                depth: SCAN_DEPTH,
                announce: Some("Refreshed repositories".to_owned()),
            },
            Shortcut::Commit => self.commit(),
        }
    }
}

proof fn lemma_position(repositories: Seq<RepoSummaryView>, path: RepoPathView, at: int)
    requires
        0 <= at < repositories.len(),
        repositories[at].path.parts == path.parts,
        forall|k: int| 0 <= k < at ==> (#[trigger] repositories[k]).path.parts != path.parts,
    ensures
        position_of(repositories, path) == at,
    decreases at,
{
    assert(lists_repo(repositories, path));
    if at > 0 {
        assert(repositories[0].path.parts != path.parts);
        lemma_position(repositories.drop_first(), path, at - 1);
    }
}

/// The position of the first repository with the given path; zero where there
/// is none.
fn find_repository(repositories: &Vec<RepoSummary>, path: &RepoPath) -> (r: usize)
    ensures
        r == position_of(repositories.deep_view(), path.deep_view()),
{
    let ghost all = repositories.deep_view();
    let mut i: usize = 0;
    while i < repositories.len()
        invariant
            i <= repositories@.len(),
            all == repositories.deep_view(),
            forall|k: int|
                0 <= k < i ==> (#[trigger] all[k]).path.parts != path.deep_view().parts,
        decreases repositories@.len() - i,
    {
        assert(all[i as int] == repositories@[i as int].deep_view());
        if repositories[i].path.same(path) {
            proof {
                lemma_position(all, path.deep_view(), i as int);
            }
            return i;
        }
        i += 1;
    }
    assert(!lists_repo(all, path.deep_view()));
    0
}

}
