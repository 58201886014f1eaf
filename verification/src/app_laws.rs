//! What each click, key and report does to the application, said of the state
//! before and after it.
use vstd::prelude::*;
use vstd::string::*;

use crate::actions::{AiProvider, PaletteAction, WorkTab};
use crate::app;
use crate::app::AppView;
use crate::clicks;
use crate::clicks::ClickView;
use crate::effects;
use crate::effects::{AddOutcomeView, AiPollView, RepoActionView, Shortcut, StepView};
use crate::git_error;
use crate::git_error::GitError;
use crate::laws;
use crate::laws::Event;
use crate::model::{
    AiSuggestionView, ConflictEntryView, OpenAiConfigView, RepoSnapshotView, RepoSummary,
    RepoSummaryView, ResolutionStrategy,
};
use crate::paths::{RepoPath, RepoPathView};
use crate::sort;
use crate::text;
use crate::text_laws;

verus! {

// Conflicts.

/// Whatever happens, no text that is taken over has the character `<`, `=` or
/// `>` seven times in a row, at any position; and it is the text that was edited.
pub proof fn law_no_marked_text_is_taken_over(s: AppView, event: Event, at: int)
    ensures
        laws::happened(s, event).1 matches StepView::Perform {
            action: RepoActionView::ApplyResolution { path, resolved },
            ..
        } ==> {
            &&& resolved == s.ai_edited_text
            &&& 0 <= at <= resolved.len() - 7 && (resolved[at] == '<' || resolved[at] == '='
                || resolved[at] == '>') ==> exists|k: int|
                at < k < at + 7 && #[trigger] resolved[k] != resolved[at]
        },
{
    laws::law_resolution_is_guarded(s, event);
    app::law_markers_are_seven_in_a_row(s.ai_edited_text);
}

/// A text with the character `<`, `=` or `>` seven times in a row, at any
/// position, is not taken over. Nothing is done, and the status says why.
pub proof fn law_marked_text_is_refused(s: AppView, snapshot: RepoSnapshotView, i: usize, at: int)
    requires
        s.snapshot == Some(snapshot),
        s.selected_conflict == Some(i),
        i < snapshot.conflicts.len(),
        s.ai_suggestion is Some,
        0 <= at <= s.ai_edited_text.len() - 7,
        s.ai_edited_text[at] == '<' || s.ai_edited_text[at] == '=' || s.ai_edited_text[at] == '>',
        forall|k: int| at <= k < at + 7 ==> #[trigger] s.ai_edited_text[k] == s.ai_edited_text[at],
    ensures
        clicks::clicked(s, ClickView::ApplySuggestion) == (
            AppView {
                status_line: "Resolved text still contains conflict markers"@,
                status_is_error: true,
                ..s
            },
            StepView::Idle,
        ),
{
    app::law_markers_are_seven_in_a_row(s.ai_edited_text);
}

/// Any other text is taken over as it was edited, for the selected file of the
/// selected repository.
pub proof fn law_clean_text_is_taken_over(
    s: AppView,
    snapshot: RepoSnapshotView,
    i: usize,
    repo: usize,
)
    requires
        s.snapshot == Some(snapshot),
        s.selected_conflict == Some(i),
        i < snapshot.conflicts.len(),
        s.selected_repo == Some(repo),
        repo < s.repositories.len(),
        s.ai_suggestion is Some,
        forall|at: int|
            0 <= at <= s.ai_edited_text.len() - 7 && (#[trigger] s.ai_edited_text[at] == '<'
                || s.ai_edited_text[at] == '=' || s.ai_edited_text[at] == '>') ==> exists|k: int|
                at < k < at + 7 && #[trigger] s.ai_edited_text[k] != s.ai_edited_text[at],
    ensures
        clicks::clicked(s, ClickView::ApplySuggestion) == (
            s,
            StepView::Perform {
                repo: s.repositories[repo as int].path,
                action: RepoActionView::ApplyResolution {
                    path: snapshot.conflicts[i as int].path,
                    resolved: s.ai_edited_text,
                },
            },
        ),
{
    app::law_markers_are_seven_in_a_row(s.ai_edited_text);
}

/// Without a repository, a file or a suggestion there is nothing to take over,
/// and the status says which is missing; the same without a repository or a file
/// to get a suggestion for.
pub proof fn law_taking_over_needs_a_suggestion(s: AppView, snapshot: RepoSnapshotView, i: usize)
    ensures
        s.snapshot is None ==> {
            let refused = (
                AppView { status_line: "No repository loaded"@, status_is_error: true, ..s },
                StepView::Idle,
            );
            &&& clicks::clicked(s, ClickView::ApplySuggestion) == refused
            &&& clicks::clicked(s, ClickView::Suggest) == refused
        },
        s.snapshot is Some && s.selected_conflict is None ==> {
            let refused = (
                AppView {
                    status_line: "Select a conflict file first"@,
                    status_is_error: true,
                    ..s
                },
                StepView::Idle,
            );
            &&& clicks::clicked(s, ClickView::ApplySuggestion) == refused
            &&& clicks::clicked(s, ClickView::Suggest) == refused
        },
        s.snapshot == Some(snapshot) && s.selected_conflict == Some(i) && i
            >= snapshot.conflicts.len() ==> {
            let refused = (
                AppView {
                    status_line: "Conflict selection is out of range"@,
                    status_is_error: true,
                    ..s
                },
                StepView::Idle,
            );
            &&& clicks::clicked(s, ClickView::ApplySuggestion) == refused
            &&& clicks::clicked(s, ClickView::Suggest) == refused
        },
        s.snapshot == Some(snapshot) && s.selected_conflict == Some(i) && i
            < snapshot.conflicts.len() && s.ai_suggestion is None ==> clicks::clicked(
            s,
            ClickView::ApplySuggestion,
        ) == (
            AppView {
                status_line: "Generate an AI suggestion first"@,
                status_is_error: true,
                ..s
            },
            StepView::Idle,
        ),
{
}

/// The local agent gets the content of the selected file and the strategy that
/// is chosen; the suggestion there was is forgotten.
pub proof fn law_local_agent_gets_the_content(s: AppView, snapshot: RepoSnapshotView, i: usize)
    requires
        s.snapshot == Some(snapshot),
        s.selected_conflict == Some(i),
        i < snapshot.conflicts.len(),
        s.ai_provider == AiProvider::LocalHeuristic,
    ensures
        clicks::clicked(s, ClickView::Suggest) == (
            AppView { ai_suggestion: None, ..s },
            StepView::SuggestLocally {
                content: snapshot.conflicts[i as int].content,
                strategy: s.ai_strategy,
            },
        ),
{
}

/// The remote agent is asked exactly when there is a key and no request runs. A
/// key of white space is none.
pub proof fn law_remote_agent_needs_a_key(s: AppView, snapshot: RepoSnapshotView, i: usize)
    requires
        s.snapshot == Some(snapshot),
        s.selected_conflict == Some(i),
        i < snapshot.conflicts.len(),
        s.ai_provider == AiProvider::OpenAi,
    ensures
        ({
            let result = clicks::clicked(s, ClickView::Suggest);
            let has_key = exists|k: int|
                0 <= k < s.openai_api_key_input.len() && !text::white_space(
                    #[trigger] s.openai_api_key_input[k],
                );
            &&& !has_key ==> result == (
                AppView {
                    ai_suggestion: None,
                    status_line: "Set OpenAI API key before remote suggestion"@,
                    status_is_error: true,
                    ..s
                },
                StepView::Idle,
            )
            &&& has_key && s.ai_request_in_flight ==> result == (
                AppView {
                    ai_suggestion: None,
                    status_line: "AI request already in progress"@,
                    status_is_error: false,
                    ..s
                },
                StepView::Idle,
            )
            &&& has_key && !s.ai_request_in_flight ==> result == (
                AppView {
                    ai_suggestion: None,
                    ai_request_in_flight: true,
                    status_line: "Generating remote AI suggestion..."@,
                    status_is_error: false,
                    ..s
                },
                StepView::SuggestRemotely {
                    conflict: snapshot.conflicts[i as int],
                    strategy: s.ai_strategy,
                    config: OpenAiConfigView {
                        base_url: text::trimmed(s.openai_base_url_input),
                        model: text::trimmed(s.openai_model_input),
                        api_key: text::trimmed(s.openai_api_key_input),
                    },
                },
            )
        }),
{
    lemma_empty_when_white(s.openai_api_key_input);
}

proof fn lemma_empty_when_white(s: Seq<char>)
    ensures
        text::trimmed(s).len() > 0 <==> exists|k: int|
            0 <= k < s.len() && !text::white_space(#[trigger] s[k]),
{
    let (i, j) = text_laws::law_trimming_takes_the_ends_off(s);
    if i < j {
        assert(!text::white_space(s[i]));
    }
}

/// A suggestion that arrives is at hand and is what there is to edit. The remote
/// agent's answer counts only while it owes one, and ends the request; so do its
/// failures, which are told.
pub proof fn law_answers_end_the_request(
    s: AppView,
    suggestion: AiSuggestionView,
    reason: Seq<char>,
    poll: AiPollView,
)
    ensures
        laws::happened(s, Event::Suggested { suggestion }) == (
            AppView {
                ai_suggestion: Some(suggestion),
                ai_edited_text: suggestion.resolved_text,
                status_line: "Generated local AI suggestion"@,
                status_is_error: false,
                ..s
            },
            StepView::Idle,
        ),
        !s.ai_request_in_flight ==> app::polled(s, poll) == s,
        app::polled(s, AiPollView::Waiting) == s,
        s.ai_request_in_flight ==> {
            &&& app::polled(s, AiPollView::Answered { suggestion }) == AppView {
                ai_request_in_flight: false,
                ai_suggestion: Some(suggestion),
                ai_edited_text: suggestion.resolved_text,
                status_line: "Remote AI suggestion ready"@,
                status_is_error: false,
                ..s
            }
            &&& app::polled(s, AiPollView::Failed { reason }) == AppView {
                ai_request_in_flight: false,
                status_line: "Remote AI failed: "@ + reason,
                status_is_error: true,
                ..s
            }
            &&& app::polled(s, AiPollView::Disconnected) == AppView {
                ai_request_in_flight: false,
                status_line: "Remote AI request disconnected"@,
                status_is_error: true,
                ..s
            }
        },
{
}

/// Going to a file in conflict opens the pane of conflicts and selects the first
/// conflict in that file, if there is one; nothing else changes.
pub proof fn law_resolving_goes_to_the_first_conflict(
    s: AppView,
    snapshot: RepoSnapshotView,
    path: Seq<char>,
)
    requires
        s.snapshot == Some(snapshot),
        snapshot.conflicts.len() <= usize::MAX,
    ensures
        ({
            let (t, step) = clicks::clicked(s, ClickView::ResolveChange { path });
            &&& step is Idle
            &&& t == AppView {
                active_tab: WorkTab::Conflicts,
                selected_conflict: t.selected_conflict,
                ..s
            }
            &&& match t.selected_conflict {
                Some(i) => {
                    &&& i < snapshot.conflicts.len()
                    &&& snapshot.conflicts[i as int].path == path
                    &&& forall|k: int| 0 <= k < i ==> (#[trigger] snapshot.conflicts[k]).path != path
                },
                None => forall|k: int|
                    0 <= k < snapshot.conflicts.len() ==> (#[trigger] snapshot.conflicts[k]).path
                        != path,
            }
        }),
{
    lemma_first_conflict(snapshot.conflicts, path);
}

proof fn lemma_first_conflict(conflicts: Seq<ConflictEntryView>, path: Seq<char>)
    requires
        conflicts.len() <= usize::MAX,
    ensures
        match clicks::conflict_position(conflicts, path) {
            Some(i) => {
                &&& i < conflicts.len()
                &&& conflicts[i as int].path == path
                &&& forall|k: int| 0 <= k < i ==> (#[trigger] conflicts[k]).path != path
            },
            None => forall|k: int|
                0 <= k < conflicts.len() ==> (#[trigger] conflicts[k]).path != path,
        },
    decreases conflicts.len(),
{
    if conflicts.len() > 0 {
        let front = conflicts.drop_last();
        lemma_first_conflict(front, path);
        assert forall|k: int| 0 <= k < front.len() implies (#[trigger] conflicts[k]).path
            == front[k].path by {}
    }
}

/// Without a repository, going to a file in conflict selects none.
pub proof fn law_resolving_without_repository(s: AppView, path: Seq<char>)
    requires
        s.snapshot is None,
    ensures
        clicks::clicked(s, ClickView::ResolveChange { path }) == (
            AppView { active_tab: WorkTab::Conflicts, selected_conflict: None, ..s },
            StepView::Idle,
        ),
{
}

/// Showing the conflicts selects the first one if none was selected, and puts
/// the suggestion at hand up for editing if nothing was edited. Without conflicts
/// it changes nothing.
pub proof fn law_showing_conflicts_selects_one(s: AppView, snapshot: RepoSnapshotView)
    ensures
        s.snapshot is None ==> clicks::conflicts_shown(s) == s,
        s.snapshot == Some(snapshot) && snapshot.conflicts.len() == 0 ==> clicks::conflicts_shown(s)
            == s,
        s.snapshot == Some(snapshot) && snapshot.conflicts.len() > 0 ==> {
            let t = clicks::conflicts_shown(s);
            &&& s.selected_conflict is Some ==> t.selected_conflict == s.selected_conflict
            &&& s.selected_conflict is None ==> t.selected_conflict == Some(0usize)
            &&& t.ai_edited_text == (if s.ai_suggestion is Some && s.ai_edited_text.len() == 0
                && t.selected_conflict->0 < snapshot.conflicts.len() {
                s.ai_suggestion->0.resolved_text
            } else {
                s.ai_edited_text
            })
            &&& t == AppView {
                selected_conflict: t.selected_conflict,
                ai_edited_text: t.ai_edited_text,
                ..s
            }
        },
{
}

// Operations.

/// With a repository selected, each click and palette entry for an operation
/// sets out for exactly that operation on it and changes nothing yet.
pub proof fn law_operations_go_to_the_selected_repository(
    s: AppView,
    i: usize,
    path: Seq<char>,
    name: Seq<char>,
)
    requires
        s.selected_repo == Some(i),
        i < s.repositories.len(),
    ensures
        ({
            let repo = s.repositories[i as int].path;
            let closed = AppView { command_palette_open: false, ..s };
            &&& clicks::clicked(s, ClickView::StageAll) == (
                s,
                StepView::Perform { repo, action: RepoActionView::StageAll },
            )
            &&& clicks::clicked(s, ClickView::UnstageAll) == (
                s,
                StepView::Perform { repo, action: RepoActionView::UnstageAll },
            )
            &&& clicks::clicked(s, ClickView::StagePath { path }) == (
                s,
                StepView::Perform { repo, action: RepoActionView::StagePath { path } },
            )
            &&& clicks::clicked(s, ClickView::UnstagePath { path }) == (
                s,
                StepView::Perform { repo, action: RepoActionView::UnstagePath { path } },
            )
            &&& clicks::clicked(s, ClickView::CheckoutBranch { name }) == (
                s,
                StepView::Perform { repo, action: RepoActionView::CheckoutBranch { name } },
            )
            &&& clicks::clicked(s, ClickView::Fetch) == (
                s,
                StepView::Perform { repo, action: RepoActionView::Fetch },
            )
            &&& clicks::clicked(s, ClickView::PullRebase) == (
                s,
                StepView::Perform { repo, action: RepoActionView::PullRebase },
            )
            &&& clicks::clicked(s, ClickView::Push) == (
                s,
                StepView::Perform { repo, action: RepoActionView::Push },
            )
            &&& clicks::clicked(s, ClickView::Palette { action: PaletteAction::StageAll }) == (
                closed,
                StepView::Perform { repo, action: RepoActionView::StageAll },
            )
            &&& clicks::clicked(s, ClickView::Palette { action: PaletteAction::UnstageAll }) == (
                closed,
                StepView::Perform { repo, action: RepoActionView::UnstageAll },
            )
            &&& clicks::clicked(s, ClickView::Palette { action: PaletteAction::Fetch }) == (
                closed,
                StepView::Perform { repo, action: RepoActionView::Fetch },
            )
            &&& clicks::clicked(s, ClickView::Palette { action: PaletteAction::PullRebase }) == (
                closed,
                StepView::Perform { repo, action: RepoActionView::PullRebase },
            )
            &&& clicks::clicked(s, ClickView::Palette { action: PaletteAction::Push }) == (
                closed,
                StepView::Perform { repo, action: RepoActionView::Push },
            )
        }),
{
}

/// Without a repository selected, none of them does anything but say so.
pub proof fn law_operations_need_a_repository(s: AppView, action: RepoActionView, click: ClickView)
    requires
        s.selected_repo is None || s.selected_repo->0 >= s.repositories.len(),
    ensures
        click is StageAll || click is UnstageAll || click is StagePath || click is UnstagePath
            || click is CheckoutBranch || click is Fetch || click is PullRebase || click is Push
            ==> clicks::clicked(s, click) == (
            AppView { status_line: "No repository selected"@, status_is_error: true, ..s },
            StepView::Idle,
        ),
        app::acting(s, action) == (
            AppView { status_line: "No repository selected"@, status_is_error: true, ..s },
            StepView::Idle,
        ),
{
}

/// A commit is set out for exactly when something other than white space was
/// typed, with the text without the white space around it; by button, by palette
/// and by keys alike.
pub proof fn law_commit_sends_what_was_typed(s: AppView, i: usize)
    requires
        s.selected_repo == Some(i),
        i < s.repositories.len(),
    ensures
        ({
            let typed = exists|k: int|
                0 <= k < s.commit_message.len() && !text::white_space(
                    #[trigger] s.commit_message[k],
                );
            let result = clicks::clicked(s, ClickView::Commit);
            let chosen = clicks::clicked(s, ClickView::Palette { action: PaletteAction::Commit });
            &&& typed ==> result == (
                s,
                StepView::Perform {
                    repo: s.repositories[i as int].path,
                    action: RepoActionView::Commit { message: text::trimmed(s.commit_message) },
                },
            )
            &&& !typed ==> result == (
                AppView {
                    status_line: "Commit message cannot be empty"@,
                    status_is_error: true,
                    ..s
                },
                StepView::Idle,
            )
            &&& app::pressed(s, Shortcut::Commit) == result
            &&& chosen.1 == result.1
            &&& chosen.0 == AppView { command_palette_open: false, ..result.0 }
        }),
{
    lemma_empty_when_white(s.commit_message);
}

/// A branch is set out for exactly when something other than white space was
/// typed, under the name without the white space around it. The field for the
/// name is emptied then, and kept otherwise.
pub proof fn law_branch_gets_the_typed_name(s: AppView, i: usize)
    requires
        s.selected_repo == Some(i),
        i < s.repositories.len(),
    ensures
        ({
            let typed = exists|k: int|
                0 <= k < s.branch_name_input.len() && !text::white_space(
                    #[trigger] s.branch_name_input[k],
                );
            let result = clicks::clicked(s, ClickView::CreateBranch);
            &&& typed ==> result == (
                AppView { branch_name_input: Seq::empty(), ..s },
                StepView::Perform {
                    repo: s.repositories[i as int].path,
                    action: RepoActionView::CreateBranch {
                        name: text::trimmed(s.branch_name_input),
                    },
                },
            )
            &&& !typed ==> result == (
                AppView { status_line: "Branch name cannot be empty"@, status_is_error: true, ..s },
                StepView::Idle,
            )
        }),
{
    lemma_empty_when_white(s.branch_name_input);
}

/// Without a repository, commits and branches are refused as well.
pub proof fn law_commits_and_branches_need_a_repository(s: AppView)
    requires
        s.selected_repo is None || s.selected_repo->0 >= s.repositories.len(),
    ensures
        clicks::clicked(s, ClickView::Commit).1 is Idle,
        clicks::clicked(s, ClickView::Commit).0.status_is_error,
        text::trimmed(s.commit_message).len() > 0 ==> clicks::clicked(s, ClickView::Commit).0
            == (AppView { status_line: "No repository selected"@, status_is_error: true, ..s }),
        text::trimmed(s.branch_name_input).len() > 0 ==> clicks::clicked(s, ClickView::CreateBranch)
            == (
            AppView {
                branch_name_input: Seq::empty(),
                status_line: "No repository selected"@,
                status_is_error: true,
                ..s
            },
            StepView::Idle,
        ),
{
}

/// What is said of an operation that succeeded or failed.
pub proof fn law_operations_are_told_by_name(
    text1: Seq<char>,
    text2: Seq<char>,
    returned: Seq<char>,
    action: RepoActionView,
)
    ensures
        effects::success_status(RepoActionView::StageAll, returned) == "Staged all changes"@,
        effects::success_status(RepoActionView::UnstageAll, returned)
            == "Unstaged all changes"@,
        effects::success_status(RepoActionView::StagePath { path: text1 }, returned)
            == "Staged file"@,
        effects::success_status(RepoActionView::UnstagePath { path: text1 }, returned)
            == "Unstaged file"@,
        effects::success_status(RepoActionView::Commit { message: text1 }, returned)
            == "Committed "@ + returned,
        effects::success_status(RepoActionView::CreateBranch { name: text1 }, returned)
            == "Branch created and checked out"@,
        effects::success_status(RepoActionView::CheckoutBranch { name: text1 }, returned)
            == "Switched branch"@,
        effects::success_status(
            RepoActionView::ApplyResolution { path: text1, resolved: text2 },
            returned,
        ) == "Applied AI resolution and staged file"@,
        effects::success_status(RepoActionView::ResetTo { oid: text1 }, returned)
            == "Reset repository to selected reflog entry"@,
        effects::success_status(RepoActionView::Fetch, returned) == "Fetch completed"@,
        effects::success_status(RepoActionView::PullRebase, returned)
            == "Pull with rebase completed"@,
        effects::success_status(RepoActionView::Push, returned) == "Push completed"@,
        effects::failure_status(RepoActionView::Commit { message: text1 }, returned)
            == "Commit"@ + " failed: "@ + returned,
        !(action is Commit) ==> effects::failure_status(action, returned)
            == effects::success_status(action, returned) + " failed: "@ + returned,
{
}

/// After an operation that succeeded, the repository is read again, to tell of
/// the success. The message field is emptied after a commit and kept otherwise;
/// the output is shown after fetching, pulling and pushing and kept otherwise.
pub proof fn law_success_reads_the_repository_again(
    s: AppView,
    action: RepoActionView,
    returned: Seq<char>,
)
    ensures
        ({
            let (t, step) = app::acted(s, action, Ok(returned));
            let told = effects::success_status(action, returned);
            &&& action is Commit ==> t.commit_message.len() == 0
            &&& !(action is Commit) ==> t.commit_message == s.commit_message
            &&& action is Fetch || action is PullRebase || action is Push ==> t.sync_output
                == returned
            &&& !(action is Fetch || action is PullRebase || action is Push) ==> t.sync_output
                == s.sync_output
            &&& s.selected_repo is Some && s.selected_repo->0 < s.repositories.len() ==> {
                &&& step == (StepView::LoadSnapshot {
                    repo: s.repositories[s.selected_repo->0 as int].path,
                    announce: Some(told),
                })
                &&& t == AppView {
                    commit_message: t.commit_message,
                    sync_output: t.sync_output,
                    ..s
                }
            }
            &&& s.selected_repo is None || s.selected_repo->0 >= s.repositories.len() ==> {
                &&& step is Idle
                &&& t == AppView {
                    commit_message: t.commit_message,
                    sync_output: t.sync_output,
                    snapshot: None,
                    status_line: told,
                    status_is_error: false,
                    ..s
                }
            }
        }),
{
}

// Repositories.

/// Looking for repositories goes to the directory that was typed, six levels
/// deep, and changes nothing yet; by button, palette and keys.
pub proof fn law_scan_goes_six_deep(s: AppView)
    ensures
        ({
            let root = text::trimmed(s.repo_root_input);
            &&& clicks::clicked(s, ClickView::Refresh) == (
                s,
                StepView::Scan { root, depth: 6, announce: None },
            )
            &&& clicks::clicked(
                s,
                ClickView::Palette { action: PaletteAction::RefreshRepositories },
            ) == (
                AppView { command_palette_open: false, ..s },
                StepView::Scan { root, depth: 6, announce: None },
            )
            &&& app::pressed(s, Shortcut::Refresh) == (
                s,
                StepView::Scan { root, depth: 6, announce: Some("Refreshed repositories"@) },
            )
            &&& clicks::clicked(s, ClickView::AddRepo) == (
                s,
                StepView::Add { typed: text::trimmed(s.manual_repo_input) },
            )
        }),
{
}

/// Reloading reads the selected repository again; without one there is no
/// snapshot any more.
pub proof fn law_reload_reads_the_selected_repository(s: AppView)
    ensures
        s.selected_repo is Some && s.selected_repo->0 < s.repositories.len() ==> {
            let repo = s.repositories[s.selected_repo->0 as int].path;
            &&& clicks::clicked(s, ClickView::Reload) == (
                s,
                StepView::LoadSnapshot {
                    repo,
                    announce: Some("Reloaded selected repository"@),
                },
            )
            &&& clicks::clicked(
                s,
                ClickView::Palette { action: PaletteAction::ReloadSelectedRepo },
            ) == (
                AppView { command_palette_open: false, ..s },
                StepView::LoadSnapshot { repo, announce: None },
            )
        },
        s.selected_repo is None || s.selected_repo->0 >= s.repositories.len() ==> {
            &&& clicks::clicked(s, ClickView::Reload) == (
                AppView {
                    snapshot: None,
                    status_line: "Reloaded selected repository"@,
                    status_is_error: false,
                    ..s
                },
                StepView::Idle,
            )
            &&& clicks::clicked(
                s,
                ClickView::Palette { action: PaletteAction::ReloadSelectedRepo },
            ) == (
                AppView { command_palette_open: false, snapshot: None, ..s },
                StepView::Idle,
            )
        },
{
}

/// Selecting a repository that is not selected yet reads it; selecting the one
/// that is does nothing.
pub proof fn law_selecting_reads_the_repository(s: AppView, index: usize)
    requires
        index < s.repositories.len(),
    ensures
        s.selected_repo == Some(index) ==> clicks::clicked(s, ClickView::SelectRepo { index }) == (
            s,
            StepView::Idle,
        ),
        s.selected_repo != Some(index) ==> clicks::clicked(s, ClickView::SelectRepo { index }) == (
            AppView { selected_repo: Some(index), ..s },
            StepView::LoadSnapshot { repo: s.repositories[index as int].path, announce: None },
        ),
{
}

/// What a reading that succeeded leaves: the snapshot, its summary in the place
/// of the selected repository, and nothing selected, suggested or armed. Nothing
/// else changes but the status, where there is one to announce.
pub proof fn law_reading_replaces_the_snapshot(
    s: AppView,
    snapshot: RepoSnapshotView,
    announce: Option<Seq<char>>,
)
    ensures
        app::reloaded(s, Ok(snapshot), announce) == (AppView {
            repositories: if s.selected_repo is Some && s.selected_repo->0 < s.repositories.len() {
                s.repositories.update(s.selected_repo->0 as int, snapshot.summary)
            } else {
                s.repositories
            },
            snapshot: Some(snapshot),
            selected_change: None,
            selected_commit: None,
            selected_branch: None,
            selected_conflict: None,
            selected_recovery: None,
            ai_suggestion: None,
            ai_edited_text: Seq::empty(),
            pending_reset_to: None,
            status_line: if announce is Some {
                announce->0
            } else {
                s.status_line
            },
            status_is_error: announce is None && s.status_is_error,
            ..s
        }),
{
}

/// A reading that failed leaves no snapshot, and the status tells why unless
/// there is one to announce.
pub proof fn law_failed_reading_leaves_no_snapshot(
    s: AppView,
    reason: Seq<char>,
    announce: Option<Seq<char>>,
)
    ensures
        app::reloaded(s, Err(reason), announce) == (AppView {
            snapshot: None,
            status_line: if announce is Some {
                announce->0
            } else {
                "Failed to load repository: "@ + reason
            },
            status_is_error: announce is None,
            ..s
        }),
{
}

/// A scan of a directory that is not there, or that holds no repositories.
pub proof fn law_scan_without_repositories(
    s: AppView,
    root: Seq<char>,
    announce: Option<Seq<char>>,
)
    ensures
        app::scanned(s, root, None, announce) == (
            AppView {
                status_line: if announce is Some {
                    announce->0
                } else {
                    "Path does not exist: "@ + root
                },
                status_is_error: announce is None,
                ..s
            },
            StepView::Idle,
        ),
        app::scanned(s, root, Some(Seq::empty()), announce) == (
            AppView {
                repositories: Seq::empty(),
                selected_repo: None,
                snapshot: None,
                status_line: if announce is Some {
                    announce->0
                } else {
                    "No git repositories found in "@ + root
                },
                status_is_error: false,
                ..s
            },
            StepView::Idle,
        ),
{
}

/// After a scan the repositories found are listed by name, each as often as it
/// was found. The one in the place that was selected stays selected, else the
/// first is; it is read, and the status to come tells how many there are.
pub proof fn law_scan_selects_and_reads(
    s: AppView,
    root: Seq<char>,
    found: Seq<RepoSummaryView>,
    announce: Option<Seq<char>>,
)
    requires
        found.len() > 0,
    ensures
        ({
            let (t, step) = app::scanned(s, root, Some(found), announce);
            let place = if s.selected_repo is Some && s.selected_repo->0 < found.len() {
                s.selected_repo->0
            } else {
                0usize
            };
            let ending = if found.len() == 1 {
                "y"@
            } else {
                "ies"@
            };
            &&& t.repositories.to_multiset() == found.to_multiset()
            &&& t.repositories.len() == found.len()
            &&& forall|i: int, j: int|
                0 <= i < j < found.len() ==> text::text_le(
                    (#[trigger] t.repositories[i]).name,
                    (#[trigger] t.repositories[j]).name,
                )
            &&& t.selected_repo == Some(place)
            &&& t == AppView { repositories: t.repositories, selected_repo: t.selected_repo, ..s }
            &&& step == (StepView::LoadSnapshot {
                repo: t.repositories[place as int].path,
                announce: if announce is Some {
                    announce
                } else {
                    Some(
                        "Found "@ + text::decimal(found.len()) + " repositor"@ + ending + " in "@
                            + root,
                    )
                },
            })
        }),
{
    let le = sort::rank::<RepoSummary>();
    sort::lemma_rank::<RepoSummary>();
    sort::law_sorting_puts_in_order(found, le);
    let (t, step) = app::scanned(s, root, Some(found), announce);
    assert forall|i: int, j: int| 0 <= i < j < found.len() implies text::text_le(
        (#[trigger] t.repositories[i]).name,
        (#[trigger] t.repositories[j]).name,
    ) by {
        assert(le(t.repositories[i], t.repositories[j]));
    }
}

proof fn lemma_same_texts(a: Seq<char>, b: Seq<char>)
    ensures
        text::text_le(a, b) && text::text_le(b, a) <==> a == b,
    decreases a.len(),
{
    if a.len() > 0 && b.len() > 0 {
        lemma_same_texts(a.drop_first(), b.drop_first());
        assert(a =~= seq![a[0]] + a.drop_first());
        assert(b =~= seq![b[0]] + b.drop_first());
    } else if a.len() == 0 && b.len() == 0 {
        assert(a =~= b);
    }
}

/// Repositories of the same name stay in the order in which they were found, and
/// one that is added comes behind those that were listed.
pub proof fn law_same_names_keep_their_order(
    s: AppView,
    root: Seq<char>,
    found: Seq<RepoSummaryView>,
    announce: Option<Seq<char>>,
    one: RepoSummaryView,
    path: RepoPathView,
)
    requires
        found.len() > 0,
    ensures
        app::scanned(s, root, Some(found), announce).0.repositories.filter(
            |r: RepoSummaryView| r.name == one.name,
        ) == found.filter(|r: RepoSummaryView| r.name == one.name),
        app::added(
            s,
            AddOutcomeView::Found { summary: one, root: path },
        ).0.repositories.filter(|r: RepoSummaryView| r.name == one.name) == s.repositories.push(
            one,
        ).filter(|r: RepoSummaryView| r.name == one.name),
{
    let le = sort::rank::<RepoSummary>();
    let same = |r: RepoSummaryView| r.name == one.name;
    sort::lemma_rank::<RepoSummary>();
    sort::law_sorting_puts_in_order(found, le);
    assert forall|y: RepoSummaryView| #[trigger] same(y) == (le(one, y) && le(y, one)) by {
        lemma_same_texts(one.name, y.name);
    }
    sort::lemma_same_keep_order(found, one, le, same);
    sort::lemma_same_keep_order(s.repositories.push(one), one, le, same);
}

/// What came of adding a repository where there is none: only the status
/// changes, and it tells why.
pub proof fn law_adding_nothing_is_told(s: AppView, path: Seq<char>, reason: Seq<char>)
    ensures
        app::added(s, AddOutcomeView::Missing { path }) == (
            AppView { status_line: "Path does not exist: "@ + path, status_is_error: true, ..s },
            StepView::Idle,
        ),
        app::added(s, AddOutcomeView::NotFound { reason }) == (
            AppView {
                status_line: "No existing repository found: "@ + reason,
                status_is_error: true,
                ..s
            },
            StepView::Idle,
        ),
        app::added(s, AddOutcomeView::Invalid { reason }) == (
            AppView {
                status_line: "Not a valid git repository: "@ + reason,
                status_is_error: true,
                ..s
            },
            StepView::Idle,
        ),
{
}

proof fn lemma_first_repo(repositories: Seq<RepoSummaryView>, path: RepoPathView)
    ensures
        ({
            let at = app::position_of(repositories, path) as int;
            &&& (exists|i: int|
                0 <= i < repositories.len() && (#[trigger] repositories[i]).path.parts
                    == path.parts) ==> {
                &&& at < repositories.len()
                &&& repositories[at].path.parts == path.parts
                &&& forall|k: int|
                    0 <= k < at ==> (#[trigger] repositories[k]).path.parts != path.parts
            }
            &&& !(exists|i: int|
                0 <= i < repositories.len() && (#[trigger] repositories[i]).path.parts
                    == path.parts) ==> at == 0
        }),
    decreases repositories.len(),
{
    if app::lists_repo(repositories, path) {
        let i = choose|i: int|
            0 <= i < repositories.len() && (#[trigger] repositories[i]).path.parts == path.parts;
        if repositories[0].path.parts != path.parts {
            let rest = repositories.drop_first();
            assert(rest[i - 1].path.parts == path.parts);
            lemma_first_repo(rest, path);
            let at = app::position_of(rest, path) as int;
            assert(rest[at] == repositories[at + 1]);
            assert forall|k: int| 0 <= k < at + 1 implies (#[trigger] repositories[k]).path.parts
                != path.parts by {
                if k > 0 {
                    assert(rest[k - 1] == repositories[k]);
                }
            }
        }
    }
}

/// A repository that was added is listed with all that were, by name; the first
/// listed one with its path is selected and read, and nothing else changes.
pub proof fn law_adding_lists_and_selects(
    s: AppView,
    summary: RepoSummaryView,
    root: RepoPathView,
)
    requires
        s.repositories.len() < usize::MAX,
    ensures
        ({
            let (t, step) = app::added(s, AddOutcomeView::Found { summary, root });
            &&& t.repositories.to_multiset() == s.repositories.to_multiset().insert(summary)
            &&& t.repositories.len() == s.repositories.len() + 1
            &&& forall|i: int, j: int|
                0 <= i < j < t.repositories.len() ==> text::text_le(
                    (#[trigger] t.repositories[i]).name,
                    (#[trigger] t.repositories[j]).name,
                )
            &&& t.selected_repo matches Some(place)
            &&& place < t.repositories.len()
            &&& summary.path.parts == root.parts ==> {
                &&& t.repositories[place as int].path.parts == root.parts
                &&& forall|k: int|
                    0 <= k < place ==> (#[trigger] t.repositories[k]).path.parts != root.parts
            }
            &&& t == AppView { repositories: t.repositories, selected_repo: t.selected_repo, ..s }
            &&& step == (StepView::LoadSnapshot {
                repo: t.repositories[place as int].path,
                announce: Some("Added repository: "@ + root.text),
            })
        }),
{
    broadcast use vstd::seq_lib::group_to_multiset_ensures;

    let le = sort::rank::<RepoSummary>();
    let all = s.repositories.push(summary);
    sort::lemma_rank::<RepoSummary>();
    sort::law_sorting_puts_in_order(all, le);
    let (t, step) = app::added(s, AddOutcomeView::Found { summary, root });
    let listed = t.repositories;
    lemma_first_repo(listed, root);
    assert(all.to_multiset() == s.repositories.to_multiset().insert(summary));
    assert forall|i: int, j: int| 0 <= i < j < listed.len() implies text::text_le(
        (#[trigger] listed[i]).name,
        (#[trigger] listed[j]).name,
    ) by {
        assert(le(listed[i], listed[j]));
    }
    assert(all.last() == summary);
    assert(all.contains(summary));
    assert(listed.to_multiset().count(summary) > 0);
    assert(listed.contains(summary));
    let i = choose|i: int| 0 <= i < listed.len() && listed[i] == summary;
    assert(listed[i].path == summary.path);
}

/// What came of adding, from what was found at the path.
pub proof fn law_adding_reports_what_was_found(
    path: Seq<char>,
    root: RepoPath,
    summary: RepoSummary,
    error: GitError,
)
    ensures
        app::outcome_of_adding(path, None) == (AddOutcomeView::Missing { path }),
        app::outcome_of_adding(path, Some(Err(error))) == (AddOutcomeView::NotFound {
            reason: git_error::error_report(error),
        }),
        app::outcome_of_adding(path, Some(Ok((root, Err(error))))) == (AddOutcomeView::Invalid {
            reason: git_error::error_report(error),
        }),
        app::outcome_of_adding(path, Some(Ok((root, Ok(summary))))) == (AddOutcomeView::Found {
            summary: summary.deep_view(),
            root: root.deep_view(),
        }),
{
}

/// Repositories are looked for first on the desktop, where there is one, else in
/// the home directory, else where the application was started.
pub proof fn law_first_directory(home: Seq<char>, desktop: Seq<char>, current: Seq<char>)
    ensures
        forall|c: Option<Seq<char>>| #[trigger]
            app::default_root(Some(home), Some(desktop), c) == desktop,
        forall|c: Option<Seq<char>>| #[trigger] app::default_root(Some(home), None, c) == home,
        forall|d: Option<Seq<char>>| #[trigger]
            app::default_root(None, d, Some(current)) == current,
        forall|d: Option<Seq<char>>| #[trigger] app::default_root(None, d, None) == "."@,
{
}

/// At the start nothing is listed, selected, typed, suggested or armed; only the
/// directory, the key and the defaults for the remote agent are filled in.
pub proof fn law_start_is_empty(root: Seq<char>, api_key: Seq<char>)
    ensures
        ({
            let s = app::initial_state(root, api_key);
            &&& s.repo_root_input == root
            &&& s.openai_api_key_input == api_key
            &&& s.openai_model_input == "gpt-4.1-mini"@
            &&& s.openai_base_url_input == "https://api.openai.com/v1"@
            &&& s.status_line == "Ready"@
            &&& !s.status_is_error
            &&& s.active_tab == WorkTab::Changes
            &&& s.ai_provider == AiProvider::LocalHeuristic
            &&& s.ai_strategy == ResolutionStrategy::SmartBlend
            &&& s.repositories.len() == 0
            &&& s.selected_repo is None
            &&& s.snapshot is None
            &&& s.selected_change is None
            &&& s.selected_commit is None
            &&& s.selected_branch is None
            &&& s.selected_conflict is None
            &&& s.selected_recovery is None
            &&& s.ai_suggestion is None
            &&& s.pending_reset_to is None
            &&& !s.ai_request_in_flight
            &&& !s.command_palette_open
            &&& s.manual_repo_input.len() == 0
            &&& s.commit_message.len() == 0
            &&& s.branch_name_input.len() == 0
            &&& s.changes_filter.len() == 0
            &&& s.ai_edited_text.len() == 0
            &&& s.sync_output.len() == 0
            &&& s.command_palette_query.len() == 0
        }),
{
}

// Panes, selections, keys.

/// Each of these clicks changes the one thing that it names and does nothing
/// outside.
pub proof fn law_selections_change_one_thing(
    s: AppView,
    index: usize,
    tab: WorkTab,
    start: Seq<char>,
    provider: AiProvider,
    strategy: ResolutionStrategy,
)
    ensures
        clicks::clicked(s, ClickView::SelectChange { index }) == (
            AppView { selected_change: Some(index), ..s },
            StepView::Idle,
        ),
        clicks::clicked(s, ClickView::SelectCommit { index }) == (
            AppView { selected_commit: Some(index), ..s },
            StepView::Idle,
        ),
        clicks::clicked(s, ClickView::SelectBranch { index }) == (
            AppView { selected_branch: Some(index), ..s },
            StepView::Idle,
        ),
        clicks::clicked(s, ClickView::SelectConflict { index }) == (
            AppView {
                selected_conflict: Some(index),
                ai_suggestion: None,
                ai_edited_text: Seq::empty(),
                ..s
            },
            StepView::Idle,
        ),
        clicks::clicked(s, ClickView::SelectRecovery { index }) == (
            AppView { selected_recovery: Some(index), ..s },
            StepView::Idle,
        ),
        clicks::clicked(s, ClickView::OpenTab { tab }) == (
            AppView { active_tab: tab, ..s },
            StepView::Idle,
        ),
        clicks::clicked(s, ClickView::Palette { action: PaletteAction::OpenTab(tab) }) == (
            AppView { active_tab: tab, command_palette_open: false, ..s },
            StepView::Idle,
        ),
        clicks::clicked(s, ClickView::StartMessage { start }) == (
            AppView { commit_message: start, ..s },
            StepView::Idle,
        ),
        clicks::clicked(s, ClickView::SetProvider { provider }) == (
            AppView { ai_provider: provider, ..s },
            StepView::Idle,
        ),
        clicks::clicked(s, ClickView::SetStrategy { strategy }) == (
            AppView { ai_strategy: strategy, ..s },
            StepView::Idle,
        ),
        clicks::clicked(s, ClickView::ShowPalette) == (
            AppView { command_palette_open: true, ..s },
            StepView::Idle,
        ),
        app::pressed(s, Shortcut::OpenPalette) == (
            AppView { command_palette_open: true, ..s },
            StepView::Idle,
        ),
        clicks::clicked(s, ClickView::CopyPull) == (
            AppView { status_line: "Copied pull command"@, status_is_error: false, ..s },
            StepView::Copy { copied: "git pull --rebase"@ },
        ),
        clicks::clicked(s, ClickView::CopyPush) == (
            AppView { status_line: "Copied push command"@, status_is_error: false, ..s },
            StepView::Copy { copied: "git push"@ },
        ),
        clicks::clicked(s, ClickView::RestoreSuggestion) == (
            AppView {
                ai_edited_text: if s.ai_suggestion is Some {
                    s.ai_suggestion->0.resolved_text
                } else {
                    s.ai_edited_text
                },
                ..s
            },
            StepView::Idle,
        ),
{
}

/// A combination counts exactly when its key and the command key are pressed,
/// once, and they come in the order palette, refresh, commit.
pub proof fn law_keys_need_the_command_key(command: bool, k: bool, r: bool, enter: bool)
    ensures
        ({
            let keys = app::combinations(command, k, r, enter);
            &&& keys.contains(Shortcut::OpenPalette) <==> command && k
            &&& keys.contains(Shortcut::Refresh) <==> command && r
            &&& keys.contains(Shortcut::Commit) <==> command && enter
            &&& forall|i: int, j: int|
                0 <= i < j < keys.len() ==> #[trigger] keys[i] != #[trigger] keys[j] && (keys[i]
                    == Shortcut::OpenPalette || keys[j] == Shortcut::Commit)
        }),
{
    let keys = app::combinations(command, k, r, enter);
    if command && k {
        assert(keys[0] == Shortcut::OpenPalette);
    }
    if command && r {
        assert(keys[if k {
            1int
        } else {
            0int
        }] == Shortcut::Refresh);
    }
    if command && enter {
        assert(keys.last() == Shortcut::Commit);
    }
}

// Recovery.

/// Arming takes the commit that the selected log entry led to and says what to
/// do; confirming resets to it and disarms; without an armed reset to the
/// selected entry, confirming does nothing. Canceling disarms.
pub proof fn law_reset_goes_in_two_steps(
    s: AppView,
    snapshot: RepoSnapshotView,
    i: usize,
    repo: usize,
)
    requires
        s.snapshot == Some(snapshot),
        s.selected_recovery == Some(i),
        i < snapshot.recovery.len(),
        s.selected_repo == Some(repo),
        repo < s.repositories.len(),
    ensures
        ({
            let oid = snapshot.recovery[i as int].to_id;
            &&& s.pending_reset_to != Some(oid) ==> {
                let armed = AppView {
                    pending_reset_to: Some(oid),
                    status_line: "Reset armed. Click confirm to execute"@,
                    status_is_error: false,
                    ..s
                };
                &&& clicks::clicked(s, ClickView::ArmReset) == (armed, StepView::Idle)
                &&& clicks::clicked(s, ClickView::ConfirmReset) == (s, StepView::Idle)
                &&& clicks::clicked(armed, ClickView::ConfirmReset).1 == (StepView::Perform {
                    repo: s.repositories[repo as int].path,
                    action: RepoActionView::ResetTo { oid },
                })
            }
            &&& s.pending_reset_to == Some(oid) ==> {
                &&& clicks::clicked(s, ClickView::ArmReset) == (s, StepView::Idle)
                &&& clicks::clicked(s, ClickView::ConfirmReset) == (
                    AppView { pending_reset_to: None, ..s },
                    StepView::Perform {
                        repo: s.repositories[repo as int].path,
                        action: RepoActionView::ResetTo { oid },
                    },
                )
            }
            &&& clicks::clicked(s, ClickView::CancelReset) == (
                AppView {
                    pending_reset_to: None,
                    status_line: "Canceled recovery reset"@,
                    status_is_error: false,
                    ..s
                },
                StepView::Idle,
            )
        }),
{
}

/// Without a log entry selected there is nothing to arm or confirm.
pub proof fn law_reset_needs_an_entry(s: AppView)
    requires
        s.snapshot is None || s.selected_recovery is None || s.selected_recovery->0
            >= s.snapshot->0.recovery.len(),
    ensures
        clicks::clicked(s, ClickView::ArmReset) == (s, StepView::Idle),
        clicks::clicked(s, ClickView::ConfirmReset) == (s, StepView::Idle),
        clicks::clicked(s, ClickView::CancelReset) == (
            AppView {
                pending_reset_to: None,
                status_line: "Canceled recovery reset"@,
                status_is_error: false,
                ..s
            },
            StepView::Idle,
        ),
{
}

}
