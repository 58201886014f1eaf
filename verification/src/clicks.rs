//! What the user can click on, and what each click does.
use vstd::prelude::*;
use vstd::string::*;

use crate::actions::{AiProvider, PaletteAction, WorkTab};
use crate::app;
use crate::app::{AppView, GitControlApp};
use crate::effects::{RepoAction, RepoActionView, Step, StepView};
use crate::model::{
    ConflictEntry, ConflictEntryView, RecoveryEntry, RecoveryEntryView, ResolutionStrategy,
};
use crate::text;

verus! {

/// Something that was clicked.
#[derive(Debug, PartialEq, Eq)]
pub enum Click {
    /// Look for repositories again.
    Refresh,
    /// Read the selected repository again.
    Reload,
    /// Open the command palette.
    ShowPalette,
    /// Choose an action in the command palette.
    Palette { action: PaletteAction },
    /// Add the repository at the path that was typed.
    AddRepo,
    /// Select a repository.
    SelectRepo { index: usize },
    /// Open a pane.
    OpenTab { tab: WorkTab },
    /// Stage all changes.
    StageAll,
    /// Unstage all changes.
    UnstageAll,
    /// Stage one file.
    StagePath { path: String },
    /// Unstage one file.
    UnstagePath { path: String },
    /// Check a branch out.
    CheckoutBranch { name: String },
    /// Fetch all remotes.
    Fetch,
    /// Pull and put local commits on top.
    PullRebase,
    /// Push.
    Push,
    /// Commit, with the message that was typed.
    Commit,
    /// Start the commit message anew.
    StartMessage { start: String },
    /// Select a change.
    SelectChange { index: usize },
    /// Select a commit.
    SelectCommit { index: usize },
    /// Select a branch.
    SelectBranch { index: usize },
    /// Select a file in conflict.
    SelectConflict { index: usize },
    /// Select a log entry.
    SelectRecovery { index: usize },
    /// Go to a file in conflict.
    ResolveChange { path: String },
    /// Make a branch, with the name that was typed.
    CreateBranch,
    /// Copy the command that pulls.
    CopyPull,
    /// Copy the command that pushes.
    CopyPush,
    /// Choose who is asked for suggestions.
    SetProvider { provider: AiProvider },
    /// Choose how conflicts are to be resolved.
    SetStrategy { strategy: ResolutionStrategy },
    /// Ask for a suggestion.
    Suggest,
    /// Take over the suggested text, as edited.
    ApplySuggestion,
    /// Undo the edits of the suggested text.
    RestoreSuggestion,
    /// Arm a reset to the selected log entry.
    ArmReset,
    /// Carry out the reset that was armed.
    ConfirmReset,
    /// Disarm the reset.
    CancelReset,
}

/// What something that was clicked stands for.
pub enum ClickView {
    Refresh,
    Reload,
    ShowPalette,
    Palette { action: PaletteAction },
    AddRepo,
    SelectRepo { index: usize },
    OpenTab { tab: WorkTab },
    StageAll,
    UnstageAll,
    StagePath { path: Seq<char> },
    UnstagePath { path: Seq<char> },
    CheckoutBranch { name: Seq<char> },
    Fetch,
    PullRebase,
    Push,
    Commit,
    StartMessage { start: Seq<char> },
    SelectChange { index: usize },
    SelectCommit { index: usize },
    SelectBranch { index: usize },
    SelectConflict { index: usize },
    SelectRecovery { index: usize },
    ResolveChange { path: Seq<char> },
    CreateBranch,
    CopyPull,
    CopyPush,
    SetProvider { provider: AiProvider },
    SetStrategy { strategy: ResolutionStrategy },
    Suggest,
    ApplySuggestion,
    RestoreSuggestion,
    ArmReset,
    ConfirmReset,
    CancelReset,
}

impl DeepView for Click {
    type V = ClickView;

    open spec fn deep_view(&self) -> ClickView {
        match self {
            Click::Refresh => ClickView::Refresh,
            Click::Reload => ClickView::Reload,
            Click::ShowPalette => ClickView::ShowPalette,
            Click::Palette { action } => ClickView::Palette {
                action: *action,
            },
            Click::AddRepo => ClickView::AddRepo,
            Click::SelectRepo { index } => ClickView::SelectRepo {
                index: *index,
            },
            Click::OpenTab { tab } => ClickView::OpenTab {
                tab: *tab,
            },
            Click::StageAll => ClickView::StageAll,
            Click::UnstageAll => ClickView::UnstageAll,
            Click::StagePath { path } => ClickView::StagePath {
                path: path@,
            },
            Click::UnstagePath { path } => ClickView::UnstagePath {
                path: path@,
            },
            Click::CheckoutBranch { name } => ClickView::CheckoutBranch {
                name: name@,
            },
            Click::Fetch => ClickView::Fetch,
            Click::PullRebase => ClickView::PullRebase,
            Click::Push => ClickView::Push,
            Click::Commit => ClickView::Commit,
            Click::StartMessage { start } => ClickView::StartMessage {
                start: start@,
            },
            Click::SelectChange { index } => ClickView::SelectChange {
                index: *index,
            },
            Click::SelectCommit { index } => ClickView::SelectCommit {
                index: *index,
            },
            Click::SelectBranch { index } => ClickView::SelectBranch {
                index: *index,
            },
            Click::SelectConflict { index } => ClickView::SelectConflict {
                index: *index,
            },
            Click::SelectRecovery { index } => ClickView::SelectRecovery {
                index: *index,
            },
            Click::ResolveChange { path } => ClickView::ResolveChange {
                path: path@,
            },
            Click::CreateBranch => ClickView::CreateBranch,
            Click::CopyPull => ClickView::CopyPull,
            Click::CopyPush => ClickView::CopyPush,
            Click::SetProvider { provider } => ClickView::SetProvider {
                provider: *provider,
            },
            Click::SetStrategy { strategy } => ClickView::SetStrategy {
                strategy: *strategy,
            },
            Click::Suggest => ClickView::Suggest,
            Click::ApplySuggestion => ClickView::ApplySuggestion,
            Click::RestoreSuggestion => ClickView::RestoreSuggestion,
            Click::ArmReset => ClickView::ArmReset,
            Click::ConfirmReset => ClickView::ConfirmReset,
            Click::CancelReset => ClickView::CancelReset,
        }
    }
}

/// The position of the first conflict in the given file.
pub open spec fn conflict_position(conflicts: Seq<ConflictEntryView>, path: Seq<char>) -> Option<
    usize,
>
    decreases conflicts.len(),
{
    if conflicts.len() == 0 {
        None
    } else {
        match conflict_position(conflicts.drop_last(), path) {
            Some(i) => Some(i),
            None => if conflicts.last().path == path {
                Some((conflicts.len() - 1) as usize)
            } else {
                None
            },
        }
    }
}

/// The log entry that is selected.
pub open spec fn chosen_recovery(s: AppView) -> Option<RecoveryEntryView> {
    match s.snapshot {
        Some(snapshot) => match s.selected_recovery {
            Some(i) => if i < snapshot.recovery.len() {
                Some(snapshot.recovery[i as int])
            } else {
                None
            },
            None => None,
        },
        None => None,
    }
}

/// Whether a reset to the selected log entry is armed.
pub open spec fn reset_armed(s: AppView) -> bool {
    match chosen_recovery(s) {
        Some(entry) => s.pending_reset_to == Some(entry.to_id),
        None => false,
    }
}

/// Goes to a file in conflict, if it is one.
pub open spec fn going_to_conflict(s: AppView, path: Seq<char>) -> AppView {
    AppView {
        active_tab: WorkTab::Conflicts,
        selected_conflict: match s.snapshot {
            Some(snapshot) => conflict_position(snapshot.conflicts, path),
            None => None,
        },
        ..s
    }
}

/// Arms a reset to the selected log entry.
pub open spec fn arming(s: AppView) -> AppView {
    match chosen_recovery(s) {
        Some(entry) => if reset_armed(s) {
            s
        } else {
            app::with_status(
                AppView { pending_reset_to: Some(entry.to_id), ..s },
                "Reset armed. Click confirm to execute"@,
            )
        },
        None => s,
    }
}

/// Carries out the reset to the selected log entry, if it is armed, and disarms
/// it.
pub open spec fn confirming(s: AppView) -> (AppView, StepView) {
    match chosen_recovery(s) {
        Some(entry) => if reset_armed(s) {
            let (t, step) = app::acting(s, RepoActionView::ResetTo { oid: entry.to_id });
            (AppView { pending_reset_to: None, ..t }, step)
        } else {
            (s, StepView::Idle)
        },
        None => (s, StepView::Idle),
    }
}

/// What a click does.
pub open spec fn clicked(s: AppView, click: ClickView) -> (AppView, StepView) {
    match click {
        ClickView::Refresh => (s, app::scan_step(s, None)),
        ClickView::Reload => app::reloading(s, Some("Reloaded selected repository"@)),
        ClickView::ShowPalette => (
            AppView { command_palette_open: true, ..s },
            StepView::Idle,
        ),
        ClickView::Palette { action } => {
            let (t, step) = app::palette(s, action);
            (AppView { command_palette_open: false, ..t }, step)
        },
        ClickView::AddRepo => (
            s,
            StepView::Add { typed: text::trimmed(s.manual_repo_input) },
        ),
        ClickView::SelectRepo { index } => if s.selected_repo == Some(index) {
            (s, StepView::Idle)
        } else {
            app::reloading(AppView { selected_repo: Some(index), ..s }, None)
        },
        ClickView::OpenTab { tab } => (AppView { active_tab: tab, ..s }, StepView::Idle),
        ClickView::StageAll => app::acting(s, RepoActionView::StageAll),
        ClickView::UnstageAll => app::acting(s, RepoActionView::UnstageAll),
        ClickView::StagePath { path } => app::acting(s, RepoActionView::StagePath { path }),
        ClickView::UnstagePath { path } => app::acting(s, RepoActionView::UnstagePath { path }),
        ClickView::CheckoutBranch { name } => app::acting(
            s,
            RepoActionView::CheckoutBranch { name },
        ),
        ClickView::Fetch => app::acting(s, RepoActionView::Fetch),
        ClickView::PullRebase => app::acting(s, RepoActionView::PullRebase),
        ClickView::Push => app::acting(s, RepoActionView::Push),
        ClickView::Commit => app::committing(s),
        ClickView::StartMessage { start } => (
            AppView { commit_message: start, ..s },
            StepView::Idle,
        ),
        ClickView::SelectChange { index } => (
            AppView { selected_change: Some(index), ..s },
            StepView::Idle,
        ),
        ClickView::SelectCommit { index } => (
            AppView { selected_commit: Some(index), ..s },
            StepView::Idle,
        ),
        ClickView::SelectBranch { index } => (
            AppView { selected_branch: Some(index), ..s },
            StepView::Idle,
        ),
        ClickView::SelectConflict { index } => (
            AppView {
                selected_conflict: Some(index),
                ai_suggestion: None,
                ai_edited_text: Seq::empty(),
                ..s
            },
            StepView::Idle,
        ),
        ClickView::SelectRecovery { index } => (
            AppView { selected_recovery: Some(index), ..s },
            StepView::Idle,
        ),
        ClickView::ResolveChange { path } => (going_to_conflict(s, path), StepView::Idle),
        ClickView::CreateBranch => app::branching(s),
        ClickView::CopyPull => (
            app::with_status(s, "Copied pull command"@),
            StepView::Copy { copied: "git pull --rebase"@ },
        ),
        ClickView::CopyPush => (
            app::with_status(s, "Copied push command"@),
            StepView::Copy { copied: "git push"@ },
        ),
        ClickView::SetProvider { provider } => (
            AppView { ai_provider: provider, ..s },
            StepView::Idle,
        ),
        ClickView::SetStrategy { strategy } => (
            AppView { ai_strategy: strategy, ..s },
            StepView::Idle,
        ),
        ClickView::Suggest => app::suggesting(s),
        ClickView::ApplySuggestion => app::resolving(s),
        ClickView::RestoreSuggestion => (
            AppView {
                ai_edited_text: match s.ai_suggestion {
                    Some(suggestion) => suggestion.resolved_text,
                    None => s.ai_edited_text,
                },
                ..s
            },
            StepView::Idle,
        ),
        ClickView::ArmReset => (arming(s), StepView::Idle),
        ClickView::ConfirmReset => confirming(s),
        ClickView::CancelReset => (
            app::with_status(
                AppView { pending_reset_to: None, ..s },
                "Canceled recovery reset"@,
            ),
            StepView::Idle,
        ),
    }
}

/// The state once the conflicts are shown: a file is selected, if there is one,
/// and a suggestion for it stands ready to be edited.
pub open spec fn conflicts_shown(s: AppView) -> AppView {
    match s.snapshot {
        Some(snapshot) => if snapshot.conflicts.len() == 0 {
            s
        } else {
            let chosen = match s.selected_conflict {
                Some(i) => i,
                None => 0,
            };
            AppView {
                selected_conflict: Some(chosen),
                ai_edited_text: match s.ai_suggestion {
                    Some(suggestion) => if chosen < snapshot.conflicts.len()
                        && s.ai_edited_text.len() == 0 {
                        suggestion.resolved_text
                    } else {
                        s.ai_edited_text
                    },
                    None => s.ai_edited_text,
                },
                ..s
            }
        },
        None => s,
    }
}

/// Finds the first conflict in the given file.
fn find_conflict(conflicts: &Vec<ConflictEntry>, path: &String) -> (r: Option<usize>)
    ensures
        r == conflict_position(conflicts.deep_view(), path@),
{
    let ghost all = conflicts.deep_view();
    let mut i: usize = 0;
    while i < conflicts.len()
        invariant
            i <= conflicts@.len(),
            all == conflicts.deep_view(),
            conflict_position(all.take(i as int), path@) is None,
        decreases conflicts@.len() - i,
    {
        assert(all.take(i + 1).drop_last() =~= all.take(i as int));
        assert(all.take(i + 1).last() == conflicts@[i as int].deep_view());
        if conflicts[i].path == *path {
            proof {
                lemma_position_stays(all, path@, i + 1);
            }
            return Some(i);
        }
        i += 1;
    }
    assert(all.take(all.len() as int) =~= all);
    None
}

/// A position that was found in the first entries is found in all of them.
proof fn lemma_position_stays(conflicts: Seq<ConflictEntryView>, path: Seq<char>, n: int)
    requires
        0 <= n <= conflicts.len(),
        conflict_position(conflicts.take(n), path) is Some,
    ensures
        conflict_position(conflicts, path) == conflict_position(conflicts.take(n), path),
    decreases conflicts.len() - n,
{
    if n == conflicts.len() {
        assert(conflicts.take(n) =~= conflicts);
    } else {
        assert(conflicts.take(n + 1).drop_last() =~= conflicts.take(n));
        lemma_position_stays(conflicts, path, n + 1);
    }
}

impl GitControlApp {
    /// The log entry that is selected.
    pub fn selected_recovery_entry(&self) -> (r: Option<&RecoveryEntry>)
        ensures
            match r {
                Some(entry) => chosen_recovery(self@) == Some(entry.deep_view()),
                None => chosen_recovery(self@) is None,
            },
    {
        match &self.snapshot {
            Some(snapshot) => match self.selected_recovery {
                Some(i) => if i < snapshot.recovery.len() {
                    assert(snapshot.deep_view().recovery[i as int]
                        == snapshot.recovery@[i as int].deep_view());
                    Some(&snapshot.recovery[i])
                } else {
                    None
                },
                None => None,
            },
            None => None,
        }
    }

    /// The commit that the armed reset to the selected log entry goes to.
    pub fn armed_reset(&self) -> (r: Option<String>)
        ensures
            r is Some <==> reset_armed(self@),
            r matches Some(oid) ==> self@.pending_reset_to == Some(oid@),
    {
        match (self.selected_recovery_entry(), &self.pending_reset_to) {
            (Some(entry), Some(oid)) => if *oid == entry.to_id {
                Some(oid.clone())
            } else {
                None
            },
            _ => None,
        }
    }

    fn arm_reset(&mut self)
        ensures
            final(self)@ == arming(old(self)@),
    {
        if self.armed_reset().is_some() {
            return;
        }
        let oid = match self.selected_recovery_entry() {
            Some(entry) => entry.to_id.clone(),
            None => return,
        };
        self.pending_reset_to = Some(oid);
        self.set_status("Reset armed. Click confirm to execute".to_owned());
    }

    fn confirm_reset(&mut self) -> (r: Step)
        ensures
            (final(self)@, r.deep_view()) == confirming(old(self)@),
    {
        match self.armed_reset() {
            Some(oid) => {
                let step = self.run_repo_action(RepoAction::ResetTo { oid });
                self.pending_reset_to = None;
                step
            },
            None => Step::Idle,
        }
    }

    /// Carries out a click.
    #[verifier::rlimit(60)]
    pub fn click(&mut self, click: Click) -> (r: Step)
        ensures
            (final(self)@, r.deep_view()) == clicked(old(self)@, click.deep_view()),
    {
        match click {
            Click::Refresh => return self.refresh_repositories(),
            Click::Reload => return self.refresh_selected_repo_snapshot(
                Some("Reloaded selected repository".to_owned()),
            ),
            Click::ShowPalette => {
                self.command_palette_open = true;
            },
            Click::Palette { action } => {
                let step = self.perform_palette_action(action);
                self.command_palette_open = false;
                return step;
            },
            Click::AddRepo => return self.add_typed_repository(),
            Click::SelectRepo { index } => {
                let same = match self.selected_repo {
                    Some(i) => i == index,
                    None => false,
                };
                if !same {
                    self.selected_repo = Some(index);
                    return self.refresh_selected_repo_snapshot(None);
                }
            },
            Click::OpenTab { tab } => {
                self.active_tab = tab;
            },
            Click::StageAll => return self.run_repo_action(RepoAction::StageAll),
            Click::UnstageAll => return self.run_repo_action(RepoAction::UnstageAll),
            Click::StagePath { path } => return self.run_repo_action(
                RepoAction::StagePath { path },
            ),
            Click::UnstagePath { path } => return self.run_repo_action(
                RepoAction::UnstagePath { path },
            ),
            Click::CheckoutBranch { name } => return self.run_repo_action(
                RepoAction::CheckoutBranch { name },
            ),
            Click::Fetch => return self.run_repo_action(RepoAction::Fetch),
            Click::PullRebase => return self.run_repo_action(RepoAction::PullRebase),
            Click::Push => return self.run_repo_action(RepoAction::Push),
            Click::Commit => return self.commit(),
            Click::StartMessage { start } => {
                self.commit_message = start;
            },
            Click::SelectChange { index } => {
                self.selected_change = Some(index);
            },
            Click::SelectCommit { index } => {
                self.selected_commit = Some(index);
            },
            Click::SelectBranch { index } => {
                self.selected_branch = Some(index);
            },
            Click::SelectConflict { index } => {
                self.selected_conflict = Some(index);
                self.ai_suggestion = None;
                self.ai_edited_text = String::new();
            },
            Click::SelectRecovery { index } => {
                self.selected_recovery = Some(index);
            },
            Click::ResolveChange { path } => {
                self.active_tab = WorkTab::Conflicts;
                self.selected_conflict = match &self.snapshot {
                    Some(snapshot) => find_conflict(&snapshot.conflicts, &path),
                    None => None,
                };
            },
            Click::CreateBranch => return self.create_branch(),
            Click::CopyPull => {
                self.set_status("Copied pull command".to_owned());
                return Step::Copy { copied: "git pull --rebase".to_owned() };
            },
            Click::CopyPush => {
                self.set_status("Copied push command".to_owned());
                return Step::Copy { copied: "git push".to_owned() };
            },
            Click::SetProvider { provider } => {
                self.ai_provider = provider;
            },
            Click::SetStrategy { strategy } => {
                self.ai_strategy = strategy;
            },
            Click::Suggest => return self.request_ai_suggestion(),
            Click::ApplySuggestion => return self.apply_ai_resolution(),
            Click::RestoreSuggestion => {
                let restored = match &self.ai_suggestion {
                    Some(suggestion) => suggestion.resolved_text.clone(),
                    None => self.ai_edited_text.clone(),
                };
                self.ai_edited_text = restored;
            },
            Click::ArmReset => self.arm_reset(),
            Click::ConfirmReset => return self.confirm_reset(),
            Click::CancelReset => {
                self.pending_reset_to = None;
                self.set_status("Canceled recovery reset".to_owned());
            },
        }
        Step::Idle
    }

    /// Prepares the conflicts to be shown.
    pub fn show_conflicts(&mut self)
        ensures
            final(self)@ == conflicts_shown(old(self)@),
    {
        let count: usize = match &self.snapshot {
            Some(snapshot) => snapshot.conflicts.len(),
            None => 0,
        };
        if count == 0 {
            return;
        }
        let chosen: usize = match self.selected_conflict {
            Some(i) => i,
            None => 0,
        };
        self.selected_conflict = Some(chosen);
        if chosen < count && self.ai_edited_text.as_str().is_empty() {
            if let Some(suggestion) = &self.ai_suggestion {
                let resolved = suggestion.resolved_text.clone();
                self.ai_edited_text = resolved;
            }
        }
    }
}

}
