//! What the application asks its surroundings to do, and what they report back.
use vstd::prelude::*;
use vstd::string::*;

use crate::model::{
    AiSuggestion, AiSuggestionView, ConflictEntry, ConflictEntryView, OpenAiConfig,
    OpenAiConfigView, RepoSummary, RepoSummaryView, ResolutionStrategy,
};
use crate::paths::{RepoPath, RepoPathView};
use crate::text;

verus! {

/// An operation on the selected repository.
#[derive(Debug, PartialEq, Eq)]
pub enum RepoAction {
    /// Stage all changes.
    StageAll,
    /// Unstage all changes.
    UnstageAll,
    /// Stage one file.
    StagePath { path: String },
    /// Unstage one file.
    UnstagePath { path: String },
    /// Commit what is staged.
    Commit { message: String },
    /// Make a branch and check it out.
    CreateBranch { name: String },
    /// Check a branch out.
    CheckoutBranch { name: String },
    /// Write a resolved file and stage it.
    ApplyResolution { path: String, resolved: String },
    /// Set branch and index back to a commit.
    ResetTo { oid: String },
    /// Fetch all remotes.
    Fetch,
    /// Pull and put local commits on top.
    PullRebase,
    /// Push.
    Push,
}

/// What an operation on the selected repository stands for.
pub enum RepoActionView {
    StageAll,
    UnstageAll,
    StagePath { path: Seq<char> },
    UnstagePath { path: Seq<char> },
    Commit { message: Seq<char> },
    CreateBranch { name: Seq<char> },
    CheckoutBranch { name: Seq<char> },
    ApplyResolution { path: Seq<char>, resolved: Seq<char> },
    ResetTo { oid: Seq<char> },
    Fetch,
    PullRebase,
    Push,
}

impl DeepView for RepoAction {
    type V = RepoActionView;

    open spec fn deep_view(&self) -> RepoActionView {
        match self {
            RepoAction::StageAll => RepoActionView::StageAll,
            RepoAction::UnstageAll => RepoActionView::UnstageAll,
            RepoAction::StagePath { path } => RepoActionView::StagePath {
                path: path@,
            },
            RepoAction::UnstagePath { path } => RepoActionView::UnstagePath {
                path: path@,
            },
            RepoAction::Commit { message } => RepoActionView::Commit {
                message: message@,
            },
            RepoAction::CreateBranch { name } => RepoActionView::CreateBranch {
                name: name@,
            },
            RepoAction::CheckoutBranch { name } => RepoActionView::CheckoutBranch {
                name: name@,
            },
            RepoAction::ApplyResolution { path, resolved } => RepoActionView::ApplyResolution {
                path: path@,
                resolved: resolved@,
            },
            RepoAction::ResetTo { oid } => RepoActionView::ResetTo {
                oid: oid@,
            },
            RepoAction::Fetch => RepoActionView::Fetch,
            RepoAction::PullRebase => RepoActionView::PullRebase,
            RepoAction::Push => RepoActionView::Push,
        }
    }
}

/// What is said of an operation that was carried out, and what begins the text
/// about one that failed.
pub open spec fn action_caption(action: RepoActionView) -> Seq<char> {
    match action {
        RepoActionView::StageAll => "Staged all changes"@,
        RepoActionView::UnstageAll => "Unstaged all changes"@,
        RepoActionView::StagePath { path } => "Staged file"@,
        RepoActionView::UnstagePath { path } => "Unstaged file"@,
        RepoActionView::Commit { message } => "Commit"@,
        RepoActionView::CreateBranch { name } => "Branch created and checked out"@,
        RepoActionView::CheckoutBranch { name } => "Switched branch"@,
        RepoActionView::ApplyResolution { path, resolved } =>
            "Applied AI resolution and staged file"@,
        RepoActionView::ResetTo { oid } => "Reset repository to selected reflog entry"@,
        RepoActionView::Fetch => "Fetch completed"@,
        RepoActionView::PullRebase => "Pull with rebase completed"@,
        RepoActionView::Push => "Push completed"@,
    }
}

/// What is said of an operation that was carried out, given what it returned.
pub open spec fn success_status(action: RepoActionView, returned: Seq<char>) -> Seq<char> {
    match action {
        RepoActionView::Commit { message } => "Committed "@ + returned,
        _ => action_caption(action),
    }
}

/// What is said of an operation that failed.
pub open spec fn failure_status(action: RepoActionView, reason: Seq<char>) -> Seq<char> {
    action_caption(action) + " failed: "@ + reason
}

/// Whether an operation returns output to show.
pub open spec fn shows_output(action: RepoActionView) -> bool {
    action is Fetch || action is PullRebase || action is Push
}

impl RepoAction {
    /// What is said of the operation.
    pub fn caption(&self) -> (r: &'static str)
        ensures
            r@ == action_caption(self.deep_view()),
    {
        match self {
            RepoAction::StageAll => "Staged all changes",
            RepoAction::UnstageAll => "Unstaged all changes",
            RepoAction::StagePath { .. } => "Staged file",
            RepoAction::UnstagePath { .. } => "Unstaged file",
            RepoAction::Commit { .. } => "Commit",
            RepoAction::CreateBranch { .. } => "Branch created and checked out",
            RepoAction::CheckoutBranch { .. } => "Switched branch",
            RepoAction::ApplyResolution { .. } => "Applied AI resolution and staged file",
            RepoAction::ResetTo { .. } => "Reset repository to selected reflog entry",
            RepoAction::Fetch => "Fetch completed",
            RepoAction::PullRebase => "Pull with rebase completed",
            RepoAction::Push => "Push completed",
        }
    }

    /// What is said of the operation once it was carried out.
    pub fn success_text(&self, returned: &str) -> (r: String)
        ensures
            r@ == success_status(self.deep_view(), returned@),
    {
        match self {
            RepoAction::Commit { .. } => text::join2("Committed ", returned),
            _ => self.caption().to_owned(),
        }
    }

    /// What is said of the operation if it failed.
    pub fn failure_text(&self, reason: &str) -> (r: String)
        ensures
            r@ == failure_status(self.deep_view(), reason@),
    {
        text::join3(self.caption(), " failed: ", reason)
    }
}

/// What is to be done next outside of the application.
#[derive(Debug, PartialEq, Eq)]
pub enum Step {
    /// Nothing.
    Idle,
    /// Find the repositories under a directory, down to a depth, and sum each
    /// up; then report, with the status to announce, if any.
    Scan { root: String, depth: usize, announce: Option<String> },
    /// Find the repository at a path or above it and sum it up; then report.
    Add { typed: String },
    /// Read the snapshot of a repository; then report, with the status to
    /// announce, if any.
    LoadSnapshot { repo: RepoPath, announce: Option<String> },
    /// Carry out an operation on a repository; then report.
    Perform { repo: RepoPath, action: RepoAction },
    /// Ask the local agent for a suggestion; then report.
    SuggestLocally { content: String, strategy: ResolutionStrategy },
    /// Ask the remote agent for a suggestion, in the background.
    SuggestRemotely { conflict: ConflictEntry, strategy: ResolutionStrategy, config: OpenAiConfig },
    /// Put a text on the clipboard.
    Copy { copied: String },
}

/// What the next step stands for.
pub enum StepView {
    Idle,
    Scan { root: Seq<char>, depth: usize, announce: Option<Seq<char>> },
    Add { typed: Seq<char> },
    LoadSnapshot { repo: RepoPathView, announce: Option<Seq<char>> },
    Perform { repo: RepoPathView, action: RepoActionView },
    SuggestLocally { content: Seq<char>, strategy: ResolutionStrategy },
    SuggestRemotely {
        conflict: ConflictEntryView,
        strategy: ResolutionStrategy,
        config: OpenAiConfigView,
    },
    Copy { copied: Seq<char> },
}

impl DeepView for Step {
    type V = StepView;

    open spec fn deep_view(&self) -> StepView {
        match self {
            Step::Idle => StepView::Idle,
            Step::Scan { root, depth, announce } => StepView::Scan {
                root: root@,
                depth: *depth,
                announce: announce.deep_view(),
            },
            Step::Add { typed } => StepView::Add {
                typed: typed@,
            },
            Step::LoadSnapshot { repo, announce } => StepView::LoadSnapshot {
                repo: repo.deep_view(),
                announce: announce.deep_view(),
            },
            Step::Perform { repo, action } => StepView::Perform {
                repo: repo.deep_view(),
                action: action.deep_view(),
            },
            Step::SuggestLocally { content, strategy } => StepView::SuggestLocally {
                content: content@,
                strategy: *strategy,
            },
            Step::SuggestRemotely { conflict, strategy, config } => StepView::SuggestRemotely {
                conflict: conflict.deep_view(),
                strategy: *strategy,
                config: config.deep_view(),
            },
            Step::Copy { copied } => StepView::Copy {
                copied: copied@,
            },
        }
    }
}

/// What came of adding a repository.
#[derive(Debug, PartialEq, Eq)]
pub enum AddOutcome {
    /// There is nothing at the path.
    Missing { path: String },
    /// There is no repository at the path or above it.
    NotFound { reason: String },
    /// The repository could not be summed up.
    Invalid { reason: String },
    /// The repository was summed up.
    Found { summary: RepoSummary, root: RepoPath },
}

/// What what came of adding a repository stands for.
pub enum AddOutcomeView {
    Missing { path: Seq<char> },
    NotFound { reason: Seq<char> },
    Invalid { reason: Seq<char> },
    Found { summary: RepoSummaryView, root: RepoPathView },
}

impl DeepView for AddOutcome {
    type V = AddOutcomeView;

    open spec fn deep_view(&self) -> AddOutcomeView {
        match self {
            AddOutcome::Missing { path } => AddOutcomeView::Missing {
                path: path@,
            },
            AddOutcome::NotFound { reason } => AddOutcomeView::NotFound {
                reason: reason@,
            },
            AddOutcome::Invalid { reason } => AddOutcomeView::Invalid {
                reason: reason@,
            },
            AddOutcome::Found { summary, root } => AddOutcomeView::Found {
                summary: summary.deep_view(),
                root: root.deep_view(),
            },
        }
    }
}

/// What the remote agent has answered so far.
#[derive(Debug, PartialEq, Eq)]
pub enum AiPoll {
    /// Nothing yet.
    Waiting,
    /// A suggestion.
    Answered { suggestion: AiSuggestion },
    /// It failed.
    Failed { reason: String },
    /// It went away without an answer.
    Disconnected,
}

/// What an answer of the remote agent stands for.
pub enum AiPollView {
    Waiting,
    Answered { suggestion: AiSuggestionView },
    Failed { reason: Seq<char> },
    Disconnected,
}

impl DeepView for AiPoll {
    type V = AiPollView;

    open spec fn deep_view(&self) -> AiPollView {
        match self {
            AiPoll::Waiting => AiPollView::Waiting,
            AiPoll::Answered { suggestion } => AiPollView::Answered {
                suggestion: suggestion.deep_view(),
            },
            AiPoll::Failed { reason } => AiPollView::Failed {
                reason: reason@,
            },
            AiPoll::Disconnected => AiPollView::Disconnected,
        }
    }
}

/// What an outcome stands for.
pub open spec fn outcome_view<T: DeepView>(outcome: Result<T, String>) -> Result<T::V, Seq<char>> {
    match outcome {
        Ok(value) => Ok(value.deep_view()),
        Err(reason) => Err(reason@),
    }
}

/// A key combination.
#[derive(Clone, Copy, PartialEq, Eq, Structural, Debug)]
pub enum Shortcut {
    /// Open the command palette.
    OpenPalette,
    /// Find the repositories again.
    Refresh,
    /// Commit what is staged.
    Commit,
}

}
