//! What is known of a repository, and of a suggested resolution.
use vstd::prelude::*;

use crate::paths::{PathPart, PathPartView, RepoPath, RepoPathView};
use crate::sort::Ranked;
use crate::text;

verus! {

/// The health of a repository at a glance.
#[derive(Debug, PartialEq, Eq)]
pub struct RepoSummary {
    /// The name it goes by.
    pub name: String,
    /// Where it lies.
    pub path: RepoPath,
    /// The branch that is checked out.
    pub current_branch: String,
    /// How many files have something staged.
    pub staged_count: usize,
    /// How many files have something that is not staged.
    pub unstaged_count: usize,
    /// How many files are not tracked.
    pub untracked_count: usize,
    /// How many files are in conflict.
    pub conflict_count: usize,
    /// How many commits the branch is ahead of its upstream.
    pub ahead: usize,
    /// How many commits the branch is behind its upstream.
    pub behind: usize,
    /// What to do next.
    pub next_step: String,
}

/// What a `RepoSummary` stands for.
pub struct RepoSummaryView {
    pub name: Seq<char>,
    pub path: RepoPathView,
    pub current_branch: Seq<char>,
    pub staged_count: usize,
    pub unstaged_count: usize,
    pub untracked_count: usize,
    pub conflict_count: usize,
    pub ahead: usize,
    pub behind: usize,
    pub next_step: Seq<char>,
}

impl DeepView for RepoSummary {
    type V = RepoSummaryView;

    open spec fn deep_view(&self) -> RepoSummaryView {
        RepoSummaryView {
            name: self.name@,
            path: self.path.deep_view(),
            current_branch: self.current_branch@,
            staged_count: self.staged_count,
            unstaged_count: self.unstaged_count,
            untracked_count: self.untracked_count,
            conflict_count: self.conflict_count,
            ahead: self.ahead,
            behind: self.behind,
            next_step: self.next_step@,
        }
    }
}

impl Clone for RepoSummary {
    fn clone(&self) -> (r: RepoSummary)
        ensures
            r.deep_view() == self.deep_view(),
    {
        RepoSummary {
            name: self.name.clone(),
            path: self.path.clone(),
            current_branch: self.current_branch.clone(),
            staged_count: self.staged_count,
            unstaged_count: self.unstaged_count,
            untracked_count: self.untracked_count,
            conflict_count: self.conflict_count,
            ahead: self.ahead,
            behind: self.behind,
            next_step: self.next_step.clone(),
        }
    }
}

/// A changed file.
#[derive(Debug, PartialEq, Eq)]
pub struct FileChange {
    /// Its path in the repository.
    pub path: String,
    /// The word for what happened to it.
    pub kind: String,
    /// Whether something of it is staged.
    pub staged: bool,
    /// Whether something of it is not staged.
    pub unstaged: bool,
}

/// What a `FileChange` stands for.
pub struct FileChangeView {
    pub path: Seq<char>,
    pub kind: Seq<char>,
    pub staged: bool,
    pub unstaged: bool,
}

impl DeepView for FileChange {
    type V = FileChangeView;

    open spec fn deep_view(&self) -> FileChangeView {
        FileChangeView {
            path: self.path@,
            kind: self.kind@,
            staged: self.staged,
            unstaged: self.unstaged,
        }
    }
}

impl Clone for FileChange {
    fn clone(&self) -> (r: FileChange)
        ensures
            r.deep_view() == self.deep_view(),
    {
        FileChange {
            path: self.path.clone(),
            kind: self.kind.clone(),
            staged: self.staged,
            unstaged: self.unstaged,
        }
    }
}

/// A commit in the history.
#[derive(Debug, PartialEq, Eq)]
pub struct CommitEntry {
    /// Its full id.
    pub oid: String,
    /// Its short id.
    pub id: String,
    /// The first line of its message.
    pub summary: String,
    /// Who wrote it.
    pub author: String,
    /// When it was made.
    pub timestamp: String,
    /// The full ids of its parents.
    pub parents: Vec<String>,
    /// The branches that point at it.
    pub branch_labels: Vec<String>,
}

/// What a `CommitEntry` stands for.
pub struct CommitEntryView {
    pub oid: Seq<char>,
    pub id: Seq<char>,
    pub summary: Seq<char>,
    pub author: Seq<char>,
    pub timestamp: Seq<char>,
    pub parents: Seq<Seq<char>>,
    pub branch_labels: Seq<Seq<char>>,
}

impl DeepView for CommitEntry {
    type V = CommitEntryView;

    open spec fn deep_view(&self) -> CommitEntryView {
        CommitEntryView {
            oid: self.oid@,
            id: self.id@,
            summary: self.summary@,
            author: self.author@,
            timestamp: self.timestamp@,
            parents: self.parents.deep_view(),
            branch_labels: self.branch_labels.deep_view(),
        }
    }
}

impl Clone for CommitEntry {
    fn clone(&self) -> (r: CommitEntry)
        ensures
            r.deep_view() == self.deep_view(),
    {
        let parents = self.parents.clone();
        assert(parents.deep_view() =~= self.parents.deep_view());
        let branch_labels = self.branch_labels.clone();
        assert(branch_labels.deep_view() =~= self.branch_labels.deep_view());
        CommitEntry {
            oid: self.oid.clone(),
            id: self.id.clone(),
            summary: self.summary.clone(),
            author: self.author.clone(),
            timestamp: self.timestamp.clone(),
            parents,
            branch_labels,
        }
    }
}

/// A local branch.
#[derive(Debug, PartialEq, Eq)]
pub struct BranchEntry {
    /// Its name.
    pub name: String,
    /// Whether it is checked out.
    pub is_head: bool,
    /// The name of the branch it follows, if any.
    pub upstream: Option<String>,
}

/// What a `BranchEntry` stands for.
pub struct BranchEntryView {
    pub name: Seq<char>,
    pub is_head: bool,
    pub upstream: Option<Seq<char>>,
}

impl DeepView for BranchEntry {
    type V = BranchEntryView;

    open spec fn deep_view(&self) -> BranchEntryView {
        BranchEntryView {
            name: self.name@,
            is_head: self.is_head,
            upstream: self.upstream.deep_view(),
        }
    }
}

impl Clone for BranchEntry {
    fn clone(&self) -> (r: BranchEntry)
        ensures
            r.deep_view() == self.deep_view(),
    {
        let upstream = self.upstream.clone();
        assert(upstream.deep_view() =~= self.upstream.deep_view());
        BranchEntry {
            name: self.name.clone(),
            is_head: self.is_head,
            upstream,
        }
    }
}

/// A file in conflict.
#[derive(Debug, PartialEq, Eq)]
pub struct ConflictEntry {
    /// Its path in the repository.
    pub path: String,
    /// What the current side is called.
    pub ours_label: String,
    /// What the incoming side is called.
    pub theirs_label: String,
    /// Its text, with the conflict markers.
    pub content: String,
}

/// What a `ConflictEntry` stands for.
pub struct ConflictEntryView {
    pub path: Seq<char>,
    pub ours_label: Seq<char>,
    pub theirs_label: Seq<char>,
    pub content: Seq<char>,
}

impl DeepView for ConflictEntry {
    type V = ConflictEntryView;

    open spec fn deep_view(&self) -> ConflictEntryView {
        ConflictEntryView {
            path: self.path@,
            ours_label: self.ours_label@,
            theirs_label: self.theirs_label@,
            content: self.content@,
        }
    }
}

impl Clone for ConflictEntry {
    fn clone(&self) -> (r: ConflictEntry)
        ensures
            r.deep_view() == self.deep_view(),
    {
        ConflictEntry {
            path: self.path.clone(),
            ours_label: self.ours_label.clone(),
            theirs_label: self.theirs_label.clone(),
            content: self.content.clone(),
        }
    }
}

/// An entry of the log of where the repository has been.
#[derive(Debug, PartialEq, Eq)]
pub struct RecoveryEntry {
    /// The full id of the commit it moved to.
    pub to_id: String,
    /// The short id of that commit.
    pub to_id_short: String,
    /// The short id of the commit it came from.
    pub from_id_short: String,
    /// Why it moved.
    pub message: String,
    /// When it moved.
    pub timestamp: String,
}

/// What a `RecoveryEntry` stands for.
pub struct RecoveryEntryView {
    pub to_id: Seq<char>,
    pub to_id_short: Seq<char>,
    pub from_id_short: Seq<char>,
    pub message: Seq<char>,
    pub timestamp: Seq<char>,
}

impl DeepView for RecoveryEntry {
    type V = RecoveryEntryView;

    open spec fn deep_view(&self) -> RecoveryEntryView {
        RecoveryEntryView {
            to_id: self.to_id@,
            to_id_short: self.to_id_short@,
            from_id_short: self.from_id_short@,
            message: self.message@,
            timestamp: self.timestamp@,
        }
    }
}

impl Clone for RecoveryEntry {
    fn clone(&self) -> (r: RecoveryEntry)
        ensures
            r.deep_view() == self.deep_view(),
    {
        RecoveryEntry {
            to_id: self.to_id.clone(),
            to_id_short: self.to_id_short.clone(),
            from_id_short: self.from_id_short.clone(),
            message: self.message.clone(),
            timestamp: self.timestamp.clone(),
        }
    }
}

/// All that is shown of a repository.
#[derive(Debug, PartialEq, Eq)]
pub struct RepoSnapshot {
    pub summary: RepoSummary,
    pub changes: Vec<FileChange>,
    pub commits: Vec<CommitEntry>,
    pub branches: Vec<BranchEntry>,
    pub conflicts: Vec<ConflictEntry>,
    pub recovery: Vec<RecoveryEntry>,
}

/// What a `RepoSnapshot` stands for.
pub struct RepoSnapshotView {
    pub summary: RepoSummaryView,
    pub changes: Seq<FileChangeView>,
    pub commits: Seq<CommitEntryView>,
    pub branches: Seq<BranchEntryView>,
    pub conflicts: Seq<ConflictEntryView>,
    pub recovery: Seq<RecoveryEntryView>,
}

impl DeepView for RepoSnapshot {
    type V = RepoSnapshotView;

    open spec fn deep_view(&self) -> RepoSnapshotView {
        RepoSnapshotView {
            summary: self.summary.deep_view(),
            changes: self.changes.deep_view(),
            commits: self.commits.deep_view(),
            branches: self.branches.deep_view(),
            conflicts: self.conflicts.deep_view(),
            recovery: self.recovery.deep_view(),
        }
    }
}

impl Clone for RepoSnapshot {
    fn clone(&self) -> (r: RepoSnapshot)
        ensures
            r.deep_view() == self.deep_view(),
    {
        let changes = self.changes.clone();
        assert(changes.deep_view() =~= self.changes.deep_view());
        let commits = self.commits.clone();
        assert(commits.deep_view() =~= self.commits.deep_view());
        let branches = self.branches.clone();
        assert(branches.deep_view() =~= self.branches.deep_view());
        let conflicts = self.conflicts.clone();
        assert(conflicts.deep_view() =~= self.conflicts.deep_view());
        let recovery = self.recovery.clone();
        assert(recovery.deep_view() =~= self.recovery.deep_view());
        RepoSnapshot {
            summary: self.summary.clone(),
            changes,
            commits,
            branches,
            conflicts,
            recovery,
        }
    }
}

/// How the two sides of a conflict are brought together.
#[derive(Clone, Copy, PartialEq, Eq, Structural, Debug)]
pub enum ResolutionStrategy {
    /// Both sides, without repeating lines.
    SmartBlend,
    /// The current side.
    KeepOurs,
    /// The incoming side.
    KeepTheirs,
}

/// A suggested resolution of a conflict.
#[derive(Debug, PartialEq, Eq)]
pub struct AiSuggestion {
    /// What it is called.
    pub title: String,
    /// Why it is suggested.
    pub explanation: String,
    /// The text of the file as resolved.
    pub resolved_text: String,
}

/// What a `AiSuggestion` stands for.
pub struct AiSuggestionView {
    pub title: Seq<char>,
    pub explanation: Seq<char>,
    pub resolved_text: Seq<char>,
}

impl DeepView for AiSuggestion {
    type V = AiSuggestionView;

    open spec fn deep_view(&self) -> AiSuggestionView {
        AiSuggestionView {
            title: self.title@,
            explanation: self.explanation@,
            resolved_text: self.resolved_text@,
        }
    }
}

impl Clone for AiSuggestion {
    fn clone(&self) -> (r: AiSuggestion)
        ensures
            r.deep_view() == self.deep_view(),
    {
        AiSuggestion {
            title: self.title.clone(),
            explanation: self.explanation.clone(),
            resolved_text: self.resolved_text.clone(),
        }
    }
}

/// How a remote agent is reached.
#[derive(Debug, PartialEq, Eq)]
pub struct OpenAiConfig {
    /// The address of the service.
    pub base_url: String,
    /// The model that is asked.
    pub model: String,
    /// The key that is shown to the service.
    pub api_key: String,
}

/// What a `OpenAiConfig` stands for.
pub struct OpenAiConfigView {
    pub base_url: Seq<char>,
    pub model: Seq<char>,
    pub api_key: Seq<char>,
}

impl DeepView for OpenAiConfig {
    type V = OpenAiConfigView;

    open spec fn deep_view(&self) -> OpenAiConfigView {
        OpenAiConfigView {
            base_url: self.base_url@,
            model: self.model@,
            api_key: self.api_key@,
        }
    }
}

impl Clone for OpenAiConfig {
    fn clone(&self) -> (r: OpenAiConfig)
        ensures
            r.deep_view() == self.deep_view(),
    {
        OpenAiConfig {
            base_url: self.base_url.clone(),
            model: self.model.clone(),
            api_key: self.api_key.clone(),
        }
    }
}

/// Repositories are listed by name.
impl Ranked for RepoSummary {
    open spec fn rank_le(a: RepoSummaryView, b: RepoSummaryView) -> bool {
        text::text_le(a.name, b.name)
    }

    proof fn lemma_rank_order(a: RepoSummaryView, b: RepoSummaryView, c: RepoSummaryView) {
        text::lemma_text_le_total(a.name, b.name);
        if text::text_le(a.name, b.name) && text::text_le(b.name, c.name) {
            text::lemma_text_le_transitive(a.name, b.name, c.name);
        }
    }

    fn may_precede(&self, other: &RepoSummary) -> (r: bool) {
        text::not_after(self.name.as_str(), other.name.as_str())
    }
}

/// Changed files are listed by path.
impl Ranked for FileChange {
    open spec fn rank_le(a: FileChangeView, b: FileChangeView) -> bool {
        text::text_le(a.path, b.path)
    }

    proof fn lemma_rank_order(a: FileChangeView, b: FileChangeView, c: FileChangeView) {
        text::lemma_text_le_total(a.path, b.path);
        if text::text_le(a.path, b.path) && text::text_le(b.path, c.path) {
            text::lemma_text_le_transitive(a.path, b.path, c.path);
        }
    }

    fn may_precede(&self, other: &FileChange) -> (r: bool) {
        text::not_after(self.path.as_str(), other.path.as_str())
    }
}

/// Branches are listed by name.
impl Ranked for BranchEntry {
    open spec fn rank_le(a: BranchEntryView, b: BranchEntryView) -> bool {
        text::text_le(a.name, b.name)
    }

    proof fn lemma_rank_order(a: BranchEntryView, b: BranchEntryView, c: BranchEntryView) {
        text::lemma_text_le_total(a.name, b.name);
        if text::text_le(a.name, b.name) && text::text_le(b.name, c.name) {
            text::lemma_text_le_transitive(a.name, b.name, c.name);
        }
    }

    fn may_precede(&self, other: &BranchEntry) -> (r: bool) {
        text::not_after(self.name.as_str(), other.name.as_str())
    }
}

/// Files in conflict are listed by path.
impl Ranked for ConflictEntry {
    open spec fn rank_le(a: ConflictEntryView, b: ConflictEntryView) -> bool {
        text::text_le(a.path, b.path)
    }

    proof fn lemma_rank_order(a: ConflictEntryView, b: ConflictEntryView, c: ConflictEntryView) {
        text::lemma_text_le_total(a.path, b.path);
        if text::text_le(a.path, b.path) && text::text_le(b.path, c.path) {
            text::lemma_text_le_transitive(a.path, b.path, c.path);
        }
    }

    fn may_precede(&self, other: &ConflictEntry) -> (r: bool) {
        text::not_after(self.path.as_str(), other.path.as_str())
    }
}

/// The summary of nothing.
pub open spec fn empty_summary() -> RepoSummaryView {
    RepoSummaryView {
        name: Seq::empty(),
        path: RepoPathView { text: Seq::empty(), parts: Seq::empty() },
        current_branch: Seq::empty(),
        staged_count: 0,
        unstaged_count: 0,
        untracked_count: 0,
        conflict_count: 0,
        ahead: 0,
        behind: 0,
        next_step: Seq::empty(),
    }
}

impl Default for RepoSummary {
    fn default() -> (r: RepoSummary)
        ensures
            r.deep_view() == empty_summary(),
    {
        let parts: Vec<PathPart> = Vec::new();
        assert(parts.deep_view() =~= Seq::<PathPartView>::empty());
        RepoSummary {
            name: String::new(),
            path: RepoPath { text: String::new(), parts },
            current_branch: String::new(),
            staged_count: 0,
            unstaged_count: 0,
            untracked_count: 0,
            conflict_count: 0,
            ahead: 0,
            behind: 0,
            next_step: String::new(),
        }
    }
}

impl Default for RepoSnapshot {
    fn default() -> (r: RepoSnapshot)
        ensures
            r.deep_view() == (RepoSnapshotView {
                summary: empty_summary(),
                changes: Seq::empty(),
                commits: Seq::empty(),
                branches: Seq::empty(),
                conflicts: Seq::empty(),
                recovery: Seq::empty(),
            }),
    {
        let changes: Vec<FileChange> = Vec::new();
        let commits: Vec<CommitEntry> = Vec::new();
        let branches: Vec<BranchEntry> = Vec::new();
        let conflicts: Vec<ConflictEntry> = Vec::new();
        let recovery: Vec<RecoveryEntry> = Vec::new();
        assert(changes.deep_view() =~= Seq::<FileChangeView>::empty());
        assert(commits.deep_view() =~= Seq::<CommitEntryView>::empty());
        assert(branches.deep_view() =~= Seq::<BranchEntryView>::empty());
        assert(conflicts.deep_view() =~= Seq::<ConflictEntryView>::empty());
        assert(recovery.deep_view() =~= Seq::<RecoveryEntryView>::empty());
        RepoSnapshot {
            summary: RepoSummary::default(),
            changes,
            commits,
            branches,
            conflicts,
            recovery,
        }
    }
}

}
