//! What is read from a repository, as plain values.
use vstd::prelude::*;

use crate::paths::RepoPath;
use crate::paths::RepoPathView;
use crate::status::Status;

verus! {

/// A file that a status scan found.
#[derive(Debug, PartialEq, Eq)]
pub struct StatusEntry {
    /// Its path in the repository, where that is readable.
    pub path: Option<String>,
    /// Its flags.
    pub status: Status,
}

/// What a `StatusEntry` stands for.
pub struct StatusEntryView {
    pub path: Option<Seq<char>>,
    pub status: Status,
}

impl DeepView for StatusEntry {
    type V = StatusEntryView;

    open spec fn deep_view(&self) -> StatusEntryView {
        StatusEntryView {
            path: self.path.deep_view(),
            status: self.status,
        }
    }
}

/// A file that may be staged.
#[derive(Debug, PartialEq, Eq)]
pub struct StageEntry {
    /// Its path in the repository, where that is readable.
    pub path: Option<String>,
    /// Its flags.
    pub status: Status,
    /// Whether it is in the working tree.
    pub exists: bool,
}

/// What a `StageEntry` stands for.
pub struct StageEntryView {
    pub path: Option<Seq<char>>,
    pub status: Status,
    pub exists: bool,
}

impl DeepView for StageEntry {
    type V = StageEntryView;

    open spec fn deep_view(&self) -> StageEntryView {
        StageEntryView {
            path: self.path.deep_view(),
            status: self.status,
            exists: self.exists,
        }
    }
}

/// What the repository has checked out.
#[derive(Debug, PartialEq, Eq)]
pub struct HeadInfo {
    /// Whether that is a branch.
    pub is_branch: bool,
    /// The id of the commit it points at, if any.
    pub target: Option<String>,
    /// Its short name, where that is readable.
    pub shorthand: Option<String>,
}

/// What a `HeadInfo` stands for.
pub struct HeadInfoView {
    pub is_branch: bool,
    pub target: Option<Seq<char>>,
    pub shorthand: Option<Seq<char>>,
}

impl DeepView for HeadInfo {
    type V = HeadInfoView;

    open spec fn deep_view(&self) -> HeadInfoView {
        HeadInfoView {
            is_branch: self.is_branch,
            target: self.target.deep_view(),
            shorthand: self.shorthand.deep_view(),
        }
    }
}

/// Where a repository was found.
#[derive(Debug, PartialEq, Eq)]
pub struct RepoLocation {
    /// The working tree; a bare repository has none.
    pub workdir: Option<RepoPath>,
    /// The directory that holds the repository.
    pub git_dir: RepoPath,
    /// The directory above that one.
    pub git_dir_parent: Option<RepoPath>,
}

/// What a `RepoLocation` stands for.
pub struct RepoLocationView {
    pub workdir: Option<RepoPathView>,
    pub git_dir: RepoPathView,
    pub git_dir_parent: Option<RepoPathView>,
}

impl DeepView for RepoLocation {
    type V = RepoLocationView;

    open spec fn deep_view(&self) -> RepoLocationView {
        RepoLocationView {
            workdir: self.workdir.deep_view(),
            git_dir: self.git_dir.deep_view(),
            git_dir_parent: self.git_dir_parent.deep_view(),
        }
    }
}

/// A directory entry met in the search for repositories.
#[derive(Debug, PartialEq, Eq)]
pub struct WalkEntry {
    /// Its name, in the encoding of the file system.
    pub name: Vec<u8>,
    /// Whether it is a directory.
    pub is_dir: bool,
    /// The directory that holds it.
    pub parent: Option<RepoPath>,
    /// Whether the directory that holds it opens as a repository.
    pub opens: bool,
}

/// What a `WalkEntry` stands for.
pub struct WalkEntryView {
    pub name: Seq<u8>,
    pub is_dir: bool,
    pub parent: Option<RepoPathView>,
    pub opens: bool,
}

impl DeepView for WalkEntry {
    type V = WalkEntryView;

    open spec fn deep_view(&self) -> WalkEntryView {
        WalkEntryView {
            name: self.name.deep_view(),
            is_dir: self.is_dir,
            parent: self.parent.deep_view(),
            opens: self.opens,
        }
    }
}

/// What a summary is made of.
#[derive(Debug, PartialEq, Eq)]
pub struct RepoFacts {
    /// Where the repository lies.
    pub path: RepoPath,
    /// The branch that is checked out, if any.
    pub branch: Option<String>,
    /// How many commits it is ahead of its upstream.
    pub ahead: usize,
    /// How many commits it is behind its upstream.
    pub behind: usize,
    /// The files that differ.
    pub statuses: Vec<StatusEntry>,
}

/// What a `RepoFacts` stands for.
pub struct RepoFactsView {
    pub path: RepoPathView,
    pub branch: Option<Seq<char>>,
    pub ahead: usize,
    pub behind: usize,
    pub statuses: Seq<StatusEntryView>,
}

impl DeepView for RepoFacts {
    type V = RepoFactsView;

    open spec fn deep_view(&self) -> RepoFactsView {
        RepoFactsView {
            path: self.path.deep_view(),
            branch: self.branch.deep_view(),
            ahead: self.ahead,
            behind: self.behind,
            statuses: self.statuses.deep_view(),
        }
    }
}

/// A commit as it was read.
#[derive(Debug, PartialEq, Eq)]
pub struct RawCommit {
    /// Its full id.
    pub oid: String,
    /// The first line of its message, where that is readable.
    pub summary: Option<String>,
    /// Who wrote it, where that is readable.
    pub author: Option<String>,
    /// When it was made, in seconds from the start of 1970.
    pub seconds: i64,
    /// How many seconds local clocks were ahead of universal time then.
    pub offset: i32,
    /// The full ids of its parents.
    pub parents: Vec<String>,
}

/// What a `RawCommit` stands for.
pub struct RawCommitView {
    pub oid: Seq<char>,
    pub summary: Option<Seq<char>>,
    pub author: Option<Seq<char>>,
    pub seconds: i64,
    pub offset: i32,
    pub parents: Seq<Seq<char>>,
}

impl DeepView for RawCommit {
    type V = RawCommitView;

    open spec fn deep_view(&self) -> RawCommitView {
        RawCommitView {
            oid: self.oid@,
            summary: self.summary.deep_view(),
            author: self.author.deep_view(),
            seconds: self.seconds,
            offset: self.offset,
            parents: self.parents.deep_view(),
        }
    }
}

/// A reference as it was read.
#[derive(Debug, PartialEq, Eq)]
pub struct RawRef {
    /// Its full name, where that is readable.
    pub name: Option<String>,
    /// The id it points at, unless it points at another reference.
    pub target: Option<String>,
}

/// What a `RawRef` stands for.
pub struct RawRefView {
    pub name: Option<Seq<char>>,
    pub target: Option<Seq<char>>,
}

impl DeepView for RawRef {
    type V = RawRefView;

    open spec fn deep_view(&self) -> RawRefView {
        RawRefView {
            name: self.name.deep_view(),
            target: self.target.deep_view(),
        }
    }
}

/// The label that a branch puts on a commit.
#[derive(Debug, PartialEq, Eq)]
pub struct BranchLabel {
    /// The full id of the commit.
    pub target: String,
    /// The label.
    pub label: String,
}

/// What a `BranchLabel` stands for.
pub struct BranchLabelView {
    pub target: Seq<char>,
    pub label: Seq<char>,
}

impl DeepView for BranchLabel {
    type V = BranchLabelView;

    open spec fn deep_view(&self) -> BranchLabelView {
        BranchLabelView {
            target: self.target@,
            label: self.label@,
        }
    }
}

/// A local branch as it was read.
#[derive(Debug, PartialEq, Eq)]
pub struct RawBranch {
    /// Its name, where that is readable.
    pub name: Option<String>,
    /// Whether it is checked out.
    pub is_head: bool,
    /// The name of the branch it follows, where there is one and it is readable.
    pub upstream: Option<String>,
}

/// What a `RawBranch` stands for.
pub struct RawBranchView {
    pub name: Option<Seq<char>>,
    pub is_head: bool,
    pub upstream: Option<Seq<char>>,
}

impl DeepView for RawBranch {
    type V = RawBranchView;

    open spec fn deep_view(&self) -> RawBranchView {
        RawBranchView {
            name: self.name.deep_view(),
            is_head: self.is_head,
            upstream: self.upstream.deep_view(),
        }
    }
}

/// A file in conflict as it was read.
#[derive(Debug, PartialEq, Eq)]
pub struct RawConflict {
    /// The path on the current side, if the file is there.
    pub our: Option<Vec<u8>>,
    /// The path on the incoming side, if the file is there.
    pub their: Option<Vec<u8>>,
    /// The path in the common ancestor, if the file is there.
    pub ancestor: Option<Vec<u8>>,
    /// The text in the working tree, where that is readable.
    pub content: Option<String>,
}

/// What a `RawConflict` stands for.
pub struct RawConflictView {
    pub our: Option<Seq<u8>>,
    pub their: Option<Seq<u8>>,
    pub ancestor: Option<Seq<u8>>,
    pub content: Option<Seq<char>>,
}

impl DeepView for RawConflict {
    type V = RawConflictView;

    open spec fn deep_view(&self) -> RawConflictView {
        RawConflictView {
            our: self.our.deep_view(),
            their: self.their.deep_view(),
            ancestor: self.ancestor.deep_view(),
            content: self.content.deep_view(),
        }
    }
}

/// A log entry as it was read.
#[derive(Debug, PartialEq, Eq)]
pub struct RawReflogEntry {
    /// The full id of the commit it moved to.
    pub id_new: String,
    /// The full id of the commit it came from.
    pub id_old: String,
    /// Why it moved, where that is readable.
    pub message: Option<String>,
    /// When it moved, in seconds from the start of 1970.
    pub seconds: i64,
    /// How many seconds local clocks were ahead of universal time then.
    pub offset: i32,
}

/// What a `RawReflogEntry` stands for.
pub struct RawReflogEntryView {
    pub id_new: Seq<char>,
    pub id_old: Seq<char>,
    pub message: Option<Seq<char>>,
    pub seconds: i64,
    pub offset: i32,
}

impl DeepView for RawReflogEntry {
    type V = RawReflogEntryView;

    open spec fn deep_view(&self) -> RawReflogEntryView {
        RawReflogEntryView {
            id_new: self.id_new@,
            id_old: self.id_old@,
            message: self.message.deep_view(),
            seconds: self.seconds,
            offset: self.offset,
        }
    }
}

/// All that a snapshot is made of.
#[derive(Debug, PartialEq, Eq)]
pub struct RepoReading {
    pub facts: RepoFacts,
    pub history: Vec<RawCommit>,
    pub refs: Vec<RawRef>,
    pub branches: Vec<RawBranch>,
    pub conflicts: Vec<RawConflict>,
    pub reflog: Vec<RawReflogEntry>,
}

/// What a `RepoReading` stands for.
pub struct RepoReadingView {
    pub facts: RepoFactsView,
    pub history: Seq<RawCommitView>,
    pub refs: Seq<RawRefView>,
    pub branches: Seq<RawBranchView>,
    pub conflicts: Seq<RawConflictView>,
    pub reflog: Seq<RawReflogEntryView>,
}

impl DeepView for RepoReading {
    type V = RepoReadingView;

    open spec fn deep_view(&self) -> RepoReadingView {
        RepoReadingView {
            facts: self.facts.deep_view(),
            history: self.history.deep_view(),
            refs: self.refs.deep_view(),
            branches: self.branches.deep_view(),
            conflicts: self.conflicts.deep_view(),
            reflog: self.reflog.deep_view(),
        }
    }
}

/// How a command ended.
#[derive(Debug, PartialEq, Eq)]
pub struct CommandOutput {
    /// Whether it succeeded.
    pub success: bool,
    /// What it printed.
    pub stdout: Vec<u8>,
    /// What it reported.
    pub stderr: Vec<u8>,
}

/// What a `CommandOutput` stands for.
pub struct CommandOutputView {
    pub success: bool,
    pub stdout: Seq<u8>,
    pub stderr: Seq<u8>,
}

impl DeepView for CommandOutput {
    type V = CommandOutputView;

    open spec fn deep_view(&self) -> CommandOutputView {
        CommandOutputView {
            success: self.success,
            stdout: self.stdout.deep_view(),
            stderr: self.stderr.deep_view(),
        }
    }
}

}
