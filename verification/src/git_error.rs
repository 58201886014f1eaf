//! What can go wrong with a repository, and how it is told.
use vstd::prelude::*;
use vstd::string::*;

use crate::text;

verus! {

/// Why an operation on a repository failed.
#[derive(Debug)]
pub enum GitError {
    /// There is no repository at a path or above it.
    NoRepository { path: String, cause: String },
    /// A repository could not be opened.
    OpenFailed { path: String, cause: String },
    /// A repository has no working tree.
    BareRepository,
    /// A repository has no working tree to resolve conflicts in.
    BareConflicts,
    /// A commit was asked for with nothing staged.
    NothingStaged,
    /// There is nobody to sign a commit as.
    NoSignature { cause: String },
    /// A resolved file could not be written.
    WriteFailed { path: String, cause: String },
    /// A `git` command could not be started.
    NotStarted { command: String, cause: String },
    /// A `git` command failed.
    CommandFailed { command: String, details: String },
    /// An object id could not be read.
    BadObjectId { cause: String },
    /// The repository itself reported a failure.
    Repository { cause: String },
}

/// What a failure says first.
pub open spec fn error_message(error: GitError) -> Seq<char> {
    match error {
        GitError::NoRepository { path, cause } => "no existing git repository found at or above "@
            + path@,
        GitError::OpenFailed { path, cause } => "failed to open repository "@ + path@,
        GitError::BareRepository => "bare repositories are not supported"@,
        GitError::BareConflicts => "bare repository is not supported for conflict resolution"@,
        GitError::NothingStaged => "nothing staged to commit"@,
        GitError::NoSignature { cause } => "failed to create commit signature"@,
        GitError::WriteFailed { path, cause } => "failed to write resolution to "@ + path@,
        GitError::NotStarted { command, cause } => "failed to run git "@ + command@,
        GitError::CommandFailed { command, details } => "git "@ + command@ + " failed: "@ + details@,
        GitError::BadObjectId { cause } => cause@,
        GitError::Repository { cause } => cause@,
    }
}

/// What lies behind a failure, where its message does not say it.
pub open spec fn error_cause(error: GitError) -> Option<Seq<char>> {
    match error {
        GitError::NoRepository { path, cause } => Some(cause@),
        GitError::OpenFailed { path, cause } => Some(cause@),
        GitError::NoSignature { cause } => Some(cause@),
        GitError::WriteFailed { path, cause } => Some(cause@),
        GitError::NotStarted { command, cause } => Some(cause@),
        _ => None,
    }
}

/// A failure in full: its message, then what lies behind it.
pub open spec fn error_report(error: GitError) -> Seq<char> {
    match error_cause(error) {
        Some(cause) => error_message(error) + ": "@ + cause,
        None => error_message(error),
    }
}

impl GitError {
    /// What the failure says first.
    pub fn message(&self) -> (r: String)
        ensures
            r@ == error_message(*self),
    {
        match self {
            GitError::NoRepository { path, .. } => text::join2(
                "no existing git repository found at or above ",
                path.as_str(),
            ),
            GitError::OpenFailed { path, .. } => text::join2(
                "failed to open repository ",
                path.as_str(),
            ),
            GitError::BareRepository => "bare repositories are not supported".to_owned(),
            GitError::BareConflicts =>
                "bare repository is not supported for conflict resolution".to_owned(),
            GitError::NothingStaged => "nothing staged to commit".to_owned(),
            GitError::NoSignature { .. } => "failed to create commit signature".to_owned(),
            GitError::WriteFailed { path, .. } => text::join2(
                "failed to write resolution to ",
                path.as_str(),
            ),
            GitError::NotStarted { command, .. } => text::join2(
                "failed to run git ",
                command.as_str(),
            ),
            GitError::CommandFailed { command, details } => text::join4(
                "git ",
                command.as_str(),
                " failed: ",
                details.as_str(),
            ),
            GitError::BadObjectId { cause } => cause.clone(),
            GitError::Repository { cause } => cause.clone(),
        }
    }

    /// The failure in full.
    pub fn report(&self) -> (r: String)
        ensures
            r@ == error_report(*self),
    {
        let message = self.message();
        match self {
            GitError::NoRepository { cause, .. } => text::join3(
                message.as_str(),
                ": ",
                cause.as_str(),
            ),
            GitError::OpenFailed { cause, .. } => text::join3(
                message.as_str(),
                ": ",
                cause.as_str(),
            ),
            GitError::NoSignature { cause } => text::join3(message.as_str(), ": ", cause.as_str()),
            GitError::WriteFailed { cause, .. } => text::join3(
                message.as_str(),
                ": ",
                cause.as_str(),
            ),
            GitError::NotStarted { cause, .. } => text::join3(
                message.as_str(),
                ": ",
                cause.as_str(),
            ),
            _ => message,
        }
    }
}

}
