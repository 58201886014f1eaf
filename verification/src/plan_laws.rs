//! What the plans for operations do, said of the steps themselves.
use vstd::prelude::*;
use vstd::string::*;

use crate::git_error;
use crate::git_error::GitError;
use crate::object_id;
use crate::paths::RepoPathView;
use crate::plans;
use crate::plans::{
    BranchStepView, IndexStepView, ResolutionStepView, SyncStepView, UnstagePlanView,
};
use crate::reading_laws;
use crate::readings::{HeadInfoView, StageEntryView, StatusEntryView};
use crate::text;

verus! {

/// A commit is made exactly when some file has a flag of the index. It has the
/// message as it was given, character by character, and the commit that is
/// checked out as its only parent, if there is one.
pub proof fn law_commit_keeps_the_message(
    statuses: Seq<StatusEntryView>,
    head: Option<Seq<char>>,
    message: Seq<char>,
)
    ensures
        plans::commit_to_make(statuses, head, message) is Some <==> exists|i: int|
            0 <= i < statuses.len() && (#[trigger] statuses[i]).status.bits & 0x1f != 0,
        plans::commit_to_make(statuses, head, message) matches Some(plan) ==> {
            &&& plan.message.len() == message.len()
            &&& forall|k: int| 0 <= k < message.len() ==> #[trigger] plan.message[k] == message[k]
            &&& head is Some ==> plan.parents.len() == 1 && plan.parents[0] == head->0
            &&& head is None ==> plan.parents.len() == 0
        },
{
    reading_laws::law_staged_needs_an_index_flag(statuses);
}

/// Two commits of the same files have the same message only if they were asked
/// for with the same message.
pub proof fn law_messages_are_not_confused(
    statuses: Seq<StatusEntryView>,
    head: Option<Seq<char>>,
    one: Seq<char>,
    other: Seq<char>,
)
    requires
        plans::commit_to_make(statuses, head, one) is Some,
        one != other,
    ensures
        plans::commit_to_make(statuses, head, other) is Some,
        plans::commit_to_make(statuses, head, one)->0.message != plans::commit_to_make(
            statuses,
            head,
            other,
        )->0.message,
{
}

/// Where nobody is configured to sign commits, the application does.
pub proof fn law_application_signs_by_default()
    ensures
        plans::FALLBACK_NAME@ == "Git Control"@,
        plans::FALLBACK_EMAIL@ == "git-control@local"@,
{
}

/// What a step does to an index: taking a file in puts it under its path,
/// taking it out leaves nothing there, and no other path is touched; emptying
/// leaves nothing at all, and writing changes nothing.
pub proof fn law_steps_touch_their_path<E>(
    index: Map<Seq<char>, E>,
    files: spec_fn(Seq<char>) -> E,
    steps: Seq<IndexStepView>,
    path: Seq<char>,
    other: Seq<char>,
)
    requires
        other != path,
    ensures
        plans::index_after(index, files, Seq::empty()) == index,
        ({
            let before = plans::index_after(index, files, steps);
            let taken_in = plans::index_after(index, files, steps.push(IndexStepView::Add { path }));
            let taken_out = plans::index_after(
                index,
                files,
                steps.push(IndexStepView::Remove { path }),
            );
            &&& taken_in.dom().contains(path) && taken_in[path] == files(path)
            &&& taken_in.dom().contains(other) <==> before.dom().contains(other)
            &&& taken_in[other] == before[other]
            &&& !taken_out.dom().contains(path)
            &&& taken_out.dom().contains(other) <==> before.dom().contains(other)
            &&& before.dom().contains(other) ==> taken_out[other] == before[other]
            &&& !plans::index_after(index, files, steps.push(IndexStepView::Clear)).dom().contains(
                path,
            )
            &&& plans::index_after(index, files, steps.push(IndexStepView::Write)) == before
        }),
{
    assert(steps.push(IndexStepView::Add { path }).drop_last() =~= steps);
    assert(steps.push(IndexStepView::Remove { path }).drop_last() =~= steps);
    assert(steps.push(IndexStepView::Clear).drop_last() =~= steps);
    assert(steps.push(IndexStepView::Write).drop_last() =~= steps);
}

/// Staging all goes through the files in their order. Each further file with a
/// readable path adds one step at the end: it is taken out if it was deleted in
/// the working tree, else taken in if it is there. Other files add none.
pub proof fn law_stage_all_takes_one_step_each(
    entries: Seq<StageEntryView>,
    entry: StageEntryView,
)
    ensures
        plans::stage_steps(Seq::empty()) == Seq::<IndexStepView>::empty(),
        ({
            let before = plans::stage_steps(entries);
            let after = plans::stage_steps(entries.push(entry));
            let deleted = entry.status.bits & 0x200 != 0;
            &&& entry.path is None ==> after == before
            &&& entry.path is Some && deleted ==> after == before.push(
                IndexStepView::Remove { path: entry.path->0 },
            )
            &&& entry.path is Some && !deleted && entry.exists ==> after == before.push(
                IndexStepView::Add { path: entry.path->0 },
            )
            &&& entry.path is Some && !deleted && !entry.exists ==> after == before
        }),
{
    let b = entry.status.bits;
    assert(b & 0x200 == 0x200 <==> b & 0x200 != 0) by (bit_vector);
    assert(entries.push(entry).drop_last() =~= entries);
}

/// Staging one file takes it in if it is there, else out, and then writes the
/// index. Nothing else is done.
pub proof fn law_stage_path_steps(path: Seq<char>)
    ensures
        plans::stage_path_steps(path, true) == seq![
            IndexStepView::Add { path },
            IndexStepView::Write,
        ],
        plans::stage_path_steps(path, false) == seq![
            IndexStepView::Remove { path },
            IndexStepView::Write,
        ],
{
}

/// In a repository with a commit, unstaging sets the index back to it, for all
/// paths or exactly for the given one. In one without a commit, unstaging empties
/// the index or takes the one file out, and writes it.
pub proof fn law_unstaging_goes_back_to_the_commit(path: Seq<char>)
    ensures
        plans::unstage_all_plan(true) matches UnstagePlanView::ResetToHead { paths }
            && paths.len() == 0,
        plans::unstage_path_plan(path, true) matches UnstagePlanView::ResetToHead { paths }
            && paths.len() == 1 && paths[0] == path,
        plans::unstage_all_plan(false) matches UnstagePlanView::Steps { steps } && steps == seq![
            IndexStepView::Clear,
            IndexStepView::Write,
        ],
        plans::unstage_path_plan(path, false) matches UnstagePlanView::Steps { steps } && steps
            == seq![IndexStepView::Remove { path }, IndexStepView::Write],
{
}

/// After an index was set back for given paths, each of these holds what the
/// commit holds there, and each other path what it held; set back without paths,
/// the index is the commit.
pub proof fn law_reset_touches_the_given_paths<E>(
    index: Map<Seq<char>, E>,
    head: Map<Seq<char>, E>,
    paths: Seq<Seq<char>>,
    path: Seq<char>,
)
    ensures
        plans::index_reset(index, head, Seq::empty()) == head,
        paths.len() > 0 && paths.contains(path) ==> {
            let after = plans::index_reset(index, head, paths);
            &&& after.dom().contains(path) <==> head.dom().contains(path)
            &&& head.dom().contains(path) ==> after[path] == head[path]
        },
        paths.len() > 0 && !paths.contains(path) ==> {
            let after = plans::index_reset(index, head, paths);
            &&& after.dom().contains(path) <==> index.dom().contains(path)
            &&& index.dom().contains(path) ==> after[path] == index[path]
        },
{
}

/// Checking a branch out brings the working tree to the branch first and makes
/// the branch what is checked out then; both by its full name, which is its name
/// behind `refs/heads/`.
pub proof fn law_checkout_names_the_branch(name: Seq<char>)
    ensures
        plans::checkout_steps(name).len() == 2,
        plans::checkout_steps(name)[0] == (BranchStepView::CheckoutTree {
            reference: "refs/heads/"@ + name,
        }),
        plans::checkout_steps(name)[1] == (BranchStepView::SetHead {
            reference: "refs/heads/"@ + name,
        }),
{
}

/// Taking over a resolved file writes the text as it is, then stages that file,
/// then writes the index.
pub proof fn law_resolution_is_written_as_it_is(path: Seq<char>, resolved: Seq<char>)
    ensures
        plans::resolution_steps(path, resolved).len() == 3,
        plans::resolution_steps(path, resolved)[0] == (ResolutionStepView::WriteFile {
            path,
            text: resolved,
        }),
        plans::resolution_steps(path, resolved)[1] == (ResolutionStepView::Index {
            step: IndexStepView::Add { path },
        }),
        plans::resolution_steps(path, resolved)[2] == (ResolutionStepView::Index {
            step: IndexStepView::Write,
        }),
{
}

/// A command runs in the given directory with exactly the given arguments, and
/// is told never to ask for anything.
pub proof fn law_commands_never_ask(dir: RepoPathView, args: Seq<Seq<char>>)
    ensures
        plans::quiet_command(dir, args).dir == dir,
        plans::quiet_command(dir, args).args == args,
        plans::quiet_command(dir, args).env.len() == 2,
        plans::quiet_command(dir, args).env[0] == ("GIT_TERMINAL_PROMPT"@, "0"@),
        plans::quiet_command(dir, args).env[1] == ("GCM_INTERACTIVE"@, "never"@),
{
}

/// Nothing that a command printed or reported is lost: what is told of it is the
/// one behind the other on a line of its own, or the only one there is. A silent
/// command is told of by its arguments where it succeeded and as a failure
/// without output where it failed.
pub proof fn law_output_is_told_in_full(args: Seq<Seq<char>>, out: Seq<char>, err: Seq<char>)
    ensures
        out.len() > 0 && err.len() > 0 ==> {
            &&& plans::success_text(args, out, err) == out + seq!['\n'] + err
            &&& plans::failure_details(out, err) == out + seq!['\n'] + err
            &&& plans::merged_output(out, err) == out + seq!['\n'] + err
        },
        out.len() > 0 && err.len() == 0 ==> {
            &&& plans::success_text(args, out, err) == out
            &&& plans::failure_details(out, err) == out
        },
        out.len() == 0 && err.len() > 0 ==> {
            &&& plans::success_text(args, out, err) == err
            &&& plans::failure_details(out, err) == err
        },
        out.len() == 0 && err.len() == 0 ==> {
            &&& plans::success_text(args, out, err) == "git "@ + text::joined(args, " "@)
                + " completed successfully"@
            &&& plans::failure_details(out, err) == "command failed without output"@
            &&& plans::merged_output(out, err).len() == 0
        },
        plans::merged_output(out, Seq::empty()) == out,
        plans::merged_output(Seq::empty(), err) == err,
{
    reveal_strlit("\n");
    assert("\n"@ =~= seq!['\n']);
}

/// The upstream is looked up exactly when a branch with a commit is checked out;
/// else there is no distance. Where the upstream points at a commit, the commits
/// between the two are counted, in this direction.
pub proof fn law_distance_needs_an_upstream(
    info: HeadInfoView,
    head: Seq<char>,
    target: Seq<char>,
)
    ensures
        plans::sync_start(None) == (SyncStepView::Done { ahead: 0, behind: 0 }),
        info.is_branch && info.target is Some && info.shorthand is Some ==> plans::sync_start(
            Some(info),
        ) == (SyncStepView::FindUpstream { branch: info.shorthand->0, head: info.target->0 }),
        info.is_branch && info.target is Some && info.shorthand is None ==> plans::sync_start(
            Some(info),
        ) == (SyncStepView::FindUpstream { branch: Seq::empty(), head: info.target->0 }),
        !info.is_branch || info.target is None ==> plans::sync_start(Some(info))
            == (SyncStepView::Done { ahead: 0, behind: 0 }),
        plans::sync_next(head, Some(Some(target))) == (SyncStepView::Count {
            head,
            upstream: target,
        }),
        plans::sync_next(head, Some(None)) == (SyncStepView::Done { ahead: 0, behind: 0 }),
        plans::sync_next(head, None) == (SyncStepView::Done { ahead: 0, behind: 0 }),
{
}

/// A commit can be named by one to forty hexadecimal digits of either case. Its
/// full id has forty digits: those given, in lower case, and zeros behind them.
pub proof fn law_ids_are_filled_up(id: Seq<char>)
    ensures
        object_id::is_object_id(id) <==> {
            &&& 1 <= id.len() <= 40
            &&& forall|k: int|
                0 <= k < id.len() ==> {
                    let u = #[trigger] id[k] as int;
                    48 <= u <= 57 || 97 <= u <= 102 || 65 <= u <= 70
                }
        },
        id.len() <= 40 ==> object_id::full_id(id).len() == 40,
        id.len() <= 40 ==> forall|k: int|
            0 <= k < 40 ==> (#[trigger] object_id::full_id(id)[k]) as int == (if k >= id.len() {
                48
            } else if 65 <= id[k] as int <= 90 {
                id[k] as int + 32
            } else {
                id[k] as int
            }),
{
    if object_id::is_object_id(id) {
        assert forall|k: int| 0 <= k < id.len() implies {
            let u = #[trigger] id[k] as int;
            48 <= u <= 57 || 97 <= u <= 102 || 65 <= u <= 70
        } by {
            assert(object_id::hex_digit(id[k]));
        }
    }
    if (1 <= id.len() <= 40) && (forall|k: int|
        0 <= k < id.len() ==> {
            let u = #[trigger] id[k] as int;
            48 <= u <= 57 || 97 <= u <= 102 || 65 <= u <= 70
        }) {
        assert forall|k: int| 0 <= k < id.len() implies object_id::hex_digit(#[trigger] id[k]) by {
            let u = id[k] as int;
            assert(48 <= u <= 57 || 97 <= u <= 102 || 65 <= u <= 70);
        }
    }
}

/// What each failure says: its message and, where the message does not say it,
/// what lies behind it.
pub proof fn law_failures_say_why(path: String, command: String, cause: String)
    ensures
        git_error::error_report(GitError::NoRepository { path, cause })
            == "no existing git repository found at or above "@ + path@ + ": "@ + cause@,
        git_error::error_report(GitError::OpenFailed { path, cause })
            == "failed to open repository "@ + path@ + ": "@ + cause@,
        git_error::error_report(GitError::BareRepository) == "bare repositories are not supported"@,
        git_error::error_report(GitError::BareConflicts)
            == "bare repository is not supported for conflict resolution"@,
        git_error::error_report(GitError::NothingStaged) == "nothing staged to commit"@,
        git_error::error_report(GitError::NoSignature { cause })
            == "failed to create commit signature"@ + ": "@ + cause@,
        git_error::error_report(GitError::WriteFailed { path, cause })
            == "failed to write resolution to "@ + path@ + ": "@ + cause@,
        git_error::error_report(GitError::NotStarted { command, cause }) == "failed to run git "@
            + command@ + ": "@ + cause@,
        git_error::error_report(GitError::CommandFailed { command, details: cause }) == "git "@
            + command@ + " failed: "@ + cause@,
        git_error::error_report(GitError::BadObjectId { cause }) == cause@,
        git_error::error_report(GitError::Repository { cause }) == cause@,
{
}

/// The message of a failure stands in front of its report, which says no more
/// than the message unless something lies behind the failure.
pub proof fn law_report_begins_with_the_message(error: GitError)
    ensures
        git_error::error_cause(error) is None ==> git_error::error_report(error)
            == git_error::error_message(error),
        git_error::error_cause(error) is Some ==> git_error::error_report(error)
            == git_error::error_message(error) + ": "@ + git_error::error_cause(error)->0,
        git_error::error_cause(error) is Some <==> (error is NoRepository || error is OpenFailed
            || error is NoSignature || error is WriteFailed || error is NotStarted),
{
}

}
