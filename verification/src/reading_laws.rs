//! What summaries and snapshots show of what was read, said of the readings
//! themselves.
use vstd::prelude::*;
use vstd::string::*;
use vstd::utf8::*;

use crate::clock;
use crate::collect;
use crate::git_service;
use crate::model::{
    BranchEntry, BranchEntryView, ConflictEntry, ConflictEntryView, FileChange, FileChangeView,
    RepoSummary, RepoSummaryView,
};
use crate::paths;
use crate::paths::{PathPartView, PathPrefixView, RepoPath, RepoPathView};
use crate::readings::{
    BranchLabelView, HeadInfoView, RawBranchView, RawCommitView, RawConflictView, RawRefView,
    RepoFactsView, RepoLocationView, RepoReadingView, StatusEntryView, WalkEntryView,
};
use crate::sort;
use crate::status;
use crate::status::Status;
use crate::text;
use crate::text_laws;

verus! {

/// A file has something staged exactly when one of the five flags of the index
/// is set, something unstaged exactly when one of the five flags of the working
/// tree is, is untracked exactly when it is new in the working tree, and is in
/// conflict exactly when that flag is set.
pub proof fn law_flags_decide(s: Status)
    ensures
        status::staged(s) <==> s.bits & 0x1f != 0,
        status::unstaged(s) <==> s.bits & 0xf80 != 0,
        git_service::staged()(s) <==> s.bits & 0x1f != 0,
        git_service::unstaged()(s) <==> s.bits & 0xf80 != 0,
        git_service::untracked()(s) <==> s.bits & 0x80 != 0,
        git_service::conflicted()(s) <==> s.bits & 0x8000 != 0,
{
    let b = s.bits;
    assert((b & 0x1 == 0x1 || b & 0x2 == 0x2 || b & 0x4 == 0x4 || b & 0x8 == 0x8 || b & 0x10
        == 0x10) <==> b & 0x1f != 0) by (bit_vector);
    assert((b & 0x100 == 0x100 || b & 0x200 == 0x200 || b & 0x800 == 0x800 || b & 0x400 == 0x400
        || b & 0x80 == 0x80) <==> b & 0xf80 != 0) by (bit_vector);
    assert(b & 0x80 == 0x80 <==> b & 0x80 != 0) by (bit_vector);
    assert(b & 0x8000 == 0x8000 <==> b & 0x8000 != 0) by (bit_vector);
}

/// A status has a flag exactly when no bit of the flag is missing in it.
pub proof fn law_flags_miss_no_bit(s: Status, flag: u32)
    ensures
        status::has_flag(s, flag) <==> flag & !s.bits == 0,
{
    let b = s.bits;
    assert(b & flag == flag <==> flag & !b == 0) by (bit_vector);
}

/// The word for a status goes by its flags, in index or working tree: a conflict
/// before all, then new, modified, deleted, renamed and of another type.
pub proof fn law_words_go_by_flags(s: Status)
    ensures
        status::status_word(s) == (if s.bits & 0x8000 != 0 {
            "conflicted"@
        } else if s.bits & 0x81 != 0 {
            "new"@
        } else if s.bits & 0x102 != 0 {
            "modified"@
        } else if s.bits & 0x204 != 0 {
            "deleted"@
        } else if s.bits & 0x808 != 0 {
            "renamed"@
        } else if s.bits & 0x410 != 0 {
            "typechange"@
        } else {
            "changed"@
        }),
{
    let b = s.bits;
    assert(b & 0x8000 == 0x8000 <==> b & 0x8000 != 0) by (bit_vector);
    assert((b & 0x80 == 0x80 || b & 0x1 == 0x1) <==> b & 0x81 != 0) by (bit_vector);
    assert((b & 0x100 == 0x100 || b & 0x2 == 0x2) <==> b & 0x102 != 0) by (bit_vector);
    assert((b & 0x200 == 0x200 || b & 0x4 == 0x4) <==> b & 0x204 != 0) by (bit_vector);
    assert((b & 0x800 == 0x800 || b & 0x8 == 0x8) <==> b & 0x808 != 0) by (bit_vector);
    assert((b & 0x400 == 0x400 || b & 0x10 == 0x10) <==> b & 0x410 != 0) by (bit_vector);
}

/// Something is staged exactly when some file has a flag of the index.
pub proof fn law_staged_needs_an_index_flag(entries: Seq<StatusEntryView>)
    ensures
        git_service::any_of(entries, git_service::staged()) <==> exists|i: int|
            0 <= i < entries.len() && (#[trigger] entries[i]).status.bits & 0x1f != 0,
{
    assert forall|i: int| 0 <= i < entries.len() implies (git_service::staged()(
        #[trigger] entries[i].status,
    ) <==> entries[i].status.bits & 0x1f != 0) by {
        law_flags_decide(entries[i].status);
    }
    if exists|i: int|
        0 <= i < entries.len() && (#[trigger] entries[i]).status.bits & 0x1f != 0 {
        let i = choose|i: int|
            0 <= i < entries.len() && (#[trigger] entries[i]).status.bits & 0x1f != 0;
        assert(git_service::staged()(entries[i].status));
    }
    if git_service::any_of(entries, git_service::staged()) {
        let i = choose|i: int|
            0 <= i < entries.len() && git_service::staged()(#[trigger] entries[i].status);
        assert(entries[i].status.bits & 0x1f != 0);
    }
}

/// A summary counts every file once under each heading it falls under: one more
/// file raises exactly the counts whose flags it has, by one. Without files all
/// counts are zero.
pub proof fn law_each_file_counts_once(facts: RepoFactsView, file: StatusEntryView)
    requires
        facts.statuses.len() < usize::MAX,
    ensures
        ({
            let more = RepoFactsView { statuses: facts.statuses.push(file), ..facts };
            let none = RepoFactsView { statuses: Seq::empty(), ..facts };
            let bits = file.status.bits;
            let before = git_service::summary_of(facts);
            let after = git_service::summary_of(more);
            let empty = git_service::summary_of(none);
            &&& after.staged_count == before.staged_count + (if bits & 0x1f != 0 {
                1int
            } else {
                0int
            })
            &&& after.unstaged_count == before.unstaged_count + (if bits & 0xf80 != 0 {
                1int
            } else {
                0int
            })
            &&& after.untracked_count == before.untracked_count + (if bits & 0x80 != 0 {
                1int
            } else {
                0int
            })
            &&& after.conflict_count == before.conflict_count + (if bits & 0x8000 != 0 {
                1int
            } else {
                0int
            })
            &&& empty.staged_count == 0
            &&& empty.unstaged_count == 0
            &&& empty.untracked_count == 0
            &&& empty.conflict_count == 0
        }),
{
    let all = facts.statuses.push(file);
    assert(all.drop_last() =~= facts.statuses);
    law_flags_decide(file.status);
    git_service::lemma_count_bounded(facts.statuses, git_service::staged());
    git_service::lemma_count_bounded(facts.statuses, git_service::unstaged());
    git_service::lemma_count_bounded(facts.statuses, git_service::untracked());
    git_service::lemma_count_bounded(facts.statuses, git_service::conflicted());
}

/// A summary has the path, branch and distances that were read; without a branch
/// it says so. What it advises goes by its own counts: conflicts come first,
/// then what is not staged, then what is, then what is to be pushed.
pub proof fn law_summary_advises_by_its_counts(facts: RepoFactsView)
    requires
        facts.statuses.len() <= usize::MAX,
    ensures
        ({
            let summary = git_service::summary_of(facts);
            &&& summary.path == facts.path
            &&& summary.ahead == facts.ahead
            &&& summary.behind == facts.behind
            &&& facts.branch is Some ==> summary.current_branch == facts.branch->0
            &&& facts.branch is None ==> summary.current_branch == "detached"@
            &&& summary.next_step == (if summary.conflict_count > 0 {
                "Resolve merge conflicts in Conflict Studio before committing."@
            } else if summary.unstaged_count > 0 {
                "Review changes and stage what belongs in your next commit."@
            } else if summary.staged_count > 0 {
                "Write a clear commit message and create your commit."@
            } else if summary.ahead > 0 {
                "Branch is ahead of remote. Sync by pushing when ready."@
            } else {
                "Working tree is clean. Start a branch or pull latest updates."@
            })
        }),
{
    git_service::lemma_count_bounded(facts.statuses, git_service::staged());
    git_service::lemma_count_bounded(facts.statuses, git_service::unstaged());
    git_service::lemma_count_bounded(facts.statuses, git_service::conflicted());
}

/// What is advised, whatever the counts are: conflicts come first, then what is
/// not staged, then what is, then what is to be pushed.
pub proof fn law_advice_takes_the_most_urgent(
    conflicts: nat,
    staged: nat,
    unstaged: nat,
    ahead: nat,
)
    ensures
        conflicts > 0 ==> git_service::next_step(conflicts, staged, unstaged, ahead)
            == "Resolve merge conflicts in Conflict Studio before committing."@,
        unstaged > 0 ==> git_service::next_step(0, staged, unstaged, ahead)
            == "Review changes and stage what belongs in your next commit."@,
        staged > 0 ==> git_service::next_step(0, staged, 0, ahead)
            == "Write a clear commit message and create your commit."@,
        ahead > 0 ==> git_service::next_step(0, 0, 0, ahead)
            == "Branch is ahead of remote. Sync by pushing when ready."@,
        git_service::next_step(0, 0, 0, 0)
            == "Working tree is clean. Start a branch or pull latest updates."@,
{
}

/// A repository is named after the last component of its path, where that is a
/// name and text; else its name is unknown.
pub proof fn law_repository_is_named_after_its_directory(path: RepoPathView, name: Seq<u8>)
    ensures
        path.parts.len() == 0 ==> paths::repo_name(path) == "unknown"@,
        path.parts.len() > 0 && path.parts.last() == PathPartView::Normal(name) ==> if valid_utf8(
            name,
        ) {
            paths::repo_name(path) == decode_utf8(name)
        } else {
            paths::repo_name(path) == "unknown"@
        },
        path.parts.len() > 0 && !(path.parts.last() is Normal) ==> paths::repo_name(path)
            == "unknown"@,
        forall|facts: RepoFactsView|
            facts.path == path ==> (#[trigger] git_service::summary_of(facts)).name
                == paths::repo_name(path),
{
}

/// The root of a repository is its working tree. Without one it is the directory
/// that holds its `.git`, and where its directory has another name, that
/// directory itself.
pub proof fn law_root_is_the_working_tree(location: RepoLocationView)
    ensures
        location.workdir is Some ==> git_service::root_of(location) == location.workdir->0,
        location.workdir is None && location.git_dir.parts.len() > 0 && location.git_dir.parts.last()
            == PathPartView::Normal(seq![0x2eu8, 0x67u8, 0x69u8, 0x74u8])
            && location.git_dir_parent is Some ==> git_service::root_of(location)
            == location.git_dir_parent->0,
        location.workdir is None && (location.git_dir.parts.len() == 0
            || location.git_dir.parts.last() != PathPartView::Normal(
            seq![0x2eu8, 0x67u8, 0x69u8, 0x74u8],
        ) || location.git_dir_parent is None) ==> git_service::root_of(location)
            == location.git_dir,
{
}

/// A branch is checked out exactly when the head is one and has a name.
pub proof fn law_branch_needs_a_head(head: Option<HeadInfoView>)
    ensures
        match git_service::branch_name(head) {
            Some(name) => head is Some && head->0.is_branch && head->0.shorthand == Some(name),
            None => head is None || !head->0.is_branch || head->0.shorthand is None,
        },
{
}

/// Those repositories are kept that could be summed up, each in its place.
pub proof fn law_failures_keep_nothing_else_out(
    loaded: Seq<Result<RepoSummary, crate::git_error::GitError>>,
    one: RepoSummary,
    failure: crate::git_error::GitError,
)
    ensures
        git_service::loaded_summaries(Seq::empty()) == Seq::<RepoSummaryView>::empty(),
        git_service::loaded_summaries(loaded.push(Ok(one))) == git_service::loaded_summaries(
            loaded,
        ).push(one.deep_view()),
        git_service::loaded_summaries(loaded.push(Err(failure))) == git_service::loaded_summaries(
            loaded,
        ),
{
    assert(loaded.push(Ok(one)).drop_last() =~= loaded);
    assert(loaded.push(Err(failure)).drop_last() =~= loaded);
}

/// Byte strings are ordered by the first byte in which they differ; one that
/// another begins with comes before it.
pub proof fn law_bytes_are_ordered_by_first_difference(a: Seq<u8>, b: Seq<u8>, at: int)
    requires
        0 <= at <= a.len(),
        at <= b.len(),
        forall|k: int| 0 <= k < at ==> #[trigger] a[k] == b[k],
    ensures
        at == a.len() ==> paths::bytes_le(a, b),
        at < a.len() && at == b.len() ==> !paths::bytes_le(a, b),
        at < a.len() && at < b.len() && a[at] != b[at] ==> paths::bytes_le(a, b) == (a[at] < b[at]),
    decreases at,
{
    if at > 0 {
        assert(a[0] == b[0]);
        let x = a.drop_first();
        let y = b.drop_first();
        assert forall|k: int| 0 <= k < at - 1 implies #[trigger] x[k] == y[k] by {
            assert(a[k + 1] == b[k + 1]);
        }
        law_bytes_are_ordered_by_first_difference(x, y, at - 1);
    }
}

/// Paths are ordered by the first component in which they differ, so a directory
/// comes right before what it holds. Of two names, the bytes decide; a root, the
/// current directory and the parent directory come before names, in this order,
/// and prefixes before all.
pub proof fn law_paths_are_ordered_by_first_difference(
    a: Seq<PathPartView>,
    b: Seq<PathPartView>,
    at: int,
)
    requires
        0 <= at <= a.len(),
        at <= b.len(),
        forall|k: int| 0 <= k < at ==> #[trigger] a[k] == b[k],
    ensures
        at == a.len() ==> paths::parts_le(a, b),
        at < a.len() && at == b.len() ==> !paths::parts_le(a, b),
        at < a.len() && at < b.len() && a[at] != b[at] ==> {
            &&& a[at] is Normal && b[at] is Normal ==> paths::parts_le(a, b) == paths::bytes_le(
                a[at]->Normal_0,
                b[at]->Normal_0,
            )
            &&& !(a[at] is Normal) && b[at] is Normal ==> paths::parts_le(a, b)
            &&& a[at] is Normal && !(b[at] is Normal) ==> !paths::parts_le(a, b)
            &&& a[at] is Prefix && !(b[at] is Prefix) ==> paths::parts_le(a, b)
            &&& a[at] is Root && (b[at] is Current || b[at] is Parent) ==> paths::parts_le(a, b)
            &&& a[at] is Prefix && b[at] is Prefix ==> paths::parts_le(a, b) == paths::prefix_le(
                a[at]->Prefix_0,
                b[at]->Prefix_0,
            )
            &&& !(a[at] is Prefix) && b[at] is Prefix ==> !paths::parts_le(a, b)
            &&& a[at] is Current && b[at] is Parent ==> paths::parts_le(a, b)
            &&& a[at] is Current && b[at] is Root ==> !paths::parts_le(a, b)
            &&& a[at] is Parent && (b[at] is Root || b[at] is Current) ==> !paths::parts_le(a, b)
        },
    decreases at,
{
    if at > 0 {
        assert(a[0] == b[0]);
        let x = a.drop_first();
        let y = b.drop_first();
        assert forall|k: int| 0 <= k < at - 1 implies #[trigger] x[k] == y[k] by {
            assert(a[k + 1] == b[k + 1]);
        }
        law_paths_are_ordered_by_first_difference(x, y, at - 1);
    }
}

/// Two drives are ordered by their letters, in upper case, and the case of a
/// letter does not matter.
pub proof fn law_drives_ignore_case(a: u8, b: u8)
    ensures
        0x61 <= a <= 0x7a ==> paths::drive(a) == a - 0x20 && paths::drive(paths::drive(a))
            == paths::drive(a),
        !(0x61 <= a <= 0x7a) ==> paths::drive(a) == a,
        paths::prefix_le(PathPrefixView::Disk(a), PathPrefixView::Disk(b)) <==> a <= b,
{
    assert(seq![a][0] == a && seq![b][0] == b);
    if a == b {
        assert(seq![a] =~= seq![b]);
        law_bytes_are_ordered_by_first_difference(Seq::empty(), Seq::empty(), 0);
    } else {
        law_bytes_are_ordered_by_first_difference(seq![a], seq![b], 0);
    }
}

/// What a change shows of the file that was found.
pub open spec fn shows_file(change: FileChangeView, entry: StatusEntryView) -> bool {
    &&& entry.path is Some ==> change.path == entry.path->0
    &&& entry.path is None ==> change.path == "<unknown>"@
    &&& change.kind == status::status_word(entry.status)
    &&& change.staged == (entry.status.bits & 0x1f != 0)
    &&& change.unstaged == (entry.status.bits & 0xf80 != 0)
}

proof fn lemma_placed_somewhere<V>(s: Seq<V>, le: sort::Order<V>, x: V)
    requires
        sort::is_order(le),
    ensures
        s.contains(x) <==> sort::stably_sorted(s, le).contains(x),
{
    broadcast use vstd::seq_lib::group_to_multiset_ensures;

    sort::law_sorting_puts_in_order(s, le);
    let t = sort::stably_sorted(s, le);
    assert(s.contains(x) <==> s.to_multiset().count(x) > 0);
    assert(t.contains(x) <==> t.to_multiset().count(x) > 0);
}

/// Every file that a status scan found is among the changes, with its path, word
/// and flags, and there are no others.
pub proof fn law_changes_are_the_files_found(entries: Seq<StatusEntryView>, i: int)
    requires
        0 <= i < entries.len(),
    ensures
        collect::changes_of(entries).len() == entries.len(),
        exists|k: int|
            0 <= k < entries.len() && shows_file(
                #[trigger] collect::changes_of(entries)[k],
                entries[i],
            ),
        exists|k: int|
            0 <= k < entries.len() && shows_file(
                collect::changes_of(entries)[i],
                #[trigger] entries[k],
            ),
{
    let le = sort::rank::<FileChange>();
    let made = entries.map_values(|e: StatusEntryView| collect::change_of(e));
    let sorted = collect::changes_of(entries);
    sort::lemma_rank::<FileChange>();
    sort::law_sorting_puts_in_order(made, le);
    lemma_placed_somewhere(made, le, made[i]);
    lemma_placed_somewhere(made, le, sorted[i]);
    assert(made.contains(made[i]));
    assert(sorted.contains(sorted[i]));
    let k = choose|k: int| 0 <= k < sorted.len() && sorted[k] == made[i];
    law_flags_decide(entries[i].status);
    assert(shows_file(sorted[k], entries[i]));
    let m = choose|m: int| 0 <= m < made.len() && made[m] == sorted[i];
    law_flags_decide(entries[m].status);
    assert(shows_file(sorted[i], entries[m]));
}

/// A local branch labels a commit with its name, a remote branch with its remote
/// and name; other references label nothing.
pub proof fn law_references_label_by_their_names(rest: Seq<char>, name: Seq<char>)
    ensures
        !(exists|after: Seq<char>|
            rest == #[trigger] ("refs/heads/"@ + after)) && !(exists|after: Seq<char>|
            rest == #[trigger] ("refs/remotes/"@ + after)) ==> collect::label_of(
            "refs/heads/"@ + rest,
        ) == Some(rest) && collect::label_of("refs/remotes/"@ + rest) == Some(rest),
        !(exists|after: Seq<char>|
            name == #[trigger] ("refs/heads/"@ + after)) && !(exists|after: Seq<char>|
            name == #[trigger] ("refs/remotes/"@ + after)) ==> collect::label_of(name) is None,
{
    reveal_strlit("refs/heads/");
    reveal_strlit("refs/remotes/");
    let heads = "refs/heads/"@;
    let remotes = "refs/remotes/"@;
    text_laws::law_head_comes_first(name, heads);
    text_laws::law_head_comes_first(name, remotes);
    text_laws::law_head_comes_first(heads + rest, heads);
    text_laws::law_head_comes_first(remotes + rest, remotes);
    text_laws::law_head_comes_first(remotes + rest, heads);
    text_laws::law_heads_are_taken_off(rest, heads);
    text_laws::law_heads_are_taken_off(rest, remotes);
    text_laws::law_heads_are_taken_off(remotes + rest, heads);
    assert((remotes + rest)[5] == 'r');
    if exists|after: Seq<char>| remotes + rest == #[trigger] (heads + after) {
        let after = choose|after: Seq<char>| remotes + rest == #[trigger] (heads + after);
        assert((heads + after)[5] == 'h');
    }
}

/// The label of a reference does not begin with the names of the two kinds of
/// branches, beyond what a remote name may hold inside.
pub proof fn law_label_has_no_kind_in_front(name: Seq<char>, after: Seq<char>)
    ensures
        collect::label_of(name) != Some("refs/remotes/"@ + after),
{
    reveal_strlit("refs/remotes/");
    text_laws::law_no_head_is_left(
        text::without_heads(name, "refs/heads/"@),
        "refs/remotes/"@,
        after,
    );
}

/// A commit has a label for each reference to a branch that points at it, in
/// their order, and no other.
pub proof fn law_commit_has_the_labels_that_point_at_it(
    refs: Seq<RawRefView>,
    reference: RawRefView,
    oid: Seq<char>,
)
    ensures
        collect::labels_on(collect::labels_of(Seq::empty()), oid) == Seq::<Seq<char>>::empty(),
        reference.name is Some && reference.target == Some(oid) && collect::label_of(
            reference.name->0,
        ) is Some ==> collect::labels_on(collect::labels_of(refs.push(reference)), oid)
            == collect::labels_on(collect::labels_of(refs), oid).push(
            collect::label_of(reference.name->0)->0,
        ),
        reference.name is None || reference.target != Some(oid) || collect::label_of(
            reference.name->0,
        ) is None ==> collect::labels_on(collect::labels_of(refs.push(reference)), oid)
            == collect::labels_on(collect::labels_of(refs), oid),
{
    assert(refs.push(reference).drop_last() =~= refs);
    let before = collect::labels_of(refs);
    if let Some(label) = collect::ref_label(reference) {
        assert(before.push(label).drop_last() =~= before);
    }
}

/// A commit is shown with its id in full and by its first eight digits, the first
/// line of its message, its author and its parents; what cannot be read is
/// replaced by a remark.
pub proof fn law_commit_shows_what_was_read(raw: RawCommitView, labels: Seq<BranchLabelView>)
    ensures
        ({
            let shown = collect::commit_of(raw, labels);
            &&& shown.oid == raw.oid
            &&& raw.oid.len() >= 8 ==> shown.id.len() == 8
            &&& raw.oid.len() < 8 ==> shown.id == raw.oid
            &&& forall|k: int| 0 <= k < shown.id.len() ==> #[trigger] shown.id[k] == raw.oid[k]
            &&& raw.summary is Some ==> shown.summary == raw.summary->0
            &&& raw.summary is None ==> shown.summary == "(no message)"@
            &&& raw.author is Some ==> shown.author == raw.author->0
            &&& raw.author is None ==> shown.author == "unknown"@
            &&& shown.parents == raw.parents
            &&& shown.timestamp == clock::shown_time(raw.seconds, raw.offset)
            &&& shown.branch_labels.to_multiset() == collect::labels_on(
                labels,
                raw.oid,
            ).to_multiset()
            &&& forall|i: int, j: int|
                0 <= i < j < shown.branch_labels.len() ==> text::text_le(
                    #[trigger] shown.branch_labels[i],
                    #[trigger] shown.branch_labels[j],
                )
        }),
{
    let on = collect::labels_on(labels, raw.oid);
    let le = sort::rank::<String>();
    sort::lemma_rank::<String>();
    sort::law_sorting_puts_in_order(on, le);
    let shown = collect::commit_of(raw, labels).branch_labels;
    assert forall|i: int, j: int| 0 <= i < j < shown.len() implies text::text_le(
        #[trigger] shown[i],
        #[trigger] shown[j],
    ) by {
        assert(le(shown[i], shown[j]));
    }
}

/// The history of a snapshot is the commits that were read, in their order, each
/// shown with the labels of the references; only what is over the limit is cut
/// off at the end.
pub proof fn law_history_keeps_its_order(reading: RepoReadingView, i: int)
    requires
        0 <= i < reading.history.len(),
    ensures
        i < 120 ==> {
            &&& i < collect::snapshot_of(reading).commits.len()
            &&& collect::snapshot_of(reading).commits[i] == collect::commit_of(
                reading.history[i],
                collect::labels_of(reading.refs),
            )
        },
        collect::snapshot_of(reading).commits.len() == (if reading.history.len() <= 120 {
            reading.history.len()
        } else {
            120
        }),
{
}

/// Of a walk through the history, one more step adds its commit at the end while
/// the walk is within its limit and the step did not fail, and nothing else.
pub proof fn law_walk_goes_step_by_step(
    steps: Seq<Option<Seq<char>>>,
    step: Option<Seq<char>>,
    max: nat,
)
    ensures
        collect::walked(Seq::empty(), max) == Seq::<Seq<char>>::empty(),
        steps.len() < max && step is Some ==> collect::walked(steps.push(step), max)
            == collect::walked(steps, max).push(step->0),
        steps.len() >= max || step is None ==> collect::walked(steps.push(step), max)
            == collect::walked(steps, max),
{
    assert(steps.push(step).drop_last() =~= steps);
}

/// What a branch shows of what was read: its upstream without the part that
/// every remote branch's full name has.
pub open spec fn shows_branch(branch: BranchEntryView, raw: RawBranchView) -> bool {
    &&& raw.name is Some ==> branch.name == raw.name->0
    &&& raw.name is None ==> branch.name == "<invalid>"@
    &&& branch.is_head == raw.is_head
    &&& raw.upstream is None ==> branch.upstream is None
    &&& raw.upstream is Some ==> branch.upstream == Some(
        text::without_parts(raw.upstream->0, "refs/remotes/"@),
    )
}

/// Every branch that was read is listed, and no other.
pub proof fn law_branches_are_those_read(raw: Seq<RawBranchView>, i: int)
    requires
        0 <= i < raw.len(),
    ensures
        collect::branches_of(raw).len() == raw.len(),
        exists|k: int|
            0 <= k < raw.len() && shows_branch(#[trigger] collect::branches_of(raw)[k], raw[i]),
        exists|k: int|
            0 <= k < raw.len() && shows_branch(collect::branches_of(raw)[i], #[trigger] raw[k]),
{
    let le = sort::rank::<BranchEntry>();
    let made = raw.map_values(|b: RawBranchView| collect::branch_of(b));
    let sorted = collect::branches_of(raw);
    sort::lemma_rank::<BranchEntry>();
    sort::law_sorting_puts_in_order(made, le);
    lemma_placed_somewhere(made, le, made[i]);
    lemma_placed_somewhere(made, le, sorted[i]);
    assert(made.contains(made[i]));
    assert(sorted.contains(sorted[i]));
    let k = choose|k: int| 0 <= k < sorted.len() && sorted[k] == made[i];
    assert(shows_branch(sorted[k], raw[i]));
    let m = choose|m: int| 0 <= m < made.len() && made[m] == sorted[i];
    assert(shows_branch(sorted[i], raw[m]));
}

/// What a conflict shows of what was read: the path of our side before that of
/// theirs before that of the common ancestor; our side goes by the branch that is
/// checked out.
pub open spec fn shows_conflict(
    conflict: ConflictEntryView,
    raw: RawConflictView,
    branch: Option<Seq<char>>,
) -> bool {
    &&& raw.our is Some ==> conflict.path == text::lossy_text(raw.our->0)
    &&& raw.our is None && raw.their is Some ==> conflict.path == text::lossy_text(raw.their->0)
    &&& raw.our is None && raw.their is None && raw.ancestor is Some ==> conflict.path
        == text::lossy_text(raw.ancestor->0)
    &&& raw.our is None && raw.their is None && raw.ancestor is None ==> conflict.path
        == "<unknown>"@
    &&& conflict.ours_label == (if raw.our is Some && branch is Some {
        branch->0
    } else {
        "ours"@
    })
    &&& conflict.theirs_label == (if raw.their is Some {
        "incoming"@
    } else {
        "theirs"@
    })
    &&& raw.content is Some ==> conflict.content == raw.content->0
    &&& raw.content is None ==> conflict.content.len() == 0
}

/// Every file in conflict that was read is listed, and no other.
pub proof fn law_conflicts_are_those_read(
    raw: Seq<RawConflictView>,
    branch: Option<Seq<char>>,
    i: int,
)
    requires
        0 <= i < raw.len(),
    ensures
        collect::conflicts_of(raw, branch).len() == raw.len(),
        exists|k: int|
            0 <= k < raw.len() && shows_conflict(
                #[trigger] collect::conflicts_of(raw, branch)[k],
                raw[i],
                branch,
            ),
        exists|k: int|
            0 <= k < raw.len() && shows_conflict(
                collect::conflicts_of(raw, branch)[i],
                #[trigger] raw[k],
                branch,
            ),
{
    let le = sort::rank::<ConflictEntry>();
    let made = raw.map_values(|c: RawConflictView| collect::conflict_of(c, branch));
    let sorted = collect::conflicts_of(raw, branch);
    sort::lemma_rank::<ConflictEntry>();
    sort::law_sorting_puts_in_order(made, le);
    lemma_placed_somewhere(made, le, made[i]);
    lemma_placed_somewhere(made, le, sorted[i]);
    assert(made.contains(made[i]));
    assert(sorted.contains(sorted[i]));
    let k = choose|k: int| 0 <= k < sorted.len() && sorted[k] == made[i];
    assert(shows_conflict(sorted[k], raw[i], branch));
    let m = choose|m: int| 0 <= m < made.len() && made[m] == sorted[i];
    assert(shows_conflict(sorted[i], raw[m], branch));
}

/// The log of a snapshot is the entries that were read, in their order, each with
/// both ids by their first eight digits and the new one in full.
pub proof fn law_log_keeps_its_order(reading: RepoReadingView, i: int)
    requires
        0 <= i < reading.reflog.len(),
    ensures
        collect::snapshot_of(reading).recovery.len() == (if reading.reflog.len() <= 60 {
            reading.reflog.len()
        } else {
            60
        }),
        i < 60 ==> {
            let raw = reading.reflog[i];
            let shown = collect::snapshot_of(reading).recovery[i];
            &&& shown.to_id == raw.id_new
            &&& raw.id_new.len() >= 8 ==> shown.to_id_short == raw.id_new.take(8)
            &&& raw.id_new.len() < 8 ==> shown.to_id_short == raw.id_new
            &&& raw.id_old.len() >= 8 ==> shown.from_id_short == raw.id_old.take(8)
            &&& raw.id_old.len() < 8 ==> shown.from_id_short == raw.id_old
            &&& raw.message is Some ==> shown.message == raw.message->0
            &&& raw.message is None ==> shown.message == "(no reflog message)"@
            &&& shown.timestamp == clock::shown_time(raw.seconds, raw.offset)
        },
{
    let raw = reading.reflog[i];
    if raw.id_new.len() >= 8 {
        assert(raw.id_new.take(8) =~= raw.id_new.subrange(0, 8));
    }
    if raw.id_old.len() >= 8 {
        assert(raw.id_old.take(8) =~= raw.id_old.subrange(0, 8));
    }
}

/// A snapshot's lists are made of what was read of the same things.
pub proof fn law_snapshot_is_of_one_reading(reading: RepoReadingView)
    ensures
        collect::snapshot_of(reading).summary == git_service::summary_of(reading.facts),
        collect::snapshot_of(reading).changes == collect::changes_of(reading.facts.statuses),
        collect::snapshot_of(reading).branches == collect::branches_of(reading.branches),
        collect::snapshot_of(reading).conflicts == collect::conflicts_of(
            reading.conflicts,
            reading.facts.branch,
        ),
{
}

/// A moment is shown as it is formatted, or as unknown where it has no date.
pub proof fn law_moments_without_date_are_unknown(seconds: i64, offset: i32)
    ensures
        -8334601228800 <= seconds <= 8210266876799 && -86400 < offset < 86400 ==> clock::shown_time(
            seconds,
            offset,
        ) == clock::moment_by(seconds, offset, "%Y-%m-%d %H:%M"@),
        !(-8334601228800 <= seconds <= 8210266876799 && -86400 < offset < 86400)
            ==> clock::shown_time(seconds, offset) == "unknown"@,
{
}

/// Lists of repositories, changes, branches and conflicts are ordered by name or
/// path, and by nothing else.
pub proof fn law_lists_are_ranked_by_name_or_path(
    r: (RepoSummaryView, RepoSummaryView),
    c: (FileChangeView, FileChangeView),
    b: (BranchEntryView, BranchEntryView),
    x: (ConflictEntryView, ConflictEntryView),
)
    ensures
        sort::rank::<RepoSummary>()(r.0, r.1) == text::text_le(r.0.name, r.1.name),
        sort::rank::<FileChange>()(c.0, c.1) == text::text_le(c.0.path, c.1.path),
        sort::rank::<BranchEntry>()(b.0, b.1) == text::text_le(b.0.name, b.1.name),
        sort::rank::<ConflictEntry>()(x.0, x.1) == text::text_le(x.0.path, x.1.path),
{
}

/// Of two prefixes of the same kind, the names decide: the server before the
/// share. Of two kinds, drives come last, after shares, devices, and the drives,
/// shares and names that are taken as they stand, from the last to the first.
pub proof fn law_prefixes_are_ordered_by_kind_and_name(
    a: PathPrefixView,
    b: PathPrefixView,
    m: (Seq<u8>, Seq<u8>),
    n: (Seq<u8>, Seq<u8>),
)
    ensures
        paths::prefix_le(PathPrefixView::Verbatim(m.0), PathPrefixView::Verbatim(n.0))
            == paths::bytes_le(m.0, n.0),
        paths::prefix_le(PathPrefixView::DeviceNs(m.0), PathPrefixView::DeviceNs(n.0))
            == paths::bytes_le(m.0, n.0),
        m.0 != n.0 ==> {
            &&& paths::prefix_le(PathPrefixView::Unc(m.0, m.1), PathPrefixView::Unc(n.0, n.1))
                == paths::bytes_le(m.0, n.0)
            &&& paths::prefix_le(
                PathPrefixView::VerbatimUnc(m.0, m.1),
                PathPrefixView::VerbatimUnc(n.0, n.1),
            ) == paths::bytes_le(m.0, n.0)
        },
        paths::prefix_le(PathPrefixView::Unc(m.0, m.1), PathPrefixView::Unc(m.0, n.1))
            == paths::bytes_le(m.1, n.1),
        paths::prefix_le(
            PathPrefixView::VerbatimUnc(m.0, m.1),
            PathPrefixView::VerbatimUnc(m.0, n.1),
        ) == paths::bytes_le(m.1, n.1),
        a is Verbatim && !(b is Verbatim) ==> paths::prefix_le(a, b) && !paths::prefix_le(b, a),
        a is VerbatimUnc && (b is VerbatimDisk || b is DeviceNs || b is Unc || b is Disk)
            ==> paths::prefix_le(a, b) && !paths::prefix_le(b, a),
        a is VerbatimDisk && (b is DeviceNs || b is Unc || b is Disk) ==> paths::prefix_le(a, b)
            && !paths::prefix_le(b, a),
        a is DeviceNs && (b is Unc || b is Disk) ==> paths::prefix_le(a, b) && !paths::prefix_le(
            b,
            a,
        ),
        a is Unc && b is Disk ==> paths::prefix_le(a, b) && !paths::prefix_le(b, a),
{
    if m.0 == n.0 {
        lemma_same_bytes_are_ordered(m.0);
    }
    lemma_same_bytes_are_ordered(Seq::empty());
}

proof fn lemma_same_bytes_are_ordered(a: Seq<u8>)
    ensures
        paths::bytes_le(a, a),
{
    law_bytes_are_ordered_by_first_difference(a, a, a.len() as int);
}

/// Of a log, the last entries are shown, from the last one back: all of them, or
/// sixty where there are more.
pub proof fn law_log_is_shown_from_its_end(length: nat, i: int)
    requires
        length <= usize::MAX,
    ensures
        length <= 60 ==> collect::shown_log_positions(length).len() == length,
        length > 60 ==> collect::shown_log_positions(length).len() == 60,
        0 <= i < collect::shown_log_positions(length).len() ==> collect::shown_log_positions(
            length,
        )[i] == length - 1 - i,
{
}

/// The history is the first commits that were read, in their order, as many as
/// the limit allows.
pub proof fn law_history_is_cut_at_its_limit(
    history: Seq<RawCommitView>,
    refs: Seq<RawRefView>,
    max: nat,
    i: int,
)
    ensures
        history.len() <= max ==> collect::commits_of(history, refs, max).len() == history.len(),
        history.len() > max ==> collect::commits_of(history, refs, max).len() == max,
        0 <= i < history.len() && i < max ==> {
            let shown = collect::commits_of(history, refs, max)[i];
            &&& shown.oid == history[i].oid
            &&& shown.parents == history[i].parents
            &&& shown == collect::commit_of(history[i], collect::labels_of(refs))
        },
{
}

/// An entry marks a repository exactly when it is a directory named `.git`.
pub proof fn law_git_directories_mark_repositories(name: Seq<u8>, is_dir: bool)
    ensures
        git_service::marks_repo(name, is_dir) <==> is_dir && name.len() == 4 && name[0] == 0x2e
            && name[1] == 0x67 && name[2] == 0x69 && name[3] == 0x74,
{
    if name.len() == 4 && name[0] == 0x2e && name[1] == 0x67 && name[2] == 0x69 && name[3]
        == 0x74 {
        assert(name =~= seq![0x2eu8, 0x67u8, 0x69u8, 0x74u8]);
    }
}

/// A text that was read is shown as it is, and the default only where there is
/// none.
pub proof fn law_defaults_fill_gaps_only(value: Seq<char>, default: Seq<char>)
    ensures
        git_service::text_or(Some(value), default) == value,
        git_service::text_or(None, default) == default,
{
}

/// Dropping repeats goes through a list from its start: one more path is kept at
/// the end unless it is the path that was kept last.
pub proof fn law_repeats_keep_the_first(paths_listed: Seq<RepoPathView>, path: RepoPathView)
    ensures
        paths::without_repeats(Seq::empty()) == Seq::<RepoPathView>::empty(),
        ({
            let kept = paths::without_repeats(paths_listed);
            let after = paths::without_repeats(paths_listed.push(path));
            &&& kept.len() > 0 && kept.last().parts == path.parts ==> after == kept
            &&& kept.len() == 0 || kept.last().parts != path.parts ==> after == kept.push(path)
        }),
{
    assert(paths_listed.push(path).drop_last() =~= paths_listed);
}

/// Each entry leads to at most one repository, the directory that holds it; they
/// are put in order by their components, and repeats are dropped.
pub proof fn law_entries_lead_to_what_holds_them(
    met: Seq<WalkEntryView>,
    entries: Seq<WalkEntryView>,
    entry: WalkEntryView,
)
    ensures
        git_service::repos_at(met, Seq::empty()) == Seq::<RepoPathView>::empty(),
        git_service::repo_at(met, entry) is Some ==> {
            &&& entry.parent == git_service::repo_at(met, entry)
            &&& git_service::repos_at(met, entries.push(entry)) == git_service::repos_at(
                met,
                entries,
            ).push(entry.parent->0)
        },
        git_service::repo_at(met, entry) is None ==> git_service::repos_at(met, entries.push(entry))
            == git_service::repos_at(met, entries),
        git_service::discovered(met) == paths::without_repeats(
            sort::stably_sorted(
                git_service::repos_at(met, met),
                |a: RepoPathView, b: RepoPathView| paths::parts_le(a.parts, b.parts),
            ),
        ),
{
    assert(entries.push(entry).drop_last() =~= entries);
    assert(sort::rank::<RepoPath>() =~= (|a: RepoPathView, b: RepoPathView|
        paths::parts_le(a.parts, b.parts)));
}

proof fn lemma_one_more<V>(s: Seq<V>, x: V, le: sort::Order<V>)
    requires
        sort::is_order(le),
    ensures
        sort::stably_sorted(s.push(x), le).to_multiset() == sort::stably_sorted(
            s,
            le,
        ).to_multiset().insert(x),
{
    broadcast use vstd::seq_lib::group_to_multiset_ensures;

    sort::law_sorting_puts_in_order(s, le);
    sort::law_sorting_puts_in_order(s.push(x), le);
}

/// One more file, branch or conflict that was read adds exactly one to the list,
/// and takes none away.
pub proof fn law_one_more_adds_one(
    entries: Seq<StatusEntryView>,
    entry: StatusEntryView,
    branches: Seq<RawBranchView>,
    branch: RawBranchView,
    conflicts: Seq<RawConflictView>,
    conflict: RawConflictView,
    current: Option<Seq<char>>,
)
    ensures
        collect::changes_of(Seq::empty()).len() == 0,
        collect::branches_of(Seq::empty()).len() == 0,
        collect::conflicts_of(Seq::empty(), current).len() == 0,
        exists|x: FileChangeView|
            #![trigger shows_file(x, entry)]
            shows_file(x, entry) && collect::changes_of(entries.push(entry)).to_multiset()
                == collect::changes_of(entries).to_multiset().insert(x),
        exists|x: BranchEntryView|
            #![trigger shows_branch(x, branch)]
            shows_branch(x, branch) && collect::branches_of(branches.push(branch)).to_multiset()
                == collect::branches_of(branches).to_multiset().insert(x),
        exists|x: ConflictEntryView|
            #![trigger shows_conflict(x, conflict, current)]
            shows_conflict(x, conflict, current) && collect::conflicts_of(
                conflicts.push(conflict),
                current,
            ).to_multiset() == collect::conflicts_of(conflicts, current).to_multiset().insert(x),
{
    let files = |e: StatusEntryView| collect::change_of(e);
    let named = |b: RawBranchView| collect::branch_of(b);
    let merged = |c: RawConflictView| collect::conflict_of(c, current);
    sort::lemma_rank::<FileChange>();
    sort::lemma_rank::<BranchEntry>();
    sort::lemma_rank::<ConflictEntry>();
    assert(entries.push(entry).map_values(files) =~= entries.map_values(files).push(files(entry)));
    assert(branches.push(branch).map_values(named) =~= branches.map_values(named).push(
        named(branch),
    ));
    assert(conflicts.push(conflict).map_values(merged) =~= conflicts.map_values(merged).push(
        merged(conflict),
    ));
    lemma_one_more(entries.map_values(files), files(entry), sort::rank::<FileChange>());
    lemma_one_more(branches.map_values(named), named(branch), sort::rank::<BranchEntry>());
    lemma_one_more(conflicts.map_values(merged), merged(conflict), sort::rank::<ConflictEntry>());
    law_flags_decide(entry.status);
    assert(shows_file(files(entry), entry));
    assert(shows_branch(named(branch), branch));
    assert(shows_conflict(merged(conflict), conflict, current));
}

}
