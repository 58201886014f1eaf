//! The lists that a snapshot of a repository is made of.
use vstd::prelude::*;
use vstd::string::*;

use crate::clock;
use crate::git_service;
use crate::git_service::GitService;
use crate::model::{
    BranchEntry, BranchEntryView, CommitEntry, CommitEntryView, ConflictEntry, ConflictEntryView,
    FileChange, FileChangeView, RecoveryEntry, RecoveryEntryView, RepoSnapshot, RepoSnapshotView,
};
use crate::object_id;
use crate::readings::{
    BranchLabel, BranchLabelView, RawBranch, RawBranchView, RawCommit, RawCommitView, RawConflict,
    RawConflictView, RawRef, RawRefView, RawReflogEntry, RawReflogEntryView, RepoReading,
    RepoReadingView, StatusEntry, StatusEntryView,
};
use crate::sort;
use crate::sort::stable_sort;
use crate::status;
use crate::text;

verus! {

/// How many commits the history shows.
pub const HISTORY_LIMIT: usize = 120;

/// How many log entries the recovery timeline shows.
pub const RECOVERY_LIMIT: usize = 60;

/// What is shown of a file that a status scan found.
pub open spec fn change_of(entry: StatusEntryView) -> FileChangeView {
    FileChangeView {
        path: git_service::text_or(entry.path, "<unknown>"@),
        kind: status::status_word(entry.status),
        staged: status::staged(entry.status),
        unstaged: status::unstaged(entry.status),
    }
}

/// The changed files, by path.
pub open spec fn changes_of(entries: Seq<StatusEntryView>) -> Seq<FileChangeView> {
    sort::stably_sorted(
        entries.map_values(|e: StatusEntryView| change_of(e)),
        sort::rank::<FileChange>(),
    )
}

/// Lists the changed files, by path.
pub fn collect_changes(entries: &Vec<StatusEntry>) -> (r: Vec<FileChange>)
    ensures
        r.deep_view() == changes_of(entries.deep_view()),
{
    let ghost all = entries.deep_view();
    let ghost made = all.map_values(|e: StatusEntryView| change_of(e));
    let mut changes: Vec<FileChange> = Vec::new();
    let mut i: usize = 0;
    while i < entries.len()
        invariant
            i <= entries@.len(),
            all == entries.deep_view(),
            made == all.map_values(|e: StatusEntryView| change_of(e)),
            changes.deep_view() =~= made.take(i as int),
        decreases entries@.len() - i,
    {
        let ghost before = changes.deep_view();
        let entry = &entries[i];
        assert(all[i as int] == entry.deep_view());
        changes.push(
            FileChange {
                path: git_service::or_text(&entry.path, "<unknown>"),
                kind: status::describe_status(entry.status),
                staged: status::is_staged(entry.status),
                unstaged: status::is_unstaged(entry.status),
            },
        );
        assert(changes@.last().deep_view() == made[i as int]);
        assert(changes.deep_view() =~= before.push(made[i as int]));
        assert(made.take(i + 1) =~= made.take(i as int).push(made[i as int]));
        i += 1;
    }
    assert(made.take(i as int) =~= made);
    stable_sort(changes)
}

/// The label that a reference puts on what it points at: its name without the
/// leading `refs/heads/` and `refs/remotes/`. References to other things than
/// branches put none.
pub open spec fn label_of(name: Seq<char>) -> Option<Seq<char>> {
    if text::begins_with(name, "refs/heads/"@) || text::begins_with(name, "refs/remotes/"@) {
        Some(text::without_heads(text::without_heads(name, "refs/heads/"@), "refs/remotes/"@))
    } else {
        None
    }
}

/// The label that a reference puts on a commit, if it does.
pub open spec fn ref_label(reference: RawRefView) -> Option<BranchLabelView> {
    match (reference.name, reference.target) {
        (Some(name), Some(target)) => match label_of(name) {
            Some(label) => Some(BranchLabelView { target, label }),
            None => None,
        },
        _ => None,
    }
}

/// The labels that references put on commits, in the order of the references.
pub open spec fn labels_of(refs: Seq<RawRefView>) -> Seq<BranchLabelView>
    decreases refs.len(),
{
    if refs.len() == 0 {
        Seq::empty()
    } else {
        let before = labels_of(refs.drop_last());
        match ref_label(refs.last()) {
            Some(label) => before.push(label),
            None => before,
        }
    }
}

/// The label that a reference with a given name puts on what it points at.
pub fn branch_label(name: &str) -> (r: Option<String>)
    ensures
        r.deep_view() == label_of(name@),
{
    if !text::starts_with(name, "refs/heads/") && !text::starts_with(name, "refs/remotes/") {
        return None;
    }
    let short = text::strip_heads(name, "refs/heads/");
    Some(text::strip_heads(short.as_str(), "refs/remotes/"))
}

/// Lists the labels that references put on commits.
pub fn build_branch_labels_map(refs: &Vec<RawRef>) -> (r: Vec<BranchLabel>)
    ensures
        r.deep_view() == labels_of(refs.deep_view()),
{
    let ghost all = refs.deep_view();
    let mut labels: Vec<BranchLabel> = Vec::new();
    let mut i: usize = 0;
    assert(labels.deep_view() =~= labels_of(all.take(0)));
    while i < refs.len()
        invariant
            i <= refs@.len(),
            all == refs.deep_view(),
            labels.deep_view() == labels_of(all.take(i as int)),
        decreases refs@.len() - i,
    {
        let ghost before = labels.deep_view();
        proof {
            assert(all.take(i + 1).drop_last() =~= all.take(i as int));
            assert(all.take(i + 1).last() == refs@[i as int].deep_view());
        }
        let reference = &refs[i];
        i += 1;
        if let Some(name) = &reference.name {
            if let Some(target) = &reference.target {
                if let Some(label) = branch_label(name.as_str()) {
                    labels.push(BranchLabel { target: target.clone(), label });
                    assert(labels.deep_view() =~= before.push(labels@.last().deep_view()));
                }
            }
        }
    }
    assert(all.take(all.len() as int) =~= all);
    labels
}

/// The labels on a commit, in the order in which they were put on it.
pub open spec fn labels_on(labels: Seq<BranchLabelView>, oid: Seq<char>) -> Seq<Seq<char>>
    decreases labels.len(),
{
    if labels.len() == 0 {
        Seq::empty()
    } else {
        let before = labels_on(labels.drop_last(), oid);
        if labels.last().target == oid {
            before.push(labels.last().label)
        } else {
            before
        }
    }
}

/// The labels on a commit, in alphabetical order.
pub fn labels_at(labels: &Vec<BranchLabel>, oid: &String) -> (r: Vec<String>)
    ensures
        r.deep_view() == sort::stably_sorted(
            labels_on(labels.deep_view(), oid@),
            sort::rank::<String>(),
        ),
{
    let ghost all = labels.deep_view();
    let mut found: Vec<String> = Vec::new();
    let mut i: usize = 0;
    assert(found.deep_view() =~= labels_on(all.take(0), oid@));
    while i < labels.len()
        invariant
            i <= labels@.len(),
            all == labels.deep_view(),
            found.deep_view() == labels_on(all.take(i as int), oid@),
        decreases labels@.len() - i,
    {
        let ghost before = found.deep_view();
        proof {
            assert(all.take(i + 1).drop_last() =~= all.take(i as int));
            assert(all.take(i + 1).last() == labels@[i as int].deep_view());
        }
        if labels[i].target == *oid {
            found.push(labels[i].label.clone());
            assert(found.deep_view() =~= before.push(labels@[i as int].label@));
        }
        i += 1;
    }
    assert(all.take(all.len() as int) =~= all);
    stable_sort(found)
}

/// The commits that a walk through the history gave, without the steps of the
/// walk that failed; of the walk, the first `max` steps count.
pub open spec fn walked(steps: Seq<Option<Seq<char>>>, max: nat) -> Seq<Seq<char>>
    decreases steps.len(),
{
    if steps.len() == 0 {
        Seq::empty()
    } else if steps.len() > max {
        walked(steps.drop_last(), max)
    } else {
        let before = walked(steps.drop_last(), max);
        match steps.last() {
            Some(oid) => before.push(oid),
            None => before,
        }
    }
}

/// The commits that the first `max` steps of a walk through the history gave.
pub fn walked_commits(steps: &Vec<Option<String>>, max: usize) -> (r: Vec<String>)
    ensures
        r.deep_view() == walked(steps.deep_view(), max as nat),
{
    let ghost all = steps.deep_view();
    let mut found: Vec<String> = Vec::new();
    let mut i: usize = 0;
    assert(found.deep_view() =~= walked(all.take(0), max as nat));
    while i < steps.len()
        invariant
            i <= steps@.len(),
            all == steps.deep_view(),
            found.deep_view() == walked(all.take(i as int), max as nat),
        decreases steps@.len() - i,
    {
        let ghost before = found.deep_view();
        proof {
            assert(all.take(i + 1).drop_last() =~= all.take(i as int));
            assert(all.take(i + 1).last() == steps@[i as int].deep_view());
        }
        if i < max {
            if let Some(oid) = &steps[i] {
                found.push(oid.clone());
                assert(found.deep_view() =~= before.push(oid@));
            }
        }
        i += 1;
    }
    assert(all.take(all.len() as int) =~= all);
    found
}

/// What is shown of a commit, given all labels.
pub open spec fn commit_of(raw: RawCommitView, labels: Seq<BranchLabelView>) -> CommitEntryView {
    CommitEntryView {
        oid: raw.oid,
        id: object_id::short_form(raw.oid),
        summary: git_service::text_or(raw.summary, "(no message)"@),
        author: git_service::text_or(raw.author, "unknown"@),
        timestamp: clock::shown_time(raw.seconds, raw.offset),
        parents: raw.parents,
        branch_labels: sort::stably_sorted(labels_on(labels, raw.oid), sort::rank::<String>()),
    }
}

/// The first items of a list, as many as `max` allows.
pub open spec fn at_most<A>(items: Seq<A>, max: nat) -> Seq<A> {
    if items.len() <= max {
        items
    } else {
        items.take(max as int)
    }
}

/// The history: its first commits in the order in which they were walked, as
/// many as `max` allows.
pub open spec fn commits_of(history: Seq<RawCommitView>, refs: Seq<RawRefView>, max: nat) -> Seq<
    CommitEntryView,
> {
    at_most(history, max).map_values(|c: RawCommitView| commit_of(c, labels_of(refs)))
}

/// Lists the first commits of the history, as many as `max` allows.
pub fn collect_commits(history: &Vec<RawCommit>, refs: &Vec<RawRef>, max: usize) -> (r: Vec<
    CommitEntry,
>)
    ensures
        r.deep_view() == commits_of(history.deep_view(), refs.deep_view(), max as nat),
{
    let labels = build_branch_labels_map(refs);
    let ghost all = history.deep_view();
    let ghost made = commits_of(all, refs.deep_view(), max as nat);
    let mut commits: Vec<CommitEntry> = Vec::new();
    let mut i: usize = 0;
    while i < history.len() && i < max
        invariant
            i <= history@.len(),
            i <= max,
            all == history.deep_view(),
            made == commits_of(all, refs.deep_view(), max as nat),
            labels.deep_view() == labels_of(refs.deep_view()),
            commits.deep_view() =~= made.take(i as int),
        decreases history@.len() - i,
    {
        let ghost before = commits.deep_view();
        let raw = &history[i];
        assert(all[i as int] == raw.deep_view());
        commits.push(
            CommitEntry {
                oid: raw.oid.clone(),
                id: object_id::short_id(raw.oid.as_str()),
                summary: git_service::or_text(&raw.summary, "(no message)"),
                author: git_service::or_text(&raw.author, "unknown"),
                timestamp: clock::format_git_time(raw.seconds, raw.offset),
                parents: text::clone_texts(&raw.parents),
                branch_labels: labels_at(&labels, &raw.oid),
            },
        );
        assert(commits@.last().deep_view() == made[i as int]);
        assert(commits.deep_view() =~= before.push(made[i as int]));
        assert(made.take(i + 1) =~= made.take(i as int).push(made[i as int]));
        i += 1;
    }
    assert(made.take(i as int) =~= made);
    commits
}

/// What is shown of a local branch.
pub open spec fn branch_of(raw: RawBranchView) -> BranchEntryView {
    BranchEntryView {
        name: git_service::text_or(raw.name, "<invalid>"@),
        is_head: raw.is_head,
        upstream: match raw.upstream {
            Some(name) => Some(text::without_parts(name, "refs/remotes/"@)),
            None => None,
        },
    }
}

/// The local branches, by name.
pub open spec fn branches_of(raw: Seq<RawBranchView>) -> Seq<BranchEntryView> {
    sort::stably_sorted(
        raw.map_values(|b: RawBranchView| branch_of(b)),
        sort::rank::<BranchEntry>(),
    )
}

/// Lists the local branches, by name.
pub fn collect_branches(raw: &Vec<RawBranch>) -> (r: Vec<BranchEntry>)
    ensures
        r.deep_view() == branches_of(raw.deep_view()),
{
    let ghost all = raw.deep_view();
    let ghost made = all.map_values(|b: RawBranchView| branch_of(b));
    let mut branches: Vec<BranchEntry> = Vec::new();
    let mut i: usize = 0;
    while i < raw.len()
        invariant
            i <= raw@.len(),
            all == raw.deep_view(),
            made == all.map_values(|b: RawBranchView| branch_of(b)),
            branches.deep_view() =~= made.take(i as int),
        decreases raw@.len() - i,
    {
        let ghost before = branches.deep_view();
        let branch = &raw[i];
        assert(all[i as int] == branch.deep_view());
        let upstream = match &branch.upstream {
            Some(name) => Some(text::remove_parts(name.as_str(), "refs/remotes/")),
            None => None,
        };
        branches.push(
            BranchEntry {
                name: git_service::or_text(&branch.name, "<invalid>"),
                is_head: branch.is_head,
                upstream,
            },
        );
        assert(branches@.last().deep_view() == made[i as int]);
        assert(branches.deep_view() =~= before.push(made[i as int]));
        assert(made.take(i + 1) =~= made.take(i as int).push(made[i as int]));
        i += 1;
    }
    assert(made.take(i as int) =~= made);
    stable_sort(branches)
}

/// The path of a file in conflict: on the current side, else on the incoming
/// one, else in the common ancestor.
pub open spec fn path_in_conflict(raw: RawConflictView) -> Seq<char> {
    match (raw.our, raw.their, raw.ancestor) {
        (Some(path), _, _) => text::lossy_text(path),
        (None, Some(path), _) => text::lossy_text(path),
        (None, None, Some(path)) => text::lossy_text(path),
        (None, None, None) => "<unknown>"@,
    }
}

/// The bytes of the path of a file in conflict: on the current side, else on
/// the incoming one, else in the common ancestor.
pub fn conflict_path_bytes(raw: &RawConflict) -> (r: Option<&Vec<u8>>)
    ensures
        match (raw.our, raw.their, raw.ancestor) {
            (Some(path), _, _) => r == Some(&path),
            (None, Some(path), _) => r == Some(&path),
            (None, None, Some(path)) => r == Some(&path),
            (None, None, None) => r is None,
        },
{
    if let Some(path) = &raw.our {
        Some(path)
    } else if let Some(path) = &raw.their {
        Some(path)
    } else if let Some(path) = &raw.ancestor {
        Some(path)
    } else {
        None
    }
}

/// The path of a file in conflict.
pub fn conflict_path(raw: &RawConflict) -> (r: String)
    ensures
        r@ == path_in_conflict(raw.deep_view()),
{
    match conflict_path_bytes(raw) {
        Some(path) => {
            assert(path.deep_view() =~= path@);
            text::decode_lossy(path)
        },
        None => "<unknown>".to_owned(),
    }
}

/// What is shown of a file in conflict, on a given branch.
pub open spec fn conflict_of(raw: RawConflictView, branch: Option<Seq<char>>) -> ConflictEntryView {
    ConflictEntryView {
        path: path_in_conflict(raw),
        ours_label: if raw.our is Some {
            git_service::text_or(branch, "ours"@)
        } else {
            "ours"@
        },
        theirs_label: if raw.their is Some {
            "incoming"@
        } else {
            "theirs"@
        },
        content: git_service::text_or(raw.content, Seq::empty()),
    }
}

/// The files in conflict, by path.
pub open spec fn conflicts_of(raw: Seq<RawConflictView>, branch: Option<Seq<char>>) -> Seq<
    ConflictEntryView,
> {
    sort::stably_sorted(
        raw.map_values(|c: RawConflictView| conflict_of(c, branch)),
        sort::rank::<ConflictEntry>(),
    )
}

/// Lists the files in conflict, by path.
pub fn collect_conflicts(raw: &Vec<RawConflict>, branch: &Option<String>) -> (r: Vec<
    ConflictEntry,
>)
    ensures
        r.deep_view() == conflicts_of(raw.deep_view(), branch.deep_view()),
{
    let ghost all = raw.deep_view();
    let ghost made = all.map_values(|c: RawConflictView| conflict_of(c, branch.deep_view()));
    let mut conflicts: Vec<ConflictEntry> = Vec::new();
    let mut i: usize = 0;
    while i < raw.len()
        invariant
            i <= raw@.len(),
            all == raw.deep_view(),
            made == all.map_values(|c: RawConflictView| conflict_of(c, branch.deep_view())),
            conflicts.deep_view() =~= made.take(i as int),
        decreases raw@.len() - i,
    {
        let ghost before = conflicts.deep_view();
        let conflict = &raw[i];
        assert(all[i as int] == conflict.deep_view());
        let ours_label = if conflict.our.is_some() {
            git_service::or_text(branch, "ours")
        } else {
            "ours".to_owned()
        };
        let theirs_label = if conflict.their.is_some() {
            "incoming".to_owned()
        } else {
            "theirs".to_owned()
        };
        let content = match &conflict.content {
            Some(content) => content.clone(),
            None => String::new(),
        };
        conflicts.push(
            ConflictEntry { path: conflict_path(conflict), ours_label, theirs_label, content },
        );
        assert(conflicts@.last().deep_view() == made[i as int]);
        assert(conflicts.deep_view() =~= before.push(made[i as int]));
        assert(made.take(i + 1) =~= made.take(i as int).push(made[i as int]));
        i += 1;
    }
    assert(made.take(i as int) =~= made);
    stable_sort(conflicts)
}

/// Which entries of a log of a given length are shown: from its end towards its
/// start, at most sixty.
pub open spec fn shown_log_positions(length: nat) -> Seq<usize> {
    Seq::new(
        if length < RECOVERY_LIMIT {
            length
        } else {
            RECOVERY_LIMIT as nat
        },
        |i: int| (length - 1 - i) as usize,
    )
}

/// Tells which entries of a log of a given length are shown.
pub fn recovery_positions(length: usize) -> (r: Vec<usize>)
    ensures
        r@ == shown_log_positions(length as nat),
{
    let mut r: Vec<usize> = Vec::new();
    let count: usize = if length < RECOVERY_LIMIT {
        length
    } else {
        RECOVERY_LIMIT
    };
    let mut i: usize = 0;
    while i < count
        invariant
            i <= count <= length,
            count == shown_log_positions(length as nat).len(),
            r@ =~= shown_log_positions(length as nat).take(i as int),
        decreases count - i,
    {
        r.push(length - 1 - i);
        i += 1;
    }
    assert(shown_log_positions(length as nat).take(i as int) =~= shown_log_positions(
        length as nat,
    ));
    r
}

/// What is shown of a log entry.
pub open spec fn recovery_of(raw: RawReflogEntryView) -> RecoveryEntryView {
    RecoveryEntryView {
        to_id: raw.id_new,
        to_id_short: object_id::short_form(raw.id_new),
        from_id_short: object_id::short_form(raw.id_old),
        message: git_service::text_or(raw.message, "(no reflog message)"@),
        timestamp: clock::shown_time(raw.seconds, raw.offset),
    }
}

/// The log entries that are shown: the first of those that were read, at most
/// sixty.
pub open spec fn recoveries_of(raw: Seq<RawReflogEntryView>) -> Seq<RecoveryEntryView> {
    at_most(raw, RECOVERY_LIMIT as nat).map_values(|e: RawReflogEntryView| recovery_of(e))
}

/// Lists the log entries that were read, at most sixty.
pub fn collect_recovery(raw: &Vec<RawReflogEntry>) -> (r: Vec<RecoveryEntry>)
    ensures
        r.deep_view() == recoveries_of(raw.deep_view()),
{
    let ghost all = raw.deep_view();
    let ghost made = recoveries_of(all);
    let mut entries: Vec<RecoveryEntry> = Vec::new();
    let mut i: usize = 0;
    while i < raw.len() && i < RECOVERY_LIMIT
        invariant
            i <= raw@.len(),
            i <= RECOVERY_LIMIT,
            all == raw.deep_view(),
            made == recoveries_of(all),
            entries.deep_view() =~= made.take(i as int),
        decreases raw@.len() - i,
    {
        let ghost before = entries.deep_view();
        let entry = &raw[i];
        assert(all[i as int] == entry.deep_view());
        entries.push(
            RecoveryEntry {
                to_id: entry.id_new.clone(),
                to_id_short: object_id::short_id(entry.id_new.as_str()),
                from_id_short: object_id::short_id(entry.id_old.as_str()),
                message: git_service::or_text(&entry.message, "(no reflog message)"),
                timestamp: clock::format_git_time(entry.seconds, entry.offset),
            },
        );
        assert(entries@.last().deep_view() == made[i as int]);
        assert(entries.deep_view() =~= before.push(made[i as int]));
        assert(made.take(i + 1) =~= made.take(i as int).push(made[i as int]));
        i += 1;
    }
    assert(made.take(i as int) =~= made);
    entries
}

/// The snapshot that follows from what was read of a repository.
pub open spec fn snapshot_of(reading: RepoReadingView) -> RepoSnapshotView {
    RepoSnapshotView {
        summary: git_service::summary_of(reading.facts),
        changes: changes_of(reading.facts.statuses),
        commits: commits_of(reading.history, reading.refs, HISTORY_LIMIT as nat),
        branches: branches_of(reading.branches),
        conflicts: conflicts_of(reading.conflicts, reading.facts.branch),
        recovery: recoveries_of(reading.reflog),
    }
}

impl GitService {
    /// Puts together the snapshot of a repository from what was read of it.
    pub fn load_snapshot(reading: &RepoReading) -> (r: RepoSnapshot)
        ensures
            r.deep_view() == snapshot_of(reading.deep_view()),
    {
        RepoSnapshot {
            summary: GitService::load_summary(&reading.facts),
            changes: collect_changes(&reading.facts.statuses),
            commits: collect_commits(&reading.history, &reading.refs, HISTORY_LIMIT),
            branches: collect_branches(&reading.branches),
            conflicts: collect_conflicts(&reading.conflicts, &reading.facts.branch),
            recovery: collect_recovery(&reading.reflog),
        }
    }
}

/// A walk through the history gives no more commits than its limit.
pub proof fn law_walk_is_bounded(steps: Seq<Option<Seq<char>>>, max: nat)
    ensures
        walked(steps, max).len() <= max,
        walked(steps, max).len() <= steps.len(),
    decreases steps.len(),
{
    if steps.len() > 0 {
        law_walk_is_bounded(steps.drop_last(), max);
    }
}

/// At most sixty entries of a log are shown, each from a position of its own,
/// from the end of the log towards its start.
pub proof fn law_log_is_bounded(length: nat)
    requires
        length <= usize::MAX,
    ensures
        shown_log_positions(length).len() <= RECOVERY_LIMIT,
        shown_log_positions(length).len() <= length,
        forall|i: int|
            0 <= i < shown_log_positions(length).len() ==> (#[trigger] shown_log_positions(
                length,
            )[i]) == length - 1 - i,
{
}

/// A snapshot has at most 120 commits and sixty log entries, and leaves nothing
/// out of what was read but what is over these limits.
pub proof fn law_snapshot_is_bounded(reading: RepoReadingView)
    ensures
        ({
            let snapshot = snapshot_of(reading);
            &&& snapshot.commits.len() <= 120
            &&& snapshot.recovery.len() <= 60
            &&& reading.history.len() <= 120 ==> snapshot.commits.len() == reading.history.len()
            &&& reading.reflog.len() <= 60 ==> snapshot.recovery.len() == reading.reflog.len()
            &&& snapshot.changes.len() == reading.facts.statuses.len()
            &&& snapshot.branches.len() == reading.branches.len()
            &&& snapshot.conflicts.len() == reading.conflicts.len()
        }),
{
    sort::lemma_rank::<FileChange>();
    sort::lemma_rank::<BranchEntry>();
    sort::lemma_rank::<ConflictEntry>();
    sort::law_sorting_puts_in_order(
        reading.facts.statuses.map_values(|e: StatusEntryView| change_of(e)),
        sort::rank::<FileChange>(),
    );
    sort::law_sorting_puts_in_order(
        reading.branches.map_values(|b: RawBranchView| branch_of(b)),
        sort::rank::<BranchEntry>(),
    );
    sort::law_sorting_puts_in_order(
        reading.conflicts.map_values(|c: RawConflictView| conflict_of(c, reading.facts.branch)),
        sort::rank::<ConflictEntry>(),
    );
}

/// Where the commits and log entries were read as the walk and the log give
/// them, a snapshot shows them all.
pub proof fn law_snapshot_shows_what_was_walked(
    reading: RepoReadingView,
    steps: Seq<Option<Seq<char>>>,
    log_length: nat,
)
    requires
        log_length <= usize::MAX,
        reading.history.len() == walked(steps, HISTORY_LIMIT as nat).len(),
        reading.reflog.len() <= shown_log_positions(log_length).len(),
    ensures
        snapshot_of(reading).commits.len() == reading.history.len(),
        snapshot_of(reading).recovery.len() == reading.reflog.len(),
{
    law_walk_is_bounded(steps, HISTORY_LIMIT as nat);
    law_log_is_bounded(log_length);
    law_snapshot_is_bounded(reading);
}

/// A snapshot's summary is the one that the same reading gives on its own, its
/// changes and conflicts are in order by path, and its branches by name.
pub proof fn law_snapshot_is_in_order(reading: RepoReadingView)
    ensures
        ({
            let snapshot = snapshot_of(reading);
            &&& snapshot.summary == git_service::summary_of(reading.facts)
            &&& forall|i: int, j: int|
                0 <= i < j < snapshot.changes.len() ==> text::text_le(
                    (#[trigger] snapshot.changes[i]).path,
                    (#[trigger] snapshot.changes[j]).path,
                )
            &&& forall|i: int, j: int|
                0 <= i < j < snapshot.branches.len() ==> text::text_le(
                    (#[trigger] snapshot.branches[i]).name,
                    (#[trigger] snapshot.branches[j]).name,
                )
            &&& forall|i: int, j: int|
                0 <= i < j < snapshot.conflicts.len() ==> text::text_le(
                    (#[trigger] snapshot.conflicts[i]).path,
                    (#[trigger] snapshot.conflicts[j]).path,
                )
        }),
{
    let changes = reading.facts.statuses.map_values(|e: StatusEntryView| change_of(e));
    let branches = reading.branches.map_values(|b: RawBranchView| branch_of(b));
    let conflicts = reading.conflicts.map_values(
        |c: RawConflictView| conflict_of(c, reading.facts.branch),
    );
    sort::lemma_rank::<FileChange>();
    sort::lemma_rank::<BranchEntry>();
    sort::lemma_rank::<ConflictEntry>();
    sort::law_sorting_puts_in_order(changes, sort::rank::<FileChange>());
    sort::law_sorting_puts_in_order(branches, sort::rank::<BranchEntry>());
    sort::law_sorting_puts_in_order(conflicts, sort::rank::<ConflictEntry>());
    let shown = snapshot_of(reading);
    assert forall|i: int, j: int| 0 <= i < j < shown.changes.len() implies text::text_le(
        (#[trigger] shown.changes[i]).path,
        (#[trigger] shown.changes[j]).path,
    ) by {
        assert((sort::rank::<FileChange>())(shown.changes[i], shown.changes[j]));
    }
    assert forall|i: int, j: int| 0 <= i < j < shown.branches.len() implies text::text_le(
        (#[trigger] shown.branches[i]).name,
        (#[trigger] shown.branches[j]).name,
    ) by {
        assert((sort::rank::<BranchEntry>())(shown.branches[i], shown.branches[j]));
    }
    assert forall|i: int, j: int| 0 <= i < j < shown.conflicts.len() implies text::text_le(
        (#[trigger] shown.conflicts[i]).path,
        (#[trigger] shown.conflicts[j]).path,
    ) by {
        assert((sort::rank::<ConflictEntry>())(shown.conflicts[i], shown.conflicts[j]));
    }
}

}
