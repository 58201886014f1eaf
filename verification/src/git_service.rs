//! Reading a repository and working on it: what follows from what was read, and
//! which steps an operation takes.
use vstd::prelude::*;
use vstd::string::*;

use crate::git_error::GitError;
use crate::model::{RepoSummary, RepoSummaryView};
use crate::paths;
use crate::paths::{PathPart, RepoPath};
use crate::readings::{
    HeadInfo, HeadInfoView, RepoFacts, RepoFactsView, RepoLocation, RepoLocationView,
    StatusEntryView, WalkEntry, WalkEntryView,
};
use crate::sort;
use crate::sort::stable_sort;
use crate::status;
use crate::status::Status;
use crate::text;

verus! {

/// The operations on a repository.
pub struct GitService;

/// The text, or `default` where there is none.
pub open spec fn text_or(value: Option<Seq<char>>, default: Seq<char>) -> Seq<char> {
    match value {
        Some(found) => found,
        None => default,
    }
}

/// The text, or `default` where there is none.
pub fn or_text(value: &Option<String>, default: &str) -> (r: String)
    ensures
        r@ == text_or(value.deep_view(), default@),
{
    match value {
        Some(found) => found.clone(),
        None => default.to_owned(),
    }
}

/// How many files have a status that `pick` accepts.
pub open spec fn count_of(entries: Seq<StatusEntryView>, pick: spec_fn(Status) -> bool) -> nat
    decreases entries.len(),
{
    if entries.len() == 0 {
        0
    } else {
        count_of(entries.drop_last(), pick) + if pick(entries.last().status) {
            1nat
        } else {
            0nat
        }
    }
}

/// No more files are counted than there are.
pub proof fn lemma_count_bounded(entries: Seq<StatusEntryView>, pick: spec_fn(Status) -> bool)
    ensures
        count_of(entries, pick) <= entries.len(),
    decreases entries.len(),
{
    if entries.len() > 0 {
        lemma_count_bounded(entries.drop_last(), pick);
    }
}

/// Whether some file has a status that `pick` accepts.
pub open spec fn any_of(entries: Seq<StatusEntryView>, pick: spec_fn(Status) -> bool) -> bool {
    exists|i: int| 0 <= i < entries.len() && pick(#[trigger] entries[i].status)
}

/// A count is above zero exactly when there is something to count.
pub proof fn lemma_count_positive(entries: Seq<StatusEntryView>, pick: spec_fn(Status) -> bool)
    ensures
        count_of(entries, pick) > 0 <==> any_of(entries, pick),
    decreases entries.len(),
{
    if entries.len() > 0 {
        let rest = entries.drop_last();
        lemma_count_positive(rest, pick);
        if any_of(rest, pick) {
            let i = choose|i: int| 0 <= i < rest.len() && pick(#[trigger] rest[i].status);
            assert(pick(entries[i].status));
        }
        if any_of(entries, pick) {
            let i = choose|i: int| 0 <= i < entries.len() && pick(#[trigger] entries[i].status);
            if i < rest.len() {
                assert(pick(rest[i].status));
            }
        }
        if pick(entries.last().status) {
            assert(pick(entries[entries.len() - 1].status));
        }
    }
}

/// The status of a file in conflict.
pub open spec fn conflicted() -> spec_fn(Status) -> bool {
    |s: Status| status::has_flag(s, status::CONFLICTED)
}

/// The status of a file with something staged.
pub open spec fn staged() -> spec_fn(Status) -> bool {
    |s: Status| status::staged(s)
}

/// The status of a file with something that is not staged.
pub open spec fn unstaged() -> spec_fn(Status) -> bool {
    |s: Status| status::unstaged(s)
}

/// The status of a file that is not tracked.
pub open spec fn untracked() -> spec_fn(Status) -> bool {
    |s: Status| status::has_flag(s, status::WT_NEW)
}

/// What to do next: first resolve conflicts, then stage, then commit, then
/// push.
pub open spec fn next_step(conflicts: nat, staged: nat, unstaged: nat, ahead: nat) -> Seq<char> {
    if conflicts > 0 {
        "Resolve merge conflicts in Conflict Studio before committing."@
    } else if unstaged > 0 {
        "Review changes and stage what belongs in your next commit."@
    } else if staged > 0 {
        "Write a clear commit message and create your commit."@
    } else if ahead > 0 {
        "Branch is ahead of remote. Sync by pushing when ready."@
    } else {
        "Working tree is clean. Start a branch or pull latest updates."@
    }
}

/// Tells what to do next.
pub fn next_step_hint(conflicts: usize, staged: usize, unstaged: usize, ahead: usize) -> (r: String)
    ensures
        r@ == next_step(conflicts as nat, staged as nat, unstaged as nat, ahead as nat),
{
    if conflicts > 0 {
        "Resolve merge conflicts in Conflict Studio before committing.".to_owned()
    } else if unstaged > 0 {
        "Review changes and stage what belongs in your next commit.".to_owned()
    } else if staged > 0 {
        "Write a clear commit message and create your commit.".to_owned()
    } else if ahead > 0 {
        "Branch is ahead of remote. Sync by pushing when ready.".to_owned()
    } else {
        "Working tree is clean. Start a branch or pull latest updates.".to_owned()
    }
}

/// The summary that follows from what was read of a repository.
pub open spec fn summary_of(facts: RepoFactsView) -> RepoSummaryView {
    RepoSummaryView {
        name: paths::repo_name(facts.path),
        path: facts.path,
        current_branch: text_or(facts.branch, "detached"@),
        staged_count: count_of(facts.statuses, staged()) as usize,
        unstaged_count: count_of(facts.statuses, unstaged()) as usize,
        untracked_count: count_of(facts.statuses, untracked()) as usize,
        conflict_count: count_of(facts.statuses, conflicted()) as usize,
        ahead: facts.ahead,
        behind: facts.behind,
        next_step: next_step(
            count_of(facts.statuses, conflicted()),
            count_of(facts.statuses, staged()),
            count_of(facts.statuses, unstaged()),
            facts.ahead as nat,
        ),
    }
}

impl GitService {
    /// Sums a repository up from what was read of it.
    pub fn load_summary(facts: &RepoFacts) -> (r: RepoSummary)
        ensures
            r.deep_view() == summary_of(facts.deep_view()),
    {
        let ghost all = facts.statuses.deep_view();
        let mut staged_count: usize = 0;
        let mut unstaged_count: usize = 0;
        let mut untracked_count: usize = 0;
        let mut conflict_count: usize = 0;
        let n: usize = facts.statuses.len();
        let mut i: usize = 0;
        while i < n
            invariant
                i <= n,
                n == facts.statuses@.len(),
                all == facts.statuses.deep_view(),
                staged_count == count_of(all.take(i as int), staged()),
                unstaged_count == count_of(all.take(i as int), unstaged()),
                untracked_count == count_of(all.take(i as int), untracked()),
                conflict_count == count_of(all.take(i as int), conflicted()),
                staged_count <= i,
                unstaged_count <= i,
                untracked_count <= i,
                conflict_count <= i,
            decreases n - i,
        {
            let bits = facts.statuses[i].status;
            proof {
                let upto = all.take(i + 1);
                assert(upto.drop_last() =~= all.take(i as int));
                assert(upto.last().status == bits);
            }
            if bits.is_conflicted() {
                conflict_count += 1;
            }
            if status::is_staged(bits) {
                staged_count += 1;
            }
            if status::is_unstaged(bits) {
                unstaged_count += 1;
            }
            if bits.contains(status::WT_NEW) {
                untracked_count += 1;
            }
            i += 1;
        }
        assert(all.take(n as int) =~= all);
        RepoSummary {
            name: paths::name_of_repo(&facts.path),
            path: facts.path.clone(),
            current_branch: or_text(&facts.branch, "detached"),
            staged_count,
            unstaged_count,
            untracked_count,
            conflict_count,
            ahead: facts.ahead,
            behind: facts.behind,
            next_step: next_step_hint(conflict_count, staged_count, unstaged_count, facts.ahead),
        }
    }
}

/// The summaries among what came of summing repositories up, in their order.
pub open spec fn loaded_summaries(loaded: Seq<Result<RepoSummary, GitError>>) -> Seq<
    RepoSummaryView,
>
    decreases loaded.len(),
{
    if loaded.len() == 0 {
        Seq::empty()
    } else {
        let before = loaded_summaries(loaded.drop_last());
        match loaded.last() {
            Ok(summary) => before.push(summary.deep_view()),
            Err(_) => before,
        }
    }
}

/// Keeps the repositories that could be summed up, in their order. One that
/// could not be does not keep the others out.
pub fn summaries_that_load(loaded: Vec<Result<RepoSummary, GitError>>) -> (r: Vec<RepoSummary>)
    ensures
        r.deep_view() == loaded_summaries(loaded@),
{
    let ghost all = loaded@;
    let mut kept: Vec<RepoSummary> = Vec::new();
    assert(kept.deep_view() =~= loaded_summaries(all.take(0)));
    for one in it: loaded
        invariant
            all == it.seq(),
            kept.deep_view() == loaded_summaries(all.take(it.index())),
    {
        let ghost before = kept.deep_view();
        proof {
            let i = it.index();
            assert(all.take(i + 1).drop_last() =~= all.take(i));
            assert(all.take(i + 1).last() == one);
        }
        if let Ok(summary) = one {
            kept.push(summary);
            assert(kept.deep_view() =~= before.push(summary.deep_view()));
        }
    }
    assert(all.take(all.len() as int) =~= all);
    kept
}

/// The name of the branch that is checked out; none when what is checked out is
/// no branch or has no readable name.
pub open spec fn branch_name(head: Option<HeadInfoView>) -> Option<Seq<char>> {
    match head {
        Some(info) => if info.is_branch {
            info.shorthand
        } else {
            None
        },
        None => None,
    }
}

/// The name of the branch that is checked out.
pub fn current_branch_name(head: &Option<HeadInfo>) -> (r: Option<String>)
    ensures
        r.deep_view() == branch_name(head.deep_view()),
{
    match head {
        Some(info) => if info.is_branch {
            match &info.shorthand {
                Some(name) => Some(name.clone()),
                None => None,
            }
        } else {
            None
        },
        None => None,
    }
}

/// Where a repository that was found has its root: its working tree, or else
/// what holds its `.git` directory, or else its own directory.
pub open spec fn root_of(location: RepoLocationView) -> paths::RepoPathView {
    match location.workdir {
        Some(workdir) => workdir,
        None => if paths::file_name_of(location.git_dir) == Some(paths::git_dir_name()) {
            match location.git_dir_parent {
                Some(parent) => parent,
                None => location.git_dir,
            }
        } else {
            location.git_dir
        },
    }
}

/// The root of a repository that was found.
pub fn repo_root_from_repo(location: RepoLocation) -> (r: RepoPath)
    ensures
        r.deep_view() == root_of(location.deep_view()),
{
    if let Some(workdir) = location.workdir {
        return workdir;
    }
    let named_git = match location.git_dir.file_name() {
        Some(name) => paths::is_git_dir_name(name),
        None => false,
    };
    if named_git {
        if let Some(parent) = location.git_dir_parent {
            return parent;
        }
    }
    location.git_dir
}

impl GitService {
    /// The root of the repository that a search from a path upwards found.
    pub fn resolve_existing_repo(path: &str, found: Result<RepoLocation, String>) -> (r: Result<
        RepoPath,
        GitError,
    >)
        ensures
            match found {
                Ok(location) => r is Ok && r->Ok_0.deep_view() == root_of(location.deep_view()),
                Err(reason) => r matches Err(GitError::NoRepository { path: at, cause }) && at@
                    == path@ && cause@ == reason@,
            },
    {
        match found {
            Ok(location) => Ok(repo_root_from_repo(location)),
            Err(cause) => Err(GitError::NoRepository { path: path.to_owned(), cause }),
        }
    }
}

/// Whether a directory entry marks the directory that holds it as a repository.
pub open spec fn marks_repo(name: Seq<u8>, is_dir: bool) -> bool {
    name == paths::git_dir_name() && is_dir
}

/// Tells whether a directory entry marks the directory that holds it as a
/// repository.
pub fn is_repo_marker(name: &Vec<u8>, is_dir: bool) -> (r: bool)
    ensures
        r == marks_repo(name@, is_dir),
{
    is_dir && paths::is_git_dir_name(name)
}

/// Whether the search for repositories goes into what it has met: into every
/// directory but those named `.git`.
pub open spec fn descends(name: Seq<u8>, is_dir: bool) -> bool {
    is_dir && name != paths::git_dir_name()
}

/// Tells whether the search for repositories goes into what it has met: into
/// every directory but those named `.git`.
pub fn descends_into(name: &Vec<u8>, is_dir: bool) -> (r: bool)
    ensures
        r == (is_dir && name@ != paths::git_dir_name()),
        r == descends(name@, is_dir),
{
    is_dir && !paths::is_git_dir_name(name)
}

/// Whether a path leads through a directory, right below `holder`, that the
/// search does not go into.
pub open spec fn leads_through(holder: paths::RepoPathView, path: paths::RepoPathView) -> bool {
    let n = holder.parts.len() as int;
    &&& n < path.parts.len()
    &&& path.parts.take(n) == holder.parts
    &&& path.parts[n] matches paths::PathPartView::Normal(name)
    &&& !descends(name, true)
}

/// Whether a path lies inside a `.git` directory that was met.
pub open spec fn in_met_git_dir(met: Seq<WalkEntryView>, path: paths::RepoPathView) -> bool {
    exists|i: int|
        0 <= i < met.len() && marks_repo((#[trigger] met[i]).name, met[i].is_dir)
            && met[i].parent is Some && leads_through(met[i].parent->0, path)
}

/// The repository that a directory entry leads to, if any, given all entries
/// that were met. What lies inside a `.git` directory is none.
pub open spec fn repo_at(met: Seq<WalkEntryView>, entry: WalkEntryView) -> Option<
    paths::RepoPathView,
> {
    match entry.parent {
        Some(parent) => if marks_repo(entry.name, entry.is_dir) && entry.opens && !in_met_git_dir(
            met,
            parent,
        ) {
            Some(parent)
        } else {
            None
        },
        None => None,
    }
}

/// The repositories that directory entries lead to, in the order of the
/// entries, given all entries that were met.
pub open spec fn repos_at(met: Seq<WalkEntryView>, entries: Seq<WalkEntryView>) -> Seq<
    paths::RepoPathView,
>
    decreases entries.len(),
{
    if entries.len() == 0 {
        Seq::empty()
    } else {
        let before = repos_at(met, entries.drop_last());
        match repo_at(met, entries.last()) {
            Some(path) => before.push(path),
            None => before,
        }
    }
}

/// The repositories under a directory: in order, each once.
pub open spec fn discovered(entries: Seq<WalkEntryView>) -> Seq<paths::RepoPathView> {
    paths::without_repeats(
        sort::stably_sorted(repos_at(entries, entries), sort::rank::<RepoPath>()),
    )
}

/// Tells whether a path leads through a directory, right below `holder`, that
/// the search does not go into.
fn goes_through(holder: &RepoPath, path: &RepoPath) -> (r: bool)
    ensures
        r == leads_through(holder.deep_view(), path.deep_view()),
{
    let ghost a = holder.deep_view().parts;
    let ghost b = path.deep_view().parts;
    let n: usize = holder.parts.len();
    if n >= path.parts.len() {
        return false;
    }
    let mut i: usize = 0;
    while i < n
        invariant
            i <= n < path.parts@.len(),
            n == holder.parts@.len(),
            a == holder.parts.deep_view(),
            b == path.parts.deep_view(),
            forall|k: int| 0 <= k < i ==> #[trigger] a[k] == b[k],
        decreases n - i,
    {
        assert(a[i as int] == holder.parts@[i as int].deep_view());
        assert(b[i as int] == path.parts@[i as int].deep_view());
        if !holder.parts[i].same(&path.parts[i]) {
            assert(b.take(n as int)[i as int] != a[i as int]);
            return false;
        }
        i += 1;
    }
    assert(b.take(n as int) =~= a);
    assert(b[n as int] == path.parts@[n as int].deep_view());
    match &path.parts[n] {
        PathPart::Normal(name) => !descends_into(name, true),
        _ => false,
    }
}

/// Tells whether a path lies inside a `.git` directory that was met.
fn lies_in_git_dir(met: &Vec<WalkEntry>, path: &RepoPath) -> (r: bool)
    ensures
        r == in_met_git_dir(met.deep_view(), path.deep_view()),
{
    let ghost all = met.deep_view();
    let mut i: usize = 0;
    while i < met.len()
        invariant
            i <= met@.len(),
            all == met.deep_view(),
            forall|k: int|
                0 <= k < i ==> !(marks_repo((#[trigger] all[k]).name, all[k].is_dir)
                    && all[k].parent is Some && leads_through(
                    all[k].parent->0,
                    path.deep_view(),
                )),
        decreases met@.len() - i,
    {
        let entry = &met[i];
        assert(all[i as int] == entry.deep_view());
        assert(entry.name.deep_view() =~= entry.name@);
        if is_repo_marker(&entry.name, entry.is_dir) {
            if let Some(parent) = &entry.parent {
                if goes_through(parent, path) {
                    return true;
                }
            }
        }
        i += 1;
    }
    false
}

impl GitService {
    /// The repositories that the entries under a directory lead to: in order,
    /// each once, and none inside a `.git` directory.
    pub fn discover_repositories(entries: &Vec<WalkEntry>) -> (r: Vec<RepoPath>)
        ensures
            r.deep_view() == discovered(entries.deep_view()),
    {
        let ghost all = entries.deep_view();
        let mut repos: Vec<RepoPath> = Vec::new();
        let mut i: usize = 0;
        assert(repos.deep_view() =~= repos_at(all, all.take(0)));
        while i < entries.len()
            invariant
                i <= entries@.len(),
                all == entries.deep_view(),
                repos.deep_view() == repos_at(all, all.take(i as int)),
            decreases entries@.len() - i,
        {
            let ghost before = repos.deep_view();
            let entry = &entries[i];
            proof {
                assert(all.take(i + 1).drop_last() =~= all.take(i as int));
                assert(all.take(i + 1).last() == entry.deep_view());
                assert(entry.name.deep_view() =~= entry.name@);
            }
            if is_repo_marker(&entry.name, entry.is_dir) && entry.opens {
                if let Some(parent) = &entry.parent {
                    if !lies_in_git_dir(entries, parent) {
                        let repo = parent.clone();
                        repos.push(repo);
                        assert(repos.deep_view() =~= before.push(parent.deep_view()));
                    }
                }
            }
            i += 1;
        }
        assert(all.take(all.len() as int) =~= all);
        paths::drop_repeats(stable_sort(repos))
    }
}

/// The repositories found are listed in order and each once, and a path is
/// listed exactly when some entry leads to it.
pub proof fn law_discovery(entries: Seq<WalkEntryView>, parts: Seq<paths::PathPartView>)
    ensures
        sort::in_order(discovered(entries), sort::rank::<RepoPath>()),
        forall|i: int, j: int|
            0 <= i < j < discovered(entries).len() ==> #[trigger] discovered(entries)[i].parts
                != #[trigger] discovered(entries)[j].parts,
        paths::lists_path(discovered(entries), parts) <==> exists|i: int|
            0 <= i < entries.len() && (#[trigger] repo_at(entries, entries[i]) is Some) && repo_at(
                entries,
                entries[i],
            )->0.parts == parts,
{
    let found = repos_at(entries, entries);
    let le = sort::rank::<RepoPath>();
    let sorted = sort::stably_sorted(found, le);
    sort::lemma_rank::<RepoPath>();
    sort::law_sorting_puts_in_order(found, le);
    paths::lemma_without_repeats(sorted);
    broadcast use vstd::seq_lib::group_to_multiset_ensures;

    lemma_repos_at(entries, entries, parts);
    if paths::lists_path(sorted, parts) {
        let k = choose|k: int| 0 <= k < sorted.len() && (#[trigger] sorted[k]).parts == parts;
        assert(sorted.contains(sorted[k]));
        assert(found.to_multiset().count(sorted[k]) > 0);
        assert(found.contains(sorted[k]));
        let m = choose|m: int| 0 <= m < found.len() && found[m] == sorted[k];
        assert(found[m].parts == parts);
    }
    if paths::lists_path(found, parts) {
        let k = choose|k: int| 0 <= k < found.len() && (#[trigger] found[k]).parts == parts;
        assert(found.contains(found[k]));
        assert(sorted.to_multiset().count(found[k]) > 0);
        assert(sorted.contains(found[k]));
        let m = choose|m: int| 0 <= m < sorted.len() && sorted[m] == found[k];
        assert(sorted[m].parts == parts);
    }
}

/// Whether an entry is a directory named `.git`, letter by letter, that is held
/// by a directory with the given parts.
pub open spec fn is_git_dir_in(entry: WalkEntryView, holder: Seq<paths::PathPartView>) -> bool {
    &&& entry.is_dir
    &&& entry.name.len() == 4
    &&& entry.name[0] == 0x2e
    &&& entry.name[1] == 0x67
    &&& entry.name[2] == 0x69
    &&& entry.name[3] == 0x74
    &&& entry.parent is Some
    &&& entry.parent->0.parts == holder
}

/// Whether a path has a component named `.git` right behind the first `n`.
pub open spec fn git_component_at(parts: Seq<paths::PathPartView>, n: int) -> bool {
    &&& 0 <= n < parts.len()
    &&& parts[n] == paths::PathPartView::Normal(seq![0x2eu8, 0x67u8, 0x69u8, 0x74u8])
}

proof fn lemma_marker(entry: WalkEntryView)
    ensures
        marks_repo(entry.name, entry.is_dir) && entry.parent is Some <==> entry.parent is Some
            && is_git_dir_in(entry, entry.parent->0.parts),
{
    if entry.name.len() == 4 && entry.name[0] == 0x2e && entry.name[1] == 0x67 && entry.name[2]
        == 0x69 && entry.name[3] == 0x74 {
        assert(entry.name =~= paths::git_dir_name());
    }
}

/// A path is listed exactly when it holds a directory named `.git` that was met
/// and it opens as a repository, unless it lies in a directory named `.git` that
/// was met in one of the directories above it.
pub proof fn law_repositories_hold_a_git_dir(
    entries: Seq<WalkEntryView>,
    parts: Seq<paths::PathPartView>,
)
    ensures
        (exists|f: int|
            0 <= f < discovered(entries).len() && (#[trigger] discovered(entries)[f]).parts
                == parts) <==> {
            &&& exists|i: int|
                0 <= i < entries.len() && #[trigger] is_git_dir_in(entries[i], parts)
                    && entries[i].opens
            &&& forall|m: int, n: int|
                0 <= m < entries.len() && #[trigger] git_component_at(parts, n)
                    ==> !#[trigger] is_git_dir_in(entries[m], parts.take(n))
        },
{
    let found = discovered(entries);
    law_discovery(entries, parts);
    if paths::lists_path(found, parts) {
        let i = choose|i: int|
            0 <= i < entries.len() && (#[trigger] repo_at(entries, entries[i]) is Some) && repo_at(
                entries,
                entries[i],
            )->0.parts == parts;
        lemma_marker(entries[i]);
        assert(is_git_dir_in(entries[i], parts));
        let path = entries[i].parent->0;
        assert forall|m: int, n: int|
            0 <= m < entries.len() && #[trigger] git_component_at(parts, n) implies
            !#[trigger] is_git_dir_in(entries[m], parts.take(n)) by {
            if is_git_dir_in(entries[m], parts.take(n)) {
                lemma_marker(entries[m]);
                assert(leads_through(entries[m].parent->0, path));
                assert(in_met_git_dir(entries, path));
            }
        }
        let f = choose|f: int| 0 <= f < found.len() && (#[trigger] found[f]).parts == parts;
        assert(found[f].parts == parts);
    }
    if (exists|i: int|
        0 <= i < entries.len() && #[trigger] is_git_dir_in(entries[i], parts) && entries[i].opens)
        && (forall|m: int, n: int|
        0 <= m < entries.len() && #[trigger] git_component_at(parts, n) ==> !#[trigger]
            is_git_dir_in(entries[m], parts.take(n))) {
        let i = choose|i: int|
            0 <= i < entries.len() && #[trigger] is_git_dir_in(entries[i], parts)
                && entries[i].opens;
        lemma_marker(entries[i]);
        let path = entries[i].parent->0;
        assert(!in_met_git_dir(entries, path)) by {
            if in_met_git_dir(entries, path) {
                let m = choose|m: int|
                    0 <= m < entries.len() && marks_repo(
                        (#[trigger] entries[m]).name,
                        entries[m].is_dir,
                    ) && entries[m].parent is Some && leads_through(entries[m].parent->0, path);
                lemma_marker(entries[m]);
                let n = entries[m].parent->0.parts.len() as int;
                assert(git_component_at(parts, n));
                assert(is_git_dir_in(entries[m], parts.take(n)));
            }
        }
        assert(repo_at(entries, entries[i]) is Some);
        assert(paths::lists_path(found, parts));
    }
}

/// A repository that was met and opens is listed wherever it lies below others,
/// as long as no component of its path is named `.git`.
pub proof fn law_nested_repositories_are_listed(
    entries: Seq<WalkEntryView>,
    parts: Seq<paths::PathPartView>,
    i: int,
)
    requires
        0 <= i < entries.len(),
        is_git_dir_in(entries[i], parts),
        entries[i].opens,
        forall|n: int| !#[trigger] git_component_at(parts, n),
    ensures
        exists|f: int|
            0 <= f < discovered(entries).len() && (#[trigger] discovered(entries)[f]).parts
                == parts,
{
    law_repositories_hold_a_git_dir(entries, parts);
}

/// Repositories are listed by their paths, each once.
pub proof fn law_repositories_are_listed_once_in_order(
    entries: Seq<WalkEntryView>,
    i: int,
    j: int,
)
    requires
        0 <= i < j < discovered(entries).len(),
    ensures
        discovered(entries)[i].parts != discovered(entries)[j].parts,
        paths::parts_le(discovered(entries)[i].parts, discovered(entries)[j].parts),
{
    let found = discovered(entries);
    law_discovery(entries, found[i].parts);
    assert(found[i].parts != found[j].parts);
    assert((sort::rank::<RepoPath>())(found[i], found[j]));
}

/// The search goes into a directory exactly when it is not named `.git`.
pub proof fn law_search_goes_into_other_directories(name: Seq<u8>, is_dir: bool)
    ensures
        descends(name, is_dir) <==> is_dir && name != seq![0x2eu8, 0x67u8, 0x69u8, 0x74u8],
{
}

/// The search does not go into `.git` directories: where one was met, nothing
/// inside it is listed.
pub proof fn law_git_dirs_are_not_entered(
    entries: Seq<WalkEntryView>,
    marker: int,
    found: int,
)
    requires
        0 <= marker < entries.len(),
        marks_repo(entries[marker].name, entries[marker].is_dir),
        entries[marker].parent is Some,
        0 <= found < discovered(entries).len(),
    ensures
        !leads_through(entries[marker].parent->0, discovered(entries)[found]),
{
    let path = discovered(entries)[found];
    law_discovery(entries, path.parts);
    assert(paths::lists_path(discovered(entries), path.parts));
    let i = choose|i: int|
        0 <= i < entries.len() && (#[trigger] repo_at(entries, entries[i]) is Some) && repo_at(
            entries,
            entries[i],
        )->0.parts == path.parts;
    let listed = repo_at(entries, entries[i])->0;
    assert(!in_met_git_dir(entries, listed));
    assert(marks_repo(entries[marker].name, entries[marker].is_dir));
    assert(!leads_through(entries[marker].parent->0, listed));
}

proof fn lemma_repos_at(
    met: Seq<WalkEntryView>,
    entries: Seq<WalkEntryView>,
    parts: Seq<paths::PathPartView>,
)
    ensures
        paths::lists_path(repos_at(met, entries), parts) <==> exists|i: int|
            0 <= i < entries.len() && (#[trigger] repo_at(met, entries[i]) is Some) && repo_at(
                met,
                entries[i],
            )->0.parts == parts,
    decreases entries.len(),
{
    if entries.len() > 0 {
        let rest = entries.drop_last();
        lemma_repos_at(met, rest, parts);
        let before = repos_at(met, rest);
        let after = repos_at(met, entries);
        let last = entries.len() - 1;
        if paths::lists_path(after, parts) {
            let k = choose|k: int| 0 <= k < after.len() && (#[trigger] after[k]).parts == parts;
            if k < before.len() {
                assert(before[k].parts == parts);
                let i = choose|i: int|
                    0 <= i < rest.len() && (#[trigger] repo_at(met, rest[i]) is Some) && repo_at(
                        met,
                        rest[i],
                    )->0.parts == parts;
                assert(repo_at(met, entries[i]) is Some);
            } else {
                assert(repo_at(met, entries[last]) is Some);
            }
        }
        if exists|i: int|
            0 <= i < entries.len() && (#[trigger] repo_at(met, entries[i]) is Some) && repo_at(
                met,
                entries[i],
            )->0.parts == parts {
            let i = choose|i: int|
                0 <= i < entries.len() && (#[trigger] repo_at(met, entries[i]) is Some) && repo_at(
                    met,
                    entries[i],
                )->0.parts == parts;
            if i < last {
                assert(repo_at(met, rest[i]) is Some);
                let k = choose|k: int|
                    0 <= k < before.len() && (#[trigger] before[k]).parts == parts;
                assert(after[k].parts == parts);
            } else {
                assert(after[after.len() - 1].parts == parts);
            }
        }
    }
}

}
