//! The steps that operations on a repository take.
use vstd::prelude::*;
use vstd::string::*;

use crate::git_error::GitError;
use crate::git_service;
use crate::git_service::GitService;
use crate::object_id;
use crate::paths::{RepoPath, RepoPathView};
use crate::readings::{
    CommandOutput, HeadInfo, HeadInfoView, RepoFactsView, StageEntry, StageEntryView, StatusEntry,
    StatusEntryView,
};
use crate::reading_laws;
use crate::status;
use crate::text;

verus! {

/// A step on the index.
#[derive(Debug, PartialEq, Eq)]
pub enum IndexStep {
    /// Take a file of the working tree into the index. The operation ends where
    /// this fails.
    Add { path: String },
    /// Take a file out of the index. It does not matter whether this fails.
    Remove { path: String },
    /// Empty the index.
    Clear,
    /// Write the index to disk.
    Write,
}

/// What a step on the index stands for.
pub enum IndexStepView {
    Add { path: Seq<char> },
    Remove { path: Seq<char> },
    Clear,
    Write,
}

impl DeepView for IndexStep {
    type V = IndexStepView;

    open spec fn deep_view(&self) -> IndexStepView {
        match self {
            IndexStep::Add { path } => IndexStepView::Add { path: path@ },
            IndexStep::Remove { path } => IndexStepView::Remove { path: path@ },
            IndexStep::Clear => IndexStepView::Clear,
            IndexStep::Write => IndexStepView::Write,
        }
    }
}

/// What an index holds under each path after a step on it that was carried out,
/// where `files` tells what a file of the working tree is taken in as. Taking
/// out a file that is not there changes nothing.
pub open spec fn index_after_step<E>(
    index: Map<Seq<char>, E>,
    files: spec_fn(Seq<char>) -> E,
    step: IndexStepView,
) -> Map<Seq<char>, E> {
    match step {
        IndexStepView::Add { path } => index.insert(path, files(path)),
        IndexStepView::Remove { path } => index.remove(path),
        IndexStepView::Clear => Map::empty(),
        IndexStepView::Write => index,
    }
}

/// What an index holds under each path after some steps on it that were carried
/// out.
pub open spec fn index_after<E>(
    index: Map<Seq<char>, E>,
    files: spec_fn(Seq<char>) -> E,
    steps: Seq<IndexStepView>,
) -> Map<Seq<char>, E>
    decreases steps.len(),
{
    if steps.len() == 0 {
        index
    } else {
        index_after_step(index_after(index, files, steps.drop_last()), files, steps.last())
    }
}

/// The step that staging all takes for a file: out of the index if it was
/// deleted, into the index if it is there.
pub open spec fn stage_step(entry: StageEntryView) -> Option<IndexStepView> {
    match entry.path {
        Some(path) => if status::has_flag(entry.status, status::WT_DELETED) {
            Some(IndexStepView::Remove { path })
        } else if entry.exists {
            Some(IndexStepView::Add { path })
        } else {
            None
        },
        None => None,
    }
}

/// The steps that staging all takes for files, one after the other.
pub open spec fn stage_steps(entries: Seq<StageEntryView>) -> Seq<IndexStepView>
    decreases entries.len(),
{
    if entries.len() == 0 {
        Seq::empty()
    } else {
        let before = stage_steps(entries.drop_last());
        match stage_step(entries.last()) {
            Some(step) => before.push(step),
            None => before,
        }
    }
}

/// The steps that stage one file: into the index if it is there, else out of
/// it.
pub open spec fn stage_path_steps(path: Seq<char>, exists: bool) -> Seq<IndexStepView> {
    seq![
        if exists {
            IndexStepView::Add { path }
        } else {
            IndexStepView::Remove { path }
        },
        IndexStepView::Write,
    ]
}

impl GitService {
    /// The steps that stage all changes.
    pub fn stage_all(entries: &Vec<StageEntry>) -> (r: Vec<IndexStep>)
        ensures
            r.deep_view() == stage_steps(entries.deep_view()).push(IndexStepView::Write),
    {
        let ghost all = entries.deep_view();
        let mut steps: Vec<IndexStep> = Vec::new();
        let mut i: usize = 0;
        assert(steps.deep_view() =~= stage_steps(all.take(0)));
        while i < entries.len()
            invariant
                i <= entries@.len(),
                all == entries.deep_view(),
                steps.deep_view() == stage_steps(all.take(i as int)),
            decreases entries@.len() - i,
        {
            let ghost before = steps.deep_view();
            let entry = &entries[i];
            proof {
                assert(all.take(i + 1).drop_last() =~= all.take(i as int));
                assert(all.take(i + 1).last() == entry.deep_view());
            }
            if let Some(path) = &entry.path {
                if entry.status.contains(status::WT_DELETED) {
                    steps.push(IndexStep::Remove { path: path.clone() });
                    assert(steps.deep_view() =~= before.push(IndexStepView::Remove { path: path@ }));
                } else if entry.exists {
                    steps.push(IndexStep::Add { path: path.clone() });
                    assert(steps.deep_view() =~= before.push(IndexStepView::Add { path: path@ }));
                }
            }
            i += 1;
        }
        assert(all.take(all.len() as int) =~= all);
        let ghost before = steps.deep_view();
        steps.push(IndexStep::Write);
        assert(steps.deep_view() =~= before.push(IndexStepView::Write));
        steps
    }

    /// The steps that stage one file: into the index if it is there, else out
    /// of it.
    pub fn stage_path(rel_path: &str, exists: bool) -> (r: Vec<IndexStep>)
        ensures
            r.deep_view() == stage_path_steps(rel_path@, exists),
    {
        let mut steps: Vec<IndexStep> = Vec::new();
        if exists {
            steps.push(IndexStep::Add { path: rel_path.to_owned() });
        } else {
            steps.push(IndexStep::Remove { path: rel_path.to_owned() });
        }
        steps.push(IndexStep::Write);
        assert(steps.deep_view() =~= stage_path_steps(rel_path@, exists));
        steps
    }
}

/// How files leave the index.
#[derive(Debug, PartialEq, Eq)]
pub enum UnstagePlan {
    /// Set the index back to the last commit, for the given paths or, where
    /// none is given, for all.
    ResetToHead { paths: Vec<String> },
    /// Change the index step by step.
    Steps { steps: Vec<IndexStep> },
}

/// What a way for files to leave the index stands for.
pub enum UnstagePlanView {
    ResetToHead { paths: Seq<Seq<char>> },
    Steps { steps: Seq<IndexStepView> },
}

impl DeepView for UnstagePlan {
    type V = UnstagePlanView;

    open spec fn deep_view(&self) -> UnstagePlanView {
        match self {
            UnstagePlan::ResetToHead { paths } => UnstagePlanView::ResetToHead {
                paths: paths.deep_view(),
            },
            UnstagePlan::Steps { steps } => UnstagePlanView::Steps { steps: steps.deep_view() },
        }
    }
}

/// How all files leave the index.
pub open spec fn unstage_all_plan(has_head: bool) -> UnstagePlanView {
    if has_head {
        UnstagePlanView::ResetToHead { paths: Seq::empty() }
    } else {
        UnstagePlanView::Steps { steps: seq![IndexStepView::Clear, IndexStepView::Write] }
    }
}

/// How one file leaves the index.
pub open spec fn unstage_path_plan(rel_path: Seq<char>, has_head: bool) -> UnstagePlanView {
    if has_head {
        UnstagePlanView::ResetToHead { paths: seq![rel_path] }
    } else {
        UnstagePlanView::Steps {
            steps: seq![IndexStepView::Remove { path: rel_path }, IndexStepView::Write],
        }
    }
}

impl GitService {
    /// How all files leave the index, in a repository with or without a commit.
    pub fn unstage_all(has_head: bool) -> (r: UnstagePlan)
        ensures
            r.deep_view() == unstage_all_plan(has_head),
    {
        if has_head {
            let paths: Vec<String> = Vec::new();
            assert(paths.deep_view() =~= Seq::<Seq<char>>::empty());
            UnstagePlan::ResetToHead { paths }
        } else {
            let mut steps: Vec<IndexStep> = Vec::new();
            steps.push(IndexStep::Clear);
            steps.push(IndexStep::Write);
            assert(steps.deep_view() =~= seq![IndexStepView::Clear, IndexStepView::Write]);
            UnstagePlan::Steps { steps }
        }
    }

    /// How one file leaves the index, in a repository with or without a commit.
    pub fn unstage_path(rel_path: &str, has_head: bool) -> (r: UnstagePlan)
        ensures
            r.deep_view() == unstage_path_plan(rel_path@, has_head),
    {
        if has_head {
            let mut paths: Vec<String> = Vec::new();
            paths.push(rel_path.to_owned());
            assert(paths.deep_view() =~= seq![rel_path@]);
            UnstagePlan::ResetToHead { paths }
        } else {
            let mut steps: Vec<IndexStep> = Vec::new();
            steps.push(IndexStep::Remove { path: rel_path.to_owned() });
            steps.push(IndexStep::Write);
            assert(steps.deep_view() =~= seq![
                IndexStepView::Remove { path: rel_path@ },
                IndexStepView::Write,
            ]);
            UnstagePlan::Steps { steps }
        }
    }
}

/// What an index holds once it was set back to what the last commit holds, for
/// the given paths or, where none is given, for all. A path names one file: it
/// holds no pattern characters.
pub open spec fn index_reset<E>(
    index: Map<Seq<char>, E>,
    head: Map<Seq<char>, E>,
    paths: Seq<Seq<char>>,
) -> Map<Seq<char>, E> {
    if paths.len() == 0 {
        head
    } else {
        let picked = |path: Seq<char>| paths.contains(path);
        Map::new(
            |path: Seq<char>|
                if picked(path) {
                    head.dom().contains(path)
                } else {
                    index.dom().contains(path)
                },
            |path: Seq<char>|
                if picked(path) {
                    head[path]
                } else {
                    index[path]
                },
        )
    }
}

/// What an index holds once files left it.
pub open spec fn index_unstaged<E>(
    index: Map<Seq<char>, E>,
    head: Map<Seq<char>, E>,
    files: spec_fn(Seq<char>) -> E,
    plan: UnstagePlanView,
) -> Map<Seq<char>, E> {
    match plan {
        UnstagePlanView::ResetToHead { paths } => index_reset(index, head, paths),
        UnstagePlanView::Steps { steps } => index_after(index, files, steps),
    }
}

/// What the last commit holds; nothing where there is no commit.
pub open spec fn held_by<E>(head: Option<Map<Seq<char>, E>>) -> Map<Seq<char>, E> {
    match head {
        Some(held) => held,
        None => Map::empty(),
    }
}

/// Whether two indexes or commits hold the same under a path, or both nothing.
pub open spec fn agree_at<E>(
    a: Map<Seq<char>, E>,
    b: Map<Seq<char>, E>,
    path: Seq<char>,
) -> bool {
    &&& a.dom().contains(path) <==> b.dom().contains(path)
    &&& a.dom().contains(path) ==> a[path] == b[path]
}

proof fn lemma_two_steps<E>(
    index: Map<Seq<char>, E>,
    files: spec_fn(Seq<char>) -> E,
    first: IndexStepView,
)
    ensures
        index_after(index, files, seq![first, IndexStepView::Write]) == index_after_step(
            index,
            files,
            first,
        ),
{
    let steps = seq![first, IndexStepView::Write];
    reveal_with_fuel(index_after, 3);
    assert(steps.drop_last() =~= seq![first]);
    assert(seq![first].drop_last() =~= Seq::<IndexStepView>::empty());
}

/// Staging one file puts it into the index as it is in the working tree, or
/// takes it out if it is not there, and leaves all others as they are.
pub proof fn law_stage_path<E>(
    index: Map<Seq<char>, E>,
    files: spec_fn(Seq<char>) -> E,
    path: Seq<char>,
    is_there: bool,
)
    ensures
        index_after(index, files, stage_path_steps(path, is_there)) == (if is_there {
            index.insert(path, files(path))
        } else {
            index.remove(path)
        }),
{
    if is_there {
        lemma_two_steps(index, files, IndexStepView::Add { path });
    } else {
        lemma_two_steps(index, files, IndexStepView::Remove { path });
    }
}

/// Unstaging all leaves in the index what the last commit holds; without a
/// commit, nothing.
pub proof fn law_unstage_all<E>(
    index: Map<Seq<char>, E>,
    head: Option<Map<Seq<char>, E>>,
    files: spec_fn(Seq<char>) -> E,
)
    ensures
        index_unstaged(index, held_by(head), files, unstage_all_plan(head is Some)) == held_by(
            head,
        ),
{
    lemma_two_steps(index, files, IndexStepView::Clear);
}

/// Unstaging a file leaves under its path what the last commit holds there, or
/// nothing, and every other path as it was. With a commit, exactly that path is
/// reset.
pub proof fn law_unstage_path<E>(
    index: Map<Seq<char>, E>,
    head: Option<Map<Seq<char>, E>>,
    files: spec_fn(Seq<char>) -> E,
    path: Seq<char>,
)
    ensures
        ({
            let after = index_unstaged(
                index,
                held_by(head),
                files,
                unstage_path_plan(path, head is Some),
            );
            &&& agree_at(after, held_by(head), path)
            &&& forall|other: Seq<char>| other != path ==> #[trigger] agree_at(after, index, other)
        }),
        head is Some ==> unstage_path_plan(path, true) == (UnstagePlanView::ResetToHead {
            paths: seq![path],
        }),
{
    lemma_two_steps(index, files, IndexStepView::Remove { path });
    assert(seq![path][0] == path);
    assert forall|other: Seq<char>| seq![path].contains(other) implies other == path by {}
    assert(seq![path].contains(path));
}

/// Unstaging a file that was just staged gives back the index: its path held
/// before what the last commit holds there, or neither held anything.
pub proof fn law_unstage_undoes_stage<E>(
    index: Map<Seq<char>, E>,
    head: Option<Map<Seq<char>, E>>,
    files: spec_fn(Seq<char>) -> E,
    path: Seq<char>,
    is_there: bool,
)
    requires
        agree_at(index, held_by(head), path),
    ensures
        index_unstaged(
            index_after(index, files, stage_path_steps(path, is_there)),
            held_by(head),
            files,
            unstage_path_plan(path, head is Some),
        ) == index,
{
    let staged = index_after(index, files, stage_path_steps(path, is_there));
    let after = index_unstaged(
        staged,
        held_by(head),
        files,
        unstage_path_plan(path, head is Some),
    );
    law_stage_path(index, files, path, is_there);
    law_unstage_path(staged, head, files, path);
    assert forall|other: Seq<char>| #[trigger] agree_at(after, index, other) by {
        if other != path {
            assert(agree_at(after, staged, other));
        }
    }
    assert forall|other: Seq<char>| #[trigger]
        after.dom().contains(other) <==> index.dom().contains(other) by {
        assert(agree_at(after, index, other));
    }
    assert(after.dom() =~= index.dom());
    assert forall|other: Seq<char>| index.dom().contains(other) implies #[trigger] after[other]
        == index[other] by {
        assert(agree_at(after, index, other));
    }
    assert(after =~= index);
}

/// Whether a file is listed, with the given path.
pub open spec fn lists_file(entries: Seq<StageEntryView>, path: Seq<char>) -> bool {
    exists|i: int| 0 <= i < entries.len() && (#[trigger] entries[i]).path == Some(path)
}

/// Whether no path is listed twice.
pub open spec fn lists_each_once(entries: Seq<StageEntryView>) -> bool {
    forall|i: int, j: int|
        0 <= i < j < entries.len() && (#[trigger] entries[i]).path is Some
            ==> entries[i].path != (#[trigger] entries[j]).path
}

/// Staging all does to the index what the files call for, whatever was in it: a
/// deleted file is out, one that is there is in as it is in the working tree,
/// and every other path is as it was.
pub proof fn law_stage_all<E>(
    index: Map<Seq<char>, E>,
    files: spec_fn(Seq<char>) -> E,
    entries: Seq<StageEntryView>,
    path: Seq<char>,
)
    requires
        lists_each_once(entries),
    ensures
        ({
            let after = index_after(index, files, stage_steps(entries).push(IndexStepView::Write));
            &&& !lists_file(entries, path) ==> agree_at(after, index, path)
            &&& forall|i: int|
                0 <= i < entries.len() && (#[trigger] entries[i]).path == Some(path) ==> if status::has_flag(
                    entries[i].status,
                    status::WT_DELETED,
                ) {
                    !after.dom().contains(path)
                } else if entries[i].exists {
                    after.dom().contains(path) && after[path] == files(path)
                } else {
                    agree_at(after, index, path)
                }
        }),
{
    let steps = stage_steps(entries);
    assert(steps.push(IndexStepView::Write).drop_last() =~= steps);
    lemma_stage_steps(index, files, entries, path);
}

proof fn lemma_stage_steps<E>(
    index: Map<Seq<char>, E>,
    files: spec_fn(Seq<char>) -> E,
    entries: Seq<StageEntryView>,
    path: Seq<char>,
)
    requires
        lists_each_once(entries),
    ensures
        ({
            let after = index_after(index, files, stage_steps(entries));
            &&& !lists_file(entries, path) ==> agree_at(after, index, path)
            &&& forall|i: int|
                0 <= i < entries.len() && (#[trigger] entries[i]).path == Some(path) ==> if status::has_flag(
                    entries[i].status,
                    status::WT_DELETED,
                ) {
                    !after.dom().contains(path)
                } else if entries[i].exists {
                    after.dom().contains(path) && after[path] == files(path)
                } else {
                    agree_at(after, index, path)
                }
        }),
    decreases entries.len(),
{
    if entries.len() > 0 {
        let rest = entries.drop_last();
        let last = entries.last();
        assert forall|i: int, j: int|
            0 <= i < j < rest.len() && (#[trigger] rest[i]).path is Some implies rest[i].path
            != (#[trigger] rest[j]).path by {
            assert(entries[i].path != entries[j].path);
        }
        lemma_stage_steps(index, files, rest, path);
        let before = stage_steps(rest);
        let after = stage_steps(entries);
        if stage_step(last) is Some {
            assert(after.drop_last() =~= before);
        }
        if lists_file(rest, path) {
            let i = choose|i: int| 0 <= i < rest.len() && (#[trigger] rest[i]).path == Some(path);
            assert(entries[i].path == Some(path));
            assert(entries[i].path != entries[entries.len() - 1].path);
        }
        if last.path == Some(path) {
            assert(entries[entries.len() - 1].path == Some(path));
            assert(!lists_file(rest, path)) by {
                if lists_file(rest, path) {
                    let i = choose|i: int|
                        0 <= i < rest.len() && (#[trigger] rest[i]).path == Some(path);
                    assert(entries[i].path != entries[entries.len() - 1].path);
                }
            }
        }
        assert forall|i: int|
            0 <= i < entries.len() && (#[trigger] entries[i]).path == Some(path) implies if status::has_flag(
            entries[i].status,
            status::WT_DELETED,
        ) {
            !index_after(index, files, after).dom().contains(path)
        } else if entries[i].exists {
            index_after(index, files, after).dom().contains(path) && index_after(
                index,
                files,
                after,
            )[path] == files(path)
        } else {
            agree_at(index_after(index, files, after), index, path)
        } by {
            if i < rest.len() {
                assert(rest[i].path == Some(path));
                assert(lists_file(rest, path));
            }
        }
        if !lists_file(entries, path) {
            assert(!lists_file(rest, path)) by {
                if lists_file(rest, path) {
                    let i = choose|i: int|
                        0 <= i < rest.len() && (#[trigger] rest[i]).path == Some(path);
                    assert(entries[i].path == Some(path));
                }
            }
            assert(last.path != Some(path)) by {
                if last.path == Some(path) {
                    assert(entries[entries.len() - 1].path == Some(path));
                }
            }
        }
    }
}

proof fn lemma_staged_by_flags(statuses: &Vec<StatusEntry>)
    ensures
        git_service::any_of(statuses.deep_view(), git_service::staged()) <==> exists|i: int|
            0 <= i < statuses@.len() && (#[trigger] statuses@[i]).status.bits & 0x1f != 0,
{
    let all = statuses.deep_view();
    reading_laws::law_staged_needs_an_index_flag(all);
    if exists|i: int| 0 <= i < all.len() && (#[trigger] all[i]).status.bits & 0x1f != 0 {
        let i = choose|i: int| 0 <= i < all.len() && (#[trigger] all[i]).status.bits & 0x1f != 0;
        assert(statuses@[i].status.bits & 0x1f != 0);
    }
    if exists|i: int|
        0 <= i < statuses@.len() && (#[trigger] statuses@[i]).status.bits & 0x1f != 0 {
        let i = choose|i: int|
            0 <= i < statuses@.len() && (#[trigger] statuses@[i]).status.bits & 0x1f != 0;
        assert(all[i].status.bits & 0x1f != 0);
    }
}

/// Tells whether something is staged.
pub fn has_staged_changes(statuses: &Vec<StatusEntry>) -> (r: bool)
    ensures
        r == git_service::any_of(statuses.deep_view(), git_service::staged()),
        r <==> exists|i: int|
            0 <= i < statuses@.len() && (#[trigger] statuses@[i]).status.bits & 0x1f != 0,
{
    proof {
        lemma_staged_by_flags(statuses);
    }
    let ghost all = statuses.deep_view();
    let ghost pick = git_service::staged();
    let mut i: usize = 0;
    while i < statuses.len()
        invariant
            i <= statuses@.len(),
            all == statuses.deep_view(),
            pick == git_service::staged(),
            forall|k: int| 0 <= k < i ==> !pick(#[trigger] all[k].status),
        decreases statuses@.len() - i,
    {
        assert(all[i as int].status == statuses@[i as int].status);
        if status::is_staged(statuses[i].status) {
            proof {
                assert(pick(all[i as int].status));
                lemma_staged_by_flags(statuses);
            }
            return true;
        }
        i += 1;
    }
    false
}

/// The name that a commit is signed with where none is configured.
pub const FALLBACK_NAME: &'static str = "Git Control";

/// The address that a commit is signed with where none is configured.
pub const FALLBACK_EMAIL: &'static str = "git-control@local";

/// A commit to make: of the index, on top of the parents, moving what is
/// checked out to it.
#[derive(Debug, PartialEq, Eq)]
pub struct CommitPlan {
    pub message: String,
    pub parents: Vec<String>,
}

/// What a commit to make stands for.
pub struct CommitPlanView {
    pub message: Seq<char>,
    pub parents: Seq<Seq<char>>,
}

impl DeepView for CommitPlan {
    type V = CommitPlanView;

    open spec fn deep_view(&self) -> CommitPlanView {
        CommitPlanView { message: self.message@, parents: self.parents.deep_view() }
    }
}

/// The commit to make, on top of the commit that is checked out, if any; none
/// where nothing is staged.
pub open spec fn commit_to_make(
    statuses: Seq<StatusEntryView>,
    head_target: Option<Seq<char>>,
    message: Seq<char>,
) -> Option<CommitPlanView> {
    if git_service::any_of(statuses, git_service::staged()) {
        Some(
            CommitPlanView {
                message,
                parents: match head_target {
                    Some(id) => seq![id],
                    None => Seq::empty(),
                },
            },
        )
    } else {
        None
    }
}

impl GitService {
    /// The commit to make, on top of the commit that is checked out, if any.
    /// There has to be something staged.
    pub fn commit(
        statuses: &Vec<StatusEntry>,
        head_target: Option<String>,
        message: &str,
    ) -> (r: Result<CommitPlan, GitError>)
        ensures
            r is Ok <==> git_service::any_of(statuses.deep_view(), git_service::staged()),
            match r {
                Ok(plan) => commit_to_make(
                    statuses.deep_view(),
                    head_target.deep_view(),
                    message@,
                ) == Some(plan.deep_view()),
                Err(error) => error is NothingStaged && commit_to_make(
                    statuses.deep_view(),
                    head_target.deep_view(),
                    message@,
                ) is None,
            },
            r is Ok <==> exists|i: int|
                0 <= i < statuses@.len() && (#[trigger] statuses@[i]).status.bits & 0x1f != 0,
            r matches Ok(plan) ==> {
                &&& plan.message@ == message@
                &&& head_target matches Some(id) ==> plan.parents@.len() == 1 && plan.parents@[0]@
                    == id@
                &&& head_target is None ==> plan.parents@.len() == 0
            },
    {
        if !has_staged_changes(statuses) {
            return Err(GitError::NothingStaged);
        }
        let mut parents: Vec<String> = Vec::new();
        assert(parents.deep_view() =~= Seq::<Seq<char>>::empty());
        if let Some(id) = head_target {
            parents.push(id);
            assert(parents.deep_view() =~= seq![id@]);
        }
        Ok(CommitPlan { message: message.to_owned(), parents })
    }
}

/// What commits change in a repository: the commit that is checked out, if any,
/// by its id and what it holds, beside what the index holds.
pub struct Committed<E> {
    pub head: Option<(Seq<char>, Map<Seq<char>, E>)>,
    pub index: Map<Seq<char>, E>,
}

/// What the commit that is checked out holds; nothing where there is none.
pub open spec fn last_commit<E>(repo: Committed<E>) -> Map<Seq<char>, E> {
    match repo.head {
        Some((id, held)) => held,
        None => Map::empty(),
    }
}

/// The id of the commit that is checked out, if any.
pub open spec fn head_id<E>(repo: Committed<E>) -> Option<Seq<char>> {
    match repo.head {
        Some((id, held)) => Some(id),
        None => None,
    }
}

/// Whether a path is staged: index and last commit differ there.
pub open spec fn is_path_staged<E>(repo: Committed<E>, path: Seq<char>) -> bool {
    !agree_at(repo.index, last_commit(repo), path)
}

/// Whether a status scan tells of something staged exactly when a path is.
pub open spec fn tells_staged<E>(statuses: Seq<StatusEntryView>, repo: Committed<E>) -> bool {
    git_service::any_of(statuses, git_service::staged()) <==> exists|path: Seq<char>| #[trigger]
        is_path_staged(repo, path)
}

/// A repository after a commit was asked for: if there is one to make, it holds
/// what the index holds, gets the given id and is checked out.
pub open spec fn after_commit<E>(
    repo: Committed<E>,
    plan: Option<CommitPlanView>,
    id: Seq<char>,
) -> Committed<E> {
    match plan {
        Some(_) => Committed { head: Some((id, repo.index)), index: repo.index },
        None => repo,
    }
}

/// Once a commit was made, nothing is staged.
pub proof fn law_commit_leaves_nothing_staged<E>(
    repo: Committed<E>,
    plan: CommitPlanView,
    id: Seq<char>,
    path: Seq<char>,
)
    ensures
        !is_path_staged(after_commit(repo, Some(plan), id), path),
{
}

/// A second commit right after a first one is refused, whatever its message, and
/// the first one stays checked out.
pub proof fn law_second_commit_is_refused<E>(
    repo: Committed<E>,
    first_statuses: Seq<StatusEntryView>,
    first_message: Seq<char>,
    first_id: Seq<char>,
    second_statuses: Seq<StatusEntryView>,
    second_message: Seq<char>,
    second_id: Seq<char>,
)
    requires
        commit_to_make(first_statuses, head_id(repo), first_message) is Some,
        tells_staged(
            second_statuses,
            after_commit(
                repo,
                commit_to_make(first_statuses, head_id(repo), first_message),
                first_id,
            ),
        ),
    ensures
        ({
            let first = after_commit(
                repo,
                commit_to_make(first_statuses, head_id(repo), first_message),
                first_id,
            );
            let plan = commit_to_make(second_statuses, head_id(first), second_message);
            &&& plan is None
            &&& after_commit(first, plan, second_id) == first
            &&& head_id(first) == Some(first_id)
        }),
{
    let plan = commit_to_make(first_statuses, head_id(repo), first_message);
    let first = after_commit(repo, plan, first_id);
    assert forall|path: Seq<char>| !#[trigger] is_path_staged(first, path) by {
        law_commit_leaves_nothing_staged(repo, plan->0, first_id, path);
    }
}

/// A commit can be made exactly when the summary counts something as staged.
pub proof fn law_commit_needs_staged(facts: RepoFactsView)
    requires
        facts.statuses.len() <= usize::MAX,
    ensures
        git_service::any_of(facts.statuses, git_service::staged()) <==> git_service::summary_of(
            facts,
        ).staged_count > 0,
{
    git_service::lemma_count_positive(facts.statuses, git_service::staged());
    git_service::lemma_count_bounded(facts.statuses, git_service::staged());
}

/// A step on the branches.
#[derive(Debug, PartialEq, Eq)]
pub enum BranchStep {
    /// Make a branch at the commit that is checked out; it must not exist yet.
    Create { name: String },
    /// Bring the working tree to what a reference points at, without losing
    /// changes.
    CheckoutTree { reference: String },
    /// Make a reference what is checked out.
    SetHead { reference: String },
}

/// What a step on the branches stands for.
pub enum BranchStepView {
    Create { name: Seq<char> },
    CheckoutTree { reference: Seq<char> },
    SetHead { reference: Seq<char> },
}

impl DeepView for BranchStep {
    type V = BranchStepView;

    open spec fn deep_view(&self) -> BranchStepView {
        match self {
            BranchStep::Create { name } => BranchStepView::Create { name: name@ },
            BranchStep::CheckoutTree { reference } => BranchStepView::CheckoutTree {
                reference: reference@,
            },
            BranchStep::SetHead { reference } => BranchStepView::SetHead { reference: reference@ },
        }
    }
}

/// The full name of a local branch.
pub open spec fn branch_reference(name: Seq<char>) -> Seq<char> {
    "refs/heads/"@ + name
}

/// The steps that check a branch out.
pub open spec fn checkout_steps(name: Seq<char>) -> Seq<BranchStepView> {
    seq![
        BranchStepView::CheckoutTree { reference: branch_reference(name) },
        BranchStepView::SetHead { reference: branch_reference(name) },
    ]
}

impl GitService {
    /// The steps that check a branch out.
    pub fn checkout_branch(name: &str) -> (r: Vec<BranchStep>)
        ensures
            r.deep_view() == checkout_steps(name@),
    {
        let reference = text::join2("refs/heads/", name);
        let mut steps: Vec<BranchStep> = Vec::new();
        steps.push(BranchStep::CheckoutTree { reference: reference.clone() });
        steps.push(BranchStep::SetHead { reference });
        assert(steps.deep_view() =~= checkout_steps(name@));
        steps
    }

    /// The steps that make a branch and, if asked for, check it out.
    pub fn create_branch(name: &str, checkout: bool) -> (r: Vec<BranchStep>)
        ensures
            r.deep_view() == seq![BranchStepView::Create { name: name@ }] + if checkout {
                checkout_steps(name@)
            } else {
                Seq::empty()
            },
    {
        let mut steps: Vec<BranchStep> = Vec::new();
        steps.push(BranchStep::Create { name: name.to_owned() });
        assert(steps.deep_view() =~= seq![BranchStepView::Create { name: name@ }]);
        if checkout {
            let mut more = GitService::checkout_branch(name);
            let ghost first = steps.deep_view();
            let ghost rest = more.deep_view();
            steps.append(&mut more);
            assert(steps.deep_view() =~= first + rest);
        } else {
            assert(steps.deep_view() =~= seq![BranchStepView::Create { name: name@ }]
                + Seq::<BranchStepView>::empty());
        }
        steps
    }
}

/// A step in taking over a resolved file.
#[derive(Debug, PartialEq, Eq)]
pub enum ResolutionStep {
    /// Write the file into the working tree.
    WriteFile { path: String, text: String },
    /// Change the index.
    Index { step: IndexStep },
}

/// What a step in taking over a resolved file stands for.
pub enum ResolutionStepView {
    WriteFile { path: Seq<char>, text: Seq<char> },
    Index { step: IndexStepView },
}

impl DeepView for ResolutionStep {
    type V = ResolutionStepView;

    open spec fn deep_view(&self) -> ResolutionStepView {
        match self {
            ResolutionStep::WriteFile { path, text } => ResolutionStepView::WriteFile {
                path: path@,
                text: text@,
            },
            ResolutionStep::Index { step } => ResolutionStepView::Index { step: step.deep_view() },
        }
    }
}

/// The steps that take over a resolved file: it is written, then staged.
pub open spec fn resolution_steps(rel_file: Seq<char>, resolved: Seq<char>) -> Seq<
    ResolutionStepView,
> {
    seq![
        ResolutionStepView::WriteFile { path: rel_file, text: resolved },
        ResolutionStepView::Index { step: IndexStepView::Add { path: rel_file } },
        ResolutionStepView::Index { step: IndexStepView::Write },
    ]
}

impl GitService {
    /// The steps that take over a resolved file.
    pub fn apply_resolution(rel_file: &str, resolved_text: &str) -> (r: Vec<ResolutionStep>)
        ensures
            r.deep_view() == resolution_steps(rel_file@, resolved_text@),
    {
        let mut steps: Vec<ResolutionStep> = Vec::new();
        steps.push(
            ResolutionStep::WriteFile { path: rel_file.to_owned(), text: resolved_text.to_owned() },
        );
        steps.push(ResolutionStep::Index { step: IndexStep::Add { path: rel_file.to_owned() } });
        steps.push(ResolutionStep::Index { step: IndexStep::Write });
        assert(steps.deep_view() =~= resolution_steps(rel_file@, resolved_text@));
        steps
    }

    /// The full id of the commit to set branch and index back to, keeping the
    /// working tree.
    pub fn mixed_reset_to(oid: &str) -> (r: Result<String, GitError>)
        ensures
            r is Ok <==> object_id::is_object_id(oid@),
            r matches Ok(target) ==> target@ == object_id::full_id(oid@),
            r matches Err(error) ==> (error matches GitError::BadObjectId { cause } && cause@
                == object_id::bad_id_message(oid)),
    {
        match object_id::parse_id(oid) {
            Ok(target) => Ok(target),
            Err(cause) => Err(GitError::BadObjectId { cause }),
        }
    }
}

/// A `git` command to run.
#[derive(Debug, PartialEq, Eq)]
pub struct GitCommand {
    /// The directory to run it in.
    pub dir: RepoPath,
    /// Its arguments.
    pub args: Vec<String>,
    /// The environment variables to set for it.
    pub env: Vec<(String, String)>,
}

/// What a `git` command stands for.
pub struct GitCommandView {
    pub dir: RepoPathView,
    pub args: Seq<Seq<char>>,
    pub env: Seq<(Seq<char>, Seq<char>)>,
}

impl DeepView for GitCommand {
    type V = GitCommandView;

    open spec fn deep_view(&self) -> GitCommandView {
        GitCommandView {
            dir: self.dir.deep_view(),
            args: self.args.deep_view(),
            env: self.env.deep_view(),
        }
    }
}

/// A `git` command with the given arguments, which never asks for anything.
pub open spec fn quiet_command(dir: RepoPathView, args: Seq<Seq<char>>) -> GitCommandView {
    GitCommandView {
        dir,
        args,
        env: seq![("GIT_TERMINAL_PROMPT"@, "0"@), ("GCM_INTERACTIVE"@, "never"@)],
    }
}

/// A `git` command with the given arguments, which never asks for anything.
fn git_command(dir: &RepoPath, args: Vec<String>) -> (r: GitCommand)
    ensures
        r.deep_view() == quiet_command(dir.deep_view(), args.deep_view()),
{
    let mut env: Vec<(String, String)> = Vec::new();
    env.push(("GIT_TERMINAL_PROMPT".to_owned(), "0".to_owned()));
    env.push(("GCM_INTERACTIVE".to_owned(), "never".to_owned()));
    assert(env.deep_view() =~= seq![("GIT_TERMINAL_PROMPT"@, "0"@), ("GCM_INTERACTIVE"@, "never"@)]);
    GitCommand { dir: dir.clone(), args, env }
}

impl GitService {
    /// The command that fetches all remotes and drops what is gone there.
    pub fn fetch(repo_path: &RepoPath) -> (r: GitCommand)
        ensures
            r.deep_view() == quiet_command(
                repo_path.deep_view(),
                seq!["fetch"@, "--all"@, "--prune"@],
            ),
            r.dir.deep_view() == repo_path.deep_view(),
            r.args.deep_view() == seq!["fetch"@, "--all"@, "--prune"@],
            r.env.deep_view() == seq![("GIT_TERMINAL_PROMPT"@, "0"@), ("GCM_INTERACTIVE"@, "never"@)],
    {
        let mut args: Vec<String> = Vec::new();
        args.push("fetch".to_owned());
        args.push("--all".to_owned());
        args.push("--prune".to_owned());
        assert(args.deep_view() =~= seq!["fetch"@, "--all"@, "--prune"@]);
        git_command(repo_path, args)
    }

    /// The command that pulls and puts local commits on top.
    pub fn pull_rebase(repo_path: &RepoPath) -> (r: GitCommand)
        ensures
            r.deep_view() == quiet_command(repo_path.deep_view(), seq!["pull"@, "--rebase"@]),
            r.dir.deep_view() == repo_path.deep_view(),
            r.args.deep_view() == seq!["pull"@, "--rebase"@],
            r.env.deep_view() == seq![("GIT_TERMINAL_PROMPT"@, "0"@), ("GCM_INTERACTIVE"@, "never"@)],
    {
        let mut args: Vec<String> = Vec::new();
        args.push("pull".to_owned());
        args.push("--rebase".to_owned());
        assert(args.deep_view() =~= seq!["pull"@, "--rebase"@]);
        git_command(repo_path, args)
    }

    /// The command that pushes.
    pub fn push(repo_path: &RepoPath) -> (r: GitCommand)
        ensures
            r.deep_view() == quiet_command(repo_path.deep_view(), seq!["push"@]),
            r.dir.deep_view() == repo_path.deep_view(),
            r.args.deep_view() == seq!["push"@],
            r.env.deep_view() == seq![("GIT_TERMINAL_PROMPT"@, "0"@), ("GCM_INTERACTIVE"@, "never"@)],
    {
        let mut args: Vec<String> = Vec::new();
        args.push("push".to_owned());
        assert(args.deep_view() =~= seq!["push"@]);
        git_command(repo_path, args)
    }
}

/// What a command printed and what it reported, as one text.
pub open spec fn merged_output(out: Seq<char>, err: Seq<char>) -> Seq<char> {
    if out.len() == 0 {
        err
    } else if err.len() == 0 {
        out
    } else {
        out + "\n"@ + err
    }
}

/// What is told of a command that succeeded.
pub open spec fn success_text(args: Seq<Seq<char>>, out: Seq<char>, err: Seq<char>) -> Seq<char> {
    if out.len() == 0 && err.len() == 0 {
        "git "@ + text::joined(args, " "@) + " completed successfully"@
    } else {
        merged_output(out, err)
    }
}

/// What is told of a command that failed.
pub open spec fn failure_details(out: Seq<char>, err: Seq<char>) -> Seq<char> {
    if out.len() == 0 && err.len() == 0 {
        "command failed without output"@
    } else {
        merged_output(out, err)
    }
}

/// Puts together what a command printed and what it reported.
pub fn merge_output(out: String, err: String) -> (r: String)
    ensures
        r@ == merged_output(out@, err@),
{
    if out.as_str().is_empty() {
        err
    } else if err.as_str().is_empty() {
        out
    } else {
        text::join3(out.as_str(), "\n", err.as_str())
    }
}

/// What is told of a command that ended, given what it printed and reported as
/// text.
pub fn command_outcome(args: &Vec<String>, success: bool, stdout: &str, stderr: &str) -> (r: Result<
    String,
    GitError,
>)
    ensures
        success ==> (r matches Ok(told) && told@ == success_text(
            args.deep_view(),
            text::trimmed(stdout@),
            text::trimmed(stderr@),
        )),
        !success ==> (r matches Err(GitError::CommandFailed { command, details }) && command@
            == text::joined(args.deep_view(), " "@) && details@ == failure_details(
            text::trimmed(stdout@),
            text::trimmed(stderr@),
        )),
{
    let out = text::trim(stdout);
    let err = text::trim(stderr);
    let command = text::join_with(args, " ");
    let silent = out.as_str().is_empty() && err.as_str().is_empty();
    if success {
        if silent {
            Ok(text::join3("git ", command.as_str(), " completed successfully"))
        } else {
            Ok(merge_output(out, err))
        }
    } else {
        let details = if silent {
            "command failed without output".to_owned()
        } else {
            merge_output(out, err)
        };
        Err(GitError::CommandFailed { command, details })
    }
}

/// What is told of a `git` command that was run.
pub fn run_git_command(args: &Vec<String>, output: &CommandOutput) -> (r: Result<String, GitError>)
    ensures
        output.success ==> (r matches Ok(told) && told@ == success_text(
            args.deep_view(),
            text::trimmed(text::lossy_text(output.stdout@)),
            text::trimmed(text::lossy_text(output.stderr@)),
        )),
        !output.success ==> (r matches Err(GitError::CommandFailed { command, details }) && command@
            == text::joined(args.deep_view(), " "@) && details@ == failure_details(
            text::trimmed(text::lossy_text(output.stdout@)),
            text::trimmed(text::lossy_text(output.stderr@)),
        )),
{
    let stdout = text::decode_lossy(&output.stdout);
    let stderr = text::decode_lossy(&output.stderr);
    command_outcome(args, output.success, stdout.as_str(), stderr.as_str())
}

/// How far the search for the distance to the upstream has come.
#[derive(Debug, PartialEq, Eq)]
pub enum SyncStep {
    /// The distance is known.
    Done { ahead: usize, behind: usize },
    /// The upstream of a local branch, at a commit, is to be looked up.
    FindUpstream { branch: String, head: String },
    /// The commits between two are to be counted.
    Count { head: String, upstream: String },
}

/// What a step in that search stands for.
pub enum SyncStepView {
    Done { ahead: usize, behind: usize },
    FindUpstream { branch: Seq<char>, head: Seq<char> },
    Count { head: Seq<char>, upstream: Seq<char> },
}

impl DeepView for SyncStep {
    type V = SyncStepView;

    open spec fn deep_view(&self) -> SyncStepView {
        match self {
            SyncStep::Done { ahead, behind } => SyncStepView::Done {
                ahead: *ahead,
                behind: *behind,
            },
            SyncStep::FindUpstream { branch, head } => SyncStepView::FindUpstream {
                branch: branch@,
                head: head@,
            },
            SyncStep::Count { head, upstream } => SyncStepView::Count {
                head: head@,
                upstream: upstream@,
            },
        }
    }
}

/// Where the search begins: with the upstream, when a branch with a commit is
/// checked out; else there is no distance.
pub open spec fn sync_start(head: Option<HeadInfoView>) -> SyncStepView {
    match head {
        Some(info) => match info.target {
            Some(target) => if info.is_branch {
                SyncStepView::FindUpstream {
                    branch: git_service::text_or(info.shorthand, Seq::empty()),
                    head: target,
                }
            } else {
                SyncStepView::Done { ahead: 0, behind: 0 }
            },
            None => SyncStepView::Done { ahead: 0, behind: 0 },
        },
        None => SyncStepView::Done { ahead: 0, behind: 0 },
    }
}

/// Where the search goes once the upstream was looked up: there may be none,
/// and it may point at no commit.
pub open spec fn sync_next(head: Seq<char>, upstream: Option<Option<Seq<char>>>) -> SyncStepView {
    match upstream {
        Some(Some(target)) => SyncStepView::Count { head, upstream: target },
        _ => SyncStepView::Done { ahead: 0, behind: 0 },
    }
}

/// Begins the search for the distance to the upstream.
pub fn ahead_behind(head: &Option<HeadInfo>) -> (r: SyncStep)
    ensures
        r.deep_view() == sync_start(head.deep_view()),
{
    match head {
        Some(info) => {
            if !info.is_branch {
                return SyncStep::Done { ahead: 0, behind: 0 };
            }
            match &info.target {
                Some(target) => {
                    let branch = match &info.shorthand {
                        Some(name) => name.clone(),
                        None => String::new(),
                    };
                    SyncStep::FindUpstream { branch, head: target.clone() }
                },
                None => SyncStep::Done { ahead: 0, behind: 0 },
            }
        },
        None => SyncStep::Done { ahead: 0, behind: 0 },
    }
}

/// Goes on with the search once the upstream was looked up.
pub fn ahead_behind_upstream(head: String, upstream: Option<Option<String>>) -> (r: SyncStep)
    ensures
        r.deep_view() == sync_next(head@, upstream.deep_view()),
{
    match upstream {
        Some(target) => match target {
            Some(id) => SyncStep::Count { head, upstream: id },
            None => SyncStep::Done { ahead: 0, behind: 0 },
        },
        None => SyncStep::Done { ahead: 0, behind: 0 },
    }
}

}
