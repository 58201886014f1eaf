//! The layout of the commit graph, and how commits are labelled in it.
use vstd::prelude::*;
use vstd::string::*;

use crate::model::{CommitEntry, CommitEntryView};
use crate::text;
use crate::widgets;
use crate::widgets::{colour, Rgb};

verus! {

/// A row of the commit graph: the lane of its commit, how many lanes there are
/// beside it, and how many parents the commit has.
#[derive(Clone, Copy, PartialEq, Eq, Structural, Debug)]
pub struct CommitGraphRow {
    pub lane: usize,
    pub lane_count: usize,
    pub parent_count: usize,
}

impl DeepView for CommitGraphRow {
    type V = CommitGraphRow;

    open spec fn deep_view(&self) -> CommitGraphRow {
        *self
    }
}

/// The first lane that waits for a commit; the number of lanes when none does.
pub open spec fn lane_waiting_for(lanes: Seq<Seq<char>>, oid: Seq<char>) -> nat
    decreases lanes.len(),
{
    if lanes.len() == 0 {
        0
    } else if lanes[0] == oid {
        0
    } else {
        1 + lane_waiting_for(lanes.drop_first(), oid)
    }
}

/// The lanes beside a commit: those there are and, when none of them waits for
/// it, one more.
pub open spec fn lanes_beside(lanes: Seq<Seq<char>>, oid: Seq<char>) -> Seq<Seq<char>> {
    if lane_waiting_for(lanes, oid) < lanes.len() {
        lanes
    } else {
        lanes.push(oid)
    }
}

/// The lanes below a commit: in place of its lane there is one for each of its
/// parents, in their order.
pub open spec fn lanes_below(lanes: Seq<Seq<char>>, commit: CommitEntryView) -> Seq<Seq<char>> {
    let lane = lane_waiting_for(lanes, commit.oid) as int;
    let beside = lanes_beside(lanes, commit.oid);
    beside.take(lane) + commit.parents + beside.skip(lane + 1)
}

/// The lanes below all of the commits.
pub open spec fn lanes_after(commits: Seq<CommitEntryView>) -> Seq<Seq<char>>
    decreases commits.len(),
{
    if commits.len() == 0 {
        Seq::empty()
    } else {
        lanes_below(lanes_after(commits.drop_last()), commits.last())
    }
}

/// The row of a commit, given the lanes above it.
pub open spec fn row_of(lanes: Seq<Seq<char>>, commit: CommitEntryView) -> CommitGraphRow {
    CommitGraphRow {
        lane: lane_waiting_for(lanes, commit.oid) as usize,
        lane_count: lanes_beside(lanes, commit.oid).len() as usize,
        parent_count: commit.parents.len() as usize,
    }
}

/// The rows of the commit graph, one for each commit.
pub open spec fn graph_rows(commits: Seq<CommitEntryView>) -> Seq<CommitGraphRow> {
    Seq::new(commits.len(), |i: int| row_of(lanes_after(commits.take(i)), commits[i]))
}

/// The first lane that waits for a commit is one of the lanes or one past them,
/// and waits for it if it is one of them; no lane to its left does.
pub proof fn lemma_lane_waiting(lanes: Seq<Seq<char>>, oid: Seq<char>)
    ensures
        lane_waiting_for(lanes, oid) <= lanes.len(),
        lane_waiting_for(lanes, oid) < lanes.len() ==> lanes[lane_waiting_for(lanes, oid) as int]
            == oid,
        forall|k: int|
            0 <= k < lane_waiting_for(lanes, oid) && k < lanes.len() ==> #[trigger] lanes[k] != oid,
    decreases lanes.len(),
{
    if lanes.len() > 0 && lanes[0] != oid {
        let rest = lanes.drop_first();
        lemma_lane_waiting(rest, oid);
        assert forall|k: int|
            0 <= k < lane_waiting_for(lanes, oid) && k < lanes.len() implies #[trigger] lanes[k]
            != oid by {
            if k > 0 {
                assert(rest[k - 1] == lanes[k]);
            }
        }
    }
}

proof fn lemma_lane_is(lanes: Seq<Seq<char>>, oid: Seq<char>, lane: int)
    requires
        0 <= lane <= lanes.len(),
        lane < lanes.len() ==> lanes[lane] == oid,
        forall|k: int| 0 <= k < lane ==> #[trigger] lanes[k] != oid,
    ensures
        lane_waiting_for(lanes, oid) == lane,
{
    lemma_lane_waiting(lanes, oid);
}

/// The first lane that waits for a commit; the number of lanes when none does.
fn find_lane(lanes: &Vec<String>, oid: &String) -> (r: usize)
    ensures
        r == lane_waiting_for(lanes.deep_view(), oid@),
        r <= lanes@.len(),
{
    let mut i: usize = 0;
    while i < lanes.len()
        invariant
            i <= lanes@.len(),
            forall|k: int| 0 <= k < i ==> #[trigger] lanes.deep_view()[k] != oid@,
        decreases lanes@.len() - i,
    {
        if lanes[i] == *oid {
            proof {
                lemma_lane_is(lanes.deep_view(), oid@, i as int);
            }
            return i;
        }
        i += 1;
    }
    proof {
        lemma_lane_is(lanes.deep_view(), oid@, i as int);
    }
    i
}

/// Replaces a lane by one for each of some parents.
fn replace_lane(lanes: &mut Vec<String>, lane: usize, parents: &Vec<String>)
    requires
        lane < old(lanes)@.len(),
    ensures
        final(lanes).deep_view() == old(lanes).deep_view().take(lane as int) + parents.deep_view()
            + old(lanes).deep_view().skip(lane + 1),
{
    let ghost start = lanes.deep_view();
    let _ = lanes.remove(lane);
    let mut k: usize = 0;
    assert(lanes.deep_view() =~= start.take(lane as int) + parents.deep_view().take(0) + start.skip(
        lane + 1,
    ));
    while k < parents.len()
        invariant
            k <= parents@.len(),
            lane < start.len(),
            lanes.deep_view() == start.take(lane as int) + parents.deep_view().take(k as int)
                + start.skip(lane + 1),
        decreases parents@.len() - k,
    {
        let ghost before = lanes.deep_view();
        let n: usize = lanes.len();
        assert(n == before.len());
        lanes.insert(lane + k, parents[k].clone());
        assert(lanes.deep_view() =~= before.insert(lane + k, parents@[k as int]@));
        assert(parents.deep_view().take(k + 1) =~= parents.deep_view().take(k as int).push(
            parents@[k as int]@,
        ));
        assert(lanes.deep_view() =~= start.take(lane as int) + parents.deep_view().take(k + 1)
            + start.skip(lane + 1));
        k += 1;
    }
    assert(parents.deep_view().take(k as int) =~= parents.deep_view());
}

/// Lays out the commit graph: one row for each commit, from the newest down.
pub fn build_commit_graph_rows(commits: &Vec<CommitEntry>) -> (r: Vec<CommitGraphRow>)
    ensures
        r@ == graph_rows(commits.deep_view()),
        forall|i: int|
            0 <= i < r@.len() ==> {
                let lanes = lanes_after(commits.deep_view().take(i));
                &&& (#[trigger] r@[i]).lane < r@[i].lane_count
                &&& r@[i].lane == lane_waiting_for(lanes, commits.deep_view()[i].oid)
                &&& r@[i].lane_count == lanes_beside(lanes, commits.deep_view()[i].oid).len()
                &&& r@[i].parent_count == commits.deep_view()[i].parents.len()
            },
        r@.len() == commits@.len(),
        r@.len() > 0 ==> r@[0].lane == 0 && r@[0].lane_count == 1,
        forall|i: int, j: int|
            0 <= i && j == i + 1 && j < r@.len() ==> {
                let left = (#[trigger] r@[i]).lane_count - 1 + r@[i].parent_count;
                ||| (#[trigger] r@[j]).lane_count == left && r@[j].lane < left
                ||| r@[j].lane_count == left + 1 && r@[j].lane == left
            },
        forall|i: int, j: int|
            0 <= i < j < r@.len() && #[trigger] waits_for(commits.deep_view(), i, j)
                ==> r@[j].lane < r@[j - 1].lane_count - 1 + r@[j - 1].parent_count,
{
    let ghost all = commits.deep_view();
    let mut rows: Vec<CommitGraphRow> = Vec::new();
    let mut lanes: Vec<String> = Vec::new();
    let mut i: usize = 0;
    assert(lanes.deep_view() =~= lanes_after(all.take(0)));
    while i < commits.len()
        invariant
            i <= commits@.len(),
            all == commits.deep_view(),
            lanes.deep_view() == lanes_after(all.take(i as int)),
            rows@ =~= graph_rows(all).take(i as int),
            forall|k: int|
                0 <= k < i ==> {
                    let above = lanes_after(all.take(k));
                    &&& (#[trigger] rows@[k]).lane < rows@[k].lane_count
                    &&& rows@[k].lane == lane_waiting_for(above, all[k].oid)
                    &&& rows@[k].lane_count == lanes_beside(above, all[k].oid).len()
                    &&& rows@[k].parent_count == all[k].parents.len()
                },
        decreases commits@.len() - i,
    {
        let commit = &commits[i];
        let ghost above = lanes.deep_view();
        proof {
            assert(all[i as int] == commit.deep_view());
            assert(all.take(i + 1).drop_last() =~= all.take(i as int));
            assert(all.take(i + 1).last() == commit.deep_view());
        }
        let lane = find_lane(&lanes, &commit.oid);
        if lane == lanes.len() {
            lanes.push(commit.oid.clone());
            assert(lanes.deep_view() =~= above.push(commit.oid@));
        }
        assert(lanes.deep_view() =~= lanes_beside(above, commit.oid@));
        let lane_count: usize = lanes.len();
        let parent_count: usize = commit.parents.len();
        replace_lane(&mut lanes, lane, &commit.parents);
        rows.push(CommitGraphRow { lane, lane_count, parent_count });
        assert(rows@.last() == graph_rows(all)[i as int]);
        i += 1;
    }
    assert(graph_rows(all).take(i as int) =~= graph_rows(all));
    proof {
        if rows@.len() > 0 {
            assert(all.take(0) =~= Seq::<CommitEntryView>::empty());
            assert(rows@[0].lane == lane_waiting_for(lanes_after(all.take(0)), all[0].oid));
        }
        assert forall|i: int, j: int| 0 <= i && j == i + 1 && j < rows@.len() implies {
            let left = (#[trigger] rows@[i]).lane_count - 1 + rows@[i].parent_count;
            ||| (#[trigger] rows@[j]).lane_count == left && rows@[j].lane < left
            ||| rows@[j].lane_count == left + 1 && rows@[j].lane == left
        } by {
            lemma_next_count(all, i);
            lemma_lane_waiting(lanes_after(all.take(j)), all[j].oid);
        }
        assert forall|i: int, j: int|
            0 <= i < j < rows@.len() && #[trigger] waits_for(all, i, j) implies rows@[j].lane
            < rows@[j - 1].lane_count - 1 + rows@[j - 1].parent_count by {
            lemma_next_count(all, j - 1);
            let p = choose|p: int|
                0 <= p < all[i].parents.len() && #[trigger] all[i].parents[p] == all[j].oid;
            law_open_parents_keep_a_lane(all, i, j, p);
            lemma_lane_waiting(lanes_after(all.take(j)), all[j].oid);
            assert(rows@[j - 1].lane < rows@[j - 1].lane_count);
        }
    }
    rows
}

/// Whether a commit is a parent of an earlier listed one and was not listed in
/// between.
pub open spec fn waits_for(commits: Seq<CommitEntryView>, i: int, j: int) -> bool {
    &&& exists|p: int|
        0 <= p < commits[i].parents.len() && #[trigger] commits[i].parents[p] == commits[j].oid
    &&& forall|k: int| i < k < j ==> (#[trigger] commits[k]).oid != commits[j].oid
}

proof fn lemma_next_count(commits: Seq<CommitEntryView>, i: int)
    requires
        0 <= i < commits.len(),
    ensures
        lanes_after(commits.take(i + 1)).len() == lanes_beside(
            lanes_after(commits.take(i)),
            commits[i].oid,
        ).len() - 1 + commits[i].parents.len(),
{
    assert(commits.take(i + 1).drop_last() =~= commits.take(i));
    assert(commits.take(i + 1).last() == commits[i]);
    law_lanes_below_count(lanes_after(commits.take(i)), commits[i]);
}

/// Above the first commit there are no lanes. From the lanes above a commit to
/// those below it, exactly one lane is replaced: the leftmost that waits for the
/// commit or, where none does, a new one at the right. The commit's parents
/// stand in its place, in their order, and every other lane is kept, in order.
pub proof fn law_one_lane_is_replaced(commits: Seq<CommitEntryView>, i: int) -> (lane: int)
    requires
        0 <= i < commits.len(),
    ensures
        lanes_after(Seq::empty()) == Seq::<Seq<char>>::empty(),
        lane == lane_waiting_for(lanes_after(commits.take(i)), commits[i].oid),
        ({
            let above = lanes_after(commits.take(i));
            let below = lanes_after(commits.take(i + 1));
            let parents = commits[i].parents;
            &&& 0 <= lane <= above.len()
            &&& lane < above.len() ==> above[lane] == commits[i].oid
            &&& forall|k: int| 0 <= k < lane ==> #[trigger] above[k] != commits[i].oid
            &&& below == above.subrange(0, lane) + parents + (if lane < above.len() {
                above.subrange(lane + 1, above.len() as int)
            } else {
                Seq::empty()
            })
        }),
{
    let above = lanes_after(commits.take(i));
    let below = lanes_after(commits.take(i + 1));
    let lane = lane_waiting_for(above, commits[i].oid) as int;
    assert(commits.take(i + 1).drop_last() =~= commits.take(i));
    assert(commits.take(i + 1).last() == commits[i]);
    lemma_lane_waiting(above, commits[i].oid);
    assert(below =~= above.subrange(0, lane) + commits[i].parents + (if lane < above.len() {
        above.subrange(lane + 1, above.len() as int)
    } else {
        Seq::empty()
    }));
    lane
}

/// No open line vanishes: a parent of a listed commit that is not listed itself
/// yet has a lane in every row that follows.
pub proof fn law_open_parents_keep_a_lane(
    commits: Seq<CommitEntryView>,
    i: int,
    j: int,
    p: int,
)
    requires
        0 <= i < j <= commits.len(),
        0 <= p < commits[i].parents.len(),
        forall|k: int| i < k < j ==> (#[trigger] commits[k]).oid != commits[i].parents[p],
    ensures
        exists|lane: int|
            0 <= lane < lanes_after(commits.take(j)).len() && #[trigger] lanes_after(
                commits.take(j),
            )[lane] == commits[i].parents[p],
    decreases j,
{
    let parent = commits[i].parents[p];
    let at = law_one_lane_is_replaced(commits, j - 1);
    let above = lanes_after(commits.take(j - 1));
    let below = lanes_after(commits.take(j));
    if j == i + 1 {
        assert(below[at + p] == parent);
    } else {
        law_open_parents_keep_a_lane(commits, i, j - 1, p);
        let lane = choose|lane: int| 0 <= lane < above.len() && #[trigger] above[lane] == parent;
        assert(commits[j - 1].oid != parent);
        if lane < at {
            assert(below[lane] == parent);
        } else {
            assert(below[lane - 1 + commits[j - 1].parents.len()] == parent);
        }
    }
}

/// The lanes beside a commit are those above it; one more where none of them
/// waits for it.
pub proof fn law_lanes_beside_a_commit(lanes: Seq<Seq<char>>, oid: Seq<char>)
    ensures
        (exists|k: int| 0 <= k < lanes.len() && #[trigger] lanes[k] == oid) ==> lanes_beside(
            lanes,
            oid,
        ) == lanes,
        !(exists|k: int| 0 <= k < lanes.len() && #[trigger] lanes[k] == oid) ==> lanes_beside(
            lanes,
            oid,
        ) == lanes.push(oid),
{
    lemma_lane_waiting(lanes, oid);
}

/// A merge is drawn towards the lane of its last parent, if that is one of the
/// lanes beside it; a commit with at most one parent is drawn towards none.
pub proof fn law_merge_goes_to_last_parent(row: CommitGraphRow)
    ensures
        match merge_lane(row) {
            Some(lane) => row.parent_count >= 2 && lane == row.lane + row.parent_count - 1 && lane
                < row.lane_count,
            None => row.parent_count < 2 || row.lane + row.parent_count - 1 >= row.lane_count,
        },
{
}

/// The first eight lanes have different colours, and from there on they repeat.
pub proof fn law_lane_colours_repeat()
    ensures
        lane_colours().len() == 8,
        forall|i: int, j: int|
            0 <= i < j < 8 ==> #[trigger] lane_colours()[i] != #[trigger] lane_colours()[j],
        lane_colours()[0] == widgets::rgb(0, 122, 255),
        lane_colours()[7] == widgets::rgb(255, 204, 0),
{
}

/// The lane of a commit is one of the lanes beside it.
pub proof fn law_lane_in_range(lanes: Seq<Seq<char>>, commit: CommitEntryView)
    requires
        lanes.len() < usize::MAX,
    ensures
        row_of(lanes, commit).lane < row_of(lanes, commit).lane_count,
{
    lemma_lane_waiting(lanes, commit.oid);
}

/// Below a commit there is one lane fewer, and one more for each parent.
pub proof fn law_lanes_below_count(lanes: Seq<Seq<char>>, commit: CommitEntryView)
    ensures
        lanes_below(lanes, commit).len() == lanes_beside(lanes, commit.oid).len() - 1
            + commit.parents.len(),
{
    lemma_lane_waiting(lanes, commit.oid);
}

/// Below a commit its parents have the lanes from its own on, in their order;
/// the lanes to its left stay, and those to its right follow.
pub proof fn law_parents_follow(lanes: Seq<Seq<char>>, commit: CommitEntryView, k: int)
    ensures
        ({
            let lane = lane_waiting_for(lanes, commit.oid) as int;
            let below = lanes_below(lanes, commit);
            &&& 0 <= k < commit.parents.len() ==> below[lane + k] == commit.parents[k]
            &&& 0 <= k < lane ==> below[k] == lanes[k]
            &&& lane < k < lanes.len() ==> below[k - 1 + commit.parents.len()] == lanes[k]
        }),
{
    lemma_lane_waiting(lanes, commit.oid);
}

/// A commit that is the first parent of the one just above it is drawn in the
/// same lane as that one or to the left of it.
pub proof fn law_first_parent_lane(lanes: Seq<Seq<char>>, commit: CommitEntryView)
    requires
        commit.parents.len() > 0,
    ensures
        lane_waiting_for(lanes_below(lanes, commit), commit.parents[0]) <= lane_waiting_for(
            lanes,
            commit.oid,
        ),
{
    let lane = lane_waiting_for(lanes, commit.oid) as int;
    let below = lanes_below(lanes, commit);
    lemma_lane_waiting(lanes, commit.oid);
    lemma_lane_waiting(below, commit.parents[0]);
    law_parents_follow(lanes, commit, 0);
}

/// The lane that a merge is drawn towards: that of its last parent, if there is
/// such a lane beside it.
pub open spec fn merge_lane(row: CommitGraphRow) -> Option<usize> {
    if row.parent_count > 1 && row.lane + row.parent_count - 1 < row.lane_count {
        Some((row.lane + row.parent_count - 1) as usize)
    } else {
        None
    }
}

/// The lane that a merge is drawn towards.
pub fn merge_target_lane(row: &CommitGraphRow) -> (r: Option<usize>)
    ensures
        r == merge_lane(*row),
{
    if row.parent_count > 1 {
        match row.lane.checked_add(row.parent_count - 1) {
            Some(target) => if target < row.lane_count {
                Some(target)
            } else {
                None
            },
            None => None,
        }
    } else {
        None
    }
}

/// The colours of lanes, which repeat from the ninth lane on.
pub open spec fn lane_colours() -> Seq<Rgb> {
    seq![
        widgets::rgb(0, 122, 255),
        widgets::rgb(175, 82, 222),
        widgets::rgb(255, 149, 0),
        widgets::rgb(52, 199, 89),
        widgets::rgb(255, 59, 48),
        widgets::rgb(90, 200, 250),
        widgets::rgb(88, 86, 214),
        widgets::rgb(255, 204, 0),
    ]
}

/// The colour of a lane.
pub fn graph_lane_color(lane: usize) -> (r: Rgb)
    ensures
        r == lane_colours()[lane as int % 8],
{
    let palette: [Rgb; 8] = [
        Rgb { r: 0, g: 122, b: 255 },
        Rgb { r: 175, g: 82, b: 222 },
        Rgb { r: 255, g: 149, b: 0 },
        Rgb { r: 52, g: 199, b: 89 },
        Rgb { r: 255, g: 59, b: 48 },
        Rgb { r: 90, g: 200, b: 250 },
        Rgb { r: 88, g: 86, b: 214 },
        Rgb { r: 255, g: 204, b: 0 },
    ];
    assert(palette@ =~= lane_colours());
    palette[lane % 8]
}

/// The word that a commit message begins with, in lower case and without
/// colons behind it.
pub open spec fn message_word(summary: Seq<char>) -> Seq<char> {
    text::ascii_lower(text::without_tail(text::first_word_of(summary), ':'))
}

/// What a commit does, by the word that its message begins with.
pub open spec fn action_label(summary: Seq<char>) -> Seq<char> {
    let first = message_word(summary);
    if text::begins_with(first, "merge"@) {
        "merge"@
    } else if text::begins_with(first, "revert"@) {
        "revert"@
    } else if text::begins_with(first, "fix"@) {
        "fix"@
    } else if text::begins_with(first, "feat"@) {
        "feature"@
    } else if text::begins_with(first, "refactor"@) {
        "refactor"@
    } else if text::begins_with(first, "docs"@) {
        "docs"@
    } else if text::begins_with(first, "test"@) {
        "test"@
    } else if text::begins_with(first, "chore"@) {
        "chore"@
    } else if text::begins_with(first, "ci"@) {
        "ci"@
    } else if text::begins_with(first, "perf"@) {
        "perf"@
    } else {
        "commit"@
    }
}

/// Tells what a commit does.
pub fn commit_action_label(summary: &str) -> (r: &'static str)
    ensures
        r@ == action_label(summary@),
{
    let word = text::first_word(summary);
    let bare = text::strip_tail(word.as_str(), ':');
    let lower = text::to_ascii_lower(bare.as_str());
    let first = lower.as_str();
    if text::starts_with(first, "merge") {
        "merge"
    } else if text::starts_with(first, "revert") {
        "revert"
    } else if text::starts_with(first, "fix") {
        "fix"
    } else if text::starts_with(first, "feat") {
        "feature"
    } else if text::starts_with(first, "refactor") {
        "refactor"
    } else if text::starts_with(first, "docs") {
        "docs"
    } else if text::starts_with(first, "test") {
        "test"
    } else if text::starts_with(first, "chore") {
        "chore"
    } else if text::starts_with(first, "ci") {
        "ci"
    } else if text::starts_with(first, "perf") {
        "perf"
    } else {
        "commit"
    }
}

}
