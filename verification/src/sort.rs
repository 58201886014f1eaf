//! Stable sorting of lists by a total order on what their items stand for.
use vstd::prelude::*;

use crate::text;

verus! {

/// An order: whether the first value may stand before the second.
pub type Order<V> = spec_fn(V, V) -> bool;

/// Whether an order is total and transitive.
pub open spec fn is_order<V>(le: Order<V>) -> bool {
    &&& forall|a: V, b: V| #[trigger] le(a, b) || le(b, a)
    &&& forall|a: V, b: V, c: V| #[trigger] le(a, b) && #[trigger] le(b, c) ==> le(a, c)
}

/// Whether each item may stand before all that follow it.
pub open spec fn in_order<V>(s: Seq<V>, le: Order<V>) -> bool {
    forall|i: int, j: int| 0 <= i < j < s.len() ==> le(#[trigger] s[i], #[trigger] s[j])
}

/// Puts `x` into an ordered list, behind every item that may stand before it.
pub open spec fn placed<V>(s: Seq<V>, x: V, le: Order<V>) -> Seq<V>
    decreases s.len(),
{
    if s.len() == 0 || le(s.last(), x) {
        s.push(x)
    } else {
        placed(s.drop_last(), x, le).push(s.last())
    }
}

/// The items of a list in order; items that tie keep the order they had.
pub open spec fn stably_sorted<V>(s: Seq<V>, le: Order<V>) -> Seq<V>
    decreases s.len(),
{
    if s.len() == 0 {
        s
    } else {
        placed(stably_sorted(s.drop_last(), le), s.last(), le)
    }
}

proof fn lemma_placed<V>(s: Seq<V>, x: V, le: Order<V>)
    requires
        is_order(le),
        in_order(s, le),
    ensures
        in_order(placed(s, x, le), le),
        placed(s, x, le).len() == s.len() + 1,
        placed(s, x, le).to_multiset() == s.to_multiset().insert(x),
        forall|k: int|
            0 <= k < placed(s, x, le).len() ==> #[trigger] placed(s, x, le)[k] == x || s.contains(
                placed(s, x, le)[k],
            ),
    decreases s.len(),
{
    broadcast use vstd::seq_lib::group_to_multiset_ensures;

    if s.len() == 0 || le(s.last(), x) {
        let r = s.push(x);
        assert forall|i: int, j: int| 0 <= i < j < r.len() implies le(
            #[trigger] r[i],
            #[trigger] r[j],
        ) by {
            if j == s.len() {
                if i < s.len() - 1 {
                    assert(le(s[i], s.last()));
                    assert(le(s.last(), x));
                }
            }
        }
        assert forall|k: int| 0 <= k < r.len() implies #[trigger] r[k] == x || s.contains(r[k]) by {
            if k < s.len() {
                assert(s[k] == r[k]);
            }
        }
    } else {
        let t = s.drop_last();
        let p = placed(t, x, le);
        lemma_placed(t, x, le);
        let r = p.push(s.last());
        assert(le(x, s.last()));
        assert forall|i: int, j: int| 0 <= i < j < r.len() implies le(
            #[trigger] r[i],
            #[trigger] r[j],
        ) by {
            if j == p.len() {
                assert(p[i] == x || t.contains(p[i]));
                if p[i] != x {
                    let m = choose|m: int| 0 <= m < t.len() && t[m] == p[i];
                    assert(le(s[m], s[s.len() - 1]));
                }
            } else {
                assert(le(p[i], p[j]));
            }
        }
        assert(s =~= t.push(s.last()));
        assert(r.to_multiset() =~= s.to_multiset().insert(x));
        assert forall|k: int| 0 <= k < r.len() implies #[trigger] r[k] == x || s.contains(r[k]) by {
            if k < p.len() {
                assert(p[k] == x || t.contains(p[k]));
                if p[k] != x {
                    let m = choose|m: int| 0 <= m < t.len() && t[m] == p[k];
                    assert(s[m] == r[k]);
                }
            } else {
                assert(s[s.len() - 1] == r[k]);
            }
        }
    }
}

/// Sorting puts a list in order and keeps its items, each as often as it
/// occurred.
pub proof fn law_sorting_puts_in_order<V>(s: Seq<V>, le: Order<V>)
    requires
        is_order(le),
    ensures
        in_order(stably_sorted(s, le), le),
        stably_sorted(s, le).len() == s.len(),
        stably_sorted(s, le).to_multiset() == s.to_multiset(),
    decreases s.len(),
{
    broadcast use vstd::seq_lib::group_to_multiset_ensures;

    if s.len() > 0 {
        law_sorting_puts_in_order(s.drop_last(), le);
        lemma_placed(stably_sorted(s.drop_last(), le), s.last(), le);
        assert(s =~= s.drop_last().push(s.last()));
    }
}

/// Whether two values tie: either may stand before the other.
pub open spec fn ties_with<V>(x: V, le: Order<V>) -> spec_fn(V) -> bool {
    |y: V| le(x, y) && le(y, x)
}

proof fn lemma_filter_push<V>(s: Seq<V>, x: V, pick: spec_fn(V) -> bool)
    ensures
        s.push(x).filter(pick) == if pick(x) {
            s.filter(pick).push(x)
        } else {
            s.filter(pick)
        },
{
    reveal(Seq::filter);
    assert(s.push(x).drop_last() =~= s);
}

proof fn lemma_placed_keeps_ties<V>(s: Seq<V>, x: V, z: V, le: Order<V>)
    requires
        is_order(le),
        in_order(s, le),
    ensures
        placed(s, x, le).filter(ties_with(z, le)) == s.push(x).filter(ties_with(z, le)),
    decreases s.len(),
{
    let tied = ties_with(z, le);
    if s.len() > 0 && !le(s.last(), x) {
        let front = s.drop_last();
        assert forall|i: int, j: int| 0 <= i < j < front.len() implies le(
            #[trigger] front[i],
            #[trigger] front[j],
        ) by {
            assert(le(s[i], s[j]));
        }
        lemma_placed_keeps_ties(front, x, z, le);
        lemma_filter_push(placed(front, x, le), s.last(), tied);
        lemma_filter_push(front, x, tied);
        lemma_filter_push(front, s.last(), tied);
        lemma_filter_push(s, x, tied);
        assert(front.push(s.last()) =~= s);
        if tied(x) && tied(s.last()) {
            assert(le(s.last(), z) && le(z, x));
        }
    }
}

/// Sorting is stable: items that tie keep the order they had.
pub proof fn law_sorting_is_stable<V>(s: Seq<V>, z: V, le: Order<V>)
    requires
        is_order(le),
    ensures
        stably_sorted(s, le).filter(ties_with(z, le)) == s.filter(ties_with(z, le)),
    decreases s.len(),
{
    if s.len() > 0 {
        let front = s.drop_last();
        let sorted = stably_sorted(front, le);
        law_sorting_puts_in_order(front, le);
        law_sorting_is_stable(front, z, le);
        lemma_placed_keeps_ties(sorted, s.last(), z, le);
        lemma_filter_push(sorted, s.last(), ties_with(z, le));
        lemma_filter_push(front, s.last(), ties_with(z, le));
        assert(front.push(s.last()) =~= s);
    }
}

/// Items that `same` accepts, which are those that tie with `z`, keep their order.
pub proof fn lemma_same_keep_order<V>(s: Seq<V>, z: V, le: Order<V>, same: spec_fn(V) -> bool)
    requires
        is_order(le),
        forall|y: V| #[trigger] same(y) == (le(z, y) && le(y, z)),
    ensures
        stably_sorted(s, le).filter(same) == s.filter(same),
{
    assert(same =~= ties_with(z, le));
    law_sorting_is_stable(s, z, le);
}

/// What sorting does, said of the items: each may stand before all that follow
/// it, no item is lost or made up, and those of which either may stand before the
/// other keep the order they had.
pub proof fn law_sorting_keeps_items_and_ties<V>(s: Seq<V>, z: V, le: Order<V>)
    requires
        forall|a: V, b: V| #[trigger] le(a, b) || le(b, a),
        forall|a: V, b: V, c: V| #[trigger] le(a, b) && #[trigger] le(b, c) ==> le(a, c),
    ensures
        forall|i: int, j: int|
            0 <= i < j < s.len() ==> le(
                #[trigger] stably_sorted(s, le)[i],
                #[trigger] stably_sorted(s, le)[j],
            ),
        stably_sorted(s, le).len() == s.len(),
        stably_sorted(s, le).to_multiset() == s.to_multiset(),
        stably_sorted(s, le).filter(|y: V| le(z, y) && le(y, z)) == s.filter(
            |y: V| le(z, y) && le(y, z),
        ),
{
    law_sorting_puts_in_order(s, le);
    law_sorting_is_stable(s, z, le);
    assert(ties_with(z, le) =~= (|y: V| le(z, y) && le(y, z)));
}

/// A value that lists are sorted by, through what it stands for.
pub trait Ranked: DeepView + Sized {
    /// Whether a value that stands for `a` may come before one that stands
    /// for `b`.
    spec fn rank_le(a: Self::V, b: Self::V) -> bool;

    /// The order is total and transitive.
    proof fn lemma_rank_order(a: Self::V, b: Self::V, c: Self::V)
        ensures
            Self::rank_le(a, b) || Self::rank_le(b, a),
            Self::rank_le(a, b) && Self::rank_le(b, c) ==> Self::rank_le(a, c),
    ;

    /// Tells whether this value may come before `other`.
    fn may_precede(&self, other: &Self) -> (r: bool)
        ensures
            r == Self::rank_le(self.deep_view(), other.deep_view()),
    ;
}

/// The order of a ranked type.
pub open spec fn rank<T: Ranked>() -> Order<T::V> {
    |a: T::V, b: T::V| T::rank_le(a, b)
}

/// The order of a ranked type is total and transitive.
pub proof fn lemma_rank<T: Ranked>()
    ensures
        is_order(rank::<T>()),
{
    let le = rank::<T>();
    assert forall|a: T::V, b: T::V| #[trigger] le(a, b) || le(b, a) by {
        T::lemma_rank_order(a, b, b);
    }
    assert forall|a: T::V, b: T::V, c: T::V| #[trigger] le(a, b) && #[trigger] le(b, c) implies le(
        a,
        c,
    ) by {
        T::lemma_rank_order(a, b, c);
    }
}

impl Ranked for String {
    open spec fn rank_le(a: Seq<char>, b: Seq<char>) -> bool {
        text::text_le(a, b)
    }

    proof fn lemma_rank_order(a: Seq<char>, b: Seq<char>, c: Seq<char>) {
        text::lemma_text_le_total(a, b);
        if text::text_le(a, b) && text::text_le(b, c) {
            text::lemma_text_le_transitive(a, b, c);
        }
    }

    fn may_precede(&self, other: &Self) -> (r: bool) {
        text::not_after(self.as_str(), other.as_str())
    }
}

proof fn lemma_placed_at<V>(s: Seq<V>, x: V, at: int, le: Order<V>)
    requires
        0 <= at <= s.len(),
        at == 0 || le(s[at - 1], x),
        forall|k: int| at <= k < s.len() ==> !le(#[trigger] s[k], x),
    ensures
        placed(s, x, le) == s.insert(at, x),
    decreases s.len(),
{
    if at == s.len() {
        assert(s.insert(at, x) =~= s.push(x));
    } else {
        lemma_placed_at(s.drop_last(), x, at, le);
        assert(s.insert(at, x) =~= s.drop_last().insert(at, x).push(s.last()));
    }
}

/// Sorts a list in the order of its items' type. Items that tie keep the order
/// they had.
pub fn stable_sort<T: Ranked>(items: Vec<T>) -> (r: Vec<T>)
    ensures
        r.deep_view() == stably_sorted(items.deep_view(), rank::<T>()),
{
    let ghost source = items.deep_view();
    let ghost le = rank::<T>();
    let mut r: Vec<T> = Vec::new();
    assert(r.deep_view() =~= stably_sorted(source.take(0), le));
    for item in it: items
        invariant
            source == Seq::new(it.seq().len(), |k: int| it.seq()[k].deep_view()),
            le == rank::<T>(),
            r.deep_view() == stably_sorted(source.take(it.index()), le),
    {
        let mut at: usize = r.len();
        while at > 0 && !r[at - 1].may_precede(&item)
            invariant
                le == rank::<T>(),
                at <= r@.len(),
                forall|k: int|
                    at <= k < r@.len() ==> !le(#[trigger] r.deep_view()[k], item.deep_view()),
            decreases at,
        {
            assert(r.deep_view()[at - 1] == r@[at - 1].deep_view());
            at -= 1;
        }
        let ghost before = r.deep_view();
        proof {
            if at > 0 {
                assert(before[at - 1] == r@[at - 1].deep_view());
            }
            lemma_placed_at(before, item.deep_view(), at as int, le);
            let i = it.index();
            assert(source.take(i + 1).drop_last() =~= source.take(i));
            assert(source.take(i + 1).last() == item.deep_view());
        }
        r.insert(at, item);
        assert(r.deep_view() =~= before.insert(at as int, item.deep_view()));
    }
    assert(source.take(source.len() as int) =~= source);
    r
}

}
