//! Sorting by a rank. Items of the same rank stay in the order in which they came.

use vstd::prelude::*;

use crate::model::{group_views, views, Duplicate};

verus! {

/// A type whose values have a rank.
pub trait Ranked: View + Sized {
    /// Whether the rank of `a` is before the rank of `b`.
    spec fn ranks_before(a: Self::V, b: Self::V) -> bool;

    fn is_before(&self, other: &Self) -> (r: bool)
        ensures
            r == Self::ranks_before(self@, other@),
    ;

    /// Of two ranks at most one is before the other, and what is not before stays so over a third.
    proof fn lemma_ranks(a: Self::V, b: Self::V, c: Self::V)
        ensures
            Self::ranks_before(a, b) ==> !Self::ranks_before(b, a),
            !Self::ranks_before(b, a) && !Self::ranks_before(c, b) ==> !Self::ranks_before(c, a),
    ;
}

/// A sorted list with one more item: behind all that it is not before.
pub open spec fn sorted_in<T: Ranked>(sorted: Seq<T::V>, item: T::V) -> Seq<T::V>
    decreases sorted.len(),
{
    if sorted.len() > 0 && T::ranks_before(item, sorted.last()) {
        sorted_in::<T>(sorted.drop_last(), item).push(sorted.last())
    } else {
        sorted.push(item)
    }
}

pub open spec fn by_rank<T: Ranked>(items: Seq<T::V>) -> Seq<T::V>
    decreases items.len(),
{
    if items.len() == 0 {
        Seq::empty()
    } else {
        sorted_in::<T>(by_rank::<T>(items.drop_last()), items.last())
    }
}

pub open spec fn is_ranked<T: Ranked>(items: Seq<T::V>) -> bool {
    forall|i: int, j: int|
        0 <= i < j < items.len() ==> !T::ranks_before(#[trigger] items[j], #[trigger] items[i])
}

proof fn lemma_sorted_in_at<T: Ranked>(sorted: Seq<T::V>, item: T::V, at: int)
    requires
        0 <= at <= sorted.len(),
        forall|k: int| at <= k < sorted.len() ==> T::ranks_before(item, #[trigger] sorted[k]),
        at > 0 ==> !T::ranks_before(item, sorted[at - 1]),
    ensures
        sorted_in::<T>(sorted, item) == sorted.insert(at, item),
    decreases sorted.len(),
{
    if at < sorted.len() {
        assert(T::ranks_before(item, sorted[sorted.len() - 1]));
        lemma_sorted_in_at::<T>(sorted.drop_last(), item, at);
        assert(sorted.drop_last().insert(at, item).push(sorted.last()) =~= sorted.insert(at, item));
    } else {
        assert(sorted.push(item) =~= sorted.insert(at, item));
    }
}

proof fn lemma_sorted_in<T: Ranked>(sorted: Seq<T::V>, item: T::V)
    requires
        is_ranked::<T>(sorted),
    ensures
        is_ranked::<T>(sorted_in::<T>(sorted, item)),
        sorted_in::<T>(sorted, item).to_multiset() == sorted.to_multiset().insert(item),
        sorted_in::<T>(sorted, item).len() == sorted.len() + 1,
    decreases sorted.len(),
{
    broadcast use vstd::seq_lib::group_to_multiset_ensures;

    let after = sorted_in::<T>(sorted, item);
    if sorted.len() > 0 && T::ranks_before(item, sorted.last()) {
        let rest = sorted.drop_last();
        lemma_sorted_in::<T>(rest, item);
        let before = sorted_in::<T>(rest, item);
        assert(rest.push(sorted.last()) =~= sorted);
        assert(after.to_multiset() =~= sorted.to_multiset().insert(item));
        assert forall|i: int, j: int| 0 <= i < j < after.len() implies !T::ranks_before(
            #[trigger] after[j],
            #[trigger] after[i],
        ) by {
            if j < before.len() {
                assert(after[i] == before[i] && after[j] == before[j]);
            } else {
                assert(before.to_multiset().count(before[i]) > 0);
                if before[i] == item {
                    T::lemma_ranks(item, sorted.last(), item);
                } else {
                    assert(rest.to_multiset().count(before[i]) > 0);
                    let k = rest.index_of(before[i]);
                    assert(rest.contains(before[i]));
                    assert(sorted[k] == before[i]);
                }
            }
        }
    } else {
        assert forall|i: int, j: int| 0 <= i < j < after.len() implies !T::ranks_before(
            #[trigger] after[j],
            #[trigger] after[i],
        ) by {
            if j < sorted.len() {
                assert(after[i] == sorted[i] && after[j] == sorted[j]);
            } else if i < sorted.len() - 1 {
                assert(!T::ranks_before(sorted[sorted.len() - 1], sorted[i]));
                T::lemma_ranks(sorted[i], sorted.last(), item);
            }
        }
    }
}

/// Sorting keeps every item and puts none before one that ranks before it.
pub proof fn law_sorting_orders_the_items<T: Ranked>(items: Seq<T::V>)
    ensures
        is_ranked::<T>(by_rank::<T>(items)),
        by_rank::<T>(items).to_multiset() == items.to_multiset(),
        by_rank::<T>(items).len() == items.len(),
    decreases items.len(),
{
    broadcast use vstd::seq_lib::group_to_multiset_ensures;

    if items.len() > 0 {
        law_sorting_orders_the_items::<T>(items.drop_last());
        lemma_sorted_in::<T>(by_rank::<T>(items.drop_last()), items.last());
        assert(items.drop_last().push(items.last()) =~= items);
    } else {
        assert(items =~= Seq::empty());
    }
}

impl Duplicate for u64 {
    fn duplicate(&self) -> (r: Self) {
        *self
    }
}

impl Ranked for u64 {
    open spec fn ranks_before(a: u64, b: u64) -> bool {
        a < b
    }

    fn is_before(&self, other: &Self) -> (r: bool) {
        *self < *other
    }

    proof fn lemma_ranks(a: u64, b: u64, c: u64) {
    }
}

/// Copies items in the order of their ranks.
pub fn sorted<T: Ranked + Duplicate>(items: &Vec<T>) -> (r: Vec<T>)
    ensures
        views(r@) == by_rank::<T>(views(items@)),
{
    broadcast use group_views;

    let ghost all = views(items@);
    let mut r: Vec<T> = Vec::new();
    let mut i: usize = 0;
    assert(all.subrange(0, 0) =~= Seq::empty());
    assert(views(r@) =~= Seq::empty());
    while i < items.len()
        invariant
            i <= items.len(),
            all == views(items@),
            views(r@) == by_rank::<T>(all.subrange(0, i as int)),
        decreases items.len() - i,
    {
        let ghost next = all.subrange(0, i as int + 1);
        let ghost before = views(r@);
        assert(next.drop_last() =~= all.subrange(0, i as int));
        assert(next.last() == items@[i as int]@);
        assert(before.len() == r@.len());
        let item = &items[i];
        let mut at: usize = r.len();
        while at > 0 && item.is_before(&r[at - 1])
            invariant
                at <= r.len(),
                before == views(r@),
                before.len() == r@.len(),
                forall|k: int|
                    at <= k < before.len() ==> T::ranks_before(item@, #[trigger] before[k]),
            decreases at,
        {
            assert(before[at - 1] == r@[at - 1]@);
            at = at - 1;
        }
        proof {
            if at > 0 {
                assert(before[at - 1] == r@[at - 1]@);
            }
            lemma_sorted_in_at::<T>(before, item@, at as int);
        }
        r.insert(at, item.duplicate());
        i = i + 1;
    }
    assert(all.subrange(0, all.len() as int) =~= all);
    r
}

} // verus!
