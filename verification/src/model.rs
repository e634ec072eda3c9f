//! Sequences of values taken by their views.

use vstd::prelude::*;

verus! {

/// The views of a sequence of values.
pub open spec fn views<T: View>(items: Seq<T>) -> Seq<T::V> {
    Seq::new(items.len(), |i: int| items[i]@)
}

pub broadcast proof fn lemma_views_push<T: View>(items: Seq<T>, item: T)
    ensures
        #[trigger] views(items.push(item)) == views(items).push(item@),
{
    assert(views(items.push(item)) =~= views(items).push(item@));
}

pub broadcast proof fn lemma_views_remove<T: View>(items: Seq<T>, at: int)
    requires
        0 <= at < items.len(),
    ensures
        #[trigger] views(items.remove(at)) == views(items).remove(at),
{
    assert(views(items.remove(at)) =~= views(items).remove(at));
}

pub broadcast proof fn lemma_views_insert<T: View>(items: Seq<T>, at: int, item: T)
    requires
        0 <= at <= items.len(),
    ensures
        #[trigger] views(items.insert(at, item)) == views(items).insert(at, item@),
{
    assert(views(items.insert(at, item)) =~= views(items).insert(at, item@));
}

pub broadcast proof fn lemma_views_update<T: View>(items: Seq<T>, at: int, item: T)
    requires
        0 <= at < items.len(),
    ensures
        #[trigger] views(items.update(at, item)) == views(items).update(at, item@),
{
    assert(views(items.update(at, item)) =~= views(items).update(at, item@));
}

pub broadcast proof fn lemma_views_add<T: View>(a: Seq<T>, b: Seq<T>)
    ensures
        #[trigger] views(a + b) == views(a) + views(b),
{
    assert(views(a + b) =~= views(a) + views(b));
}

pub broadcast proof fn lemma_views_empty<T: View>()
    ensures
        #[trigger] views(Seq::<T>::empty()) == Seq::<T::V>::empty(),
{
    assert(views(Seq::<T>::empty()) =~= Seq::<T::V>::empty());
}

pub broadcast group group_views {
    lemma_views_push,
    lemma_views_remove,
    lemma_views_insert,
    lemma_views_update,
    lemma_views_add,
    lemma_views_empty,
}

/// A value of which an equal one can be made.
pub trait Duplicate: View + Sized {
    fn duplicate(&self) -> (r: Self)
        ensures
            r@ == self@,
    ;
}

impl Duplicate for String {
    fn duplicate(&self) -> (r: Self) {
        self.clone()
    }
}

pub fn duplicate_all<T: Duplicate>(items: &Vec<T>) -> (r: Vec<T>)
    ensures
        views(r@) == views(items@),
{
    let mut r: Vec<T> = Vec::new();
    let mut i: usize = 0;
    while i < items.len()
        invariant
            i <= items.len(),
            r@.len() == i,
            forall|k: int| 0 <= k < i ==> (#[trigger] r@[k])@ == items@[k]@,
        decreases items.len() - i,
    {
        r.push(items[i].duplicate());
        i = i + 1;
    }
    assert(views(r@) =~= views(items@));
    r
}

pub fn duplicate_option<T: Duplicate>(value: &Option<T>) -> (r: Option<T>)
    ensures
        option_view(r) == option_view(*value),
{
    match value {
        Some(v) => Some(v.duplicate()),
        None => None,
    }
}

/// Inserting an item anywhere adds it to what the sequence holds.
pub proof fn lemma_insert_multiset<A>(items: Seq<A>, at: int, item: A)
    requires
        0 <= at <= items.len(),
    ensures
        items.insert(at, item).to_multiset() == items.to_multiset().insert(item),
{
    broadcast use vstd::seq_lib::group_to_multiset_ensures;

    let after = items.insert(at, item);
    assert(after.remove(at) =~= items);
    assert(after[at] == item);
    assert(after.contains(item));
    vstd::seq_lib::to_multiset_remove(after, at);
    assert(after.to_multiset() =~= after.to_multiset().remove(item).insert(item));
}

/// The view of an optional value.
pub open spec fn option_view<T: View>(value: Option<T>) -> Option<T::V> {
    match value {
        Some(v) => Some(v@),
        None => None,
    }
}

} // verus!
