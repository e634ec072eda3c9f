//! Sets and maps of text keys that keep their keys in ascending order.

use vstd::prelude::*;

use crate::text::{
    lemma_text_less_asymmetric, lemma_text_less_irreflexive, lemma_text_less_total,
    lemma_text_less_transitive, less, text_less, texts,
};

verus! {

/// Each key is less than those after it.
pub open spec fn ascending(keys: Seq<Seq<char>>) -> bool {
    forall|i: int, j: int| 0 <= i < j < keys.len() ==> text_less(#[trigger] keys[i], #[trigger] keys[j])
}

pub open spec fn enumerates(keys: Seq<Seq<char>>, members: Set<Seq<char>>) -> bool {
    &&& ascending(keys)
    &&& forall|k: Seq<char>| #[trigger] keys.contains(k) <==> members.contains(k)
}

/// The members of a finite set in ascending order.
pub open spec fn in_order(members: Set<Seq<char>>) -> Seq<Seq<char>> {
    choose|keys: Seq<Seq<char>>| enumerates(keys, members)
}

proof fn lemma_last_is_greatest(keys: Seq<Seq<char>>, k: Seq<char>)
    requires
        ascending(keys),
        keys.contains(k),
    ensures
        k == keys.last() || text_less(k, keys.last()),
{
    let i = choose|i: int| 0 <= i < keys.len() && keys[i] == k;
    if i < keys.len() - 1 {
        assert(text_less(keys[i], keys[keys.len() - 1]));
    }
}

proof fn lemma_ascending_drop_last(keys: Seq<Seq<char>>, k: Seq<char>)
    requires
        ascending(keys),
        keys.len() > 0,
    ensures
        ascending(keys.drop_last()),
        keys.drop_last().contains(k) <==> keys.contains(k) && k != keys.last(),
{
    let d = keys.drop_last();
    if d.contains(k) {
        let i = choose|i: int| 0 <= i < d.len() && d[i] == k;
        assert(keys[i] == k);
        assert(text_less(keys[i], keys[keys.len() - 1]));
        lemma_text_less_irreflexive(k);
    }
    if keys.contains(k) && k != keys.last() {
        let i = choose|i: int| 0 <= i < keys.len() && keys[i] == k;
        assert(d[i] == k);
    }
}

/// A set is enumerated in ascending order in one way only.
pub proof fn lemma_enumeration_unique(
    a: Seq<Seq<char>>,
    b: Seq<Seq<char>>,
    members: Set<Seq<char>>,
)
    requires
        enumerates(a, members),
        enumerates(b, members),
    ensures
        a == b,
    decreases a.len(),
{
    if a.len() == 0 {
        if b.len() > 0 {
            assert(b.contains(b[0]));
            assert(a.contains(b[0]));
        }
        assert(a =~= b);
    } else {
        assert(a.contains(a.last()));
        assert(b.contains(a.last()));
        assert(b.contains(b.last()));
        assert(a.contains(b.last()));
        lemma_last_is_greatest(b, a.last());
        lemma_last_is_greatest(a, b.last());
        if a.last() != b.last() {
            lemma_text_less_asymmetric(a.last(), b.last());
        }
        let rest = members.remove(a.last());
        assert forall|k: Seq<char>| #[trigger] a.drop_last().contains(k) <==> rest.contains(k) by {
            lemma_ascending_drop_last(a, k);
        }
        assert forall|k: Seq<char>| #[trigger] b.drop_last().contains(k) <==> rest.contains(k) by {
            lemma_ascending_drop_last(b, k);
        }
        lemma_ascending_drop_last(a, a.last());
        lemma_ascending_drop_last(b, a.last());
        lemma_enumeration_unique(a.drop_last(), b.drop_last(), rest);
        assert(a =~= a.drop_last().push(a.last()));
        assert(b =~= b.drop_last().push(b.last()));
    }
}

pub proof fn lemma_in_order(keys: Seq<Seq<char>>, members: Set<Seq<char>>)
    requires
        enumerates(keys, members),
    ensures
        in_order(members) == keys,
{
    lemma_enumeration_unique(keys, in_order(members), members);
}

/// In an ascending sequence a key stands in one place only.
pub proof fn lemma_ascending_distinct(keys: Seq<Seq<char>>, i: int, j: int)
    requires
        ascending(keys),
        0 <= i < keys.len(),
        0 <= j < keys.len(),
        keys[i] == keys[j],
    ensures
        i == j,
{
    lemma_text_less_irreflexive(keys[i]);
}

/// The place of `key` among ascending keys: all before it are less, none from it on is.
fn position(keys: &Vec<String>, key: &str) -> (r: (usize, bool))
    requires
        ascending(texts(keys@)),
    ensures
        r.0 <= keys.len(),
        forall|i: int| 0 <= i < r.0 ==> text_less(#[trigger] texts(keys@)[i], key@),
        r.1 ==> r.0 < keys.len() && keys@[r.0 as int]@ == key@,
        !r.1 ==> forall|i: int|
            r.0 <= i < keys.len() ==> text_less(key@, #[trigger] texts(keys@)[i]),
        r.1 == texts(keys@).contains(key@),
{
    let ghost all = texts(keys@);
    let mut i: usize = 0;
    while i < keys.len() && less(keys[i].as_str(), key)
        invariant
            i <= keys.len(),
            all == texts(keys@),
            forall|j: int| 0 <= j < i ==> text_less(#[trigger] all[j], key@),
        decreases keys.len() - i,
    {
        i = i + 1;
    }
    proof {
        assert forall|j: int| 0 <= j < i implies all[j] != key@ by {
            lemma_text_less_asymmetric(all[j], key@);
        }
    }
    if i < keys.len() {
        assert(all[i as int] == keys@[i as int]@);
        if crate::text::same(keys[i].as_str(), key) {
            return (i, true);
        }
        proof {
            lemma_text_less_total(all[i as int], key@);
            assert forall|j: int| i <= j < keys.len() implies text_less(
                key@,
                #[trigger] all[j],
            ) by {
                if j > i {
                    lemma_text_less_transitive(key@, all[i as int], all[j]);
                }
            }
            assert forall|j: int| i <= j < keys.len() implies all[j] != key@ by {
                lemma_text_less_asymmetric(key@, all[j]);
            }
        }
    }
    (i, false)
}

/// A set of texts.
#[derive(Debug, PartialEq, Eq)]
pub struct TextSet {
    items: Vec<String>,
}

impl View for TextSet {
    type V = Set<Seq<char>>;

    closed spec fn view(&self) -> Set<Seq<char>> {
        texts(self.items@).to_set()
    }
}

impl TextSet {
    #[verifier::type_invariant]
    spec fn ordered(self) -> bool {
        ascending(texts(self.items@))
    }

    pub fn new() -> (r: Self)
        ensures
            r@ == Set::<Seq<char>>::empty(),
    {
        let r = TextSet { items: Vec::new() };
        assert(r@ =~= Set::<Seq<char>>::empty());
        r
    }

    pub fn contains(&self, item: &str) -> (r: bool)
        ensures
            r == self@.contains(item@),
    {
        proof {
            use_type_invariant(self);
        }
        position(&self.items, item).1
    }

    pub fn is_empty(&self) -> (r: bool)
        ensures
            r == (self@ == Set::<Seq<char>>::empty()),
    {
        let r = self.items.len() == 0;
        proof {
            if r {
                assert(self@ =~= Set::<Seq<char>>::empty());
            } else {
                assert(texts(self.items@).contains(texts(self.items@)[0]));
                assert(self@.contains(texts(self.items@)[0]));
            }
        }
        r
    }

    /// Adds an item; says whether it was not there before.
    pub fn insert(&mut self, item: String) -> (r: bool)
        ensures
            final(self)@ == old(self)@.insert(item@),
            r == !old(self)@.contains(item@),
    {
        proof {
            use_type_invariant(&*self);
        }
        let (at, found) = position(&self.items, item.as_str());
        if found {
            assert(self@ =~= self@.insert(item@));
            return false;
        }
        let ghost before = texts(self.items@);
        let ghost added = item@;
        let mut items: Vec<String> = Vec::new();
        std::mem::swap(&mut items, &mut self.items);
        items.insert(at, item);
        proof {
            lemma_inserted_ascending(before, added, at as int);
            assert(texts(items@) =~= before.insert(at as int, added));
        }
        self.items = items;
        proof {
            lemma_inserted_members(before, added, at as int);
        }
        true
    }

    /// Removes an item; says whether it was there.
    pub fn remove(&mut self, item: &str) -> (r: bool)
        ensures
            final(self)@ == old(self)@.remove(item@),
            r == old(self)@.contains(item@),
    {
        proof {
            use_type_invariant(&*self);
        }
        let (at, found) = position(&self.items, item);
        if !found {
            assert(self@ =~= self@.remove(item@));
            return false;
        }
        let ghost before = texts(self.items@);
        let mut items: Vec<String> = Vec::new();
        std::mem::swap(&mut items, &mut self.items);
        let gone = items.remove(at);
        proof {
            lemma_removed(before, at as int);
            assert(texts(items@) =~= before.remove(at as int));
        }
        self.items = items;
        true
    }

    /// The items in ascending order.
    pub fn items(&self) -> (r: &Vec<String>)
        ensures
            texts(r@) == in_order(self@),
            enumerates(texts(r@), self@),
    {
        proof {
            use_type_invariant(self);
            lemma_in_order(texts(self.items@), self@);
        }
        &self.items
    }

    pub fn len(&self) -> (r: usize)
        ensures
            r == in_order(self@).len(),
    {
        self.items().len()
    }

    pub fn is_subset(&self, other: &TextSet) -> (r: bool)
        ensures
            r == self@.subset_of(other@),
    {
        let items = self.items();
        let mut i: usize = 0;
        while i < items.len()
            invariant
                i <= items.len(),
                enumerates(texts(items@), self@),
                forall|k: int| 0 <= k < i ==> other@.contains(#[trigger] texts(items@)[k]),
            decreases items.len() - i,
        {
            assert(texts(items@)[i as int] == items@[i as int]@);
            if !other.contains(items[i].as_str()) {
                assert(texts(items@).contains(texts(items@)[i as int]));
                return false;
            }
            i = i + 1;
        }
        assert forall|k: Seq<char>| self@.contains(k) implies other@.contains(k) by {
            assert(texts(items@).contains(k));
        }
        true
    }

    pub fn of(items: Vec<String>) -> (r: Self)
        ensures
            r@ == texts(items@).to_set(),
    {
        let mut r = TextSet::new();
        let mut i: usize = 0;
        assert(texts(items@).subrange(0, 0).to_set() =~= Set::<Seq<char>>::empty());
        while i < items.len()
            invariant
                i <= items.len(),
                r@ == texts(items@).subrange(0, i as int).to_set(),
            decreases items.len() - i,
        {
            let ghost before = texts(items@).subrange(0, i as int);
            let ghost after = texts(items@).subrange(0, i as int + 1);
            r.insert(items[i].clone());
            proof {
                assert(after =~= before.push(items@[i as int]@));
                assert forall|k: Seq<char>| #[trigger] after.contains(k) <==> before.contains(k) || k
                    == items@[i as int]@ by {
                    if before.contains(k) {
                        let j = choose|j: int| 0 <= j < before.len() && before[j] == k;
                        assert(after[j] == k);
                    }
                    assert(after[i as int] == items@[i as int]@);
                }
                assert(after.to_set() =~= before.to_set().insert(items@[i as int]@));
            }
            i = i + 1;
        }
        assert(texts(items@).subrange(0, items@.len() as int) =~= texts(items@));
        r
    }

    pub fn copy(&self) -> (r: Self)
        ensures
            r@ == self@,
    {
        proof {
            use_type_invariant(self);
        }
        TextSet { items: crate::text::copy_texts(&self.items) }
    }
}

proof fn lemma_inserted_ascending(before: Seq<Seq<char>>, added: Seq<char>, at: int)
    requires
        ascending(before),
        0 <= at <= before.len(),
        forall|i: int| 0 <= i < at ==> text_less(#[trigger] before[i], added),
        forall|i: int| at <= i < before.len() ==> text_less(added, #[trigger] before[i]),
    ensures
        ascending(before.insert(at, added)),
{
    let after = before.insert(at, added);
    assert forall|i: int, j: int| 0 <= i < j < after.len() implies text_less(
        #[trigger] after[i],
        #[trigger] after[j],
    ) by {
        if i == at {
            assert(after[j] == before[j - 1]);
        } else if j == at {
            assert(after[i] == before[i]);
        }
    }
}

proof fn lemma_inserted_members(before: Seq<Seq<char>>, added: Seq<char>, at: int)
    requires
        0 <= at <= before.len(),
    ensures
        before.insert(at, added).to_set() == before.to_set().insert(added),
{
    let after = before.insert(at, added);
    assert forall|k: Seq<char>| #[trigger] after.contains(k) <==> before.contains(k) || k == added by {
        if before.contains(k) {
            let i = choose|i: int| 0 <= i < before.len() && before[i] == k;
            if i < at {
                assert(after[i] == k);
            } else {
                assert(after[i + 1] == k);
            }
        }
        assert(after[at] == added);
        if after.contains(k) && k != added {
            let i = choose|i: int| 0 <= i < after.len() && after[i] == k;
            if i < at {
                assert(before[i] == k);
            } else {
                assert(before[i - 1] == k);
            }
        }
    }
    assert(after.to_set() =~= before.to_set().insert(added));
}

proof fn lemma_removed(before: Seq<Seq<char>>, at: int)
    requires
        ascending(before),
        0 <= at < before.len(),
    ensures
        ascending(before.remove(at)),
        before.remove(at).to_set() == before.to_set().remove(before[at]),
{
    let after = before.remove(at);
    assert forall|k: Seq<char>| #[trigger] after.contains(k) <==> before.contains(k) && k
        != before[at] by {
        if after.contains(k) {
            let i = choose|i: int| 0 <= i < after.len() && after[i] == k;
            let o = if i < at {
                i
            } else {
                i + 1
            };
            assert(before[o] == k);
            if k == before[at] {
                lemma_ascending_distinct(before, o, at);
            }
        }
        if before.contains(k) && k != before[at] {
            let i = choose|i: int| 0 <= i < before.len() && before[i] == k;
            if i < at {
                assert(after[i] == k);
            } else {
                assert(after[i - 1] == k);
            }
        }
    }
    assert(after.to_set() =~= before.to_set().remove(before[at]));
}

/// A map from texts to values.
#[derive(Debug, PartialEq, Eq)]
pub struct TextMap<V> {
    keys: Vec<String>,
    values: Vec<V>,
}

spec fn map_of<V: View>(keys: Seq<Seq<char>>, values: Seq<V>) -> Map<Seq<char>, V::V> {
    Map::new(|k: Seq<char>| keys.contains(k), |k: Seq<char>| values[keys.index_of(k)]@)
}

impl<V: View> View for TextMap<V> {
    type V = Map<Seq<char>, V::V>;

    closed spec fn view(&self) -> Map<Seq<char>, V::V> {
        map_of(texts(self.keys@), self.values@)
    }
}

impl<V> TextMap<V> {
    #[verifier::type_invariant]
    spec fn ordered(self) -> bool {
        ascending(texts(self.keys@)) && self.keys.len() == self.values.len()
    }
}

impl<V: View> TextMap<V> {
    pub fn new() -> (r: Self)
        ensures
            r@ == Map::<Seq<char>, V::V>::empty(),
    {
        let r = TextMap { keys: Vec::new(), values: Vec::new() };
        assert(r@ =~= Map::<Seq<char>, V::V>::empty());
        r
    }

    pub fn contains_key(&self, key: &str) -> (r: bool)
        ensures
            r == self@.contains_key(key@),
    {
        proof {
            use_type_invariant(self);
        }
        position(&self.keys, key).1
    }

    pub fn get(&self, key: &str) -> (r: Option<&V>)
        ensures
            r is Some <==> self@.contains_key(key@),
            r matches Some(v) ==> v@ == self@[key@],
    {
        proof {
            use_type_invariant(self);
        }
        let (at, found) = position(&self.keys, key);
        if found {
            proof {
                let all = texts(self.keys@);
                assert(all[at as int] == key@);
                lemma_ascending_distinct(all, at as int, all.index_of(key@));
            }
            Some(&self.values[at])
        } else {
            None
        }
    }

    /// Puts a value under a key, in place of the one that was there, if any.
    pub fn insert(&mut self, key: String, value: V)
        ensures
            final(self)@ == old(self)@.insert(key@, value@),
    {
        proof {
            use_type_invariant(&*self);
        }
        let (at, found) = position(&self.keys, key.as_str());
        let ghost before = texts(self.keys@);
        let ghost before_values = self.values@;
        let ghost added = key@;
        let ghost put = value;
        let mut map = TextMap { keys: Vec::new(), values: Vec::new() };
        std::mem::swap(&mut map, self);
        let TextMap { mut keys, mut values } = map;
        if found {
            values[at] = value;
            proof {
                assert(before[at as int] == added);
                assert(map_of(before, values@) =~= map_of(before, before_values).insert(added, put@))
                    by {
                    assert forall|k: Seq<char>| before.contains(k) implies #[trigger] map_of(
                        before,
                        values@,
                    )[k] == map_of(before, before_values).insert(added, put@)[k] by {
                        if before.index_of(k) == at {
                        }
                        lemma_ascending_distinct(before, at as int, before.index_of(added));
                    }
                }
            }
        } else {
            keys.insert(at, key);
            values.insert(at, value);
            proof {
                lemma_inserted_ascending(before, added, at as int);
                lemma_inserted_members(before, added, at as int);
                let after = before.insert(at as int, added);
                assert(texts(keys@) =~= after);
                assert forall|k: Seq<char>| #[trigger] after.contains(k) <==> before.contains(k) || k
                    == added by {
                    assert(after.to_set().contains(k) <==> before.to_set().insert(added).contains(k));
                }
                assert(map_of(after, values@) =~= map_of(before, before_values).insert(added, put@))
                    by {
                    assert forall|k: Seq<char>| after.contains(k) implies #[trigger] map_of(
                        after,
                        values@,
                    )[k] == map_of(before, before_values).insert(added, put@)[k] by {
                        if k == added {
                            lemma_ascending_distinct(after, at as int, after.index_of(k));
                        } else {
                            let i = before.index_of(k);
                            let o = if i < at {
                                i
                            } else {
                                i + 1
                            };
                            assert(after[o] == k);
                            lemma_ascending_distinct(after, o, after.index_of(k));
                        }
                    }
                }
            }
        }
        *self = TextMap { keys, values };
    }

    /// Takes the value under a key out of the map.
    pub fn remove(&mut self, key: &str) -> (r: Option<V>)
        ensures
            final(self)@ == old(self)@.remove(key@),
            r is Some <==> old(self)@.contains_key(key@),
            r matches Some(v) ==> v@ == old(self)@[key@],
    {
        proof {
            use_type_invariant(&*self);
        }
        let (at, found) = position(&self.keys, key);
        if !found {
            assert(self@ =~= self@.remove(key@));
            return None;
        }
        let ghost before = texts(self.keys@);
        let ghost before_values = self.values@;
        let mut map = TextMap { keys: Vec::new(), values: Vec::new() };
        std::mem::swap(&mut map, self);
        let TextMap { mut keys, mut values } = map;
        let gone = keys.remove(at);
        let value = values.remove(at);
        proof {
            lemma_removed(before, at as int);
            let after = before.remove(at as int);
            assert(texts(keys@) =~= after);
            assert(before[at as int] == key@);
            lemma_ascending_distinct(before, at as int, before.index_of(key@));
            assert forall|k: Seq<char>| #[trigger] after.contains(k) <==> before.contains(k) && k
                != key@ by {
                assert(after.to_set().contains(k) <==> before.to_set().remove(key@).contains(k));
            }
            assert(map_of(after, values@) =~= map_of(before, before_values).remove(key@)) by {
                assert forall|k: Seq<char>| after.contains(k) implies #[trigger] map_of(
                    after,
                    values@,
                )[k] == map_of(before, before_values).remove(key@)[k] by {
                    let i = before.index_of(k);
                    let o = if i < at {
                        i
                    } else {
                        i - 1
                    };
                    assert(after[o] == k);
                    lemma_ascending_distinct(after, o, after.index_of(k));
                }
            }
        }
        *self = TextMap { keys, values };
        Some(value)
    }

    /// The keys in ascending order.
    pub fn keys(&self) -> (r: &Vec<String>)
        ensures
            texts(r@) == in_order(self@.dom()),
            enumerates(texts(r@), self@.dom()),
    {
        proof {
            use_type_invariant(self);
            lemma_in_order(texts(self.keys@), self@.dom());
        }
        &self.keys
    }

    pub fn len(&self) -> (r: usize)
        ensures
            r == in_order(self@.dom()).len(),
    {
        self.keys().len()
    }

    /// The value under the key at a place in ascending order.
    pub fn value_at(&self, at: usize) -> (r: &V)
        requires
            at < in_order(self@.dom()).len(),
        ensures
            r@ == self@[in_order(self@.dom())[at as int]],
    {
        proof {
            use_type_invariant(self);
            let all = texts(self.keys@);
            lemma_in_order(all, self@.dom());
            assert(all.contains(all[at as int]));
            lemma_ascending_distinct(all, at as int, all.index_of(all[at as int]));
        }
        &self.values[at]
    }
}

} // verus!
