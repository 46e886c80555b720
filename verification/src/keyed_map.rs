//! A map from string keys to values, held in ascending key order.

use vstd::prelude::*;
use crate::text::{compare, key_lt, lemma_key_lt_irreflexive, lemma_key_lt_transitive, KeyOrder};

verus! {

/// The keys stand in strictly ascending key order.
pub open spec fn ascending(keys: Seq<Seq<char>>) -> bool {
    forall|i: int, j: int| 0 <= i < j < keys.len() ==> key_lt(#[trigger] keys[i], #[trigger] keys[j])
}

/// In an ascending sequence no key occurs twice.
pub proof fn lemma_ascending_distinct(keys: Seq<Seq<char>>)
    requires
        ascending(keys),
    ensures
        keys.no_duplicates(),
{
    assert forall|i: int, j: int| 0 <= i < keys.len() && 0 <= j < keys.len() && i != j implies keys[i]
        != keys[j] by {
        lemma_key_lt_irreflexive(keys[i]);
        if i < j {
            assert(key_lt(keys[i], keys[j]));
        } else {
            assert(key_lt(keys[j], keys[i]));
        }
    }
}

/// The map that results when the entries are put into an empty map one
/// after the other: of two entries with the same key the later one stays.
pub open spec fn from_entries<T>(entries: Seq<(Seq<char>, T)>) -> Map<Seq<char>, T>
    decreases entries.len(),
{
    if entries.len() == 0 {
        Map::empty()
    } else {
        from_entries(entries.drop_last()).insert(entries.last().0, entries.last().1)
    }
}

/// One entry more is one `insert` more.
pub proof fn lemma_from_entries_push<T>(entries: Seq<(Seq<char>, T)>, key: Seq<char>, value: T)
    ensures
        from_entries(entries.push((key, value))) == from_entries(entries).insert(key, value),
{
    assert(entries.push((key, value)).drop_last() =~= entries);
}

/// The keys of the map are the keys of the entries, and they are finitely
/// many.
pub proof fn lemma_from_entries_keys<T>(entries: Seq<(Seq<char>, T)>)
    ensures
        from_entries(entries).dom().finite(),
        from_entries(entries).len() <= entries.len(),
        forall|key: Seq<char>| #[trigger]
            from_entries(entries).contains_key(key) <==> exists|i: int|
                0 <= i < entries.len() && (#[trigger] entries[i]).0 == key,
    decreases entries.len(),
{
    if entries.len() > 0 {
        let front = entries.drop_last();
        lemma_from_entries_keys(front);
        assert forall|key: Seq<char>| #[trigger]
            from_entries(entries).contains_key(key) <==> exists|i: int|
                0 <= i < entries.len() && (#[trigger] entries[i]).0 == key by {
            if from_entries(entries).contains_key(key) {
                if key == entries.last().0 {
                    assert(entries[entries.len() - 1].0 == key);
                } else {
                    let i = choose|i: int| 0 <= i < front.len() && (#[trigger] front[i]).0 == key;
                    assert(entries[i].0 == key);
                }
            }
            if exists|i: int| 0 <= i < entries.len() && (#[trigger] entries[i]).0 == key {
                let i = choose|i: int| 0 <= i < entries.len() && (#[trigger] entries[i]).0 == key;
                if i < front.len() {
                    assert(front[i].0 == key);
                }
            }
        }
    }
}

/// Under each key stands the value of the last entry with that key.
pub proof fn lemma_from_entries_last_wins<T>(entries: Seq<(Seq<char>, T)>, i: int)
    requires
        0 <= i < entries.len(),
        forall|j: int| i < j < entries.len() ==> (#[trigger] entries[j]).0 != entries[i].0,
    ensures
        from_entries(entries).contains_key(entries[i].0),
        from_entries(entries)[entries[i].0] == entries[i].1,
    decreases entries.len(),
{
    if i < entries.len() - 1 {
        let front = entries.drop_last();
        assert(front[i] == entries[i]);
        assert forall|j: int| i < j < front.len() implies (#[trigger] front[j]).0 != front[i].0 by {
            assert(front[j] == entries[j]);
        }
        lemma_from_entries_last_wins(front, i);
        assert(entries[entries.len() - 1].0 != entries[i].0);
    }
}

/// Every value of the map is the value of an entry with that key.
pub proof fn lemma_from_entries_values<T>(entries: Seq<(Seq<char>, T)>)
    ensures
        forall|key: Seq<char>| #[trigger]
            from_entries(entries).contains_key(key) ==> exists|i: int|
                0 <= i < entries.len() && #[trigger] entries[i] == (
                    key,
                    from_entries(entries)[key],
                ),
    decreases entries.len(),
{
    if entries.len() > 0 {
        let front = entries.drop_last();
        lemma_from_entries_values(front);
        assert forall|key: Seq<char>| #[trigger]
            from_entries(entries).contains_key(key) implies exists|i: int|
            0 <= i < entries.len() && #[trigger] entries[i] == (key, from_entries(entries)[key]) by {
            if key == entries.last().0 {
                assert(entries[entries.len() - 1] == (key, from_entries(entries)[key]));
            } else {
                let i = choose|i: int|
                    0 <= i < front.len() && #[trigger] front[i] == (key, from_entries(front)[key]);
                assert(entries[i] == (key, from_entries(entries)[key]));
            }
        }
    }
}

/// A finite map from strings to values. Its entries are kept sorted by key,
/// so that they can be walked in a fixed order; inserting under a key that is
/// already there replaces the value.
#[derive(Debug, PartialEq, Eq)]
pub struct KeyedMap<V> {
    entries: Vec<(String, V)>,
}

impl<V> KeyedMap<V> {
    #[verifier::type_invariant]
    spec fn well_formed(&self) -> bool {
        forall|i: int, j: int|
            0 <= i < j < self.entries@.len() ==> key_lt(
                (#[trigger] self.entries@[i]).0@,
                (#[trigger] self.entries@[j]).0@,
            )
    }
}

impl<V: View> View for KeyedMap<V> {
    type V = Map<Seq<char>, V::V>;

    closed spec fn view(&self) -> Map<Seq<char>, V::V> {
        Map::new(
            |k: Seq<char>| self.ordered_keys().contains(k),
            |k: Seq<char>| self.ordered_values()[self.ordered_keys().index_of(k)],
        )
    }
}

impl<V: View> KeyedMap<V> {
    /// The keys of the map, smallest first.
    pub closed spec fn ordered_keys(&self) -> Seq<Seq<char>> {
        Seq::new(self.entries@.len(), |i: int| self.entries@[i].0@)
    }

    /// The values of the map, in the order of their keys.
    pub closed spec fn ordered_values(&self) -> Seq<V::V> {
        Seq::new(self.entries@.len(), |i: int| self.entries@[i].1@)
    }

    /// What the view holds, entry by entry, when the keys are ascending.
    proof fn lemma_view(&self)
        requires
            ascending(self.ordered_keys()),
        ensures
            self.ordered_keys().len() == self.ordered_values().len(),
            self.ordered_keys().no_duplicates(),
            self@.dom() =~= self.ordered_keys().to_set(),
            self@.dom().finite(),
            self@.len() == self.ordered_keys().len(),
            forall|i: int|
                0 <= i < self.ordered_keys().len() ==> self@.contains_key(
                    #[trigger] self.ordered_keys()[i],
                ) && self@[self.ordered_keys()[i]] == self.ordered_values()[i],
            forall|k: Seq<char>| #[trigger]
                self@.contains_key(k) ==> 0 <= self.ordered_keys().index_of(k)
                    < self.ordered_keys().len() && self.ordered_keys()[self.ordered_keys().index_of(
                    k,
                )] == k,
    {
        let keys = self.ordered_keys();
        lemma_ascending_distinct(keys);
        keys.unique_seq_to_set();
        vstd::seq_lib::seq_to_set_is_finite(keys);
        assert forall|i: int| 0 <= i < keys.len() implies self@.contains_key(#[trigger] keys[i])
            && self@[keys[i]] == self.ordered_values()[i] by {
            assert(keys.contains(keys[i]));
            let j = keys.index_of(keys[i]);
            assert(0 <= j < keys.len() && keys[j] == keys[i]);
        }
    }

    /// An empty map.
    pub fn new() -> (r: Self)
        ensures
            r@ == Map::<Seq<char>, V::V>::empty(),
            r.ordered_keys() == Seq::<Seq<char>>::empty(),
    {
        let r = KeyedMap { entries: Vec::new() };
        assert(r@ =~= Map::<Seq<char>, V::V>::empty());
        assert(r.ordered_keys() =~= Seq::<Seq<char>>::empty());
        r
    }

    /// The number of entries.
    pub fn len(&self) -> (r: usize)
        ensures
            self@.dom().finite(),
            r == self@.len(),
            r == self.ordered_keys().len(),
            ascending(self.ordered_keys()),
            self@.dom() == self.ordered_keys().to_set(),
    {
        proof {
            use_type_invariant(self);
            self.lemma_view();
        }
        self.entries.len()
    }

    /// Whether the map has no entry.
    pub fn is_empty(&self) -> (r: bool)
        ensures
            r == (self@.len() == 0),
            self@.dom().finite(),
    {
        self.len() == 0
    }

    /// Where `key` stands among the entries: the index of its entry and
    /// `true`, or the index at which it would have to be put and `false`.
    fn position(&self, key: &str) -> (r: (usize, bool))
        ensures
            r.0 <= self.ordered_keys().len(),
            r.1 ==> r.0 < self.ordered_keys().len() && self.ordered_keys()[r.0 as int] == key@,
            !r.1 ==> forall|i: int|
                0 <= i < self.ordered_keys().len() ==> (if i < r.0 {
                    key_lt(#[trigger] self.ordered_keys()[i], key@)
                } else {
                    key_lt(key@, self.ordered_keys()[i])
                }),
    {
        proof {
            use_type_invariant(self);
        }
        let ghost keys = self.ordered_keys();
        let mut low: usize = 0;
        let mut high: usize = self.entries.len();
        while low < high
            invariant
                keys == self.ordered_keys(),
                ascending(keys),
                low <= high <= self.entries@.len(),
                keys.len() == self.entries@.len(),
                forall|i: int| 0 <= i < low ==> key_lt(#[trigger] keys[i], key@),
                forall|i: int| high <= i < keys.len() ==> key_lt(key@, #[trigger] keys[i]),
            decreases high - low,
        {
            let mid: usize = low + (high - low) / 2;
            assert(keys[mid as int] == self.entries@[mid as int].0@);
            match compare(self.entries[mid].0.as_str(), key) {
                KeyOrder::Same => {
                    return (mid, true);
                },
                KeyOrder::Before => {
                    proof {
                        assert forall|i: int| 0 <= i < mid + 1 implies key_lt(
                            #[trigger] keys[i],
                            key@,
                        ) by {
                            if i < mid {
                                lemma_key_lt_transitive(keys[i], keys[mid as int], key@);
                            }
                        }
                    }
                    low = mid + 1;
                },
                KeyOrder::After => {
                    proof {
                        assert forall|i: int| mid <= i < keys.len() implies key_lt(
                            key@,
                            #[trigger] keys[i],
                        ) by {
                            if mid < i {
                                lemma_key_lt_transitive(key@, keys[mid as int], keys[i]);
                            }
                        }
                    }
                    high = mid;
                },
            }
        }
        (low, false)
    }

    /// Whether the map has an entry under `key`.
    pub fn contains_key(&self, key: &str) -> (r: bool)
        ensures
            r == self@.contains_key(key@),
    {
        self.get(key).is_some()
    }

    /// The value under `key`, if there is one.
    pub fn get(&self, key: &str) -> (r: Option<&V>)
        ensures
            match r {
                Some(value) => self@.contains_key(key@) && self@[key@] == value@,
                None => !self@.contains_key(key@),
            },
    {
        proof {
            use_type_invariant(self);
            self.lemma_view();
        }
        let (index, found) = self.position(key);
        if found {
            assert(self.ordered_values()[index as int] == self.entries@[index as int].1@);
            Some(&self.entries[index].1)
        } else {
            proof {
                if self@.contains_key(key@) {
                    let i = self.ordered_keys().index_of(key@);
                    lemma_key_lt_irreflexive(key@);
                    assert(self.ordered_keys()[i] == key@);
                }
            }
            None
        }
    }

    /// The entry with the `index`-th smallest key, if there are that many.
    pub fn entry(&self, index: usize) -> (r: Option<(&String, &V)>)
        ensures
            ascending(self.ordered_keys()),
            match r {
                Some((key, value)) => {
                    &&& index < self.ordered_keys().len()
                    &&& key@ == self.ordered_keys()[index as int]
                    &&& self@.contains_key(key@)
                    &&& self@[key@] == value@
                },
                None => index >= self.ordered_keys().len(),
            },
    {
        proof {
            use_type_invariant(self);
            self.lemma_view();
        }
        if index < self.entries.len() {
            assert(self.ordered_keys()[index as int] == self.entries@[index as int].0@);
            assert(self.ordered_values()[index as int] == self.entries@[index as int].1@);
            let pair = &self.entries[index];
            Some((&pair.0, &pair.1))
        } else {
            None
        }
    }

    /// Puts `value` under `key`. A value that stood there before is replaced.
    pub fn insert(&mut self, key: String, value: V)
        ensures
            final(self)@ == old(self)@.insert(key@, value@),
    {
        proof {
            use_type_invariant(&*self);
            self.lemma_view();
        }
        let ghost before = *self;
        let (index, found) = self.position(key.as_str());
        let mut entries: Vec<(String, V)> = Vec::new();
        core::mem::swap(&mut entries, &mut self.entries);
        let ghost old_entries = entries@;
        let ghost k = key@;
        let ghost v = value@;
        if found {
            entries[index] = (key, value);
        } else {
            entries.insert(index, (key, value));
        }
        proof {
            let keys = before.ordered_keys();
            assert forall|i: int, j: int| 0 <= i < j < entries@.len() implies key_lt(
                (#[trigger] entries@[i]).0@,
                (#[trigger] entries@[j]).0@,
            ) by {
                if found {
                    assert(keys[i] == old_entries[i].0@);
                    assert(keys[j] == old_entries[j].0@);
                    assert(key_lt(keys[i], keys[j]));
                } else {
                    let oi = if i < index { i } else { i - 1 };
                    let oj = if j < index { j } else { j - 1 };
                    if i != index {
                        assert(keys[oi] == old_entries[oi].0@);
                    }
                    if j != index {
                        assert(keys[oj] == old_entries[oj].0@);
                    }
                    if i != index && j != index {
                        assert(key_lt(keys[oi], keys[oj]));
                    }
                }
            }
        }
        self.entries = entries;
        proof {
            self.lemma_view();
            let keys = before.ordered_keys();
            let new_keys = self.ordered_keys();
            let target = before@.insert(k, v);
            assert forall|x: Seq<char>| self@.contains_key(x) <==> target.contains_key(x) by {
                if self@.contains_key(x) {
                    let i = new_keys.index_of(x);
                    if found {
                        assert(new_keys[i] == keys[i]);
                        assert(before@.contains_key(keys[i]));
                    } else if i != index {
                        let oi = if i < index { i } else { i - 1 };
                        assert(new_keys[i] == keys[oi]);
                        assert(before@.contains_key(keys[oi]));
                    }
                }
                if target.contains_key(x) {
                    if x == k {
                        assert(new_keys[index as int] == k);
                    } else {
                        let oi = keys.index_of(x);
                        let i = if found || oi < index { oi } else { oi + 1 };
                        assert(new_keys[i] == x);
                    }
                }
            }
            assert forall|x: Seq<char>| self@.contains_key(x) implies self@[x] == target[x] by {
                let i = new_keys.index_of(x);
                assert(self@[new_keys[i]] == self.ordered_values()[i]);
                if i == index {
                    assert(new_keys[index as int] == k);
                } else {
                    let oi = if found || i < index { i } else { i - 1 };
                    assert(new_keys[i] == keys[oi]);
                    assert(before@[keys[oi]] == before.ordered_values()[oi]);
                    assert(x != k) by {
                        lemma_ascending_distinct(new_keys);
                        assert(new_keys[index as int] == k);
                    }
                }
            }
            assert(self@ =~= target);
        }
    }
}

impl<V: View> core::default::Default for KeyedMap<V> {
    fn default() -> (r: Self)
        ensures
            r@ == Map::<Seq<char>, V::V>::empty(),
    {
        KeyedMap::new()
    }
}

impl Clone for KeyedMap<String> {
    fn clone(&self) -> (r: Self)
        ensures
            r@ == self@,
            r.ordered_keys() == self.ordered_keys(),
    {
        proof {
            use_type_invariant(self);
        }
        let mut entries: Vec<(String, String)> = Vec::new();
        let mut i: usize = 0;
        while i < self.entries.len()
            invariant
                i <= self.entries@.len(),
                entries@ == self.entries@.subrange(0, i as int),
            decreases self.entries@.len() - i,
        {
            let pair = &self.entries[i];
            entries.push((pair.0.clone(), pair.1.clone()));
            i += 1;
            assert(entries@ =~= self.entries@.subrange(0, i as int));
        }
        assert(entries@ =~= self.entries@);
        let r = KeyedMap { entries };
        assert(r.ordered_keys() =~= self.ordered_keys());
        assert(r.ordered_values() =~= self.ordered_values());
        r
    }
}

} // verus!
