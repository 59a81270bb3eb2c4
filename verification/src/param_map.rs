//! A map from parameter names to values that keeps its entries in the order
//! in which their keys first came.

use crate::text::str_eq;
use vstd::prelude::*;

verus! {

/// Whether some entry of `entries` has the key `key`.
pub open spec fn has_key<V>(entries: Seq<(Seq<char>, V)>, key: Seq<char>) -> bool {
    exists|i: int| 0 <= i < entries.len() && (#[trigger] entries[i]).0 == key
}

/// The place of an entry with the key `key`, where there is one.
pub open spec fn key_index<V>(entries: Seq<(Seq<char>, V)>, key: Seq<char>) -> int {
    choose|i: int| 0 <= i < entries.len() && (#[trigger] entries[i]).0 == key
}

/// Whether no key occurs in two entries.
pub open spec fn distinct_keys<V>(entries: Seq<(Seq<char>, V)>) -> bool {
    forall|i: int, j: int|
        0 <= i < j < entries.len() ==> (#[trigger] entries[i]).0 != (#[trigger] entries[j]).0
}

/// The map that a sequence of entries stands for.
pub open spec fn entries_map<V>(entries: Seq<(Seq<char>, V)>) -> Map<Seq<char>, V> {
    Map::new(|k: Seq<char>| has_key(entries, k), |k: Seq<char>| entries[key_index(entries, k)].1)
}

/// With distinct keys, the entry at a place is what the map holds for its key.
pub proof fn lemma_entry_in_map<V>(entries: Seq<(Seq<char>, V)>, i: int)
    requires
        distinct_keys(entries),
        0 <= i < entries.len(),
    ensures
        has_key(entries, entries[i].0),
        key_index(entries, entries[i].0) == i,
        entries_map(entries).contains_key(entries[i].0),
        entries_map(entries)[entries[i].0] == entries[i].1,
{
    let k = entries[i].0;
    assert(has_key(entries, k));
    let j = key_index(entries, k);
    assert(0 <= j < entries.len() && entries[j].0 == k);
    if j != i {
        if j < i {
            assert(entries[j].0 != entries[i].0);
        } else {
            assert(entries[i].0 != entries[j].0);
        }
    }
}

/// Appending an entry under a new key keeps the keys distinct and inserts
/// into the map.
pub proof fn lemma_push_entry<V>(entries: Seq<(Seq<char>, V)>, key: Seq<char>, value: V)
    requires
        distinct_keys(entries),
        !has_key(entries, key),
    ensures
        distinct_keys(entries.push((key, value))),
        entries_map(entries.push((key, value))) == entries_map(entries).insert(key, value),
{
    let after = entries.push((key, value));
    assert forall|i: int, j: int| 0 <= i < j < after.len() implies (#[trigger] after[i]).0 != (
    #[trigger] after[j]).0 by {
        if j < entries.len() {
            assert(entries[i].0 != entries[j].0);
        } else {
            assert(after[i] == entries[i]);
            if entries[i].0 == key {
                assert(has_key(entries, key));
            }
        }
    }
    let last = entries.len() as int;
    assert(after[last] == (key, value));
    assert forall|k: Seq<char>| has_key(after, k) <==> (k == key || has_key(entries, k)) by {
        if has_key(after, k) {
            let i = key_index(after, k);
            if i < entries.len() {
                assert(entries[i] == after[i]);
            }
        }
        if has_key(entries, k) {
            let i = key_index(entries, k);
            assert(after[i] == entries[i]);
        }
        if k == key {
            assert(after[last].0 == k);
        }
    }
    assert forall|k: Seq<char>| has_key(after, k) implies #[trigger] entries_map(after)[k]
        == entries_map(entries).insert(key, value)[k] by {
        let i = key_index(after, k);
        lemma_entry_in_map(after, i);
        if i < entries.len() {
            assert(after[i] == entries[i]);
            lemma_entry_in_map(entries, i);
        }
    }
    assert(entries_map(after) =~= entries_map(entries).insert(key, value));
}

/// Replacing the value of an entry keeps the keys and inserts into the map.
pub proof fn lemma_update_entry<V>(entries: Seq<(Seq<char>, V)>, i: int, value: V)
    requires
        distinct_keys(entries),
        0 <= i < entries.len(),
    ensures
        distinct_keys(entries.update(i, (entries[i].0, value))),
        entries_map(entries.update(i, (entries[i].0, value))) == entries_map(entries).insert(
            entries[i].0,
            value,
        ),
{
    let key = entries[i].0;
    let after = entries.update(i, (key, value));
    assert forall|a: int, b: int| 0 <= a < b < after.len() implies (#[trigger] after[a]).0 != (
    #[trigger] after[b]).0 by {
        assert(after[a].0 == entries[a].0);
        assert(after[b].0 == entries[b].0);
        assert(entries[a].0 != entries[b].0);
    }
    assert forall|k: Seq<char>| has_key(after, k) <==> has_key(entries, k) by {
        if has_key(after, k) {
            let j = key_index(after, k);
            assert(entries[j].0 == after[j].0);
        }
        if has_key(entries, k) {
            let j = key_index(entries, k);
            assert(after[j].0 == entries[j].0);
        }
    }
    lemma_entry_in_map(entries, i);
    assert forall|k: Seq<char>| has_key(after, k) implies #[trigger] entries_map(after)[k]
        == entries_map(entries).insert(key, value)[k] by {
        let j = key_index(after, k);
        lemma_entry_in_map(after, j);
        if j != i {
            assert(after[j] == entries[j]);
            lemma_entry_in_map(entries, j);
        }
    }
    assert(entries_map(after) =~= entries_map(entries).insert(key, value));
}

/// The entries of a vector of pairs, each name as its characters.
pub open spec fn entries_of<V>(pairs: Seq<(String, V)>) -> Seq<(Seq<char>, V)> {
    Seq::new(pairs.len(), |i: int| (pairs[i].0@, pairs[i].1))
}

/// A map from parameter names to values. No name occurs twice, and the
/// entries stay in the order in which their names were first inserted.
#[derive(Debug)]
pub struct ParamMap<V> {
    entries: Vec<(String, V)>,
}

impl<V> View for ParamMap<V> {
    type V = Map<Seq<char>, V>;

    /// The map from names to values, without the order.
    open spec fn view(&self) -> Map<Seq<char>, V> {
        entries_map(self.entries())
    }
}

impl<V> ParamMap<V> {
    /// The entries in order, each name as its characters.
    pub closed spec fn entries(&self) -> Seq<(Seq<char>, V)> {
        entries_of(self.entries@)
    }

    /// No name occurs twice. Holds of every map that the program can reach.
    #[verifier::type_invariant]
    pub open spec fn wf(&self) -> bool {
        distinct_keys(self.entries())
    }

    /// An empty map.
    pub fn new() -> (m: Self)
        ensures
            m.entries() == Seq::<(Seq<char>, V)>::empty(),
            m@ == Map::<Seq<char>, V>::empty(),
            m.wf(),
    {
        let m = ParamMap { entries: Vec::new() };
        assert(m.entries() =~= Seq::<(Seq<char>, V)>::empty());
        assert(m@ =~= Map::<Seq<char>, V>::empty());
        m
    }

    /// The number of entries.
    pub fn len(&self) -> (n: usize)
        ensures
            n == self.entries().len(),
            self.wf(),
    {
        proof {
            use_type_invariant(self);
        }
        self.entries.len()
    }

    /// Whether the map has no entry.
    pub fn is_empty(&self) -> (r: bool)
        ensures
            r == (self.entries().len() == 0),
    {
        self.entries.len() == 0
    }

    /// The name of the entry at `index`.
    pub fn key_at(&self, index: usize) -> (key: &String)
        requires
            index < self.entries().len(),
        ensures
            key@ == self.entries()[index as int].0,
    {
        &self.entries[index].0
    }

    /// The value of the entry at `index`.
    pub fn value_at(&self, index: usize) -> (value: &V)
        requires
            index < self.entries().len(),
        ensures
            *value == self.entries()[index as int].1,
            self.wf(),
            self@.contains_key(self.entries()[index as int].0),
            self@[self.entries()[index as int].0] == *value,
    {
        proof {
            use_type_invariant(self);
            lemma_entry_in_map(self.entries(), index as int);
        }
        &self.entries[index].1
    }

    /// The entries in order, each with its name.
    pub fn into_entries(self) -> (pairs: Vec<(String, V)>)
        ensures
            entries_of(pairs@) == self.entries(),
            distinct_keys(entries_of(pairs@)),
    {
        proof {
            use_type_invariant(&self);
        }
        self.entries
    }

    /// The place of the entry named `key`, if there is one.
    fn position(&self, key: &str) -> (r: Option<usize>)
        ensures
            self.wf(),
            match r {
                Some(i) => i < self.entries().len() && self.entries()[i as int].0 == key@,
                None => !has_key(self.entries(), key@),
            },
    {
        proof {
            use_type_invariant(self);
        }
        let n: usize = self.entries.len();
        let mut i: usize = 0;
        while i < n
            invariant
                self.wf(),
                n == self.entries().len(),
                i <= n,
                forall|j: int| 0 <= j < i ==> (#[trigger] self.entries()[j]).0 != key@,
            decreases n - i,
        {
            if str_eq(self.entries[i].0.as_str(), key) {
                return Some(i);
            }
            i += 1;
        }
        None
    }

    /// Whether the map has an entry named `key`.
    pub fn contains_key(&self, key: &str) -> (r: bool)
        ensures
            r == self@.contains_key(key@),
    {
        self.position(key).is_some()
    }

    /// The value of the entry named `key`, if there is one.
    pub fn get(&self, key: &str) -> (r: Option<&V>)
        ensures
            match r {
                Some(value) => self@.contains_key(key@) && self@[key@] == *value,
                None => !self@.contains_key(key@),
            },
    {
        match self.position(key) {
            Some(i) => {
                proof {
                    lemma_entry_in_map(self.entries(), i as int);
                }
                Some(&self.entries[i].1)
            },
            None => None,
        }
    }

    /// Appends an entry under a name that the map does not hold yet.
    pub(crate) fn insert_new(&mut self, key: String, value: V)
        requires
            !old(self)@.contains_key(key@),
        ensures
            final(self).entries() == old(self).entries().push((key@, value)),
            final(self)@ == old(self)@.insert(key@, value),
            final(self).wf(),
    {
        proof {
            use_type_invariant(&*self);
            lemma_push_entry(self.entries(), key@, value);
        }
        let ghost before = self.entries();
        let mut taken = ParamMap::new();
        std::mem::swap(self, &mut taken);
        let mut entries = taken.entries;
        entries.push((key, value));
        assert(entries_of(entries@) =~= before.push((key@, value)));
        *self = ParamMap { entries };
    }

    /// Sets the value for a name and returns the value that the name had
    /// before. A new name goes behind the others; a name that the map holds
    /// keeps its place.
    pub fn insert(&mut self, key: String, value: V) -> (previous: Option<V>)
        ensures
            final(self)@ == old(self)@.insert(key@, value),
            final(self).wf(),
            match previous {
                Some(v) => {
                    &&& old(self)@.contains_key(key@)
                    &&& old(self)@[key@] == v
                    &&& final(self).entries() == old(self).entries().update(
                        key_index(old(self).entries(), key@),
                        (key@, value),
                    )
                },
                None => {
                    &&& !old(self)@.contains_key(key@)
                    &&& final(self).entries() == old(self).entries().push((key@, value))
                },
            },
    {
        match self.position(key.as_str()) {
            Some(i) => {
                let ghost before = self.entries();
                proof {
                    lemma_entry_in_map(before, i as int);
                    lemma_update_entry(before, i as int, value);
                }
                let mut taken = ParamMap::new();
                std::mem::swap(self, &mut taken);
                let mut entries = taken.entries;
                let mut entry = (key, value);
                std::mem::swap(&mut entries[i], &mut entry);
                assert(entries_of(entries@) =~= before.update(i as int, (key@, value)));
                *self = ParamMap { entries };
                Some(entry.1)
            },
            None => {
                self.insert_new(key, value);
                None
            },
        }
    }
}

} // verus!
