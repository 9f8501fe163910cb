//! Collections keyed by name: a set of names and a map from names to
//! values.
//!
//! Both keep their names in slots; the hash index finds the slot of a
//! name. Removing a name moves the name of the last slot into the slot
//! that became free.

use vstd::prelude::*;
use crate::name_index::{NameIndex, index_entries, index_new, index_get, index_insert, index_remove};

verus! {

/// What removing slot `i` does to the slots: the last one takes its place.
pub open spec fn swap_removed<T>(s: Seq<T>, i: int) -> Seq<T> {
    s.update(i, s.last()).drop_last()
}

/// A set of names. No name occurs twice.
pub struct NameSet {
    index: NameIndex,
    names: Vec<String>,
}

impl View for NameSet {
    type V = Set<Seq<char>>;

    closed spec fn view(&self) -> Set<Seq<char>> {
        index_entries(self.index).dom()
    }
}

impl NameSet {
    /// The index and the slots agree.
    pub closed spec fn wf(&self) -> bool {
        let entries = index_entries(self.index);
        &&& forall|i: int|
            0 <= i < self.names@.len() ==> entries.dom().contains((#[trigger] self.names@[i])@)
                && entries[self.names@[i]@] == i
        &&& forall|k: Seq<char>| #[trigger]
            entries.dom().contains(k) ==> 0 <= entries[k] < self.names@.len()
                && self.names@[entries[k] as int]@ == k
    }

    /// The names, slot by slot.
    pub closed spec fn names(&self) -> Seq<Seq<char>> {
        Seq::new(self.names@.len(), |i: int| self.names@[i]@)
    }

    /// The slot that holds `name`.
    pub closed spec fn slot(&self, name: Seq<char>) -> int {
        index_entries(self.index)[name] as int
    }

    /// A well-formed set holds exactly the names in its slots, each once.
    pub proof fn lemma_names(&self)
        requires
            self.wf(),
        ensures
            forall|i: int| 0 <= i < self.names().len() ==> self@.contains(#[trigger] self.names()[i]),
            forall|i: int| 0 <= i < self.names().len() ==> self.slot(#[trigger] self.names()[i]) == i,
            forall|k: Seq<char>| #[trigger]
                self@.contains(k) ==> 0 <= self.slot(k) < self.names().len() && self.names()[self.slot(
                    k,
                )] == k,
            self.names().no_duplicates(),
    {
    }

    /// The empty set.
    pub fn new() -> (set: NameSet)
        ensures
            set.wf(),
            set@ == Set::<Seq<char>>::empty(),
            set.names().len() == 0,
    {
        NameSet { index: index_new(), names: Vec::new() }
    }

    /// How many names the set holds.
    pub fn len(&self) -> (n: usize)
        ensures
            n == self.names().len(),
    {
        self.names.len()
    }

    /// The slot of `name`, if the set holds it.
    pub fn find(&self, name: &str) -> (found: Option<usize>)
        requires
            self.wf(),
        ensures
            self@.contains(name@) ==> found == Some(self.slot(name@) as usize),
            !self@.contains(name@) ==> found.is_none(),
            found matches Some(i) ==> i < self.names().len() && self.names()[i as int] == name@,
    {
        index_get(&self.index, name)
    }

    /// Whether the set holds `name`.
    pub fn contains(&self, name: &str) -> (found: bool)
        requires
            self.wf(),
        ensures
            found == self@.contains(name@),
    {
        index_get(&self.index, name).is_some()
    }

    /// The name in slot `i`.
    pub fn name_at(&self, i: usize) -> (name: &String)
        requires
            i < self.names().len(),
        ensures
            name@ == self.names()[i as int],
    {
        &self.names[i]
    }

    /// Adds `name`. Says whether it was new; a name already present
    /// changes nothing.
    pub fn insert(&mut self, name: String) -> (fresh: bool)
        requires
            old(self).wf(),
        ensures
            final(self).wf(),
            fresh == !old(self)@.contains(name@),
            final(self)@ == old(self)@.insert(name@),
            fresh ==> final(self).names() == old(self).names().push(name@),
            !fresh ==> final(self).names() == old(self).names(),
            forall|k: Seq<char>| old(self)@.contains(k) ==> final(self).slot(k) == old(self).slot(k),
    {
        match index_get(&self.index, name.as_str()) {
            Some(_) => {
                false
            },
            None => {
                let slot = self.names.len();
                index_insert(&mut self.index, name.clone(), slot);
                self.names.push(name);
                true
            },
        }
    }

    /// Removes `name`. Gives the slot it held; the name of the last slot
    /// has moved there.
    pub fn remove(&mut self, name: &str) -> (freed: Option<usize>)
        requires
            old(self).wf(),
        ensures
            final(self).wf(),
            final(self)@ == old(self)@.remove(name@),
            old(self)@.contains(name@) ==> freed == Some(old(self).slot(name@) as usize),
            !old(self)@.contains(name@) ==> freed.is_none() && final(self).names() == old(self).names(),
            freed matches Some(i) ==> i < old(self).names().len() && final(self).names() == swap_removed(
                old(self).names(),
                i as int,
            ),
            forall|k: Seq<char>|
                old(self)@.contains(name@) && old(self)@.contains(k) && k != name@ ==> #[trigger] final(self).slot(k) == (if old(self).slot(k) == old(self).names().len() - 1 {
                    old(self).slot(name@)
                } else {
                    old(self).slot(k)
                }),
    {
        match index_get(&self.index, name) {
            None => {
                None
            },
            Some(i) => {
                index_remove(&mut self.index, name);
                let _gone = self.names.swap_remove(i);
                if i < self.names.len() {
                    let moved = self.names[i].clone();
                    index_insert(&mut self.index, moved, i);
                }
                Some(i)
            },
        }
    }

    /// Removes the name in the last slot, if there is one.
    pub fn pop(&mut self) -> (last: Option<String>)
        requires
            old(self).wf(),
        ensures
            final(self).wf(),
            old(self).names().len() == 0 ==> last.is_none() && final(self)@ == old(self)@
                && final(self).names() == old(self).names(),
            last matches Some(name) ==> old(self).names().len() > 0 && name@ == old(self).names().last()
                && final(self)@ == old(self)@.remove(name@) && final(self).names() == old(self).names().drop_last(),
            last.is_some() == (old(self).names().len() > 0),
            forall|k: Seq<char>| final(self)@.contains(k) ==> final(self).slot(k) == old(self).slot(k),
    {
        match self.names.pop() {
            None => None,
            Some(name) => {
                index_remove(&mut self.index, name.as_str());
                Some(name)
            },
        }
    }
}

/// A map from names to values. No name occurs twice.
pub struct NameMap<V> {
    keys: NameSet,
    values: Vec<V>,
}

impl<V> View for NameMap<V> {
    type V = Map<Seq<char>, V>;

    closed spec fn view(&self) -> Map<Seq<char>, V> {
        Map::new(
            |k: Seq<char>| self.keys@.contains(k),
            |k: Seq<char>| self.values@[self.keys.slot(k)],
        )
    }
}

impl<V> NameMap<V> {
    /// Every slot holds a name and a value.
    pub closed spec fn wf(&self) -> bool {
        &&& self.keys.wf()
        &&& self.values@.len() == self.keys.names().len()
    }

    /// The names, slot by slot.
    pub closed spec fn names(&self) -> Seq<Seq<char>> {
        self.keys.names()
    }

    /// The values, slot by slot.
    pub closed spec fn values(&self) -> Seq<V> {
        self.values@
    }

    /// A well-formed map holds exactly the entries in its slots, and no
    /// name twice.
    pub proof fn lemma_entries(&self)
        requires
            self.wf(),
        ensures
            self.names().len() == self.values().len(),
            self.names().no_duplicates(),
            forall|i: int|
                0 <= i < self.names().len() ==> self@.dom().contains(#[trigger] self.names()[i])
                    && self@[self.names()[i]] == self.values()[i],
            forall|k: Seq<char>| #[trigger]
                self@.dom().contains(k) ==> exists|i: int|
                    0 <= i < self.names().len() && self.names()[i] == k,
            self.names().len() == 0 ==> self@ == Map::<Seq<char>, V>::empty(),
    {
        self.keys.lemma_names();
    }

    /// The empty map.
    pub fn new() -> (map: NameMap<V>)
        ensures
            map.wf(),
            map@ == Map::<Seq<char>, V>::empty(),
            map.names().len() == 0,
    {
        let map = NameMap { keys: NameSet::new(), values: Vec::new() };
        map
    }

    /// How many entries the map holds.
    pub fn len(&self) -> (n: usize)
        ensures
            n == self.names().len(),
    {
        self.keys.len()
    }

    /// Whether the map holds an entry for `name`.
    pub fn contains_key(&self, name: &str) -> (found: bool)
        requires
            self.wf(),
        ensures
            found == self@.dom().contains(name@),
    {
        self.keys.contains(name)
    }

    /// The value stored under `name`.
    pub fn get(&self, name: &str) -> (value: Option<&V>)
        requires
            self.wf(),
        ensures
            self@.dom().contains(name@) ==> value == Some(&self@[name@]),
            !self@.dom().contains(name@) ==> value.is_none(),
    {
        match self.keys.find(name) {
            Some(i) => Some(&self.values[i]),
            None => None,
        }
    }

    /// The name in slot `i`.
    pub fn key_at(&self, i: usize) -> (name: &String)
        requires
            i < self.names().len(),
        ensures
            name@ == self.names()[i as int],
    {
        self.keys.name_at(i)
    }

    /// The value in slot `i`.
    pub fn value_at(&self, i: usize) -> (value: &V)
        requires
            self.wf(),
            i < self.names().len(),
        ensures
            *value == self.values()[i as int],
    {
        &self.values[i]
    }

    /// Stores `value` under `name` and gives back what was stored there
    /// before.
    pub fn insert(&mut self, name: String, value: V) -> (previous: Option<V>)
        requires
            old(self).wf(),
        ensures
            final(self).wf(),
            final(self)@ == old(self)@.insert(name@, value),
            old(self)@.dom().contains(name@) ==> previous == Some(old(self)@[name@]),
            !old(self)@.dom().contains(name@) ==> previous.is_none(),
    {
        match self.keys.find(name.as_str()) {
            Some(i) => {
                self.values.push(value);
                let previous = self.values.swap_remove(i);
                Some(previous)
            },
            None => {
                self.keys.insert(name);
                self.values.push(value);
                assert(self@ =~= old(self)@.insert(name@, value)) by {
                    self.keys.lemma_names();
                }
                None
            },
        }
    }

    /// Takes the entry for `name` out of the map.
    pub fn remove(&mut self, name: &str) -> (taken: Option<V>)
        requires
            old(self).wf(),
        ensures
            final(self).wf(),
            final(self)@ == old(self)@.remove(name@),
            old(self)@.dom().contains(name@) ==> taken == Some(old(self)@[name@]),
            !old(self)@.dom().contains(name@) ==> taken.is_none(),
    {
        proof {
            old(self).keys.lemma_names();
        }
        match self.keys.remove(name) {
            Some(i) => {
                let taken = self.values.swap_remove(i);
                Some(taken)
            },
            None => {
                None
            },
        }
    }

    /// Takes the entry of the last slot out of the map, if there is one.
    pub fn pop(&mut self) -> (last: Option<(String, V)>)
        requires
            old(self).wf(),
        ensures
            final(self).wf(),
            old(self).names().len() == 0 ==> last.is_none() && final(self)@ == old(self)@,
            last matches Some(entry) ==> old(self)@.dom().contains(entry.0@) && old(self)@[entry.0@]
                == entry.1 && final(self)@ == old(self)@.remove(entry.0@) && final(self).names().len()
                == old(self).names().len() - 1,
            last.is_some() == (old(self).names().len() > 0),
    {
        match self.keys.pop() {
            Some(name) => {
                let value = self.values.pop();
                match value {
                    Some(value) => Some((name, value)),
                    None => None,
                }
            },
            None => None,
        }
    }
}

} // verus!
