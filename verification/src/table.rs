//! A table from names to values, keyed by text: what the order-book
//! collections use in place of `HashMap<String, _>`. vstd specifies
//! `HashMap` only for keys whose hashing it models (`obeys_key_model`), which
//! it gives for integer and `bool` keys and not for `String`, so a map keyed by
//! exchange and symbol names is kept here as a vector of entries.

use vstd::prelude::*;

verus! {

/// A table from names to values. Each name occurs at most once; the entries
/// keep the order in which their names were first inserted.
pub struct NameTable<V> {
    entries: Vec<(String, V)>,
}

impl<V> NameTable<V> {
    /// No name occurs twice.
    #[verifier::type_invariant]
    spec fn names_unique(self) -> bool {
        forall|i: int, j: int|
            0 <= i < j < self.entries@.len() ==> #[trigger] self.entries@[i].0@
                != #[trigger] self.entries@[j].0@
    }

    /// The names, in table order.
    pub closed spec fn names(self) -> Seq<Seq<char>> {
        self.entries@.map_values(|e: (String, V)| e.0@)
    }

    /// The index of the entry named `name`.
    spec fn index_of(self, name: Seq<char>) -> int {
        choose|i: int| 0 <= i < self.entries@.len() && self.entries@[i].0@ == name
    }

    /// The table as a map from names to values.
    pub closed spec fn as_map(self) -> Map<Seq<char>, V> {
        Map::new(
            |name: Seq<char>| exists|i: int| 0 <= i < self.entries@.len() && self.entries@[i].0@ == name,
            |name: Seq<char>| self.entries@[self.index_of(name)].1,
        )
    }

    /// An entry named `name` sits at index `i`, and nowhere else.
    proof fn lemma_entry_at(self, i: int)
        requires
            self.names_unique(),
            0 <= i < self.entries@.len(),
        ensures
            self.as_map().contains_key(self.entries@[i].0@),
            self.as_map()[self.entries@[i].0@] == self.entries@[i].1,
            self.index_of(self.entries@[i].0@) == i,
    {
        let name = self.entries@[i].0@;
        assert(exists|k: int| 0 <= k < self.entries@.len() && self.entries@[k].0@ == name);
        let k = self.index_of(name);
        if k != i {
            if k < i {
                assert(self.entries@[k].0@ != self.entries@[i].0@);
            } else {
                assert(self.entries@[i].0@ != self.entries@[k].0@);
            }
        }
    }

    /// An empty table.
    pub fn new() -> (r: Self)
        ensures
            r.as_map() == Map::<Seq<char>, V>::empty(),
            r.names() == Seq::<Seq<char>>::empty(),
    {
        let r = NameTable { entries: Vec::new() };
        assert(r.as_map() =~= Map::<Seq<char>, V>::empty());
        assert(r.names() =~= Seq::<Seq<char>>::empty());
        r
    }

    /// The names of a table are exactly its keys.
    pub proof fn lemma_keys_are_names(self)
        ensures
            self.as_map().dom() == self.names().to_set(),
            self.as_map().dom().finite(),
    {
        assert forall|k: Seq<char>| #[trigger] self.as_map().dom().contains(k) == self.names().to_set().contains(k) by {
            if self.as_map().dom().contains(k) {
                let i = self.index_of(k);
                assert(self.names()[i] == k);
            }
            if self.names().to_set().contains(k) {
                let i = choose|i: int| 0 <= i < self.names().len() && self.names()[i] == k;
                assert(self.entries@[i].0@ == k);
            }
        }
        assert(self.as_map().dom() =~= self.names().to_set());
    }

    /// The number of entries: the number of names, each of which occurs once.
    pub fn len(&self) -> (r: usize)
        ensures
            r == self.names().len(),
            r == self.as_map().len(),
            self.names().no_duplicates(),
    {
        proof {
            use_type_invariant(self);
            assert forall|i: int, j: int| 0 <= i < self.names().len() && 0 <= j < self.names().len() && i != j
                implies self.names()[i] != self.names()[j] by {
                if i < j {
                    assert(self.entries@[i].0@ != self.entries@[j].0@);
                } else {
                    assert(self.entries@[j].0@ != self.entries@[i].0@);
                }
            }
            self.lemma_keys_are_names();
            self.names().unique_seq_to_set();
        }
        self.entries.len()
    }

    /// The index of the entry named `name`, if there is one.
    fn find(&self, name: &str) -> (r: Option<usize>)
        ensures
            match r {
                Some(i) => i < self.entries@.len() && self.entries@[i as int].0@ == name@,
                None => !self.as_map().contains_key(name@),
            },
    {
        let wanted = name.to_owned();
        let mut i: usize = 0;
        while i < self.entries.len()
            invariant
                i <= self.entries@.len(),
                wanted@ == name@,
                forall|j: int| 0 <= j < i ==> #[trigger] self.entries@[j].0@ != name@,
            decreases self.entries@.len() - i,
        {
            if self.entries[i].0 == wanted {
                return Some(i);
            }
            i = i + 1;
        }
        None
    }

    /// The value of the entry named `name`, if there is one.
    pub fn get(&self, name: &str) -> (r: Option<&V>)
        ensures
            match r {
                Some(v) => self.as_map().contains_key(name@) && self.as_map()[name@] == *v,
                None => !self.as_map().contains_key(name@),
            },
    {
        proof {
            use_type_invariant(self);
        }
        match self.find(name) {
            Some(i) => {
                proof {
                    self.lemma_entry_at(i as int);
                }
                Some(&self.entries[i].1)
            },
            None => None,
        }
    }

    /// The name of the entry at `index` in table order.
    pub fn name_at(&self, index: usize) -> (r: &String)
        requires
            index < self.names().len(),
        ensures
            r@ == self.names()[index as int],
    {
        &self.entries[index].0
    }

    /// The value of the entry at `index` in table order.
    pub fn value_at(&self, index: usize) -> (r: &V)
        requires
            index < self.names().len(),
        ensures
            self.as_map().contains_key(self.names()[index as int]),
            self.as_map()[self.names()[index as int]] == *r,
    {
        proof {
            use_type_invariant(self);
            self.lemma_entry_at(index as int);
        }
        &self.entries[index].1
    }

    /// Sets the value of `name` to `value`, adding an entry when the name is
    /// new (as `HashMap::insert` does).
    pub fn insert(&mut self, name: String, value: V)
        ensures
            final(self).as_map() == old(self).as_map().insert(name@, value),
            old(self).as_map().contains_key(name@) ==> final(self).names() == old(self).names(),
            !old(self).as_map().contains_key(name@) ==> final(self).names() == old(self).names().push(name@),
    {
        proof {
            use_type_invariant(&*self);
        }
        let ghost before = *self;
        let ghost key = name@;
        let found = self.find(name.as_str());
        let mut entries: Vec<(String, V)> = Vec::new();
        std::mem::swap(&mut entries, &mut self.entries);
        match found {
            Some(i) => {
                entries.set(i, (name, value));
                proof {
                    assert forall|a: int, b: int|
                        0 <= a < b < entries@.len() implies #[trigger] entries@[a].0@
                        != #[trigger] entries@[b].0@ by {
                        assert(before.entries@[a].0@ != before.entries@[b].0@);
                    }
                }
                self.entries = entries;
                proof {
                    assert forall|k: Seq<char>| #[trigger]
                        self.as_map().contains_key(k) == before.as_map().insert(key, value).contains_key(k) by {
                        if k == key {
                            assert(self.entries@[i as int].0@ == k);
                        } else if before.as_map().contains_key(k) {
                            let j = before.index_of(k);
                            assert(self.entries@[j].0@ == k);
                        } else if self.as_map().contains_key(k) {
                            let j = self.index_of(k);
                            assert(before.entries@[j].0@ == k);
                        }
                    }
                    assert forall|k: Seq<char>| self.as_map().contains_key(k) implies #[trigger] self.as_map()[k]
                        == before.as_map().insert(key, value)[k] by {
                        let j = self.index_of(k);
                        assert(self.entries@[j].0@ == k);
                        if j != i as int {
                            assert(before.entries@[j].0@ == k);
                            before.lemma_entry_at(j);
                        }
                        self.lemma_entry_at(j);
                    }
                    assert(self.as_map() =~= before.as_map().insert(key, value));
                    before.lemma_entry_at(i as int);
                    assert(self.names() =~= before.names());
                }
            },
            None => {
                entries.push((name, value));
                proof {
                    let n = entries@.len() - 1;
                    assert forall|a: int, b: int|
                        0 <= a < b < entries@.len() implies #[trigger] entries@[a].0@
                        != #[trigger] entries@[b].0@ by {
                        if b < n {
                            assert(before.entries@[a].0@ != before.entries@[b].0@);
                        } else {
                            assert(before.entries@[a].0@ == entries@[a].0@);
                            if before.entries@[a].0@ == key {
                                assert(before.as_map().contains_key(key));
                            }
                        }
                    }
                }
                self.entries = entries;
                proof {
                    let n = self.entries@.len() - 1;
                    assert forall|k: Seq<char>| #[trigger]
                        self.as_map().contains_key(k) == before.as_map().insert(key, value).contains_key(k) by {
                        if k == key {
                            assert(self.entries@[n].0@ == k);
                        } else if before.as_map().contains_key(k) {
                            let j = before.index_of(k);
                            assert(self.entries@[j].0@ == k);
                        } else if self.as_map().contains_key(k) {
                            let j = self.index_of(k);
                            assert(j != n);
                            assert(before.entries@[j].0@ == k);
                        }
                    }
                    assert forall|k: Seq<char>| self.as_map().contains_key(k) implies #[trigger] self.as_map()[k]
                        == before.as_map().insert(key, value)[k] by {
                        let j = self.index_of(k);
                        assert(self.entries@[j].0@ == k);
                        if j != n {
                            assert(before.entries@[j].0@ == k);
                            before.lemma_entry_at(j);
                        }
                        self.lemma_entry_at(j);
                    }
                    assert(self.as_map() =~= before.as_map().insert(key, value));
                    assert(self.names() =~= before.names().push(key));
                }
            },
        }
    }

    /// Removes the entry named `name` and returns its value, if there is one
    /// (as `HashMap::remove` does).
    pub fn remove(&mut self, name: &str) -> (r: Option<V>)
        ensures
            final(self).as_map() == old(self).as_map().remove(name@),
            match r {
                Some(v) => old(self).as_map().contains_key(name@) && old(self).as_map()[name@] == v
                    && exists|i: int| 0 <= i < old(self).names().len() && old(self).names()[i] == name@
                        && final(self).names() == old(self).names().remove(i),
                None => !old(self).as_map().contains_key(name@) && final(self).names() == old(self).names(),
            },
    {
        proof {
            use_type_invariant(&*self);
        }
        let ghost before = *self;
        let found = self.find(name);
        match found {
            Some(i) => {
                proof {
                    before.lemma_entry_at(i as int);
                }
                let mut entries: Vec<(String, V)> = Vec::new();
                std::mem::swap(&mut entries, &mut self.entries);
                let (_, value) = entries.remove(i);
                proof {
                    assert forall|a: int, b: int|
                        0 <= a < b < entries@.len() implies #[trigger] entries@[a].0@
                        != #[trigger] entries@[b].0@ by {
                        let a0 = if a < i { a } else { a + 1 };
                        let b0 = if b < i { b } else { b + 1 };
                        assert(entries@[a] == before.entries@[a0]);
                        assert(entries@[b] == before.entries@[b0]);
                        assert(before.entries@[a0].0@ != before.entries@[b0].0@);
                    }
                }
                self.entries = entries;
                proof {
                    let key = name@;
                    assert forall|k: Seq<char>| #[trigger]
                        self.as_map().contains_key(k) == before.as_map().remove(key).contains_key(k) by {
                        if before.as_map().contains_key(k) && k != key {
                            let j = before.index_of(k);
                            assert(j != i);
                            let j1 = if j < i { j } else { j - 1 };
                            assert(self.entries@[j1] == before.entries@[j]);
                        }
                        if self.as_map().contains_key(k) {
                            let j = self.index_of(k);
                            let j0 = if j < i { j } else { j + 1 };
                            assert(self.entries@[j] == before.entries@[j0]);
                            assert(j0 != i);
                            assert(before.entries@[j0].0@ != before.entries@[i as int].0@ || j0 == i);
                        }
                    }
                    assert forall|k: Seq<char>| self.as_map().contains_key(k) implies #[trigger] self.as_map()[k]
                        == before.as_map().remove(key)[k] by {
                        let j = self.index_of(k);
                        let j0 = if j < i { j } else { j + 1 };
                        assert(self.entries@[j] == before.entries@[j0]);
                        self.lemma_entry_at(j);
                        before.lemma_entry_at(j0);
                    }
                    assert(self.as_map() =~= before.as_map().remove(key));
                    assert(self.names() =~= before.names().remove(i as int));
                    assert(before.names()[i as int] == key);
                }
                Some(value)
            },
            None => {
                assert(before.as_map().remove(name@) =~= before.as_map());
                None
            },
        }
    }
}

} // verus!
