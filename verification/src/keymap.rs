//! Small string-keyed maps with insertion order, used for hotkey bindings
//! and other name-to-value tables.
//!
//! The table is an association list with unique keys; its view is the
//! mathematical map from key characters to the stored value.

use vstd::prelude::*;

verus! {

/// A map from operation names to key bindings, keeping insertion order.
#[derive(Debug, Clone, PartialEq)]
pub struct KeyTable {
    entries: Vec<(String, String)>,
}

impl KeyTable {
    /// The mathematical map this table stands for.
    pub closed spec fn view(self) -> Map<Seq<char>, Seq<char>> {
        Self::map_of(self.entries@)
    }

    pub closed spec fn spec_len(self) -> nat {
        self.entries@.len()
    }

    /// The keys in insertion order.
    pub closed spec fn spec_keys(self) -> Seq<Seq<char>> {
        self.entries@.map_values(|e: (String, String)| e.0@)
    }

    spec fn map_of(entries: Seq<(String, String)>) -> Map<Seq<char>, Seq<char>>
        decreases entries.len(),
    {
        if entries.len() == 0 {
            Map::empty()
        } else {
            Self::map_of(entries.drop_last()).insert(entries.last().0@, entries.last().1@)
        }
    }

    spec fn unique_keys(entries: Seq<(String, String)>) -> bool {
        forall|i: int, j: int|
            0 <= i < j < entries.len() ==> (#[trigger] entries[i]).0@ != (#[trigger] entries[j]).0@
    }

    /// Well-formedness: no key occurs twice.
    pub closed spec fn wf(self) -> bool {
        Self::unique_keys(self.entries@)
    }

    proof fn lemma_map_of_contains(entries: Seq<(String, String)>, k: Seq<char>)
        ensures
            Self::map_of(entries).contains_key(k)
                <==> exists|i: int| 0 <= i < entries.len() && (#[trigger] entries[i]).0@ == k,
        decreases entries.len(),
    {
        if entries.len() > 0 {
            Self::lemma_map_of_contains(entries.drop_last(), k);
            if Self::map_of(entries).contains_key(k) {
                if entries.last().0@ != k {
                    let i = choose|i: int|
                        0 <= i < entries.drop_last().len() && (#[trigger] entries.drop_last()[i]).0@ == k;
                    assert(entries[i].0@ == k);
                }
            }
            if exists|i: int| 0 <= i < entries.len() && (#[trigger] entries[i]).0@ == k {
                let i = choose|i: int| 0 <= i < entries.len() && (#[trigger] entries[i]).0@ == k;
                if i < entries.len() - 1 {
                    assert(entries.drop_last()[i].0@ == k);
                }
            }
        }
    }

    proof fn lemma_map_of_get(entries: Seq<(String, String)>, i: int)
        requires
            Self::unique_keys(entries),
            0 <= i < entries.len(),
        ensures
            Self::map_of(entries).contains_key(entries[i].0@),
            Self::map_of(entries)[entries[i].0@] == entries[i].1@,
        decreases entries.len(),
    {
        if i < entries.len() - 1 {
            Self::lemma_map_of_get(entries.drop_last(), i);
            assert(entries.drop_last()[i] == entries[i]);
        }
    }

    /// An empty table.
    pub fn new() -> (t: Self)
        ensures
            t.wf(),
            t@ == Map::<Seq<char>, Seq<char>>::empty(),
            t.spec_len() == 0,
    {
        KeyTable { entries: Vec::new() }
    }

    pub fn len(&self) -> (n: usize)
        ensures
            n == self.spec_len(),
    {
        self.entries.len()
    }

    pub fn is_empty(&self) -> (r: bool)
        requires
            self.wf(),
        ensures
            r == (self@ == Map::<Seq<char>, Seq<char>>::empty()),
            r == (self.spec_len() == 0),
    {
        proof {
            if self.entries@.len() > 0 {
                Self::lemma_map_of_get(self.entries@, 0);
                assert(self@ != Map::<Seq<char>, Seq<char>>::empty());
            } else {
                assert(self@ =~= Map::<Seq<char>, Seq<char>>::empty());
            }
        }
        self.entries.len() == 0
    }

    fn position(&self, key: &String) -> (r: Option<usize>)
        requires
            self.wf(),
        ensures
            match r {
                Some(i) => i < self.entries@.len() && self.entries@[i as int].0@ == key@,
                None => forall|i: int|
                    0 <= i < self.entries@.len() ==> (#[trigger] self.entries@[i]).0@ != key@,
            },
    {
        let n = self.entries.len();
        let mut i: usize = 0;
        while i < n
            invariant
                n == self.entries@.len(),
                i <= n,
                forall|j: int| 0 <= j < i ==> (#[trigger] self.entries@[j]).0@ != key@,
            decreases n - i,
        {
            if self.entries[i].0 == *key {
                return Some(i);
            }
            i = i + 1;
        }
        None
    }

    /// Whether a binding exists for the key.
    pub fn contains_key(&self, key: &str) -> (r: bool)
        requires
            self.wf(),
        ensures
            r == self@.contains_key(key@),
    {
        proof {
            Self::lemma_map_of_contains(self.entries@, key@);
        }
        let k = key.to_owned();
        match self.position(&k) {
            Some(_) => true,
            None => false,
        }
    }

    /// The binding of the key, if any.
    pub fn get(&self, key: &str) -> (r: Option<&String>)
        requires
            self.wf(),
        ensures
            match r {
                Some(v) => self@.contains_key(key@) && self@[key@] == v@,
                None => !self@.contains_key(key@),
            },
    {
        proof {
            Self::lemma_map_of_contains(self.entries@, key@);
        }
        let k = key.to_owned();
        match self.position(&k) {
            Some(i) => {
                proof {
                    Self::lemma_map_of_get(self.entries@, i as int);
                }
                Some(&self.entries[i].1)
            },
            None => None,
        }
    }

    /// Bind the key to the value, replacing any earlier binding.
    pub fn insert(&mut self, key: String, value: String)
        requires
            old(self).wf(),
        ensures
            final(self).wf(),
            final(self)@ == old(self)@.insert(key@, value@),
            final(self).spec_len()
                == old(self).spec_len() + (if old(self)@.contains_key(key@) { 0int } else { 1 }),
    {
        proof {
            Self::lemma_map_of_contains(self.entries@, key@);
        }
        match self.position(&key) {
            Some(i) => {
                let ghost before = self.entries@;
                let mut entry = self.entries.remove(i);
                entry.1 = value;
                self.entries.insert(i, entry);
                proof {
                    assert(self.entries@ =~= before.update(i as int, (before[i as int].0, value)));
                    Self::lemma_update_value(before, i as int, value);
                    assert(self@ =~= old(self)@.insert(key@, value@));
                }
            },
            None => {
                self.entries.push((key, value));
                proof {
                    assert(self.entries@.drop_last() =~= old(self).entries@);
                    assert(self@ =~= old(self)@.insert(key@, value@));
                }
            },
        }
    }

    proof fn lemma_update_value(entries: Seq<(String, String)>, i: int, value: String)
        requires
            Self::unique_keys(entries),
            0 <= i < entries.len(),
        ensures
            Self::unique_keys(entries.update(i, (entries[i].0, value))),
            Self::map_of(entries.update(i, (entries[i].0, value)))
                =~= Self::map_of(entries).insert(entries[i].0@, value@),
        decreases entries.len(),
    {
        let updated = entries.update(i, (entries[i].0, value));
        assert forall|a: int, b: int| 0 <= a < b < updated.len()
            implies (#[trigger] updated[a]).0@ != (#[trigger] updated[b]).0@ by {
            assert(updated[a].0@ == entries[a].0@);
            assert(updated[b].0@ == entries[b].0@);
        }
        if i == entries.len() - 1 {
            assert(updated.drop_last() =~= entries.drop_last());
        } else {
            Self::lemma_update_value(entries.drop_last(), i, value);
            assert(updated.drop_last() =~= entries.drop_last().update(i, (entries[i].0, value)));
            assert(updated.last() == entries.last());
            Self::lemma_map_of_contains(entries.drop_last(), entries[i].0@);
            assert(entries.drop_last()[i] == entries[i]);
            assert(entries[i].0@ != entries.last().0@);
        }
    }

    /// Drop the binding of the key; reports whether one existed.
    pub fn remove(&mut self, key: &str) -> (r: bool)
        requires
            old(self).wf(),
        ensures
            final(self).wf(),
            r == old(self)@.contains_key(key@),
            final(self)@ == old(self)@.remove(key@),
    {
        proof {
            Self::lemma_map_of_contains(self.entries@, key@);
        }
        let k = key.to_owned();
        match self.position(&k) {
            Some(i) => {
                let ghost before = self.entries@;
                self.entries.remove(i);
                proof {
                    assert(self.entries@ =~= before.remove(i as int));
                    Self::lemma_remove_key(before, i as int);
                    assert(self@ =~= old(self)@.remove(key@));
                }
                true
            },
            None => {
                proof {
                    assert(self@ =~= old(self)@.remove(key@));
                }
                false
            },
        }
    }

    proof fn lemma_remove_key(entries: Seq<(String, String)>, i: int)
        requires
            Self::unique_keys(entries),
            0 <= i < entries.len(),
        ensures
            Self::unique_keys(entries.remove(i)),
            Self::map_of(entries.remove(i)) =~= Self::map_of(entries).remove(entries[i].0@),
        decreases entries.len(),
    {
        let removed = entries.remove(i);
        assert forall|a: int, b: int| 0 <= a < b < removed.len()
            implies (#[trigger] removed[a]).0@ != (#[trigger] removed[b]).0@ by {
            let a0 = if a < i { a } else { a + 1 };
            let b0 = if b < i { b } else { b + 1 };
            assert(removed[a] == entries[a0]);
            assert(removed[b] == entries[b0]);
        }
        if i == entries.len() - 1 {
            assert(removed =~= entries.drop_last());
            Self::lemma_map_of_contains(entries.drop_last(), entries[i].0@);
            assert(Self::map_of(entries.drop_last()).remove(entries[i].0@)
                =~= Self::map_of(entries.drop_last()));
        } else {
            Self::lemma_remove_key(entries.drop_last(), i);
            assert(removed.drop_last() =~= entries.drop_last().remove(i));
            assert(removed.last() == entries.last());
            assert(entries.drop_last()[i] == entries[i]);
            assert(entries[i].0@ != entries.last().0@);
        }
    }

    /// The keys, in insertion order.
    pub fn keys(&self) -> (r: Vec<String>)
        requires
            self.wf(),
        ensures
            r@.map_values(|k: String| k@) == self.spec_keys(),
            forall|i: int| 0 <= i < r@.len() ==> self@.contains_key(#[trigger] r@[i]@),
    {
        let n = self.entries.len();
        let mut out: Vec<String> = Vec::new();
        let mut i: usize = 0;
        while i < n
            invariant
                self.wf(),
                n == self.entries@.len(),
                i <= n,
                out@.len() == i,
                forall|j: int| 0 <= j < i ==> (#[trigger] out@[j])@ == self.entries@[j].0@,
            decreases n - i,
        {
            out.push(self.entries[i].0.clone());
            i = i + 1;
        }
        proof {
            assert(out@.map_values(|k: String| k@) =~= self.spec_keys());
            assert forall|i2: int| 0 <= i2 < out@.len()
                implies self@.contains_key(#[trigger] out@[i2]@) by {
                Self::lemma_map_of_get(self.entries@, i2);
            }
        }
        out
    }
}

impl Default for KeyTable {
    fn default() -> (t: Self)
        ensures
            t.wf(),
            t@ == Map::<Seq<char>, Seq<char>>::empty(),
    {
        KeyTable::new()
    }
}

} // verus!
