//! A small map from text keys to values, kept in insertion order.
//!
//! Keys are compared by their text, so the map is viewed as a
//! `Map<Seq<char>, V>`. Where a key is held in several slots, the first one
//! counts; `insert` never produces a second one.

use vstd::prelude::*;

verus! {

/// A map from text keys to values.
pub struct TextMap<V> {
    entries: Vec<(String, V)>,
}

impl<V> TextMap<V> {
    /// Whether slot `i` is the first one that holds `key`.
    spec fn first_at(self, key: Seq<char>, i: int) -> bool {
        &&& 0 <= i < self.entries@.len()
        &&& self.entries@[i].0@ == key
        &&& forall|j: int| 0 <= j < i ==> (#[trigger] self.entries@[j]).0@ != key
    }

    /// Whether some slot holds `key`.
    spec fn has(self, key: Seq<char>) -> bool {
        exists|i: int| self.first_at(key, i)
    }

    /// The first slot that holds `key`, where one does.
    spec fn slot_of(self, key: Seq<char>) -> int {
        choose|i: int| self.first_at(key, i)
    }

    /// The first slot that holds a key is the slot of that key.
    proof fn lemma_slot(self, key: Seq<char>, i: int)
        requires
            self.first_at(key, i),
        ensures
            self.has(key),
            self.slot_of(key) == i,
            self@.contains_key(key),
            self@[key] == self.entries@[i].1,
    {
        let j = self.slot_of(key);
        assert(self.first_at(key, j));
        if j < i {
            assert(self.entries@[j].0@ != key);
        } else if i < j {
            assert(self.entries@[i].0@ != key);
        }
    }

    /// The map without entries.
    pub fn new() -> (m: TextMap<V>)
        ensures
            m@ == Map::<Seq<char>, V>::empty(),
    {
        let m = TextMap { entries: Vec::new() };
        assert(m@ =~= Map::<Seq<char>, V>::empty());
        m
    }

    /// The first slot that holds `key`, if one does.
    fn find(&self, key: &String) -> (r: Option<usize>)
        ensures
            match r {
                Some(i) => self.first_at(key@, i as int),
                None => !self.has(key@),
            },
    {
        let mut i: usize = 0;
        while i < self.entries.len()
            invariant
                i <= self.entries@.len(),
                forall|j: int| 0 <= j < i ==> (#[trigger] self.entries@[j]).0@ != key@,
            decreases self.entries@.len() - i,
        {
            if self.entries[i].0 == *key {
                return Some(i);
            }
            i += 1;
        }
        proof {
            if self.has(key@) {
                let j = self.slot_of(key@);
                assert(self.first_at(key@, j));
                assert(self.entries@[j].0@ != key@);
            }
        }
        None
    }

    /// Whether the map has an entry for `key`.
    pub fn contains_key(&self, key: &String) -> (b: bool)
        ensures
            b == self@.contains_key(key@),
    {
        match self.find(key) {
            Some(i) => {
                proof {
                    self.lemma_slot(key@, i as int);
                }
                true
            },
            None => false,
        }
    }

    /// The value stored for `key`, if there is one.
    pub fn get(&self, key: &String) -> (r: Option<&V>)
        ensures
            match r {
                Some(v) => self@.contains_key(key@) && self@[key@] == *v,
                None => !self@.contains_key(key@),
            },
    {
        match self.find(key) {
            Some(i) => {
                proof {
                    self.lemma_slot(key@, i as int);
                }
                Some(&self.entries[i].1)
            },
            None => None,
        }
    }

    /// Stores `value` for `key`, in place of what was stored for it before.
    pub fn insert(&mut self, key: String, value: V)
        ensures
            final(self)@ == old(self)@.insert(key@, value),
    {
        let ghost before = *self;
        let ghost k = key@;
        match self.find(&key) {
            Some(i) => {
                self.entries.set(i, (key, value));
                proof {
                    let after = *self;
                    assert forall|q: Seq<char>, j: int|
                        after.first_at(q, j) == before.first_at(q, j) by {
                        if before.first_at(q, j) {
                            assert forall|l: int| 0 <= l < j implies (
                            #[trigger] after.entries@[l]).0@ != q by {
                                assert(before.entries@[l].0@ != q);
                            }
                        }
                        if after.first_at(q, j) {
                            assert forall|l: int| 0 <= l < j implies (
                            #[trigger] before.entries@[l]).0@ != q by {
                                assert(after.entries@[l].0@ != q);
                            }
                        }
                    }
                    assert forall|q: Seq<char>| after.has(q) == before.has(q) by {
                        if before.has(q) {
                            assert(after.first_at(q, before.slot_of(q)));
                        }
                        if after.has(q) {
                            assert(before.first_at(q, after.slot_of(q)));
                        }
                    }
                    before.lemma_slot(k, i as int);
                    assert forall|q: Seq<char>| after.has(q) implies #[trigger] after@[q]
                        == before@.insert(k, value)[q] by {
                        let j = after.slot_of(q);
                        after.lemma_slot(q, j);
                        before.lemma_slot(q, j);
                        if q == k {
                            after.lemma_slot(k, i as int);
                        }
                    }
                    assert(after@ =~= before@.insert(k, value));
                }
            },
            None => {
                self.entries.push((key, value));
                proof {
                    let after = *self;
                    let n = before.entries@.len() as int;
                    assert forall|q: Seq<char>, j: int|
                        before.first_at(q, j) implies after.first_at(q, j) by {
                        assert forall|l: int| 0 <= l < j implies (#[trigger] after.entries@[l]).0@
                            != q by {
                            assert(before.entries@[l].0@ != q);
                        }
                    }
                    assert forall|q: Seq<char>, j: int|
                        after.first_at(q, j) && j != n implies before.first_at(q, j) by {
                        assert forall|l: int| 0 <= l < j implies (#[trigger] before.entries@[l]).0@
                            != q by {
                            assert(after.entries@[l].0@ != q);
                        }
                    }
                    assert(after.first_at(k, n)) by {
                        assert forall|l: int| 0 <= l < n implies (#[trigger] after.entries@[l]).0@
                            != k by {
                            if before.entries@[l].0@ == k {
                                lemma_first_exists(before, k, l);
                            }
                        }
                    }
                    assert forall|q: Seq<char>| after.has(q) == (before.has(q) || q == k) by {
                        if before.has(q) {
                            assert(after.first_at(q, before.slot_of(q)));
                        }
                        if after.has(q) && q != k {
                            let j = after.slot_of(q);
                            assert(after.first_at(q, j));
                            assert(before.first_at(q, j));
                        }
                    }
                    assert forall|q: Seq<char>| after.has(q) implies #[trigger] after@[q]
                        == before@.insert(k, value)[q] by {
                        let j = after.slot_of(q);
                        after.lemma_slot(q, j);
                        if q == k {
                            after.lemma_slot(k, n);
                        } else {
                            before.lemma_slot(q, j);
                        }
                    }
                    assert(after@ =~= before@.insert(k, value));
                }
            },
        }
    }
}

/// A key that some slot holds has a first slot.
proof fn lemma_first_exists<V>(m: TextMap<V>, key: Seq<char>, i: int)
    requires
        0 <= i < m.entries@.len(),
        m.entries@[i].0@ == key,
    ensures
        m.has(key),
    decreases i,
{
    if exists|j: int| 0 <= j < i && (#[trigger] m.entries@[j]).0@ == key {
        let j = choose|j: int| 0 <= j < i && (#[trigger] m.entries@[j]).0@ == key;
        lemma_first_exists(m, key, j);
    } else {
        assert(m.first_at(key, i));
    }
}

impl<V> View for TextMap<V> {
    type V = Map<Seq<char>, V>;

    closed spec fn view(&self) -> Map<Seq<char>, V> {
        Map::new(|k: Seq<char>| self.has(k), |k: Seq<char>| self.entries@[self.slot_of(k)].1)
    }
}

} // verus!
