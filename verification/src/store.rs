//! A map from addresses to values, kept as a list in which no address occurs twice.

use crate::address::Address;
use vstd::prelude::*;

verus! {

/// A finite map keyed by address.
pub struct AddressMap<T> {
    entries: Vec<(Address, T)>,
}

impl<T> View for AddressMap<T> {
    type V = Map<Address, T>;

    closed spec fn view(&self) -> Map<Address, T> {
        Map::new(
            |k: Address| exists|i: int| 0 <= i < self.entries@.len() && self.entries@[i].0 == k,
            |k: Address|
                {
                    let at = choose|i: int|
                        0 <= i < self.entries@.len() && self.entries@[i].0 == k;
                    self.entries@[at].1
                },
        )
    }
}

impl<T: Copy> AddressMap<T> {
    /// No address occurs twice.
    pub closed spec fn wf(&self) -> bool {
        forall|i: int, j: int|
            0 <= i < j < self.entries@.len() ==> self.entries@[i].0 != self.entries@[j].0
    }

    /// Under `wf`, the entry at position `i` is what the map holds for its address.
    proof fn lemma_entry(&self, i: int)
        requires
            self.wf(),
            0 <= i < self.entries@.len(),
        ensures
            self@.dom().contains(self.entries@[i].0),
            self@[self.entries@[i].0] == self.entries@[i].1,
    {
        let k = self.entries@[i].0;
        let c = choose|c: int| 0 <= c < self.entries@.len() && self.entries@[c].0 == k;
        assert(c == i) by {
            if c < i {
                assert(self.entries@[c].0 != self.entries@[i].0);
            } else if i < c {
                assert(self.entries@[i].0 != self.entries@[c].0);
            }
        }
    }

    /// The position of `key`, if the map holds it.
    fn position(&self, key: &Address) -> (r: Option<usize>)
        requires
            self.wf(),
        ensures
            match r {
                Some(i) => i < self.entries@.len() && self.entries@[i as int].0 == *key,
                None => !self@.dom().contains(*key),
            },
    {
        let mut i: usize = 0;
        while i < self.entries.len()
            invariant
                i <= self.entries@.len(),
                forall|j: int| 0 <= j < i ==> self.entries@[j].0 != *key,
            decreases self.entries@.len() - i,
        {
            if self.entries[i].0 == *key {
                return Some(i);
            }
            i = i + 1;
        }
        None
    }

    /// The empty map.
    pub fn new() -> (m: AddressMap<T>)
        ensures
            m.wf(),
            m@ == Map::<Address, T>::empty(),
    {
        let m = AddressMap { entries: Vec::new() };
        assert(m@ =~= Map::<Address, T>::empty());
        m
    }

    /// The value held for `key`, if any.
    pub fn get(&self, key: &Address) -> (r: Option<T>)
        requires
            self.wf(),
        ensures
            r == (if self@.dom().contains(*key) {
                Some(self@[*key])
            } else {
                None
            }),
    {
        match self.position(key) {
            Some(i) => {
                proof {
                    self.lemma_entry(i as int);
                }
                Some(self.entries[i].1)
            },
            None => None,
        }
    }

    /// Whether the map holds `key`.
    pub fn contains(&self, key: &Address) -> (r: bool)
        requires
            self.wf(),
        ensures
            r == self@.dom().contains(*key),
    {
        self.position(key).is_some()
    }

    /// Sets the value held for `key`.
    pub fn insert(&mut self, key: Address, value: T)
        requires
            old(self).wf(),
        ensures
            final(self).wf(),
            final(self)@ == old(self)@.insert(key, value),
    {
        let ghost before = *self;
        match self.position(&key) {
            Some(i) => {
                self.entries[i] = (key, value);
                proof {
                    assert(self.wf()) by {
                        assert forall|a: int, b: int|
                            0 <= a < b < self.entries@.len() implies self.entries@[a].0
                            != self.entries@[b].0 by {
                            assert(self.entries@[a].0 == before.entries@[a].0);
                            assert(self.entries@[b].0 == before.entries@[b].0);
                        }
                    }
                    assert forall|k: Address| #[trigger]
                        self@.dom().contains(k) == before@.insert(key, value).dom().contains(
                            k,
                        ) by {
                        if self@.dom().contains(k) {
                            let c = choose|c: int|
                                0 <= c < self.entries@.len() && self.entries@[c].0 == k;
                            assert(before.entries@[c].0 == k);
                        }
                        if before@.dom().contains(k) {
                            let c = choose|c: int|
                                0 <= c < before.entries@.len() && before.entries@[c].0 == k;
                            assert(self.entries@[c].0 == k);
                        }
                        if k == key {
                            assert(self.entries@[i as int].0 == k);
                        }
                    }
                    assert forall|k: Address| #[trigger]
                        self@.dom().contains(k) implies self@[k] == before@.insert(
                        key,
                        value,
                    )[k] by {
                        let c = choose|c: int|
                            0 <= c < self.entries@.len() && self.entries@[c].0 == k;
                        self.lemma_entry(c);
                        if k != key {
                            assert(before.entries@[c].0 == k);
                            before.lemma_entry(c);
                        } else {
                            assert(c == i) by {
                                if c < i {
                                    assert(self.entries@[c].0 != self.entries@[i as int].0);
                                } else if i < c {
                                    assert(self.entries@[i as int].0 != self.entries@[c].0);
                                }
                            }
                        }
                    }
                    assert(self@ =~= before@.insert(key, value));
                }
            },
            None => {
                self.entries.push((key, value));
                proof {
                    let n = before.entries@.len() as int;
                    assert(self.wf()) by {
                        assert forall|a: int, b: int|
                            0 <= a < b < self.entries@.len() implies self.entries@[a].0
                            != self.entries@[b].0 by {
                            assert(self.entries@[a] == before.entries@[a]);
                            if b < n {
                                assert(self.entries@[b] == before.entries@[b]);
                            } else {
                                assert(before.entries@[a].0 != key) by {
                                    if before.entries@[a].0 == key {
                                        assert(before@.dom().contains(key));
                                    }
                                }
                            }
                        }
                    }
                    assert forall|k: Address| #[trigger]
                        self@.dom().contains(k) == before@.insert(key, value).dom().contains(
                            k,
                        ) by {
                        if self@.dom().contains(k) {
                            let c = choose|c: int|
                                0 <= c < self.entries@.len() && self.entries@[c].0 == k;
                            if c < n {
                                assert(before.entries@[c].0 == k);
                            }
                        }
                        if before@.dom().contains(k) {
                            let c = choose|c: int|
                                0 <= c < before.entries@.len() && before.entries@[c].0 == k;
                            assert(self.entries@[c].0 == k);
                        }
                        if k == key {
                            assert(self.entries@[n].0 == k);
                        }
                    }
                    assert forall|k: Address| #[trigger]
                        self@.dom().contains(k) implies self@[k] == before@.insert(
                        key,
                        value,
                    )[k] by {
                        let c = choose|c: int|
                            0 <= c < self.entries@.len() && self.entries@[c].0 == k;
                        self.lemma_entry(c);
                        if k != key {
                            assert(c < n);
                            assert(before.entries@[c] == self.entries@[c]);
                            before.lemma_entry(c);
                        } else {
                            assert(c == n) by {
                                if c < n {
                                    assert(before.entries@[c].0 == key);
                                    assert(before@.dom().contains(key));
                                }
                            }
                        }
                    }
                    assert(self@ =~= before@.insert(key, value));
                }
            },
        }
    }

    /// Forgets `key` and what was held for it.
    pub fn remove(&mut self, key: &Address)
        requires
            old(self).wf(),
        ensures
            final(self).wf(),
            final(self)@ == old(self)@.remove(*key),
    {
        let ghost before = *self;
        match self.position(key) {
            Some(i) => {
                self.entries.remove(i);
                proof {
                    let at = i as int;
                    assert(self.wf()) by {
                        assert forall|a: int, b: int|
                            0 <= a < b < self.entries@.len() implies self.entries@[a].0
                            != self.entries@[b].0 by {
                            let a0 = if a < at { a } else { a + 1 };
                            let b0 = if b < at { b } else { b + 1 };
                            assert(self.entries@[a] == before.entries@[a0]);
                            assert(self.entries@[b] == before.entries@[b0]);
                        }
                    }
                    assert forall|k: Address| #[trigger]
                        self@.dom().contains(k) == before@.remove(*key).dom().contains(k) by {
                        if self@.dom().contains(k) {
                            let c = choose|c: int|
                                0 <= c < self.entries@.len() && self.entries@[c].0 == k;
                            let c0 = if c < at { c } else { c + 1 };
                            assert(before.entries@[c0].0 == k);
                            assert(k != *key) by {
                                if c0 < at {
                                    assert(before.entries@[c0].0 != before.entries@[at].0);
                                } else {
                                    assert(before.entries@[at].0 != before.entries@[c0].0);
                                }
                            }
                        }
                        if before@.dom().contains(k) && k != *key {
                            let c = choose|c: int|
                                0 <= c < before.entries@.len() && before.entries@[c].0 == k;
                            let c1 = if c < at { c } else { c - 1 };
                            assert(self.entries@[c1].0 == k);
                        }
                    }
                    assert forall|k: Address| #[trigger]
                        self@.dom().contains(k) implies self@[k] == before@.remove(*key)[k] by {
                        let c = choose|c: int|
                            0 <= c < self.entries@.len() && self.entries@[c].0 == k;
                        let c0 = if c < at { c } else { c + 1 };
                        self.lemma_entry(c);
                        assert(before.entries@[c0] == self.entries@[c]);
                        before.lemma_entry(c0);
                    }
                    assert(self@ =~= before@.remove(*key));
                }
            },
            None => {
                proof {
                    assert(self@ =~= before@.remove(*key));
                }
            },
        }
    }
}

} // verus!
