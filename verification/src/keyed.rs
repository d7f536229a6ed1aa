//! A small map from strings to values, kept as a list without repeated keys.
//!
//! Tags and job ids are few; a list that is searched from the front serves
//! them, and every operation is proved against the map it stands for.

use vstd::prelude::*;
use vstd::string::*;
use crate::text::str_eq;

verus! {

/// A map from strings to values.
pub struct StringMap<T> {
    entries: Vec<(String, T)>,
}

impl<T> StringMap<T> {
    /// No key is held twice. Every map that this module hands out is valid,
    /// and every method keeps it so.
    pub closed spec fn is_valid(self) -> bool {
        forall|i: int, j: int|
            0 <= i < j < self.entries@.len() ==> (#[trigger] self.entries@[i]).0@ != (
            #[trigger] self.entries@[j]).0@
    }

    /// Some slot holds `key`.
    spec fn holds(self, key: Seq<char>) -> bool {
        exists|i: int| 0 <= i < self.entries@.len() && (#[trigger] self.entries@[i]).0@ == key
    }

    /// The slot that holds `key`.
    spec fn slot_of(self, key: Seq<char>) -> int {
        choose|i: int| 0 <= i < self.entries@.len() && (#[trigger] self.entries@[i]).0@ == key
    }

    /// The map that the list stands for.
    pub closed spec fn view(self) -> Map<Seq<char>, T> {
        Map::new(|key: Seq<char>| self.holds(key), |key: Seq<char>| self.entries@[self.slot_of(key)].1)
    }

    /// The map, slot by slot.
    proof fn lemma_slots(self)
        requires
            self.is_valid(),
        ensures
            forall|i: int|
                0 <= i < self.entries@.len() ==> self@.contains_key(
                    (#[trigger] self.entries@[i]).0@,
                ) && self@[self.entries@[i].0@] == self.entries@[i].1,
            forall|key: Seq<char>| #[trigger]
                self@.contains_key(key) ==> 0 <= self.slot_of(key) < self.entries@.len()
                    && self.entries@[self.slot_of(key)].0@ == key,
    {
        assert forall|i: int| 0 <= i < self.entries@.len() implies self@.contains_key(
            (#[trigger] self.entries@[i]).0@,
        ) && self@[self.entries@[i].0@] == self.entries@[i].1 by {
            let key = self.entries@[i].0@;
            assert(self.holds(key));
            let k = self.slot_of(key);
            assert(self.entries@[k].0@ == key);
            assert(k == i);
        }
    }

    /// An empty map.
    pub fn new() -> (map: StringMap<T>)
        ensures
            map.is_valid(),
            map@ == Map::<Seq<char>, T>::empty(),
    {
        let map = StringMap { entries: Vec::new() };
        assert(map@ =~= Map::<Seq<char>, T>::empty());
        map
    }

    /// The slot that holds `key`, if any.
    fn find(&self, key: &str) -> (slot: Option<usize>)
        ensures
            match slot {
                Some(i) => i < self.entries@.len() && self.entries@[i as int].0@ == key@,
                None => !self.holds(key@),
            },
    {
        let mut i: usize = 0;
        while i < self.entries.len()
            invariant
                i <= self.entries@.len(),
                forall|j: int| 0 <= j < i ==> (#[trigger] self.entries@[j]).0@ != key@,
            decreases self.entries@.len() - i,
        {
            if str_eq(self.entries[i].0.as_str(), key) {
                return Some(i);
            }
            i = i + 1;
        }
        None
    }

    /// Puts `value` under `key` and hands back the value that was there.
    pub fn insert(&mut self, key: &str, value: T) -> (previous: Option<T>)
        requires
            old(self).is_valid(),
        ensures
            final(self).is_valid(),
            final(self)@ == old(self)@.insert(key@, value),
            previous == if old(self)@.contains_key(key@) {
                Some(old(self)@[key@])
            } else {
                None
            },
    {
        let ghost before = *self;
        proof {
            before.lemma_slots();
        }
        match self.find(key) {
            Some(i) => {
                let mut entry = (String::from_str(key), value);
                self.entries.set_and_swap(i, &mut entry);
                proof {
                    let after = *self;
                    assert forall|a: int, b: int| 0 <= a < b < after.entries@.len() implies (
                    #[trigger] after.entries@[a]).0@ != (#[trigger] after.entries@[b]).0@ by {
                        assert(after.entries@[a].0@ == before.entries@[a].0@);
                        assert(after.entries@[b].0@ == before.entries@[b].0@);
                    }
                    after.lemma_slots();
                    assert forall|t: Seq<char>| #[trigger]
                        after@.contains_key(t) <==> before@.insert(key@, value).contains_key(
                            t,
                        ) by {
                        if after@.contains_key(t) {
                            let k = after.slot_of(t);
                            assert(before.entries@[k].0@ == t);
                        }
                        if before@.contains_key(t) {
                            let k = before.slot_of(t);
                            assert(after.entries@[k].0@ == t);
                        }
                        if t == key@ {
                            assert(after.entries@[i as int].0@ == t);
                        }
                    }
                    assert forall|t: Seq<char>| #[trigger]
                        after@.contains_key(t) implies after@[t] == before@.insert(
                        key@,
                        value,
                    )[t] by {
                        let k = after.slot_of(t);
                        if k != i {
                            assert(before.entries@[k] == after.entries@[k]);
                        }
                    }
                    assert(after@ =~= before@.insert(key@, value));
                }
                Some(entry.1)
            },
            None => {
                self.entries.push((String::from_str(key), value));
                proof {
                    let after = *self;
                    let n = before.entries@.len() as int;
                    assert forall|a: int, b: int| 0 <= a < b < after.entries@.len() implies (
                    #[trigger] after.entries@[a]).0@ != (#[trigger] after.entries@[b]).0@ by {
                        assert(after.entries@[a] == before.entries@[a]);
                        if b < n {
                            assert(after.entries@[b] == before.entries@[b]);
                        }
                    }
                    after.lemma_slots();
                    assert forall|t: Seq<char>| #[trigger]
                        after@.contains_key(t) <==> before@.insert(key@, value).contains_key(
                            t,
                        ) by {
                        if after@.contains_key(t) {
                            let k = after.slot_of(t);
                            if k < n {
                                assert(before.entries@[k].0@ == t);
                            }
                        }
                        if before@.contains_key(t) {
                            let k = before.slot_of(t);
                            assert(after.entries@[k].0@ == t);
                        }
                        if t == key@ {
                            assert(after.entries@[n].0@ == t);
                        }
                    }
                    assert forall|t: Seq<char>| #[trigger]
                        after@.contains_key(t) implies after@[t] == before@.insert(
                        key@,
                        value,
                    )[t] by {
                        let k = after.slot_of(t);
                        if k < n {
                            assert(before.entries@[k] == after.entries@[k]);
                        }
                    }
                    assert(after@ =~= before@.insert(key@, value));
                }
                None
            },
        }
    }

    /// Takes the value under `key` out of the map.
    pub fn remove(&mut self, key: &str) -> (taken: Option<T>)
        requires
            old(self).is_valid(),
        ensures
            final(self).is_valid(),
            final(self)@ == old(self)@.remove(key@),
            taken == if old(self)@.contains_key(key@) {
                Some(old(self)@[key@])
            } else {
                None
            },
    {
        let ghost before = *self;
        proof {
            before.lemma_slots();
        }
        match self.find(key) {
            Some(i) => {
                let entry = self.entries.remove(i);
                proof {
                    let after = *self;
                    assert(after.entries@ == before.entries@.remove(i as int));
                    assert forall|a: int| 0 <= a < after.entries@.len() implies (
                    #[trigger] after.entries@[a]) == before.entries@[if a < i {
                        a
                    } else {
                        a + 1
                    }] by {}
                    assert forall|a: int, b: int| 0 <= a < b < after.entries@.len() implies (
                    #[trigger] after.entries@[a]).0@ != (#[trigger] after.entries@[b]).0@ by {
                        let a0 = if a < i {
                            a
                        } else {
                            a + 1
                        };
                        let b0 = if b < i {
                            b
                        } else {
                            b + 1
                        };
                        assert(after.entries@[a] == before.entries@[a0]);
                        assert(after.entries@[b] == before.entries@[b0]);
                    }
                    after.lemma_slots();
                    assert forall|t: Seq<char>| #[trigger]
                        after@.contains_key(t) <==> before@.remove(key@).contains_key(t) by {
                        if after@.contains_key(t) {
                            let k = after.slot_of(t);
                            let k0 = if k < i {
                                k
                            } else {
                                k + 1
                            };
                            assert(before.entries@[k0].0@ == t);
                            assert(before.entries@[i as int].0@ == key@);
                        }
                        if before@.contains_key(t) && t != key@ {
                            let k = before.slot_of(t);
                            let k1 = if k < i {
                                k
                            } else {
                                k - 1
                            };
                            assert(after.entries@[k1].0@ == t);
                        }
                    }
                    assert forall|t: Seq<char>| #[trigger]
                        after@.contains_key(t) implies after@[t] == before@.remove(key@)[t] by {
                        let k = after.slot_of(t);
                        let k0 = if k < i {
                            k
                        } else {
                            k + 1
                        };
                        assert(after.entries@[k] == before.entries@[k0]);
                    }
                    assert(after@ =~= before@.remove(key@));
                }
                Some(entry.1)
            },
            None => {
                assert(self@ =~= before@.remove(key@));
                None
            },
        }
    }

    /// The value under `key`.
    pub fn get(&self, key: &str) -> (value: Option<&T>)
        requires
            self.is_valid(),
        ensures
            match value {
                Some(v) => self@.contains_key(key@) && *v == self@[key@],
                None => !self@.contains_key(key@),
            },
    {
        proof {
            self.lemma_slots();
        }
        match self.find(key) {
            Some(i) => Some(&self.entries[i].1),
            None => None,
        }
    }

    /// Whether the map holds `key`.
    pub fn contains_key(&self, key: &str) -> (found: bool)
        ensures
            found == self@.contains_key(key@),
    {
        self.find(key).is_some()
    }

    /// The keys of the map, each once.
    pub fn keys(&self) -> (keys: Vec<String>)
        requires
            self.is_valid(),
        ensures
            forall|i: int| 0 <= i < keys@.len() ==> self@.contains_key(#[trigger] keys@[i]@),
            forall|key: Seq<char>|
                self@.contains_key(key) ==> exists|i: int|
                    0 <= i < keys@.len() && (#[trigger] keys@[i])@ == key,
            forall|i: int, j: int|
                0 <= i < j < keys@.len() ==> (#[trigger] keys@[i])@ != (#[trigger] keys@[j])@,
    {
        let mut keys: Vec<String> = Vec::new();
        let mut i: usize = 0;
        while i < self.entries.len()
            invariant
                i <= self.entries@.len(),
                keys@.len() == i,
                forall|j: int| 0 <= j < i ==> (#[trigger] keys@[j])@ == self.entries@[j].0@,
            decreases self.entries@.len() - i,
        {
            keys.push(self.entries[i].0.clone());
            i = i + 1;
        }
        proof {
            self.lemma_slots();
            assert forall|j: int| 0 <= j < keys@.len() implies self@.contains_key(
                #[trigger] keys@[j]@,
            ) by {
                assert(self.entries@[j].0@ == keys@[j]@);
            }
            assert forall|key: Seq<char>| self@.contains_key(key) implies exists|j: int|
                0 <= j < keys@.len() && (#[trigger] keys@[j])@ == key by {
                let k = self.slot_of(key);
                assert(keys@[k]@ == key);
            }
            assert forall|a: int, b: int| 0 <= a < b < keys@.len() implies (#[trigger] keys@[a])@
                != (#[trigger] keys@[b])@ by {
                assert(self.entries@[a].0@ == keys@[a]@);
                assert(self.entries@[b].0@ == keys@[b]@);
            }
        }
        keys
    }

    /// The number of keys.
    pub fn len(&self) -> (n: usize)
        requires
            self.is_valid(),
        ensures
            self@.dom().finite(),
            n == self@.dom().len(),
    {
        proof {
            self.lemma_keys_below(self.entries@.len() as int);
            assert(self.keys_below(self.entries@.len() as int) =~= self@.dom());
        }
        self.entries.len()
    }

    /// The keys held in the first `n` slots.
    spec fn keys_below(self, n: int) -> Set<Seq<char>> {
        Set::new(
            |key: Seq<char>|
                exists|i: int|
                    0 <= i < n && i < self.entries@.len() && (#[trigger] self.entries@[i]).0@
                        == key,
        )
    }

    proof fn lemma_keys_below(self, n: int)
        requires
            self.is_valid(),
            0 <= n <= self.entries@.len(),
        ensures
            self.keys_below(n).finite(),
            self.keys_below(n).len() == n,
        decreases n,
    {
        if n == 0 {
            assert(self.keys_below(0) =~= Set::<Seq<char>>::empty());
        } else {
            self.lemma_keys_below(n - 1);
            let key = self.entries@[n - 1].0@;
            assert(!self.keys_below(n - 1).contains(key));
            assert(self.keys_below(n) =~= self.keys_below(n - 1).insert(key)) by {
                assert forall|t: Seq<char>| self.keys_below(n).contains(t) implies self.keys_below(
                    n - 1,
                ).insert(key).contains(t) by {
                    let k = choose|k: int|
                        0 <= k < n && k < self.entries@.len() && (#[trigger] self.entries@[k]).0@
                            == t;
                    if k < n - 1 {
                        assert(self.keys_below(n - 1).contains(t));
                    }
                }
                assert forall|t: Seq<char>|
                    self.keys_below(n - 1).insert(key).contains(t) implies self.keys_below(
                    n,
                ).contains(t) by {
                    if t == key {
                        assert(self.entries@[n - 1].0@ == t);
                    } else {
                        let k = choose|k: int|
                            0 <= k < n - 1 && k < self.entries@.len() && (
                            #[trigger] self.entries@[k]).0@ == t;
                        assert(self.entries@[k].0@ == t);
                    }
                }
            }
        }
    }
}

} // verus!
