//! A small map from names to values that remembers the order of insertion.

use vstd::prelude::*;
use crate::im::text::str_eq;

verus! {

/// Values stored under distinct string keys, in the order in which the keys
/// were first inserted. Its view is the map from keys to values.
pub struct KeyedList<V> {
    entries: Vec<(String, V)>,
}

/// The keys of `entries`, in order.
pub open spec fn keys_of<V>(entries: Seq<(String, V)>) -> Seq<Seq<char>> {
    Seq::new(entries.len(), |i: int| entries[i].0@)
}

impl<V> KeyedList<V> {
    #[verifier::type_invariant]
    spec fn distinct_keys(&self) -> bool {
        keys_of(self.entries@).no_duplicates()
    }

    /// The keys in order of first insertion.
    pub closed spec fn keys(&self) -> Seq<Seq<char>> {
        keys_of(self.entries@)
    }

    /// The values, in the order of their keys.
    pub closed spec fn values(&self) -> Seq<V> {
        Seq::new(self.entries@.len(), |i: int| self.entries@[i].1)
    }

    /// No key occurs twice, and there is one value for each key.
    pub open spec fn wf(&self) -> bool {
        &&& self.keys().no_duplicates()
        &&& self.values().len() == self.keys().len()
    }

    /// An empty list.
    pub fn new() -> (r: Self)
        ensures
            r.keys() == Seq::<Seq<char>>::empty(),
            r.values() == Seq::<V>::empty(),
            r@ == Map::<Seq<char>, V>::empty(),
            r.wf(),
    {
        let r = KeyedList { entries: Vec::new() };
        assert(r.keys() =~= Seq::<Seq<char>>::empty());
        assert(r.values() =~= Seq::<V>::empty());
        assert(r@ =~= Map::<Seq<char>, V>::empty());
        r
    }

    /// That the invariant holds of every list.
    pub fn check_wf(&self)
        ensures
            self.wf(),
            forall|i: int| 0 <= i < self.keys().len() ==> self@.contains_key(#[trigger] self.keys()[i])
                && self@[self.keys()[i]] == self.values()[i],
            forall|k: Seq<char>| self@.contains_key(k) <==> self.keys().contains(k),
    {
        proof {
            use_type_invariant(self);
            self.lemma_view();
        }
    }

    proof fn lemma_view(&self)
        requires
            self.distinct_keys(),
        ensures
            self.wf(),
            forall|i: int| 0 <= i < self.keys().len() ==> self@.contains_key(#[trigger] self.keys()[i])
                && self@[self.keys()[i]] == self.values()[i],
            forall|k: Seq<char>| self@.contains_key(k) <==> self.keys().contains(k),
    {
        assert forall|i: int| 0 <= i < self.keys().len() implies self@.contains_key(
            #[trigger] self.keys()[i],
        ) && self@[self.keys()[i]] == self.values()[i] by {
            let k = self.keys()[i];
            assert(self.keys().contains(k));
            let j = self.keys().index_of(k);
            assert(0 <= j < self.keys().len() && self.keys()[j] == k);
            assert(j == i);
        }
    }

    /// Hands out the entries and leaves the list empty.
    fn take_entries(&mut self) -> (entries: Vec<(String, V)>)
        ensures
            entries@ == old(self).entries@,
            final(self).entries@.len() == 0,
    {
        let mut entries: Vec<(String, V)> = Vec::new();
        core::mem::swap(&mut self.entries, &mut entries);
        entries
    }

    /// How many keys the list holds.
    pub fn len(&self) -> (n: usize)
        ensures
            n == self.keys().len(),
    {
        self.entries.len()
    }

    /// Where `key` stands, if it is there.
    pub fn position(&self, key: &str) -> (r: Option<usize>)
        ensures
            match r {
                Some(i) => i < self.keys().len() && self.keys()[i as int] == key@,
                None => !self.keys().contains(key@),
            },
            r is Some <==> self@.contains_key(key@),
    {
        let mut i: usize = 0;
        while i < self.entries.len()
            invariant
                i <= self.entries.len(),
                forall|j: int| 0 <= j < i ==> self.keys()[j] != key@,
            decreases self.entries.len() - i,
        {
            if str_eq(self.entries[i].0.as_str(), key) {
                assert(self.keys()[i as int] == key@);
                assert(self.keys().contains(key@));
                return Some(i);
            }
            i += 1;
        }
        None
    }

    /// Whether `key` is there.
    pub fn contains_key(&self, key: &str) -> (b: bool)
        ensures
            b == self@.contains_key(key@),
    {
        self.position(key).is_some()
    }

    /// The value under `key`.
    pub fn get(&self, key: &str) -> (r: Option<&V>)
        ensures
            match r {
                Some(v) => self@.contains_key(key@) && *v == self@[key@],
                None => !self@.contains_key(key@),
            },
    {
        match self.position(key) {
            Some(i) => {
                proof {
                    use_type_invariant(self);
                    self.lemma_view();
                }
                Some(&self.entries[i].1)
            },
            None => None,
        }
    }

    /// The key at place `i`.
    pub fn key_at(&self, i: usize) -> (k: &String)
        requires
            i < self.keys().len(),
        ensures
            k@ == self.keys()[i as int],
    {
        &self.entries[i].0
    }

    /// The value at place `i`.
    pub fn value_at(&self, i: usize) -> (v: &V)
        requires
            i < self.keys().len(),
        ensures
            *v == self.values()[i as int],
    {
        &self.entries[i].1
    }

    /// Stores `value` under `key`. A key that is there keeps its place; a new
    /// key goes to the end.
    pub fn insert(&mut self, key: &str, value: V)
        ensures
            final(self)@ == old(self)@.insert(key@, value),
            old(self)@.contains_key(key@) ==> final(self).keys() == old(self).keys(),
            !old(self)@.contains_key(key@) ==> final(self).keys() == old(self).keys().push(key@),
    {
        proof {
            use_type_invariant(&*self);
            self.lemma_view();
        }
        match self.position(key) {
            Some(i) => {
                let ghost before = *self;
                let mut entries = self.take_entries();
                entries.set(i, (key.to_string(), value));
                assert(keys_of(entries@) =~= before.keys());
                self.entries = entries;
                proof {
                    assert(self.keys() =~= before.keys());
                    assert(self.values() =~= before.values().update(i as int, value));
                    self.lemma_view();
                    assert(self@ =~= before@.insert(key@, value)) by {
                        assert forall|k: Seq<char>| self@.contains_key(k) implies #[trigger] self@[k]
                            == before@.insert(key@, value)[k] by {
                            let j = self.keys().index_of(k);
                            assert(self.keys().contains(k));
                            assert(0 <= j < self.keys().len() && self.keys()[j] == k);
                        }
                    }
                }
            },
            None => {
                let ghost before = *self;
                let mut entries = self.take_entries();
                entries.push((key.to_string(), value));
                assert(keys_of(entries@) =~= before.keys().push(key@));
                self.entries = entries;
                proof {
                    assert(self.keys() =~= before.keys().push(key@));
                    assert(self.values() =~= before.values().push(value));
                    assert(self.keys().no_duplicates());
                    self.lemma_view();
                    assert(self@ =~= before@.insert(key@, value)) by {
                        assert forall|k: Seq<char>| before@.insert(key@, value).contains_key(
                            k,
                        ) implies self@.contains_key(k) by {
                            if k != key@ {
                                let j = before.keys().index_of(k);
                                assert(before.keys().contains(k));
                                assert(self.keys()[j] == k);
                            } else {
                                assert(self.keys()[before.keys().len() as int] == k);
                            }
                        }
                        assert forall|k: Seq<char>| self@.contains_key(k) implies #[trigger] self@[k]
                            == before@.insert(key@, value)[k] by {
                            let j = self.keys().index_of(k);
                            assert(self.keys().contains(k));
                            assert(0 <= j < self.keys().len() && self.keys()[j] == k);
                            if j < before.keys().len() {
                                assert(before.keys()[j] == k);
                            }
                        }
                    }
                }
            },
        }
    }

    /// Takes the entry at place `i` out; the entries behind it move up.
    pub fn remove_at(&mut self, i: usize) -> (v: V)
        requires
            i < old(self).keys().len(),
        ensures
            v == old(self).values()[i as int],
            final(self).keys() == old(self).keys().remove(i as int),
            final(self).values() == old(self).values().remove(i as int),
            final(self)@ == old(self)@.remove(old(self).keys()[i as int]),
    {
        proof {
            use_type_invariant(&*self);
            self.lemma_view();
        }
        let ghost before = *self;
        let mut entries = self.take_entries();
        let entry = entries.remove(i);
        proof {
            let now = keys_of(entries@);
            assert(now =~= before.keys().remove(i as int));
            assert(now.no_duplicates()) by {
                assert forall|a: int, b: int| 0 <= a < now.len() && 0 <= b < now.len() && a != b implies now[a]
                    != now[b] by {
                    let a2 = if a < i { a } else { a + 1 };
                    let b2 = if b < i { b } else { b + 1 };
                    assert(now[a] == before.keys()[a2]);
                    assert(now[b] == before.keys()[b2]);
                }
            }
        }
        self.entries = entries;
        proof {
            assert(self.keys() =~= before.keys().remove(i as int));
            assert(self.values() =~= before.values().remove(i as int));
            self.lemma_view();
            let gone = before.keys()[i as int];
            assert(self@ =~= before@.remove(gone)) by {
                assert forall|k: Seq<char>| before@.remove(gone).contains_key(k) implies self@.contains_key(
                    k,
                ) by {
                    let j = before.keys().index_of(k);
                    assert(before.keys().contains(k));
                    assert(j != i);
                    let j2 = if j < i { j } else { j - 1 };
                    assert(self.keys()[j2] == k);
                }
                assert forall|k: Seq<char>| self@.contains_key(k) implies before@.remove(gone).contains_key(k)
                    && #[trigger] self@[k] == before@.remove(gone)[k] by {
                    let j = self.keys().index_of(k);
                    assert(self.keys().contains(k));
                    assert(0 <= j < self.keys().len() && self.keys()[j] == k);
                    let j2 = if j < i { j } else { j + 1 };
                    assert(before.keys()[j2] == k);
                }
            }
        }
        entry.1
    }

    /// Takes `key` and its value out, if it is there.
    pub fn remove(&mut self, key: &str) -> (r: Option<V>)
        ensures
            final(self)@ == old(self)@.remove(key@),
            match r {
                Some(v) => old(self)@.contains_key(key@) && v == old(self)@[key@],
                None => !old(self)@.contains_key(key@),
            },
    {
        proof {
            use_type_invariant(&*self);
            self.lemma_view();
        }
        match self.position(key) {
            Some(i) => Some(self.remove_at(i)),
            None => {
                assert(self@ =~= self@.remove(key@));
                None
            },
        }
    }
}

impl<V> View for KeyedList<V> {
    type V = Map<Seq<char>, V>;

    closed spec fn view(&self) -> Map<Seq<char>, V> {
        Map::new(
            |k: Seq<char>| keys_of(self.entries@).contains(k),
            |k: Seq<char>| self.entries@[keys_of(self.entries@).index_of(k)].1,
        )
    }
}

} // verus!
