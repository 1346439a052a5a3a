//! A small verified association map with string keys, viewed as a
//! `Map<Seq<char>, _>`. It backs the in-memory filesystem model and the
//! scripted providers.

use crate::strings::str_eq;
use vstd::prelude::*;
use vstd::string::StringExecFns;

verus! {

pub struct MapEntry<T> {
    pub key: String,
    pub val: T,
}

/// An association list with distinct keys.
pub struct StrMap<T> {
    entries: Vec<MapEntry<T>>,
}

impl<T: View> StrMap<T> {
    pub closed spec fn wf(&self) -> bool {
        forall|i: int, j: int|
            0 <= i < j < self.entries@.len() ==> self.entries@[i].key@ != self.entries@[j].key@
    }

    closed spec fn index_spec(&self, k: Seq<char>) -> int {
        choose|i: int| 0 <= i < self.entries@.len() && self.entries@[i].key@ == k
    }

    proof fn lemma_entry(&self, i: int)
        requires
            self.wf(),
            0 <= i < self.entries@.len(),
        ensures
            self@.dom().contains(self.entries@[i].key@),
            self@[self.entries@[i].key@] == self.entries@[i].val@,
    {
        let k = self.entries@[i].key@;
        assert(0 <= i < self.entries@.len() && self.entries@[i].key@ == k);
        let j = self.index_spec(k);
        assert(0 <= j < self.entries@.len() && self.entries@[j].key@ == k);
        if i < j {
            assert(self.entries@[i].key@ != self.entries@[j].key@);
        } else if j < i {
            assert(self.entries@[j].key@ != self.entries@[i].key@);
        }
    }

    /// The empty map.
    pub fn new() -> (r: Self)
        ensures
            r.wf(),
            r@ == Map::<Seq<char>, T::V>::empty(),
    {
        let r = StrMap { entries: Vec::new() };
        proof {
            assert(r@ =~= Map::<Seq<char>, T::V>::empty());
        }
        r
    }

    fn index_of(&self, k: &str) -> (r: Option<usize>)
        ensures
            match r {
                Some(i) => i < self.entries@.len() && self.entries@[i as int].key@ == k@,
                None => forall|i: int|
                    0 <= i < self.entries@.len() ==> self.entries@[i].key@ != k@,
            },
    {
        let mut i: usize = 0;
        while i < self.entries.len()
            invariant
                i <= self.entries@.len(),
                forall|t: int| 0 <= t < i ==> self.entries@[t].key@ != k@,
            decreases self.entries@.len() - i,
        {
            if str_eq(self.entries[i].key.as_str(), k) {
                return Some(i);
            }
            i = i + 1;
        }
        None
    }

    /// Whether the map holds the key.
    pub fn contains_key(&self, k: &str) -> (r: bool)
        ensures
            r == self@.dom().contains(k@),
    {
        match self.index_of(k) {
            Some(i) => {
                proof {
                    assert(0 <= i < self.entries@.len() && self.entries@[i as int].key@ == k@);
                }
                true
            },
            None => false,
        }
    }

    /// The value under a key, if any.
    pub fn get(&self, k: &str) -> (r: Option<&T>)
        requires
            self.wf(),
        ensures
            match r {
                Some(v) => self@.dom().contains(k@) && v@ == self@[k@],
                None => !self@.dom().contains(k@),
            },
    {
        match self.index_of(k) {
            Some(i) => {
                proof {
                    self.lemma_entry(i as int);
                }
                Some(&self.entries[i].val)
            },
            None => None,
        }
    }

    /// Binds the key to the value, replacing any earlier binding.
    pub fn insert(&mut self, k: &str, v: T)
        requires
            old(self).wf(),
        ensures
            final(self).wf(),
            final(self)@ == old(self)@.insert(k@, v@),
    {
        let ghost old_self = *old(self);
        match self.index_of(k) {
            Some(i) => {
                self.entries[i] = MapEntry { key: String::from_str(k), val: v };
                proof {
                    assert(self.entries@ =~= old_self.entries@.update(
                        i as int,
                        self.entries@[i as int],
                    ));
                    assert forall|q: Seq<char>|
                        self@.dom().contains(q) == old_self@.insert(
                            k@,
                            v@,
                        ).dom().contains(q) by {
                        if q == k@ {
                            assert(self.entries@[i as int].key@ == q);
                        } else {
                            assert forall|t: int|
                                0 <= t < self.entries@.len() implies (self.entries@[t].key@ == q
                                <==> old_self.entries@[t].key@ == q) by {}
                        }
                    }
                    assert forall|q: Seq<char>| self@.dom().contains(q) implies self@[q]
                        == old_self@.insert(k@, v@)[q] by {
                        if q == k@ {
                            self.lemma_entry(i as int);
                        } else {
                            let t = choose|t: int|
                                0 <= t < self.entries@.len() && self.entries@[t].key@ == q;
                            assert(t != i);
                            self.lemma_entry(t);
                            old_self.lemma_entry(t);
                        }
                    }
                    assert(self@ =~= old_self@.insert(k@, v@));
                }
            },
            None => {
                self.entries.push(MapEntry { key: String::from_str(k), val: v });
                proof {
                    let n = old_self.entries@.len() as int;
                    assert(self.entries@.len() == n + 1);
                    assert(self.entries@[n].key@ == k@);
                    assert forall|t: int| 0 <= t < n implies self.entries@[t]
                        == old_self.entries@[t] by {}
                    assert forall|q: Seq<char>|
                        self@.dom().contains(q) == old_self@.insert(
                            k@,
                            v@,
                        ).dom().contains(q) by {
                        if q == k@ {
                            assert(self.entries@[n].key@ == q);
                        }
                    }
                    assert forall|q: Seq<char>| self@.dom().contains(q) implies self@[q]
                        == old_self@.insert(k@, v@)[q] by {
                        let t = choose|t: int|
                            0 <= t < self.entries@.len() && self.entries@[t].key@ == q;
                        if q == k@ {
                            if t < n {
                                assert(old_self.entries@[t].key@ == k@);
                            }
                            self.lemma_entry(n);
                        } else {
                            assert(t < n);
                            self.lemma_entry(t);
                            old_self.lemma_entry(t);
                        }
                    }
                    assert(self@ =~= old_self@.insert(k@, v@));
                }
            },
        }
    }
}

impl<T: View> View for StrMap<T> {
    type V = Map<Seq<char>, T::V>;

    closed spec fn view(&self) -> Map<Seq<char>, T::V> {
        Map::new(
            |k: Seq<char>|
                exists|i: int| 0 <= i < self.entries@.len() && self.entries@[i].key@ == k,
            |k: Seq<char>| self.entries@[self.index_spec(k)].val@,
        )
    }
}

} // verus!
