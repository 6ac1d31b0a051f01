//! A map keyed by names (character sequences), held as a vector of entries
//! with distinct keys in insertion order.

use vstd::prelude::*;

use crate::text::chars_eq;

verus! {

pub struct NameMap<V> {
    entries: Vec<(Vec<char>, V)>,
}

impl<V> NameMap<V> {
    /// The entries' keys as sequences, in order.
    pub closed spec fn keys_seq(self) -> Seq<Seq<char>> {
        self.entries@.map_values(|e: (Vec<char>, V)| e.0@)
    }

    /// The map from each key to its value.
    pub closed spec fn view(self) -> Map<Seq<char>, V> {
        Map::new(
            |k: Seq<char>| exists|i: int| 0 <= i < self.entries@.len() && self.entries@[i].0@ == k,
            |k: Seq<char>|
                self.entries@[choose|i: int| 0 <= i < self.entries@.len() && self.entries@[i].0@ == k].1,
        )
    }

    pub closed spec fn wf(self) -> bool {
        forall|i: int, j: int|
            0 <= i < j < self.entries@.len() ==> self.entries@[i].0@ != self.entries@[j].0@
    }

    pub closed spec fn len_view(self) -> nat {
        self.entries@.len()
    }

    pub fn new() -> (r: Self)
        ensures
            r.wf(),
            r.view() == Map::<Seq<char>, V>::empty(),
    {
        let r = NameMap { entries: Vec::new() };
        assert(r.view() =~= Map::<Seq<char>, V>::empty());
        r
    }

    fn index_of(&self, key: &Vec<char>) -> (r: Option<usize>)
        requires
            self.wf(),
        ensures
            match r {
                Some(i) => i < self.entries@.len() && self.entries@[i as int].0@ == key@,
                None => forall|i: int|
                    0 <= i < self.entries@.len() ==> self.entries@[i].0@ != key@,
            },
    {
        let mut i: usize = 0;
        while i < self.entries.len()
            invariant
                i <= self.entries@.len(),
                forall|j: int| 0 <= j < i ==> self.entries@[j].0@ != key@,
            decreases self.entries@.len() - i,
        {
            if chars_eq(&self.entries[i].0, key) {
                return Some(i);
            }
            i = i + 1;
        }
        None
    }

    proof fn lemma_view_at(self, i: int)
        requires
            self.wf(),
            0 <= i < self.entries@.len(),
        ensures
            self.view().contains_key(self.entries@[i].0@),
            self.view()[self.entries@[i].0@] == self.entries@[i].1,
    {
        let k = self.entries@[i].0@;
        let j = choose|j: int| 0 <= j < self.entries@.len() && self.entries@[j].0@ == k;
        assert(j == i);
    }

    pub fn get(&self, key: &Vec<char>) -> (r: Option<&V>)
        requires
            self.wf(),
        ensures
            r is Some <==> self.view().contains_key(key@),
            r matches Some(v) ==> *v == self.view()[key@],
    {
        match self.index_of(key) {
            Some(i) => {
                proof {
                    self.lemma_view_at(i as int);
                }
                Some(&self.entries[i].1)
            },
            None => None,
        }
    }

    pub fn contains_key(&self, key: &Vec<char>) -> (r: bool)
        requires
            self.wf(),
        ensures
            r == self.view().contains_key(key@),
    {
        self.index_of(key).is_some()
    }

    /// Sets the value of `key`, replacing an earlier value.
    pub fn insert(&mut self, key: Vec<char>, value: V)
        requires
            old(self).wf(),
        ensures
            final(self).wf(),
            final(self).view() == old(self).view().insert(key@, value),
    {
        let ghost k = key@;
        match self.index_of(&key) {
            Some(i) => {
                self.entries.set(i, (key, value));
                proof {
                    assert forall|a: int, b: int|
                        0 <= a < b < self.entries@.len() implies self.entries@[a].0@
                        != self.entries@[b].0@ by {
                        if a != i && b != i {
                            assert(self.entries@[a] == old(self).entries@[a]);
                            assert(self.entries@[b] == old(self).entries@[b]);
                        } else if a == i {
                            assert(self.entries@[b] == old(self).entries@[b]);
                        } else {
                            assert(self.entries@[a] == old(self).entries@[a]);
                        }
                    }
                    self.lemma_view_eq_insert(*old(self), k, value, i as int);
                }
            },
            None => {
                self.entries.push((key, value));
                proof {
                    let n = old(self).entries@.len() as int;
                    assert forall|a: int, b: int|
                        0 <= a < b < self.entries@.len() implies self.entries@[a].0@
                        != self.entries@[b].0@ by {
                        assert(self.entries@[a] == old(self).entries@[a]);
                        if b < n {
                            assert(self.entries@[b] == old(self).entries@[b]);
                        }
                    }
                    self.lemma_view_eq_insert(*old(self), k, value, n);
                }
            },
        }
    }

    proof fn lemma_view_eq_insert(self, prev: Self, k: Seq<char>, value: V, i: int)
        requires
            self.wf(),
            prev.wf(),
            0 <= i < self.entries@.len(),
            self.entries@[i].0@ == k,
            self.entries@[i].1 == value,
            forall|j: int| 0 <= j < self.entries@.len() && j != i ==> j < prev.entries@.len()
                && #[trigger] self.entries@[j] == prev.entries@[j],
            prev.entries@.len() <= self.entries@.len(),
            i < prev.entries@.len() ==> prev.entries@[i].0@ == k,
            i >= prev.entries@.len() ==> i == prev.entries@.len() && forall|j: int|
                0 <= j < prev.entries@.len() ==> prev.entries@[j].0@ != k,
        ensures
            self.view() == prev.view().insert(k, value),
    {
        let m1 = self.view();
        let m2 = prev.view().insert(k, value);
        assert forall|q: Seq<char>| m1.contains_key(q) <==> m2.contains_key(q) by {
            if m1.contains_key(q) && q != k {
                let j = choose|j: int| 0 <= j < self.entries@.len() && self.entries@[j].0@ == q;
                assert(self.entries@[j] == prev.entries@[j]);
                assert(prev.view().contains_key(q));
            }
            if m2.contains_key(q) && q != k {
                let j = choose|j: int| 0 <= j < prev.entries@.len() && prev.entries@[j].0@ == q;
                assert(self.entries@[j] == prev.entries@[j]);
                assert(m1.contains_key(q));
            }
            if q == k {
                assert(m1.contains_key(q));
            }
        }
        assert forall|q: Seq<char>| m1.contains_key(q) implies m1[q] == m2[q] by {
            let j = choose|j: int| 0 <= j < self.entries@.len() && self.entries@[j].0@ == q;
            self.lemma_view_at(j);
            if q != k {
                assert(self.entries@[j] == prev.entries@[j]);
                prev.lemma_view_at(j);
            }
        }
        assert(m1 =~= m2);
    }

    /// Removes `key`.
    pub fn remove(&mut self, key: &Vec<char>)
        requires
            old(self).wf(),
        ensures
            final(self).wf(),
            final(self).view() == old(self).view().remove(key@),
    {
        match self.index_of(key) {
            Some(i) => {
                self.entries.remove(i);
                proof {
                    let prev = *old(self);
                    assert forall|a: int, b: int|
                        0 <= a < b < self.entries@.len() implies self.entries@[a].0@
                        != self.entries@[b].0@ by {
                        let pa = if a < i { a } else { a + 1 };
                        let pb = if b < i { b } else { b + 1 };
                        assert(self.entries@[a] == prev.entries@[pa]);
                        assert(self.entries@[b] == prev.entries@[pb]);
                    }
                    let m1 = self.view();
                    let m2 = prev.view().remove(key@);
                    assert forall|q: Seq<char>| m1.contains_key(q) <==> m2.contains_key(q) by {
                        if m1.contains_key(q) {
                            let j = choose|j: int|
                                0 <= j < self.entries@.len() && self.entries@[j].0@ == q;
                            let pj = if j < i { j } else { j + 1 };
                            assert(self.entries@[j] == prev.entries@[pj]);
                            prev.lemma_view_at(pj);
                        }
                        if m2.contains_key(q) {
                            let j = choose|j: int|
                                0 <= j < prev.entries@.len() && prev.entries@[j].0@ == q;
                            let sj = if j < i { j } else { j - 1 };
                            assert(self.entries@[sj] == prev.entries@[j]);
                            self.lemma_view_at(sj);
                        }
                    }
                    assert forall|q: Seq<char>| m1.contains_key(q) implies m1[q] == m2[q] by {
                        let j = choose|j: int|
                            0 <= j < self.entries@.len() && self.entries@[j].0@ == q;
                        let pj = if j < i { j } else { j + 1 };
                        assert(self.entries@[j] == prev.entries@[pj]);
                        self.lemma_view_at(j);
                        prev.lemma_view_at(pj);
                    }
                    assert(m1 =~= m2);
                }
            },
            None => {
                proof {
                    assert(!old(self).view().contains_key(key@));
                    assert(old(self).view().remove(key@) =~= old(self).view());
                }
            },
        }
    }

    /// The number of keys.
    pub fn len(&self) -> (r: usize)
        ensures
            r == self.len_view(),
    {
        self.entries.len()
    }

    /// The `i`-th entry in insertion order.
    pub fn entry_at(&self, i: usize) -> (r: (&Vec<char>, &V))
        requires
            self.wf(),
            i < self.len_view(),
        ensures
            self.view().contains_key(r.0@),
            self.view()[r.0@] == *r.1,
            r.0@ == self.keys_seq()[i as int],
    {
        proof {
            self.lemma_view_at(i as int);
        }
        (&self.entries[i].0, &self.entries[i].1)
    }

    /// Every key of the map appears as some entry.
    pub proof fn lemma_keys_complete(self)
        requires
            self.wf(),
        ensures
            self.keys_seq().len() == self.len_view(),
            forall|k: Seq<char>|
                self.view().contains_key(k) ==> exists|i: int|
                    0 <= i < self.len_view() && #[trigger] self.keys_seq()[i] == k,
            forall|i: int| 0 <= i < self.len_view() ==> self.view().contains_key(#[trigger] self.keys_seq()[i]),
            forall|i: int, j: int| 0 <= i < j < self.len_view() ==> self.keys_seq()[i] != self.keys_seq()[j],
    {
        assert forall|k: Seq<char>| self.view().contains_key(k) implies exists|i: int|
            0 <= i < self.len_view() && #[trigger] self.keys_seq()[i] == k by {
            let j = choose|j: int| 0 <= j < self.entries@.len() && self.entries@[j].0@ == k;
            assert(self.keys_seq()[j] == k);
        }
        assert forall|i: int| 0 <= i < self.len_view() implies self.view().contains_key(#[trigger] self.keys_seq()[i]) by {
            self.lemma_view_at(i);
        }
    }
}

} // verus!
