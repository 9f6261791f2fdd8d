//! The entity store: an insertion-ordered map from string ids to records.
//!
//! Records are held in two aligned columns.  Lookup is linear; iteration
//! order is insertion order, which gives every scan in the library a
//! deterministic order.  The well-formedness invariant is that keys are
//! pairwise distinct.

use vstd::prelude::*;

verus! {

/// An insertion-ordered association map keyed by string values.
pub struct StoreMap<V> {
    pub keys: Vec<String>,
    pub vals: Vec<V>,
}

impl<V> StoreMap<V> {
    /// Aligned columns with pairwise-distinct keys.
    pub open spec fn wf(self) -> bool {
        &&& self.keys@.len() == self.vals@.len()
        &&& forall|i: int, j: int|
            0 <= i < j < self.keys@.len() ==> self.keys@[i]@ != self.keys@[j]@
    }

    /// Number of entries.
    pub open spec fn spec_len(self) -> nat {
        self.keys@.len()
    }

    /// Some entry has key `k`.
    pub open spec fn contains_key(self, k: Seq<char>) -> bool {
        exists|i: int| 0 <= i < self.keys@.len() && self.keys@[i]@ == k
    }

    /// Position of the entry with key `k` (meaningful when `contains_key`
    /// holds and the map is well formed).
    pub open spec fn index_of(self, k: Seq<char>) -> int {
        choose|i: int| 0 <= i < self.keys@.len() && self.keys@[i]@ == k
    }

    /// The record stored under `k`, if any.
    pub open spec fn spec_get(self, k: Seq<char>) -> Option<V> {
        if self.contains_key(k) {
            Option::Some(self.vals@[self.index_of(k)])
        } else {
            Option::None
        }
    }

    /// With distinct keys, any position holding `k` is the position of `k`.
    pub proof fn lemma_index_of_unique(self, k: Seq<char>, i: int)
        requires
            self.wf(),
            0 <= i < self.keys@.len(),
            self.keys@[i]@ == k,
        ensures
            self.index_of(k) == i,
            self.contains_key(k),
            self.spec_get(k) == Option::Some(self.vals@[i]),
    {
        assert(self.contains_key(k));
        let j = self.index_of(k);
        if i < j {
            assert(self.keys@[i]@ != self.keys@[j]@);
        } else if j < i {
            assert(self.keys@[j]@ != self.keys@[i]@);
        }
    }

    /// An empty store.
    pub fn new() -> (r: Self)
        ensures
            r.wf(),
            r.spec_len() == 0,
            forall|k: Seq<char>| !r.contains_key(k),
    {
        StoreMap { keys: Vec::new(), vals: Vec::new() }
    }

    /// Number of entries.
    pub fn len(&self) -> (r: usize)
        requires
            self.wf(),
        ensures
            r == self.spec_len(),
    {
        self.keys.len()
    }

    /// Position of the entry with key `k`, if any.
    pub fn find(&self, k: &String) -> (r: Option<usize>)
        requires
            self.wf(),
        ensures
            match r {
                Option::Some(i) => {
                    &&& i < self.keys@.len()
                    &&& self.keys@[i as int]@ == k@
                    &&& i as int == self.index_of(k@)
                    &&& self.contains_key(k@)
                    &&& self.spec_get(k@) == Option::Some(self.vals@[i as int])
                },
                Option::None => !self.contains_key(k@),
            },
    {
        let mut i: usize = 0;
        while i < self.keys.len()
            invariant
                self.wf(),
                i <= self.keys@.len(),
                forall|j: int| 0 <= j < i ==> self.keys@[j]@ != k@,
            decreases self.keys@.len() - i,
        {
            if self.keys[i].eq(k) {
                proof {
                    self.lemma_index_of_unique(k@, i as int);
                }
                return Option::Some(i);
            }
            i += 1;
        }
        Option::None
    }

    /// Borrow the record stored under `k`, if any.
    pub fn get(&self, k: &String) -> (r: Option<&V>)
        requires
            self.wf(),
        ensures
            match r {
                Option::Some(v) => self.spec_get(k@) == Option::Some(*v),
                Option::None => self.spec_get(k@) == Option::<V>::None,
            },
    {
        match self.find(k) {
            Option::Some(i) => Option::Some(&self.vals[i]),
            Option::None => Option::None,
        }
    }

    /// Replace the record at position `i`, keeping its key.
    pub fn set_val(&mut self, i: usize, v: V)
        requires
            old(self).wf(),
            i < old(self).spec_len(),
        ensures
            final(self).wf(),
            final(self).keys == old(self).keys,
            final(self).keys@ == old(self).keys@,
            final(self).vals@ == old(self).vals@.update(i as int, v),
            final(self).spec_len() == old(self).spec_len(),
            final(self).spec_get(old(self).keys@[i as int]@) == Option::Some(v),
            forall|k2: Seq<char>|
                k2 != old(self).keys@[i as int]@ ==> final(self).spec_get(k2) == old(
                    self,
                ).spec_get(k2),
            forall|k2: Seq<char>|
                #[trigger] final(self).contains_key(k2) <==> old(self).contains_key(k2),
    {
        self.vals.set(i, v);
        proof {
            let k = old(self).keys@[i as int]@;
            assert(final(self).wf());
            final(self).lemma_index_of_unique(k, i as int);
            assert forall|k2: Seq<char>| k2 != k implies final(self).spec_get(k2) == old(
                self,
            ).spec_get(k2) by {
                if old(self).contains_key(k2) {
                    let j = old(self).index_of(k2);
                    old(self).lemma_index_of_unique(k2, j);
                    final(self).lemma_index_of_unique(k2, j);
                    assert(j != i as int);
                } else {
                    assert(!final(self).contains_key(k2));
                }
            }
        }
    }

    /// Store `v` under `k`: replace the record in place if the key exists,
    /// append a new entry otherwise.
    pub fn insert(&mut self, k: String, v: V)
        requires
            old(self).wf(),
        ensures
            final(self).wf(),
            final(self).contains_key(k@),
            final(self).spec_get(k@) == Option::Some(v),
            forall|k2: Seq<char>|
                k2 != k@ ==> final(self).spec_get(k2) == old(self).spec_get(k2),
            forall|k2: Seq<char>|
                #[trigger] final(self).contains_key(k2)
                    <==> old(self).contains_key(k2) || k2 == k@,
            old(self).contains_key(k@) ==> {
                &&& final(self).keys@ == old(self).keys@
                &&& final(self).vals@ == old(self).vals@.update(old(self).index_of(k@), v)
                &&& final(self).spec_len() == old(self).spec_len()
            },
            !old(self).contains_key(k@) ==> {
                &&& final(self).keys@ == old(self).keys@.push(k)
                &&& final(self).vals@ == old(self).vals@.push(v)
                &&& final(self).spec_len() == old(self).spec_len() + 1
            },
    {
        let found = self.find(&k);
        match found {
            Option::Some(i) => {
                self.vals.set(i, v);
                proof {
                    assert(final(self).wf());
                    final(self).lemma_index_of_unique(k@, i as int);
                    assert forall|k2: Seq<char>| k2 != k@ implies final(self).spec_get(k2)
                        == old(self).spec_get(k2) by {
                        if old(self).contains_key(k2) {
                            let j = old(self).index_of(k2);
                            old(self).lemma_index_of_unique(k2, j);
                            final(self).lemma_index_of_unique(k2, j);
                            assert(j != i as int);
                        } else {
                            assert(!final(self).contains_key(k2));
                        }
                    }
                    assert forall|k2: Seq<char>| #[trigger] final(self).contains_key(k2)
                        <==> old(self).contains_key(k2) || k2 == k@ by {
                        if final(self).contains_key(k2) {
                            let j = final(self).index_of(k2);
                        }
                    }
                }
            },
            Option::None => {
                let ghost n = self.keys@.len() as int;
                self.keys.push(k);
                self.vals.push(v);
                proof {
                    assert forall|i: int, j: int|
                        0 <= i < j < final(self).keys@.len() implies final(self).keys@[i]@
                        != final(self).keys@[j]@ by {
                        if j < n {
                            assert(old(self).keys@[i]@ != old(self).keys@[j]@);
                        } else {
                            assert(final(self).keys@[j] == k);
                            assert(!old(self).contains_key(k@));
                            assert(old(self).keys@[i]@ != k@);
                        }
                    }
                    final(self).lemma_index_of_unique(k@, n);
                    assert forall|k2: Seq<char>| k2 != k@ implies final(self).spec_get(k2)
                        == old(self).spec_get(k2) by {
                        if old(self).contains_key(k2) {
                            let j = old(self).index_of(k2);
                            old(self).lemma_index_of_unique(k2, j);
                            final(self).lemma_index_of_unique(k2, j);
                        } else {
                            if final(self).contains_key(k2) {
                                let j = final(self).index_of(k2);
                                assert(j == n);
                            }
                        }
                    }
                    assert forall|k2: Seq<char>| #[trigger] final(self).contains_key(k2)
                        <==> old(self).contains_key(k2) || k2 == k@ by {
                        if final(self).contains_key(k2) {
                            let j = final(self).index_of(k2);
                            if j < n {
                                assert(old(self).keys@[j]@ == k2);
                            }
                        }
                        if old(self).contains_key(k2) {
                            let j = old(self).index_of(k2);
                            assert(final(self).keys@[j]@ == k2);
                        }
                    }
                }
            },
        }
    }
}

} // verus!
