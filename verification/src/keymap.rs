//! A small verified map from primary keys to values, used as the per-type
//! partition of the raw object storage.
//!
//! The map is kept as a vector of key/value pairs with pairwise-distinct
//! keys; its mathematical view is a `Map<int, V>` over the keys present.

use vstd::prelude::*;

use crate::objects::IdType;

verus! {

pub struct IdMap<T> {
    entries: Vec<(IdType, T)>,
}

impl<T> IdMap<T> {
    /// Keys are pairwise distinct, so each key denotes at most one entry.
    /// Constructors establish this and every method preserves it.
    pub closed spec fn wf(self) -> bool {
        forall|i: int, j: int|
            0 <= i < j < self.entries@.len() ==> self.entries@[i].0 != self.entries@[j].0
    }

    spec fn has_key(entries: Seq<(IdType, T)>, k: int) -> bool {
        exists|i: int| 0 <= i < entries.len() && entries[i].0 as int == k
    }

    /// Index of the entry holding `id`, if any.
    fn find(&self, id: IdType) -> (r: Option<usize>)
        ensures
            match r {
                Some(i) => i < self.entries@.len() && self.entries@[i as int].0 == id,
                None => !Self::has_key(self.entries@, id as int),
            },
    {
        let n = self.entries.len();
        let mut i: usize = 0;
        while i < n
            invariant
                n == self.entries@.len(),
                i <= n,
                forall|j: int| 0 <= j < i ==> self.entries@[j].0 != id,
            decreases n - i,
        {
            if self.entries[i].0 == id {
                return Some(i);
            }
            i += 1;
        }
        None
    }
}

impl<T: View> IdMap<T> {
    spec fn value_at(entries: Seq<(IdType, T)>, k: int) -> T::V {
        let i = choose|i: int| 0 <= i < entries.len() && entries[i].0 as int == k;
        entries[i].1@
    }

    pub fn new() -> (m: Self)
        ensures
            m.wf(),
            m@ == Map::<int, T::V>::empty(),
    {
        let m = IdMap { entries: Vec::new() };
        proof {
            assert(m@ =~= Map::<int, T::V>::empty());
        }
        m
    }

    /// Insert-or-replace by key.
    pub fn insert(&mut self, id: IdType, value: T)
        requires
            old(self).wf(),
        ensures
            final(self).wf(),
            final(self)@ == old(self)@.insert(id as int, value@),
    {
        let ghost old_entries = self.entries@;
        match self.find(id) {
            Some(i) => {
                self.entries.set(i, (id, value));
                proof {
                    assert forall|k: int| #[trigger] final(self)@.dom().contains(k)
                        <==> old(self)@.insert(id as int, value@).dom().contains(k) by {
                        if Self::has_key(old_entries, k) {
                            let w = choose|w: int|
                                0 <= w < old_entries.len() && old_entries[w].0 as int == k;
                            assert(self.entries@[w].0 as int == k || k == id as int);
                        }
                        if Self::has_key(self.entries@, k) {
                            let w = choose|w: int|
                                0 <= w < self.entries@.len() && self.entries@[w].0 as int == k;
                            assert(old_entries[w].0 as int == k || k == id as int);
                        }
                    }
                    assert forall|k: int| final(self)@.dom().contains(k)
                        implies #[trigger] final(self)@[k] == old(self)@.insert(
                        id as int,
                        value@,
                    )[k] by {
                        let w = choose|w: int|
                            0 <= w < self.entries@.len() && self.entries@[w].0 as int == k;
                        if k == id as int {
                            assert(self.entries@[w].0 == self.entries@[i as int].0);
                            assert(w == i as int);
                        } else {
                            assert(old_entries[w].0 as int == k);
                        }
                    }
                    assert(final(self)@ =~= old(self)@.insert(id as int, value@));
                }
            },
            None => {
                self.entries.push((id, value));
                proof {
                    assert forall|k: int| #[trigger] final(self)@.dom().contains(k)
                        <==> old(self)@.insert(id as int, value@).dom().contains(k) by {
                        if Self::has_key(old_entries, k) {
                            let w = choose|w: int|
                                0 <= w < old_entries.len() && old_entries[w].0 as int == k;
                            assert(self.entries@[w].0 as int == k);
                        }
                        if Self::has_key(self.entries@, k) && k != id as int {
                            let w = choose|w: int|
                                0 <= w < self.entries@.len() && self.entries@[w].0 as int == k;
                            assert(w < old_entries.len());
                        }
                        assert(self.entries@[old_entries.len() as int].0 as int == id as int);
                    }
                    assert forall|k: int| final(self)@.dom().contains(k)
                        implies #[trigger] final(self)@[k] == old(self)@.insert(
                        id as int,
                        value@,
                    )[k] by {
                        let w = choose|w: int|
                            0 <= w < self.entries@.len() && self.entries@[w].0 as int == k;
                        if k == id as int {
                            assert(w == old_entries.len() as int);
                        } else {
                            assert(w < old_entries.len());
                            assert(old_entries[w].0 as int == k);
                        }
                    }
                    assert(final(self)@ =~= old(self)@.insert(id as int, value@));
                }
            },
        }
    }

    /// Remove by key; a no-op if the key is absent.
    pub fn remove(&mut self, id: IdType)
        requires
            old(self).wf(),
        ensures
            final(self).wf(),
            final(self)@ == old(self)@.remove(id as int),
    {
        let ghost old_entries = self.entries@;
        match self.find(id) {
            Some(i) => {
                self.entries.remove(i);
                proof {
                    assert forall|a: int, b: int|
                        0 <= a < b < self.entries@.len() implies self.entries@[a].0
                        != self.entries@[b].0 by {
                        let a0 = if a < i as int {
                            a
                        } else {
                            a + 1
                        };
                        let b0 = if b < i as int {
                            b
                        } else {
                            b + 1
                        };
                        assert(old_entries[a0].0 != old_entries[b0].0);
                    }
                    assert forall|k: int| #[trigger] final(self)@.dom().contains(k)
                        <==> old(self)@.remove(id as int).dom().contains(k) by {
                        if Self::has_key(self.entries@, k) {
                            let w = choose|w: int|
                                0 <= w < self.entries@.len() && self.entries@[w].0 as int == k;
                            let w0 = if w < i as int {
                                w
                            } else {
                                w + 1
                            };
                            assert(old_entries[w0].0 as int == k);
                            assert(k != id as int);
                        }
                        if Self::has_key(old_entries, k) && k != id as int {
                            let w = choose|w: int|
                                0 <= w < old_entries.len() && old_entries[w].0 as int == k;
                            assert(w != i as int);
                            let w1 = if w < i as int {
                                w
                            } else {
                                w - 1
                            };
                            assert(self.entries@[w1].0 as int == k);
                        }
                    }
                    assert forall|k: int| final(self)@.dom().contains(k)
                        implies #[trigger] final(self)@[k] == old(self)@.remove(id as int)[k] by {
                        let w = choose|w: int|
                            0 <= w < self.entries@.len() && self.entries@[w].0 as int == k;
                        let w0 = if w < i as int {
                            w
                        } else {
                            w + 1
                        };
                        assert(old_entries[w0].0 as int == k);
                        assert(old_entries[w0].1@ == self.entries@[w].1@);
                    }
                    assert(final(self)@ =~= old(self)@.remove(id as int));
                }
            },
            None => {
                proof {
                    assert(final(self)@ =~= old(self)@.remove(id as int));
                }
            },
        }
    }

    /// Typed lookup by key.
    pub fn get(&self, id: IdType) -> (r: Option<&T>)
        requires
            self.wf(),
        ensures
            match r {
                Some(v) => self@.dom().contains(id as int) && v@ == self@[id as int],
                None => !self@.dom().contains(id as int),
            },
    {
        match self.find(id) {
            Some(i) => {
                proof {
                    let w = choose|w: int|
                        0 <= w < self.entries@.len() && self.entries@[w].0 as int == id as int;
                    assert(w == i as int);
                }
                Some(&self.entries[i].1)
            },
            None => None,
        }
    }

    /// All keys currently present, each exactly once, in no promised order.
    pub fn keys(&self) -> (r: Vec<IdType>)
        requires
            self.wf(),
        ensures
            forall|i: int, j: int| 0 <= i < j < r@.len() ==> r@[i] != r@[j],
            forall|i: int| 0 <= i < r@.len() ==> self@.dom().contains(#[trigger] r@[i] as int),
            forall|k: int| #[trigger] self@.dom().contains(k) ==> exists|i: int|
                0 <= i < r@.len() && r@[i] as int == k,
    {
        let n = self.entries.len();
        let mut r: Vec<IdType> = Vec::new();
        let mut i: usize = 0;
        while i < n
            invariant
                n == self.entries@.len(),
                i <= n,
                r@.len() == i,
                forall|j: int| 0 <= j < i ==> r@[j] == self.entries@[j].0,
                forall|a: int, b: int|
                    0 <= a < b < self.entries@.len() ==> self.entries@[a].0 != self.entries@[b].0,
            decreases n - i,
        {
            r.push(self.entries[i].0);
            i += 1;
        }
        proof {
            assert forall|k: int| #[trigger] self@.dom().contains(k) implies exists|w: int|
                0 <= w < r@.len() && r@[w] as int == k by {
                let w = choose|w: int|
                    0 <= w < self.entries@.len() && self.entries@[w].0 as int == k;
                assert(r@[w] as int == k);
            }
            assert forall|w: int| 0 <= w < r@.len() implies self@.dom().contains(
                #[trigger] r@[w] as int,
            ) by {
                assert(self.entries@[w].0 as int == r@[w] as int);
            }
        }
        r
    }
}

impl<T: View> View for IdMap<T> {
    type V = Map<int, T::V>;

    closed spec fn view(&self) -> Map<int, T::V> {
        Map::new(
            |k: int| Self::has_key(self.entries@, k),
            |k: int| Self::value_at(self.entries@, k),
        )
    }
}

} // verus!
