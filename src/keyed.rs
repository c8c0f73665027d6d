//! Lists of records kept per (provider, facility) pair.
use vstd::prelude::*;
use crate::identity::Address;

verus! {

/// The records of one (provider, facility) pair.
pub struct PartyList<T> {
    pub provider_id: Address,
    pub facility_id: Address,
    pub items: Vec<T>,
}

/// A store of lists keyed by (provider, facility); a pair that was never written reads as
/// an empty list.
pub struct PartyLists<T> {
    entries: Vec<PartyList<T>>,
}

impl<T> PartyLists<T> {
    /// Whether the entry at `i` belongs to the pair (`p`, `f`).
    pub closed spec fn at(&self, i: int, p: Address, f: Address) -> bool {
        0 <= i < self.entries@.len() && self.entries@[i].provider_id == p
            && self.entries@[i].facility_id == f
    }

    /// Whether a list was ever written for the pair.
    pub closed spec fn has(&self, p: Address, f: Address) -> bool {
        exists|i: int| self.at(i, p, f)
    }

    /// The list of the pair (`p`, `f`).
    pub closed spec fn list(&self, p: Address, f: Address) -> Seq<T> {
        if self.has(p, f) {
            self.entries@[choose|i: int| self.at(i, p, f)].items@
        } else {
            Seq::empty()
        }
    }

    /// At most one entry per pair.
    pub closed spec fn wf(&self) -> bool {
        forall|i: int, j: int|
            0 <= i < self.entries@.len() && 0 <= j < self.entries@.len() && i != j
                ==> (self.entries@[i].provider_id != self.entries@[j].provider_id
                || self.entries@[i].facility_id != self.entries@[j].facility_id)
    }

    proof fn lemma_list_at(&self, i: int, p: Address, f: Address)
        requires
            self.wf(),
            self.at(i, p, f),
        ensures
            self.list(p, f) == self.entries@[i].items@,
    {
        let j = choose|j: int| self.at(j, p, f);
        assert(self.at(j, p, f));
        assert(i == j);
    }

    pub fn new() -> (r: PartyLists<T>)
        ensures
            r.wf(),
            forall|p: Address, f: Address| #[trigger] r.list(p, f) == Seq::<T>::empty(),
    {
        PartyLists { entries: Vec::new() }
    }

    fn position(&self, p: Address, f: Address) -> (r: Option<usize>)
        requires
            self.wf(),
        ensures
            r is None ==> !self.has(p, f) && self.list(p, f) == Seq::<T>::empty(),
            r matches Some(i) ==> self.at(i as int, p, f) && self.list(p, f)
                == self.entries@[i as int].items@,
    {
        let mut i: usize = 0;
        while i < self.entries.len()
            invariant
                self.wf(),
                i <= self.entries@.len(),
                forall|j: int| 0 <= j < i ==> !self.at(j, p, f),
            decreases self.entries@.len() - i,
        {
            if self.entries[i].provider_id == p && self.entries[i].facility_id == f {
                proof {
                    self.lemma_list_at(i as int, p, f);
                }
                return Some(i);
            }
            i = i + 1;
        }
        None
    }

    /// The list of the pair (`p`, `f`), if one was ever written.
    pub fn get(&self, p: Address, f: Address) -> (r: Option<&Vec<T>>)
        requires
            self.wf(),
        ensures
            r is None ==> self.list(p, f).len() == 0,
            r matches Some(v) ==> v@ == self.list(p, f),
    {
        match self.position(p, f) {
            Some(i) => Some(&self.entries[i].items),
            None => None,
        }
    }

    /// Lists of other pairs stay as they were when only entries of (`p`, `f`) were changed
    /// or added.
    proof fn lemma_others_unchanged(before: &Self, after: &Self, p: Address, f: Address)
        requires
            before.wf(),
            after.wf(),
            before.entries@.len() <= after.entries@.len(),
            forall|j: int|
                0 <= j < before.entries@.len() ==> (#[trigger] after.entries@[j]).provider_id
                    == before.entries@[j].provider_id && after.entries@[j].facility_id
                    == before.entries@[j].facility_id,
            forall|j: int|
                0 <= j < before.entries@.len() && !before.at(j, p, f) ==> (#[trigger] after.entries@[j]).items
                    == before.entries@[j].items,
            forall|j: int| before.entries@.len() <= j < after.entries@.len() ==> after.at(j, p, f),
        ensures
            forall|p2: Address, f2: Address|
                !(p2 == p && f2 == f) ==> #[trigger] after.list(p2, f2) == before.list(p2, f2),
    {
        assert forall|p2: Address, f2: Address|
            !(p2 == p && f2 == f) implies #[trigger] after.list(p2, f2) == before.list(p2, f2) by {
            if before.has(p2, f2) {
                let j = choose|j: int| before.at(j, p2, f2);
                assert(after.at(j, p2, f2));
                before.lemma_list_at(j, p2, f2);
                after.lemma_list_at(j, p2, f2);
            } else {
                assert forall|j: int| !after.at(j, p2, f2) by {
                    if 0 <= j < before.entries@.len() {
                        assert(!before.at(j, p2, f2));
                    } else if before.entries@.len() <= j < after.entries@.len() {
                        assert(after.at(j, p, f));
                    }
                }
            }
        }
    }

    /// Replaces the list of the pair (`p`, `f`).
    pub fn set(&mut self, p: Address, f: Address, items: Vec<T>)
        requires
            old(self).wf(),
        ensures
            final(self).wf(),
            final(self).list(p, f) == items@,
            forall|p2: Address, f2: Address|
                !(p2 == p && f2 == f) ==> #[trigger] final(self).list(p2, f2) == old(self).list(
                    p2,
                    f2,
                ),
    {
        let ghost before = *self;
        match self.position(p, f) {
            Some(i) => {
                self.entries[i].items = items;
                proof {
                    assert(self.at(i as int, p, f));
                    self.lemma_list_at(i as int, p, f);
                    Self::lemma_others_unchanged(&before, self, p, f);
                }
            },
            None => {
                self.entries.push(PartyList { provider_id: p, facility_id: f, items });
                proof {
                    let n = before.entries@.len() as int;
                    assert forall|a: int, b: int|
                        0 <= a < self.entries@.len() && 0 <= b < self.entries@.len() && a != b
                            implies (self.entries@[a].provider_id != self.entries@[b].provider_id
                            || self.entries@[a].facility_id != self.entries@[b].facility_id) by {
                        if a == n {
                            assert(!before.at(b, p, f));
                        } else if b == n {
                            assert(!before.at(a, p, f));
                        } else {
                            assert(self.entries@[a] == before.entries@[a]);
                            assert(self.entries@[b] == before.entries@[b]);
                        }
                    }
                    assert(self.at(n, p, f));
                    self.lemma_list_at(n, p, f);
                    Self::lemma_others_unchanged(&before, self, p, f);
                }
            },
        }
    }

    /// Takes the list of the pair (`p`, `f`) out of the store, leaving it empty.
    pub fn take(&mut self, p: Address, f: Address) -> (r: Vec<T>)
        requires
            old(self).wf(),
        ensures
            final(self).wf(),
            r@ == old(self).list(p, f),
            final(self).list(p, f) == Seq::<T>::empty(),
            forall|p2: Address, f2: Address|
                !(p2 == p && f2 == f) ==> #[trigger] final(self).list(p2, f2) == old(self).list(
                    p2,
                    f2,
                ),
    {
        let ghost before = *self;
        let mut out: Vec<T> = Vec::new();
        match self.position(p, f) {
            Some(i) => {
                std::mem::swap(&mut out, &mut self.entries[i].items);
                proof {
                    assert(self.at(i as int, p, f));
                    self.lemma_list_at(i as int, p, f);
                    Self::lemma_others_unchanged(&before, self, p, f);
                }
            },
            None => {
                assert(out@ =~= Seq::<T>::empty());
            },
        }
        out
    }

    /// Appends `item` to the list of the pair (`p`, `f`).
    pub fn push(&mut self, p: Address, f: Address, item: T)
        requires
            old(self).wf(),
        ensures
            final(self).wf(),
            final(self).list(p, f) == old(self).list(p, f).push(item),
            forall|p2: Address, f2: Address|
                !(p2 == p && f2 == f) ==> #[trigger] final(self).list(p2, f2) == old(self).list(
                    p2,
                    f2,
                ),
    {
        let ghost before = *self;
        match self.position(p, f) {
            Some(i) => {
                self.entries[i].items.push(item);
                proof {
                    assert(self.at(i as int, p, f));
                    self.lemma_list_at(i as int, p, f);
                    Self::lemma_others_unchanged(&before, self, p, f);
                }
            },
            None => {
                let mut items: Vec<T> = Vec::new();
                items.push(item);
                proof {
                    assert(items@ =~= Seq::<T>::empty().push(item));
                }
                self.set(p, f, items);
            },
        }
    }
}

} // verus!
