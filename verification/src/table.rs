//! A small map from account addresses to records, kept in insertion order.

use vstd::prelude::*;

verus! {

/// Records keyed by account address. No address occurs twice.
pub struct Table<V> {
    entries: Vec<(String, V)>,
}

impl<V> Table<V> {
    /// The addresses, in the order in which they were first stored.
    pub closed spec fn owners(&self) -> Seq<Seq<char>> {
        self.entries@.map_values(|e: (String, V)| e.0@)
    }

    /// The records, each at the position of its address.
    pub closed spec fn values(&self) -> Seq<V> {
        self.entries@.map_values(|e: (String, V)| e.1)
    }

    /// What every table is held to: no address occurs twice.
    #[verifier::type_invariant]
    closed spec fn inv(&self) -> bool {
        self.owners().no_duplicates()
    }

    /// Every address has one record and occurs once.
    pub open spec fn wf(&self) -> bool {
        &&& self.owners().len() == self.values().len()
        &&& self.owners().no_duplicates()
    }

    /// The position of `owner`, where the table holds it.
    pub open spec fn slot(&self, owner: Seq<char>) -> int {
        choose|i: int| 0 <= i < self.owners().len() && self.owners()[i] == owner
    }

    /// The record stored for `owner`, if any.
    pub open spec fn get(&self, owner: Seq<char>) -> Option<V> {
        if self.owners().contains(owner) {
            Some(self.values()[self.slot(owner)])
        } else {
            None
        }
    }

    /// A table without records.
    pub fn new() -> (t: Table<V>)
        ensures
            t.wf(),
            t.owners() == Seq::<Seq<char>>::empty(),
            t.values() == Seq::<V>::empty(),
    {
        let t = Table { entries: Vec::new() };
        assert(t.owners() =~= Seq::<Seq<char>>::empty());
        assert(t.values() =~= Seq::<V>::empty());
        t
    }

    /// Number of records.
    pub fn len(&self) -> (n: usize)
        ensures
            self.wf(),
            n == self.owners().len(),
    {
        proof {
            use_type_invariant(self);
        }
        self.entries.len()
    }

    /// The address at position `i`, if there is one.
    pub fn owner_at(&self, i: usize) -> (owner: Option<&String>)
        ensures
            self.wf(),
            i < self.owners().len() ==> (owner matches Some(o) && o@ == self.owners()[i as int]),
            i >= self.owners().len() ==> owner is None,
    {
        proof {
            use_type_invariant(self);
        }
        if i < self.entries.len() {
            Some(&self.entries[i].0)
        } else {
            None
        }
    }

    /// The record at position `i`, if there is one.
    pub fn value_at(&self, i: usize) -> (value: Option<&V>)
        ensures
            self.wf(),
            i < self.owners().len() ==> (value matches Some(v) && *v == self.values()[i as int]),
            i >= self.owners().len() ==> value is None,
    {
        proof {
            use_type_invariant(self);
        }
        if i < self.entries.len() {
            Some(&self.entries[i].1)
        } else {
            None
        }
    }

    /// Where a stored address sits; `slot` is that position.
    pub proof fn lemma_slot(&self, owner: Seq<char>, i: int)
        requires
            self.wf(),
            0 <= i < self.owners().len(),
            self.owners()[i] == owner,
        ensures
            self.owners().contains(owner),
            self.slot(owner) == i,
            self.get(owner) == Some(self.values()[i]),
    {
        let j = self.slot(owner);
        assert(0 <= j < self.owners().len() && self.owners()[j] == owner);
    }

    /// The position of `owner`, by a scan from the front.
    pub fn find(&self, owner: &String) -> (r: Option<usize>)
        ensures
            self.wf(),
            match r {
                Some(i) => i < self.owners().len() && self.slot(owner@) == i
                    && self.owners().contains(owner@),
                None => !self.owners().contains(owner@),
            },
    {
        proof {
            use_type_invariant(self);
        }
        let mut i: usize = 0;
        while i < self.entries.len()
            invariant
                self.wf(),
                i <= self.entries.len(),
                self.entries.len() == self.owners().len(),
                forall|j: int| 0 <= j < i ==> self.owners()[j] != owner@,
            decreases self.entries.len() - i,
        {
            if self.entries[i].0 == *owner {
                proof {
                    self.lemma_slot(owner@, i as int);
                }
                return Some(i);
            }
            i += 1;
        }
        None
    }

    /// The record stored for `owner`, if any.
    pub fn load(&self, owner: &String) -> (r: Option<&V>)
        ensures
            self.wf(),
            match r {
                Some(v) => self.get(owner@) == Some(*v),
                None => self.get(owner@) is None,
            },
    {
        match self.find(owner) {
            Some(i) => Some(&self.entries[i].1),
            None => None,
        }
    }

    /// Stores `value` for `owner`, in place of an earlier record or as a new one.
    pub fn store(&mut self, owner: String, value: V)
        ensures
            old(self).wf(),
            final(self).wf(),
            forall|a: Seq<char>|
                final(self).get(a) == if a == owner@ {
                    Some(value)
                } else {
                    old(self).get(a)
                },
            old(self).owners().contains(owner@) ==> final(self).owners() == old(self).owners()
                && final(self).values() == old(self).values().update(
                old(self).slot(owner@),
                value,
            ),
            !old(self).owners().contains(owner@) ==> final(self).owners() == old(self).owners().push(
                owner@,
            ) && final(self).values() == old(self).values().push(value),
    {
        let ghost before = *self;
        let found = self.find(&owner);
        // The entries are taken out while they change, so that the table is
        // never seen half changed.
        let mut entries: Vec<(String, V)> = Vec::new();
        proof {
            let nothing = Table { entries };
            assert(nothing.owners() =~= Seq::<Seq<char>>::empty());
        }
        core::mem::swap(&mut self.entries, &mut entries);
        match found {
            Some(i) => {
                entries.set(i, (owner, value));
            },
            None => {
                entries.push((owner, value));
            },
        }
        proof {
            let changed = Table { entries };
            if found is Some {
                assert(changed.owners() =~= before.owners());
                assert(changed.values() =~= before.values().update(found.unwrap() as int, value));
            } else {
                assert(changed.owners() =~= before.owners().push(owner@));
                assert(changed.values() =~= before.values().push(value));
            }
        }
        self.entries = entries;
        assert forall|a: Seq<char>|
            self.get(a) == if a == owner@ {
                Some(value)
            } else {
                before.get(a)
            } by {
            let n = before.owners().len() as int;
            if before.owners().contains(owner@) {
                let i = before.slot(owner@);
                before.lemma_slot(owner@, i);
                if a == owner@ {
                    self.lemma_slot(a, i);
                } else if before.owners().contains(a) {
                    let j = before.slot(a);
                    before.lemma_slot(a, j);
                    self.lemma_slot(a, j);
                }
            } else {
                if a == owner@ {
                    self.lemma_slot(a, n);
                } else if before.owners().contains(a) {
                    let j = before.slot(a);
                    before.lemma_slot(a, j);
                    self.lemma_slot(a, j);
                } else if self.owners().contains(a) {
                    let j = self.slot(a);
                    assert(j < n);
                    assert(before.owners()[j] == a);
                }
            }
        }
    }
}

} // verus!
