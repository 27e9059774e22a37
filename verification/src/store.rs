//! A per-kind keyed store with sequential identifier allocation.
//!
//! Records of one kind live in registration order in a single vector, and the
//! store's invariant pins the record at index `i` to identifier `i + 1`.
//! Because no record is ever removed, the store's length doubles as the
//! identifier allocator: the next identifier is always `len + 1`, which keeps
//! the allocated sequence strictly increasing with no gaps and no reuse.

use vstd::prelude::*;

use crate::records::{Doctor, MedicalTest, Patient};

verus! {

/// A record kind the store can hold: anything with an identifier field.
pub trait Entity: Sized {
    /// The identifier carried by the record.
    spec fn entity_id(&self) -> u64;
}

impl Entity for Patient {
    open spec fn entity_id(&self) -> u64 {
        self.id
    }
}

impl Entity for Doctor {
    open spec fn entity_id(&self) -> u64 {
        self.id
    }
}

impl Entity for MedicalTest {
    open spec fn entity_id(&self) -> u64 {
        self.id
    }
}

/// The keyed store for one record kind, addressed by the identifiers it
/// hands out itself.
pub struct EntityStore<T> {
    pub records: Vec<T>,
}

impl<T: Entity> EntityStore<T> {
    /// The store's invariant: the record at index `i` carries identifier
    /// `i + 1`, so identifiers run 1, 2, 3, ... in registration order.
    pub open spec fn ids_sequential(&self) -> bool {
        forall|i: int|
            0 <= i < self.records@.len() ==> (#[trigger] self.records@[i]).entity_id() == i + 1
    }

    /// Whether a record with this identifier exists.
    pub open spec fn has_id(&self, id: u64) -> bool {
        1 <= id <= self.records@.len()
    }

    /// An empty store.
    pub fn new() -> (r: Self)
        ensures
            r.records@ == Seq::<T>::empty(),
            r.ids_sequential(),
    {
        let r = EntityStore { records: Vec::new() };
        proof {
            assert(r.records@ =~= Seq::<T>::empty());
        }
        r
    }

    /// The identifier the next registered record will receive.
    pub fn next_id(&self) -> (r: u64)
        requires
            self.records@.len() < u64::MAX,
        ensures
            r == self.records@.len() + 1,
    {
        (self.records.len() as u64) + 1
    }

    /// Appends a freshly registered record, which must carry the identifier
    /// this store is about to hand out.
    pub fn append(&mut self, record: T)
        requires
            old(self).ids_sequential(),
            record.entity_id() == old(self).records@.len() + 1,
        ensures
            final(self).records@ == old(self).records@.push(record),
            final(self).ids_sequential(),
    {
        self.records.push(record);
    }

    /// The record with this identifier, or `None` when the identifier was
    /// never handed out.
    pub fn lookup(&self, id: u64) -> (r: Option<&T>)
        requires
            self.ids_sequential(),
        ensures
            match r {
                Some(record) => self.has_id(id) && *record == self.records@[id - 1],
                None => !self.has_id(id),
            },
    {
        if 1 <= id && id <= self.records.len() as u64 {
            Some(&self.records[(id - 1) as usize])
        } else {
            None
        }
    }

    /// Replaces the record with this identifier; the replacement must carry
    /// the same identifier, so the invariant is kept.
    pub fn replace(&mut self, id: u64, record: T)
        requires
            old(self).ids_sequential(),
            old(self).has_id(id),
            record.entity_id() == id,
        ensures
            final(self).records@ == old(self).records@.update(id - 1, record),
            final(self).ids_sequential(),
    {
        // `len()` bounds the view's length by usize::MAX, so the cast below is exact.
        let _n = self.records.len();
        let idx = (id - 1) as usize;
        self.records[idx] = record;
        proof {
            assert(self.records@ =~= old(self).records@.update(id - 1, record));
        }
    }
}

} // verus!
