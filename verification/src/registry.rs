//! The registry of opened devices.
//!
//! Each record gets an identifier when it is registered. Identifiers count
//! up from zero and are never given twice; records are never removed.

use vstd::prelude::*;

verus! {

/// The records of the devices opened so far, by identifier.
pub struct Registry<T> {
    records: Vec<T>,
}

impl<T> View for Registry<T> {
    type V = Seq<T>;

    /// The records in the order of their registration: the record with
    /// identifier `id` stands at index `id`.
    closed spec fn view(&self) -> Seq<T> {
        self.records@
    }
}

impl<T> Registry<T> {
    /// True when `register` has returned `id` on this registry.
    pub open spec fn issued(&self, id: usize) -> bool {
        id < self@.len()
    }

    /// A registry without records.
    pub fn new() -> (registry: Registry<T>)
        ensures
            registry@ == Seq::<T>::empty(),
            forall|id: usize| !registry.issued(id),
    {
        Registry { records: Vec::new() }
    }

    /// Stores the record and returns its identifier: the next one that has
    /// not been issued.
    pub fn register(&mut self, record: T) -> (id: usize)
        ensures
            id == old(self)@.len(),
            !old(self).issued(id),
            forall|other: usize|
                final(self).issued(other) <==> old(self).issued(other) || other == id,
            final(self)@ == old(self)@.push(record),
    {
        let id = self.records.len();
        self.records.push(record);
        id
    }

    /// The record with the given identifier, to read and to change; `None`
    /// for an identifier that was never issued, and then nothing changes.
    pub fn lookup(&mut self, id: usize) -> (found: Option<&mut T>)
        ensures
            !old(self).issued(id) ==> found is None && final(self)@ == old(self)@,
            old(self).issued(id) ==> found is Some && *found->Some_0 == old(self)@[id as int]
                && final(self)@ == old(self)@.update(id as int, *final(found->Some_0)),
    {
        if id < self.records.len() {
            Some(&mut self.records[id])
        } else {
            None
        }
    }
}

} // verus!
