//! The singleton store: at most one instance handle per component type.

use std::collections::HashMap;
use vstd::prelude::*;

verus! {

broadcast use vstd::std_specs::hash::group_hash_axioms;

/// Maps a component type's identity to the handle of its one cached
/// instance. An entry, once present, is never replaced or removed.
pub struct Store<H> {
    entries: HashMap<u64, H>,
}

impl<H> View for Store<H> {
    type V = Map<u64, H>;

    closed spec fn view(&self) -> Map<u64, H> {
        self.entries@
    }
}

impl<H> Store<H> {
    /// An empty store.
    pub fn new() -> (s: Store<H>)
        ensures
            s@ == Map::<u64, H>::empty(),
    {
        Store { entries: HashMap::new() }
    }

    /// Whether an instance of the component type is cached.
    pub fn contains(&self, type_id: u64) -> (present: bool)
        ensures
            present == self@.contains_key(type_id),
    {
        self.entries.contains_key(&type_id)
    }

    /// The cached handle of the component type, if there is one.
    pub fn lookup(&self, type_id: u64) -> (found: Option<&H>)
        ensures
            found.is_some() == self@.contains_key(type_id),
            found.is_some() ==> *found.unwrap() == self@[type_id],
    {
        self.entries.get(&type_id)
    }

    /// Caches `handle` for the component type unless one is cached already.
    /// Returns whether the insertion happened; when it did not, the store is
    /// unchanged and `handle` is dropped.
    pub fn insert_if_absent(&mut self, type_id: u64, handle: H) -> (inserted: bool)
        ensures
            inserted == !old(self)@.contains_key(type_id),
            inserted ==> final(self)@ == old(self)@.insert(type_id, handle),
            !inserted ==> final(self)@ == old(self)@,
    {
        if self.entries.contains_key(&type_id) {
            false
        } else {
            self.entries.insert(type_id, handle);
            true
        }
    }
}

} // verus!
