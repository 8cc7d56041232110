//! The deduplication store: the set of every integer value ever accepted
//! from any client. It only grows; callers serialise access with one lock
//! around each check-and-insert.

use vstd::prelude::*;
use std::collections::HashSet;

verus! {

broadcast use vstd::std_specs::hash::group_hash_axioms;

/// The set of all values ever accepted, viewed as a `Set<u32>`.
pub struct DedupStore {
    seen: HashSet<u32>,
}

impl View for DedupStore {
    type V = Set<u32>;

    closed spec fn view(&self) -> Set<u32> {
        self.seen@
    }
}

impl DedupStore {
    /// A fresh, empty store.
    pub fn new() -> (s: Self)
        ensures
            s@ == Set::<u32>::empty(),
    {
        DedupStore { seen: HashSet::new() }
    }

    /// Atomic check-and-insert: report whether `value` was absent, and make
    /// sure it is present afterwards. Racing callers must hold one lock
    /// across the whole call, so that exactly one of them sees `true` for a
    /// given value.
    pub fn contains_and_insert(&mut self, value: u32) -> (newly: bool)
        ensures
            newly == !old(self)@.contains(value),
            final(self)@ == old(self)@.insert(value),
    {
        self.seen.insert(value)
    }

    /// How many distinct values have been accepted so far.
    pub fn len(&self) -> (n: usize)
        ensures
            n == self@.len(),
    {
        self.seen.len()
    }
}

} // verus!
