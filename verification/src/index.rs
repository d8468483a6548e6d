//! The strict, array-style accessors: they assume the slot is occupied and
//! fail loudly otherwise, mirroring array-indexing ergonomics over the
//! bounds-checked storage underneath.

use vstd::prelude::*;

use crate::SlotMap;

verus! {

impl<V> SlotMap<V> {
    /// Read the slot at `key`, which must be occupied.
    ///
    /// This is the strict counterpart of [`SlotMap::get`]: absence is a
    /// caller-contract violation here, excluded by the precondition, so a
    /// verified caller can never reach the "no entry found for key"
    /// failure that an unchecked caller would trip on.
    pub fn index(&self, key: usize) -> (r: &V)
        requires
            key < self@.len(),
            self@[key as int] is Some,
        ensures
            *r == self@[key as int].unwrap(),
    {
        self.get(key).expect("No entry found for key")
    }

    /// Borrow the slot at `key` mutably; the slot must be occupied.
    ///
    /// The strict counterpart of [`SlotMap::get_mut`]: writing through the
    /// returned reference replaces the value in that one slot and leaves
    /// every other slot, the capacity and the occupied count unchanged.
    pub fn index_mut(&mut self, key: usize) -> (r: &mut V)
        requires
            old(self).wf(),
            key < old(self)@.len(),
            old(self)@[key as int] is Some,
        ensures
            final(self).wf(),
            *r == old(self)@[key as int].unwrap(),
            final(self)@ == old(self)@.update(key as int, Some(*final(r))),
            final(self).spec_len() == old(self).spec_len(),
    {
        let r = self.get_mut(key);
        match r {
            Some(v) => v,
            None => vstd::pervasive::unreached(),
        }
    }
}

} // verus!
