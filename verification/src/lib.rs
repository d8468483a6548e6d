//! A fixed-capacity map keyed by small non-negative integers (slot indices).
//!
//! The map reserves room for a fixed number of value slots at construction
//! and never grows. Each slot is either occupied (holds one live value) or
//! vacant; occupancy is tracked per slot, independently of the value type.
//! A high-water mark bounds the prefix of slots that have ever been written,
//! so scans never have to visit the untouched tail.

use vstd::prelude::*;

mod access;
mod ctors;
mod index;
pub mod laws;
mod model;

verus! {

pub use crate::model::count_some;

/// A fixed-capacity associative container keyed by slot index.
///
/// The capacity is chosen at construction and is immutable afterwards.
/// Keys at or beyond the capacity are never valid targets: the safe
/// accessors report absence for them, and `insert` requires the key to be
/// in range.
///
/// Storage and occupancy are one cell per slot, owned exclusively by the
/// map. When the map goes out of scope, the value in every occupied slot
/// is dropped exactly once and the backing storage is released exactly
/// once — vacant cells hold no value, so nothing is dropped for them.
pub struct SlotMap<V> {
    /// One cell per slot: `Some` for an occupied slot, `None` for a vacant
    /// one. The length of this vector is the capacity and never changes.
    slots: Vec<Option<V>>,
    /// High-water mark: the exclusive upper bound of slot indices that have
    /// ever been written. Every slot at or beyond it is vacant.
    max: usize,
}

impl<V> View for SlotMap<V> {
    type V = Seq<Option<V>>;

    /// The mathematical model: one `Option<V>` per slot, in slot order.
    closed spec fn view(&self) -> Seq<Option<V>> {
        self.slots@
    }
}

impl<V> SlotMap<V> {
    /// The occupancy bookkeeping is sound: the high-water mark is within
    /// the capacity, and every slot at or beyond it is vacant.
    pub closed spec fn wf(&self) -> bool {
        &&& self.max <= self.slots@.len()
        &&& forall|i: int| self.max <= i < self.slots@.len() ==> self.slots@[i] is None
    }

    /// The number of occupied slots.
    pub open spec fn spec_len(&self) -> nat {
        count_some(self@)
    }
}

} // verus!
