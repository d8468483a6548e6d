//! Construction of the map: reserve room for a fixed number of slots, all
//! of them vacant.

use vstd::prelude::*;

use crate::model::lemma_count_some_all_none;
use crate::SlotMap;

verus! {

impl<V> SlotMap<V> {
    /// Make a new map with room for `cap` values, every slot vacant.
    ///
    /// The capacity is fixed for the lifetime of the map: no later
    /// operation grows or shrinks it. Running out of memory while
    /// reserving the slots aborts the process, as any allocation failure
    /// does; no partially constructed map is ever produced.
    pub fn with_capacity(cap: usize) -> (r: Self)
        ensures
            r.wf(),
            r@.len() == cap,
            forall|i: int| 0 <= i < cap ==> r@[i] is None,
            r.spec_len() == 0,
    {
        let mut slots: Vec<Option<V>> = Vec::with_capacity(cap);
        let mut i: usize = 0;
        while i < cap
            invariant
                i <= cap,
                slots@.len() == i,
                forall|j: int| 0 <= j < i ==> slots@[j] is None,
            decreases cap - i,
        {
            slots.push(None);
            i = i + 1;
        }
        let r = SlotMap { slots, max: 0 };
        proof {
            lemma_count_some_all_none(r@);
        }
        r
    }

    /// Make a new map with room for `cap` values, with every slot
    /// explicitly set to the vacant state.
    ///
    /// Same result as [`SlotMap::with_capacity`]: in this design every
    /// slot starts vacant in either case, since occupancy is tracked by an
    /// explicit per-slot tag rather than by the raw contents of the
    /// buffer.
    pub fn with_capacity_none(cap: usize) -> (r: Self)
        ensures
            r.wf(),
            r@.len() == cap,
            forall|i: int| 0 <= i < cap ==> r@[i] is None,
            r.spec_len() == 0,
    {
        Self::with_capacity(cap)
    }
}

} // verus!
