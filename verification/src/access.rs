//! The safe access and mutation operations: occupancy-aware reads, writes
//! with replace semantics, removal, and the occupied-slot count.

use vstd::prelude::*;

use crate::model::{
    count_some, lemma_count_some_none_suffix, lemma_count_some_take_succ, lemma_count_some_update,
};
use crate::SlotMap;

verus! {

impl<V> SlotMap<V> {
    /// The number of currently occupied slots (not the capacity, and not
    /// the high-water mark).
    pub fn len(&self) -> (r: usize)
        requires
            self.wf(),
        ensures
            r == self.spec_len(),
    {
        let mut n: usize = 0;
        let mut i: usize = 0;
        while i < self.max
            invariant
                self.wf(),
                i <= self.max,
                n <= i,
                n == count_some(self@.take(i as int)),
            decreases self.max - i,
        {
            proof {
                lemma_count_some_take_succ(self@, i as int);
            }
            if self.slots[i].is_some() {
                n = n + 1;
            }
            i = i + 1;
        }
        proof {
            lemma_count_some_none_suffix(self@, self.max as int);
        }
        n
    }

    /// Read the slot at `key`: a reference to its value when it is
    /// occupied, or nothing when it is vacant or `key` is out of range.
    /// Never panics.
    pub fn get(&self, key: usize) -> (r: Option<&V>)
        ensures
            key < self@.len() && self@[key as int] is Some ==> (r matches Some(v)
                && *v == self@[key as int].unwrap()),
            !(key < self@.len() && self@[key as int] is Some) ==> r is None,
    {
        if key < self.slots.len() {
            self.slots[key].as_ref()
        } else {
            None
        }
    }

    /// Borrow the slot at `key` mutably: a mutable reference to its value
    /// when it is occupied, or nothing when it is vacant or `key` is out
    /// of range. Never panics. Writing through the returned reference
    /// changes that one slot and nothing else.
    pub fn get_mut(&mut self, key: usize) -> (r: Option<&mut V>)
        requires
            old(self).wf(),
        ensures
            final(self).wf(),
            key < old(self)@.len() && old(self)@[key as int] is Some ==> {
                &&& r is Some
                &&& *r.unwrap() == old(self)@[key as int].unwrap()
                &&& final(self)@ == old(self)@.update(key as int, Some(*final(r.unwrap())))
                &&& final(self).spec_len() == old(self).spec_len()
            },
            !(key < old(self)@.len() && old(self)@[key as int] is Some) ==> {
                &&& r is None
                &&& final(self)@ == old(self)@
            },
    {
        if key < self.slots.len() {
            proof {
                if self@[key as int] is None {
                    assert(self@.update(key as int, None::<V>) =~= self@);
                } else {
                    assert forall|x: V|
                        count_some(self@.update(key as int, Some(x))) == count_some(self@) by {
                        lemma_count_some_update(self@, key as int, Some(x));
                    }
                }
            }
            let slot = &mut self.slots[key];
            slot.as_mut()
        } else {
            None
        }
    }

    /// Write `value` into the slot at `key`, which must be within the
    /// capacity. Returns the previous value when the slot was occupied
    /// (replace semantics), or nothing when it was vacant. The occupied
    /// count grows by one exactly when the slot was vacant.
    ///
    /// A key at or beyond the capacity is a caller-contract violation:
    /// the fixed-capacity design never grows, so such a write is refused
    /// by this precondition rather than extending the map.
    pub fn insert(&mut self, key: usize, value: V) -> (r: Option<V>)
        requires
            old(self).wf(),
            key < old(self)@.len(),
        ensures
            final(self).wf(),
            r == old(self)@[key as int],
            final(self)@ == old(self)@.update(key as int, Some(value)),
            old(self)@[key as int] is Some ==> final(self).spec_len() == old(self).spec_len(),
            old(self)@[key as int] is None ==> final(self).spec_len() == old(self).spec_len() + 1,
    {
        proof {
            lemma_count_some_update(self@, key as int, Some(value));
        }
        // A valid key lies strictly below the capacity, itself a usize,
        // so advancing the high-water mark to `key + 1` cannot overflow.
        let cap = self.slots.len();
        let slot = &mut self.slots[key];
        let prev = slot.take();
        *slot = Some(value);
        assert(key < cap);
        if self.max < key + 1 {
            self.max = key + 1;
        }
        prev
    }

    /// Clear the slot at `key`: returns the removed value when the slot
    /// was occupied, or nothing when it was vacant or `key` is out of
    /// range. Never panics, and removing twice in a row returns nothing
    /// the second time. The occupied count shrinks by one exactly when a
    /// value was removed; the capacity never changes.
    pub fn remove(&mut self, key: usize) -> (r: Option<V>)
        requires
            old(self).wf(),
        ensures
            final(self).wf(),
            key < old(self)@.len() && old(self)@[key as int] is Some ==> {
                &&& r == old(self)@[key as int]
                &&& final(self)@ == old(self)@.update(key as int, None::<V>)
                &&& final(self).spec_len() + 1 == old(self).spec_len()
            },
            !(key < old(self)@.len() && old(self)@[key as int] is Some) ==> {
                &&& r is None
                &&& final(self)@ == old(self)@
            },
    {
        if key < self.slots.len() {
            proof {
                if self@[key as int] is None {
                    assert(self@.update(key as int, None::<V>) =~= self@);
                }
                lemma_count_some_update(self@, key as int, None::<V>);
            }
            let slot = &mut self.slots[key];
            slot.take()
        } else {
            None
        }
    }
}

} // verus!
