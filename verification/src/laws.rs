//! The laws of the map, stated over its mathematical model and proved once
//! and for all. Each law speaks of the same view and occupied count that
//! the contracts of the executable operations use, so together they pin
//! down how sequences of calls behave.

use vstd::prelude::*;

use crate::model::{count_some, lemma_count_some_update};
use crate::SlotMap;

verus! {

/// After a write at a key within the capacity, a read at that key sees
/// exactly the written value; the occupied count grows by one when the
/// slot was vacant, and stays the same when it was occupied (replace
/// semantics).
pub proof fn lemma_insert_then_get<V>(m: SlotMap<V>, key: int, value: V)
    requires
        0 <= key < m@.len(),
    ensures
        m@.update(key, Some(value))[key] == Some(value),
        m@[key] is None ==> count_some(m@.update(key, Some(value))) == count_some(m@) + 1,
        m@[key] is Some ==> count_some(m@.update(key, Some(value))) == count_some(m@),
{
    lemma_count_some_update(m@, key, Some(value));
}

/// After a removal at an occupied key, a read at that key finds nothing
/// and the occupied count has shrunk by exactly one.
pub proof fn lemma_remove_then_get<V>(m: SlotMap<V>, key: int)
    requires
        0 <= key < m@.len(),
        m@[key] is Some,
    ensures
        m@.update(key, None::<V>)[key] is None,
        count_some(m@.update(key, None::<V>)) + 1 == count_some(m@),
{
    lemma_count_some_update(m@, key, None::<V>);
}

/// Removing at the same key twice in a row yields the stored value the
/// first time and nothing the second: the first removal leaves the slot
/// vacant, so the second finds nothing to remove and changes no slot at
/// all.
pub proof fn lemma_remove_idempotent<V>(m: SlotMap<V>, key: int)
    requires
        0 <= key < m@.len(),
    ensures
        m@.update(key, None::<V>)[key] is None,
        m@.update(key, None::<V>).update(key, None::<V>) == m@.update(key, None::<V>),
{
    assert(m@.update(key, None::<V>).update(key, None::<V>) =~= m@.update(key, None::<V>));
}

} // verus!
