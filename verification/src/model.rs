//! The mathematical model of occupancy: how many slots of a sequence of
//! cells are occupied, and how that count reacts to the operations the map
//! performs on its cells.

use vstd::prelude::*;

verus! {

/// The number of occupied (`Some`) cells in a sequence.
pub open spec fn count_some<V>(s: Seq<Option<V>>) -> nat
    decreases s.len(),
{
    if s.len() == 0 {
        0
    } else {
        count_some(s.drop_last()) + (if s.last() is Some {
            1nat
        } else {
            0nat
        })
    }
}

/// A sequence of vacant cells holds no occupied slot.
pub proof fn lemma_count_some_all_none<V>(s: Seq<Option<V>>)
    requires
        forall|i: int| 0 <= i < s.len() ==> s[i] is None,
    ensures
        count_some(s) == 0,
    decreases s.len(),
{
    if s.len() > 0 {
        lemma_count_some_all_none(s.drop_last());
    }
}

/// Writing one cell changes the occupied count by exactly the difference
/// in occupancy between the new cell and the old one.
pub proof fn lemma_count_some_update<V>(s: Seq<Option<V>>, k: int, v: Option<V>)
    requires
        0 <= k < s.len(),
    ensures
        count_some(s.update(k, v)) == count_some(s) - (if s[k] is Some {
            1int
        } else {
            0int
        }) + (if v is Some {
            1int
        } else {
            0int
        }),
    decreases s.len(),
{
    let t = s.update(k, v);
    if k == s.len() - 1 {
        assert(t.drop_last() =~= s.drop_last());
    } else {
        assert(t.drop_last() =~= s.drop_last().update(k, v));
        lemma_count_some_update(s.drop_last(), k, v);
    }
}

/// Counting an occupied prefix one cell further adds the occupancy of the
/// newly covered cell.
pub proof fn lemma_count_some_take_succ<V>(s: Seq<Option<V>>, i: int)
    requires
        0 <= i < s.len(),
    ensures
        count_some(s.take(i + 1)) == count_some(s.take(i)) + (if s[i] is Some {
            1int
        } else {
            0int
        }),
{
    assert(s.take(i + 1).drop_last() =~= s.take(i));
    assert(s.take(i + 1).last() == s[i]);
}

/// When every cell at or beyond a mark is vacant, the occupied count of the
/// whole sequence is the occupied count of the prefix below the mark.
pub proof fn lemma_count_some_none_suffix<V>(s: Seq<Option<V>>, m: int)
    requires
        0 <= m <= s.len(),
        forall|i: int| m <= i < s.len() ==> s[i] is None,
    ensures
        count_some(s) == count_some(s.take(m)),
    decreases s.len() - m,
{
    if m == s.len() {
        assert(s.take(m) =~= s);
    } else {
        lemma_count_some_take_succ(s, m);
        assert(s.take(m + 1).drop_last() =~= s.take(m));
        lemma_count_some_none_suffix(s, m + 1);
    }
}

} // verus!
