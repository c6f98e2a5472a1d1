//! The duty-cycle table: eight slots, each active with an intensity or
//! inactive, the active ones first.

use crate::error::DeviceError;
use vstd::prelude::*;

verus! {

/// The number of active slots of `table`.
pub open spec fn active_count(table: Seq<Option<u32>>) -> nat
    decreases table.len(),
{
    if table.len() == 0 {
        0
    } else {
        active_count(table.drop_last()) + if table.last() is Some {
            1nat
        } else {
            0nat
        }
    }
}

/// Whether no active slot of `table` follows an inactive one.
pub open spec fn is_prefix_active(table: Seq<Option<u32>>) -> bool {
    forall|i: int, j: int| 0 <= i < j < table.len() && table[i] is None ==> table[j] is None
}

/// Whether `table` can be installed in a device: its active slots come
/// first, and there is at least one.
pub open spec fn is_valid_table(table: Seq<Option<u32>>) -> bool {
    &&& is_prefix_active(table)
    &&& active_count(table) > 0
}

/// The index of the last active slot of a valid table; a table that is not
/// valid has none.
pub open spec fn max_active_index(table: Seq<Option<u32>>) -> Result<usize, DeviceError> {
    if is_valid_table(table) {
        Ok((active_count(table) - 1) as usize)
    } else {
        Err(DeviceError::Invariant)
    }
}

/// A table has no more active slots than slots.
pub proof fn lemma_active_count_bound(table: Seq<Option<u32>>)
    ensures
        active_count(table) <= table.len(),
    decreases table.len(),
{
    if table.len() > 0 {
        lemma_active_count_bound(table.drop_last());
    }
}

/// In a table whose active slots come first, the active slots are exactly
/// those below the number of active slots.
pub proof fn lemma_active_slots(table: Seq<Option<u32>>, i: int)
    requires
        is_prefix_active(table),
        0 <= i < table.len(),
    ensures
        table[i] is Some <==> i < active_count(table),
    decreases table.len(),
{
    let front = table.drop_last();
    lemma_active_count_bound(front);
    if i < table.len() - 1 {
        lemma_active_slots(front, i);
        if table.last() is Some && front[i] is None {
            assert(table[i] is None);
        }
    } else if front.len() > 0 {
        lemma_active_slots(front, i - 1);
        if table.last() is Some && front[i - 1] is None {
            assert(table[i - 1] is None);
        }
    }
}

} // verus!
