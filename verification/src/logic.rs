//! Arithmetic helpers shared by the on-board logic.

use vstd::prelude::*;

verus! {

/// Doubles `i`.
pub fn multiply_by_2(i: u32) -> (doubled: u32)
    requires
        2 * i <= u32::MAX,
    ensures
        doubled == 2 * i,
{
    i * 2
}

} // verus!
