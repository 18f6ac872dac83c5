//! Small arithmetic helpers.

use vstd::prelude::*;

verus! {

/// Returns the constant five.
pub fn five() -> (r: i32)
    ensures
        r == 5,
{
    5
}

/// Adds five to `x`.
pub fn plus_five(x: i32) -> (r: i32)
    requires
        x + 5 <= i32::MAX,
    ensures
        r == x + 5,
{
    x + 5
}

} // verus!
