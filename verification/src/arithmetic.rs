//! Plain sums.

use vstd::prelude::*;

verus! {

/// Adds two to `a`. The sum has to fit in an `i32`.
pub fn add_two(a: i32) -> (sum: i32)
    requires
        a + 2 <= i32::MAX,
    ensures
        sum == a + 2,
{
    a + 2
}

} // verus!
