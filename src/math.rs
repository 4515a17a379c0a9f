//! Two public arithmetic operations, grouped in their own namespace.

use vstd::prelude::*;

verus! {

/// Returns `x + y`; the sum must fit in an `i32`.
pub fn add(x: i32, y: i32) -> (r: i32)
    requires
        i32::MIN <= x + y <= i32::MAX,
    ensures
        r == x + y,
{
    x + y
}

/// Returns `x - y`; the difference must fit in an `i32`.
pub fn subtract(x: i32, y: i32) -> (r: i32)
    requires
        i32::MIN <= x - y <= i32::MAX,
    ensures
        r == x - y,
{
    x - y
}

} // verus!
