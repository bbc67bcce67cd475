//! A one-line warm-up beside the search API: addition of two machine
//! integers, stated exactly and proved free of overflow.

use vstd::prelude::*;

verus! {

/// The sum of `a` and `b`, for inputs whose mathematical sum fits the type.
pub fn add_two(a: i64, b: i64) -> (r: i64)
    requires
        i64::MIN <= a + b <= i64::MAX,
    ensures
        r == a + b,
{
    a + b
}

} // verus!
