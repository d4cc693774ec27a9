//! Functions that return a value through their final expression.

use vstd::prelude::*;

verus! {

/// Always returns five.
pub fn get_five() -> (five: u8)
    ensures
        five == 5,
{
    5
}

/// Adds two integers.
///
/// The sum has to fit the result type: an `i32` addition that leaves the
/// range of `i32` is an overflow, so such a pair is no input of this function.
pub fn my_addition(x: i32, y: i32) -> (sum: i32)
    requires
        i32::MIN <= x + y <= i32::MAX,
    ensures
        sum == x + y,
{
    x + y
}

} // verus!
