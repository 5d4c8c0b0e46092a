//! Sums of machine integers, computed directly and by counting.

use vstd::prelude::*;

verus! {

/// Adds two integers.
///
/// The sum has to fit in an `i32`.
pub fn sum(a: i32, b: i32) -> (total: i32)
    requires
        i32::MIN <= a + b <= i32::MAX,
    ensures
        total == a + b,
{
    a + b
}

/// Adds `b` to `a` by counting: one up on `a` for each one down on `b`,
/// until `b` is used up.
///
/// The sum has to fit in a `u64`.
pub fn recursive_sum(a: u64, b: u64) -> (total: u64)
    requires
        a + b <= u64::MAX,
    ensures
        total == a + b,
    decreases b,
{
    if b == 0 {
        return a;
    }
    return recursive_sum(a + 1, b - 1);
}

/// Adds `b` to `a` by counting, on signed integers.
///
/// Counting down reaches zero only from a `b` that is not negative, and the
/// sum has to fit in an `i32`.
pub fn recursion_sum(a: i32, b: i32) -> (total: i32)
    requires
        0 <= b,
        a + b <= i32::MAX,
    ensures
        total == a + b,
    decreases b,
{
    if b == 0 {
        a
    } else {
        recursion_sum(a + 1, b - 1)
    }
}

} // verus!
