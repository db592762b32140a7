//! Small geometry helpers: forcing a size to be odd (so a square grid has a
//! unique center pixel) and a three-way clamp for keeping capture rectangles
//! inside display bounds.

use vstd::prelude::*;

verus! {

/// The mathematical meaning of [`EnsureOdd::ensure_odd`]: the least odd
/// integer that is greater than or equal to `n`.
pub open spec fn spec_ensure_odd(n: int) -> int {
    if n % 2 == 0 {
        n + 1
    } else {
        n
    }
}

/// Forcing a computed size to be odd before it is used as a grid width
/// guarantees that every grid has a well-defined center pixel.
pub trait EnsureOdd: Sized {
    fn ensure_odd(self) -> Self;
}

impl EnsureOdd for u16 {
    fn ensure_odd(self) -> (r: u16)
        ensures
            r == spec_ensure_odd(self as int),
    {
        if self % 2 == 0 {
            self + 1
        } else {
            self
        }
    }
}

impl EnsureOdd for u32 {
    fn ensure_odd(self) -> (r: u32)
        ensures
            r == spec_ensure_odd(self as int),
    {
        if self % 2 == 0 {
            self + 1
        } else {
            self
        }
    }
}

impl EnsureOdd for usize {
    fn ensure_odd(self) -> (r: usize)
        ensures
            r == spec_ensure_odd(self as int),
    {
        if self % 2 == 0 {
            self + 1
        } else {
            self
        }
    }
}

impl EnsureOdd for isize {
    fn ensure_odd(self) -> (r: isize)
        ensures
            r == spec_ensure_odd(self as int),
    {
        if self % 2 == 0 {
            self + 1
        } else {
            self
        }
    }
}

/// `spec_ensure_odd` always returns an odd value, never smaller than its
/// argument and at most one larger, and applying it twice changes nothing
/// beyond the first application.
pub proof fn lemma_ensure_odd_idempotent(n: int)
    ensures
        spec_ensure_odd(n) % 2 == 1,
        n <= spec_ensure_odd(n) <= n + 1,
        spec_ensure_odd(spec_ensure_odd(n)) == spec_ensure_odd(n),
{
}

/// Three-way clamp. The case `min > max` is a caller error and is excluded
/// by precondition rather than resolved arbitrarily.
pub fn clamp(value: i32, min: i32, max: i32) -> (r: i32)
    requires
        min <= max,
    ensures
        min <= r <= max,
        value < min ==> r == min,
        value > max ==> r == max,
        min <= value <= max ==> r == value,
{
    if value < min {
        min
    } else if value > max {
        max
    } else {
        value
    }
}

} // verus!
