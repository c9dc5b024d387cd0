//! Signed division and remainder that truncate towards zero, as the
//! accumulated-scroll bookkeeping needs them, and a clamp into the 32-bit
//! signed range.

use vstd::prelude::*;

verus! {

/// Quotient of `a` and `b`, truncated towards zero.
pub open spec fn spec_tdiv(a: int, b: int) -> int {
    if a >= 0 {
        a / b
    } else {
        -((-a) / b)
    }
}

/// Remainder of `a` and `b` with the sign of `a`: `a - spec_tdiv(a, b) * b`.
pub open spec fn spec_trem(a: int, b: int) -> int {
    if a >= 0 {
        a % b
    } else {
        -((-a) % b)
    }
}

/// Truncated division of a signed value by a positive one.
pub fn tdiv_i64(a: i64, b: i64) -> (r: i64)
    requires
        b > 0,
        a > i64::MIN,
    ensures
        r == spec_tdiv(a as int, b as int),
        a >= 0 ==> 0 <= r <= a,
        a < 0 ==> a <= r <= 0,
{
    if a >= 0 {
        let q = (a as u64 / b as u64) as i64;
        proof {
            vstd::arithmetic::div_mod::lemma_div_nonincreasing(a as int, b as int);
        }
        q
    } else {
        let m = (-a) as u64;
        let q = (m / b as u64) as i64;
        proof {
            vstd::arithmetic::div_mod::lemma_div_nonincreasing(m as int, b as int);
        }
        -q
    }
}

/// Truncated remainder of a signed value by a positive one.
pub fn trem_i64(a: i64, b: i64) -> (r: i64)
    requires
        b > 0,
        a > i64::MIN,
    ensures
        r == spec_trem(a as int, b as int),
        -b < r < b,
        a >= 0 ==> r >= 0,
        a < 0 ==> r <= 0,
{
    if a >= 0 {
        (a as u64 % b as u64) as i64
    } else {
        let m = (-a) as u64;
        -((m % b as u64) as i64)
    }
}

/// Clamp a 64-bit value into the 32-bit signed range.
pub fn clamp_i32(a: i64) -> (r: i32)
    ensures
        a > i32::MAX ==> r == i32::MAX,
        a < i32::MIN ==> r == i32::MIN,
        i32::MIN <= a <= i32::MAX ==> r == a,
{
    if a > i32::MAX as i64 {
        i32::MAX
    } else if a < i32::MIN as i64 {
        i32::MIN
    } else {
        a as i32
    }
}

} // verus!
