//! Comparisons of `f64` values carried as their IEEE-754 bit patterns.
//!
//! Apart from NaN, the order of `f64` values is the order of their
//! sign-and-magnitude keys: the magnitude bits, negated when the sign bit
//! is set (so that both zeros have key 0). Every comparison with a NaN is
//! false.

use vstd::prelude::*;

verus! {

/// The sign bit of an `f64`.
pub const SIGN_BIT: u64 = 0x8000_0000_0000_0000u64;

/// The value with bit pattern `b` is a NaN.
pub open spec fn is_nan_bits(b: u64) -> bool {
    b & 0x7FF0_0000_0000_0000u64 == 0x7FF0_0000_0000_0000u64 && b & 0x000F_FFFF_FFFF_FFFFu64 != 0
}

/// The sign-and-magnitude key of a bit pattern.
pub open spec fn f64_key(b: u64) -> int {
    if b >= SIGN_BIT {
        -((b - SIGN_BIT) as int)
    } else {
        b as int
    }
}

/// `a < b` on the `f64` values with these bit patterns.
pub open spec fn f64_lt(a: u64, b: u64) -> bool {
    !is_nan_bits(a) && !is_nan_bits(b) && f64_key(a) < f64_key(b)
}

/// `a >= b` on the `f64` values with these bit patterns.
pub open spec fn f64_ge(a: u64, b: u64) -> bool {
    !is_nan_bits(a) && !is_nan_bits(b) && f64_key(a) >= f64_key(b)
}

/// Whether a bit pattern is a NaN.
pub fn is_nan(b: u64) -> (res: bool)
    ensures
        res == is_nan_bits(b),
{
    b & 0x7FF0_0000_0000_0000u64 == 0x7FF0_0000_0000_0000u64 && b & 0x000F_FFFF_FFFF_FFFFu64 != 0
}

fn key(b: u64) -> (res: i128)
    ensures
        res == f64_key(b),
{
    if b >= SIGN_BIT {
        -((b - SIGN_BIT) as i128)
    } else {
        b as i128
    }
}

/// `a < b` on `f64` values given by their bit patterns.
pub fn lt(a: u64, b: u64) -> (res: bool)
    ensures
        res == f64_lt(a, b),
{
    !is_nan(a) && !is_nan(b) && key(a) < key(b)
}

/// `a >= b` on `f64` values given by their bit patterns.
pub fn ge(a: u64, b: u64) -> (res: bool)
    ensures
        res == f64_ge(a, b),
{
    !is_nan(a) && !is_nan(b) && key(a) >= key(b)
}

/// The value with bit pattern `b` is an infinity.
pub open spec fn is_inf_bits(b: u64) -> bool {
    b & 0x7FFF_FFFF_FFFF_FFFFu64 == 0x7FF0_0000_0000_0000u64
}

/// Whether a bit pattern is an infinity.
pub fn is_infinite(b: u64) -> (res: bool)
    ensures
        res == is_inf_bits(b),
{
    b & 0x7FFF_FFFF_FFFF_FFFFu64 == 0x7FF0_0000_0000_0000u64
}

} // verus!
