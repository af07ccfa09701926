//! IEEE 754 values handled by their bit patterns: the comparisons, `max`
//! and `clamp` that the player applies to times, rates and volumes. For
//! non-negative values that are not NaN, the order of the bit patterns is the
//! order of the numbers, which is what these functions rest on.

use vstd::prelude::*;

verus! {

/// Bits of the `f64` value `0.0`.
pub const F64_ZERO: u64 = 0;

/// Bits of the `f64` value `-0.0`.
pub const F64_NEG_ZERO: u64 = 0x8000_0000_0000_0000;

/// Bits of the `f64` value `0.25`.
pub const F64_QUARTER: u64 = 0x3FD0_0000_0000_0000;

/// Bits of the `f64` value `1.0`.
pub const F64_ONE: u64 = 0x3FF0_0000_0000_0000;

/// Bits of the `f64` value `3.0`.
pub const F64_THREE: u64 = 0x4008_0000_0000_0000;

/// Bits of the `f64` value `4.0`.
pub const F64_FOUR: u64 = 0x4010_0000_0000_0000;

/// Bits of the `f64` positive infinity.
pub const F64_INFINITY: u64 = 0x7FF0_0000_0000_0000;

/// Bits of the `f32` value `0.0`.
pub const F32_ZERO: u32 = 0;

/// Bits of the `f32` value `-0.0`.
pub const F32_NEG_ZERO: u32 = 0x8000_0000;

/// Bits of the `f32` value `0.25`.
pub const F32_QUARTER: u32 = 0x3E80_0000;

/// Bits of the `f32` value `1.0`.
pub const F32_ONE: u32 = 0x3F80_0000;

/// Bits of the `f32` value `3.0`.
pub const F32_THREE: u32 = 0x4040_0000;

/// Bits of the `f32` positive infinity.
pub const F32_INFINITY: u32 = 0x7F80_0000;

/// The `f64` has its sign bit set.
pub open spec fn f64_negative(b: u64) -> bool {
    b >= F64_NEG_ZERO
}

/// The `f64` with its sign bit cleared.
pub open spec fn f64_magnitude(b: u64) -> u64 {
    (b % F64_NEG_ZERO) as u64
}

/// The `f64` is a NaN.
pub open spec fn f64_nan(b: u64) -> bool {
    f64_magnitude(b) > F64_INFINITY
}

/// The `f64` is neither infinite nor NaN (`f64::is_finite`).
pub open spec fn f64_finite(b: u64) -> bool {
    f64_magnitude(b) < F64_INFINITY
}

/// `x.max(0.0)`: NaN and negative values give `0.0`.
pub open spec fn f64_max_zero(b: u64) -> u64 {
    if f64_nan(b) || f64_negative(b) {
        F64_ZERO
    } else {
        b
    }
}

/// `x.clamp(lo, hi)` for non-negative, non-NaN bounds `lo <= hi`: NaN is
/// kept, values below `lo` give `lo`, above `hi` give `hi`.
pub open spec fn f64_clamp(b: u64, lo: u64, hi: u64) -> u64 {
    if f64_nan(b) {
        b
    } else if f64_negative(b) {
        if b == F64_NEG_ZERO && lo == F64_ZERO {
            b
        } else {
            lo
        }
    } else if b < lo {
        lo
    } else if b > hi {
        hi
    } else {
        b
    }
}

pub fn f64_bits_finite(b: u64) -> (r: bool)
    ensures
        r == f64_finite(b),
{
    b % F64_NEG_ZERO < F64_INFINITY
}

pub fn f64_bits_max_zero(b: u64) -> (r: u64)
    ensures
        r == f64_max_zero(b),
{
    if b % F64_NEG_ZERO > F64_INFINITY || b >= F64_NEG_ZERO {
        F64_ZERO
    } else {
        b
    }
}

pub fn f64_bits_clamp(b: u64, lo: u64, hi: u64) -> (r: u64)
    requires
        lo <= hi < F64_INFINITY,
    ensures
        r == f64_clamp(b, lo, hi),
{
    if b % F64_NEG_ZERO > F64_INFINITY {
        b
    } else if b >= F64_NEG_ZERO {
        if b == F64_NEG_ZERO && lo == F64_ZERO {
            b
        } else {
            lo
        }
    } else if b < lo {
        lo
    } else if b > hi {
        hi
    } else {
        b
    }
}

/// `a < b` for two `f64` values that are not NaN (`-0.0` equals `0.0`).
pub open spec fn f64_less(a: u64, b: u64) -> bool {
    if !f64_negative(a) && !f64_negative(b) {
        a < b
    } else if f64_negative(a) && f64_negative(b) {
        a > b
    } else if f64_negative(a) {
        !(f64_magnitude(a) == 0 && b == F64_ZERO)
    } else {
        false
    }
}

/// `a.max(b)`: a NaN gives way to the other value; of two equal zeros the
/// first is kept.
pub open spec fn f64_max(a: u64, b: u64) -> u64 {
    if f64_nan(a) {
        b
    } else if f64_nan(b) {
        a
    } else if f64_less(a, b) {
        b
    } else {
        a
    }
}

pub fn f64_bits_max(a: u64, b: u64) -> (r: u64)
    ensures
        r == f64_max(a, b),
{
    let a_nan = a % F64_NEG_ZERO > F64_INFINITY;
    let b_nan = b % F64_NEG_ZERO > F64_INFINITY;
    if a_nan {
        return b;
    }
    if b_nan {
        return a;
    }
    let a_neg = a >= F64_NEG_ZERO;
    let b_neg = b >= F64_NEG_ZERO;
    let less = if !a_neg && !b_neg {
        a < b
    } else if a_neg && b_neg {
        a > b
    } else if a_neg {
        !(a % F64_NEG_ZERO == 0 && b == F64_ZERO)
    } else {
        false
    };
    if less {
        b
    } else {
        a
    }
}

/// The `f64` is at most zero (`x <= 0.0`, false for NaN).
pub open spec fn f64_at_most_zero(b: u64) -> bool {
    !f64_nan(b) && (f64_negative(b) || b == F64_ZERO)
}

pub fn f64_bits_at_most_zero(b: u64) -> (r: bool)
    ensures
        r == f64_at_most_zero(b),
{
    !(b % F64_NEG_ZERO > F64_INFINITY) && (b >= F64_NEG_ZERO || b == F64_ZERO)
}

/// The `f32` has its sign bit set.
pub open spec fn f32_negative(b: u32) -> bool {
    b >= F32_NEG_ZERO
}

/// The `f32` with its sign bit cleared.
pub open spec fn f32_magnitude(b: u32) -> u32 {
    (b % F32_NEG_ZERO) as u32
}

/// The `f32` is a NaN.
pub open spec fn f32_nan(b: u32) -> bool {
    f32_magnitude(b) > F32_INFINITY
}

/// The `f32` is neither infinite nor NaN.
pub open spec fn f32_finite(b: u32) -> bool {
    f32_magnitude(b) < F32_INFINITY
}

/// `x.clamp(lo, hi)` on `f32`, for non-negative, non-NaN bounds `lo <= hi`.
pub open spec fn f32_clamp(b: u32, lo: u32, hi: u32) -> u32 {
    if f32_nan(b) {
        b
    } else if f32_negative(b) {
        if b == F32_NEG_ZERO && lo == F32_ZERO {
            b
        } else {
            lo
        }
    } else if b < lo {
        lo
    } else if b > hi {
        hi
    } else {
        b
    }
}

/// A stored `f32` level read back: a finite value above zero, at most `hi`;
/// anything else reads as `1.0`.
pub open spec fn f32_positive_or_one(b: u32, hi: u32) -> u32 {
    if f32_finite(b) && !f32_negative(b) && b > F32_ZERO {
        if b > hi {
            hi
        } else {
            b
        }
    } else {
        F32_ONE
    }
}

pub fn f32_bits_clamp(b: u32, lo: u32, hi: u32) -> (r: u32)
    requires
        lo <= hi < F32_INFINITY,
    ensures
        r == f32_clamp(b, lo, hi),
{
    if b % F32_NEG_ZERO > F32_INFINITY {
        b
    } else if b >= F32_NEG_ZERO {
        if b == F32_NEG_ZERO && lo == F32_ZERO {
            b
        } else {
            lo
        }
    } else if b < lo {
        lo
    } else if b > hi {
        hi
    } else {
        b
    }
}

pub fn f32_bits_positive_or_one(b: u32, hi: u32) -> (r: u32)
    ensures
        r == f32_positive_or_one(b, hi),
{
    if b % F32_NEG_ZERO < F32_INFINITY && b < F32_NEG_ZERO && b > F32_ZERO {
        if b > hi {
            hi
        } else {
            b
        }
    } else {
        F32_ONE
    }
}

} // verus!
