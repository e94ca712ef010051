//! IEEE-754 binary64 values carried by their bit pattern.
//!
//! Settings such as the detection confidence threshold are binary64 numbers
//! in `Config.json`. The library holds them as the `u64` bit pattern that
//! `f64::to_bits` produces, and decides the few comparisons the settings
//! need (ordering, clamping) exactly on those bits: a value is NaN when its
//! exponent field is all ones and its mantissa is non-zero; otherwise its
//! order is that of its sign-magnitude reading, where `+0.0` and `-0.0`
//! compare equal.
use vstd::prelude::*;

verus! {

/// Bit pattern of `0.0`.
pub const F64_ZERO: u64 = 0;

/// Bit pattern of `1.0`.
pub const F64_ONE: u64 = 0x3FF0_0000_0000_0000;

/// Bit pattern of `0.5`.
pub const F64_HALF: u64 = 0x3FE0_0000_0000_0000;

/// Exponent field (11 bits) of a binary64 bit pattern.
pub open spec fn exponent_field(b: u64) -> int {
    (b as int / 0x10_0000_0000_0000) % 0x800
}

/// Mantissa field (52 bits) of a binary64 bit pattern.
pub open spec fn mantissa_field(b: u64) -> int {
    b as int % 0x10_0000_0000_0000
}

/// The pattern encodes a NaN.
pub open spec fn is_nan(b: u64) -> bool {
    exponent_field(b) == 0x7FF && mantissa_field(b) != 0
}

/// Position of a non-NaN value on the number line: the magnitude bits,
/// negated when the sign bit is set (so both zeros map to 0).
pub open spec fn order_key(b: u64) -> int {
    if b >= 0x8000_0000_0000_0000 {
        -(b as int - 0x8000_0000_0000_0000)
    } else {
        b as int
    }
}

/// `a < b` on binary64 values (false when either is NaN).
pub open spec fn f64_lt(a: u64, b: u64) -> bool {
    !is_nan(a) && !is_nan(b) && order_key(a) < order_key(b)
}

/// `a >= b` on binary64 values (false when either is NaN).
pub open spec fn f64_ge(a: u64, b: u64) -> bool {
    !is_nan(a) && !is_nan(b) && order_key(a) >= order_key(b)
}

/// `f64::clamp(x, lo, hi)` for `lo <= hi`: NaN stays NaN.
pub open spec fn f64_clamp(x: u64, lo: u64, hi: u64) -> u64 {
    if f64_lt(x, lo) {
        lo
    } else if f64_lt(hi, x) {
        hi
    } else {
        x
    }
}

/// Whether `b` is a NaN pattern.
pub fn bits_is_nan(b: u64) -> (r: bool)
    ensures
        r == is_nan(b),
{
    let e = (b / 0x10_0000_0000_0000) % 0x800;
    let m = b % 0x10_0000_0000_0000;
    e == 0x7FF && m != 0
}

/// The order key of `b` (see `order_key`).
pub fn bits_order_key(b: u64) -> (r: i128)
    ensures
        r == order_key(b),
{
    if b >= 0x8000_0000_0000_0000 {
        -((b - 0x8000_0000_0000_0000) as i128)
    } else {
        b as i128
    }
}

/// `a < b` on binary64 values.
pub fn bits_lt(a: u64, b: u64) -> (r: bool)
    ensures
        r == f64_lt(a, b),
{
    !bits_is_nan(a) && !bits_is_nan(b) && bits_order_key(a) < bits_order_key(b)
}

/// `a >= b` on binary64 values.
pub fn bits_ge(a: u64, b: u64) -> (r: bool)
    ensures
        r == f64_ge(a, b),
{
    !bits_is_nan(a) && !bits_is_nan(b) && bits_order_key(a) >= bits_order_key(b)
}

/// `f64::clamp(x, lo, hi)`.
pub fn bits_clamp(x: u64, lo: u64, hi: u64) -> (r: u64)
    ensures
        r == f64_clamp(x, lo, hi),
{
    if bits_lt(x, lo) {
        lo
    } else if bits_lt(hi, x) {
        hi
    } else {
        x
    }
}

} // verus!
