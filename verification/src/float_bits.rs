//! Comparison semantics of IEEE-754 double-precision numbers, expressed on
//! their 64-bit patterns.
//!
//! The event types carry a delta time as the bit pattern of a double. The
//! functions here decide equality and partial order of two such bit patterns
//! exactly as IEEE-754 (and hence `f64`) does: `NaN` compares equal to
//! nothing and is ordered against nothing, positive and negative zero are
//! equal, and all other values are ordered by their numeric value.

use core::cmp::Ordering;
use vstd::prelude::*;

verus! {

/// Mask selecting everything but the sign bit of a double's bit pattern.
pub const ABS_MASK: u64 = 0x7FFF_FFFF_FFFF_FFFF;

/// Bit pattern of positive infinity: all exponent bits set, zero mantissa.
/// A magnitude above this one is a `NaN`.
pub const INF_BITS: u64 = 0x7FF0_0000_0000_0000;

/// Mask selecting the sign bit of a double's bit pattern.
pub const SIGN_MASK: u64 = 0x8000_0000_0000_0000;

/// A bit pattern is a `NaN` when its exponent bits are all set and its
/// mantissa is not zero, that is, when its magnitude exceeds infinity's.
pub open spec fn spec_is_nan(bits: u64) -> bool {
    bits & ABS_MASK > INF_BITS
}

/// Decides whether a bit pattern denotes a `NaN`.
#[verifier::when_used_as_spec(spec_is_nan)]
pub fn is_nan(bits: u64) -> (r: bool)
    ensures
        r == spec_is_nan(bits),
{
    bits & ABS_MASK > INF_BITS
}

/// A bit pattern denotes a zero (positive or negative) when everything but
/// the sign bit is clear.
pub open spec fn spec_is_zero(bits: u64) -> bool {
    bits & ABS_MASK == 0
}

/// Decides whether a bit pattern denotes positive or negative zero.
#[verifier::when_used_as_spec(spec_is_zero)]
pub fn is_zero(bits: u64) -> (r: bool)
    ensures
        r == spec_is_zero(bits),
{
    bits & ABS_MASK == 0
}

/// IEEE-754 equality on bit patterns: no `NaN` is equal to anything, the two
/// zeros are equal to each other, and every other value is equal exactly to
/// its own bit pattern.
pub open spec fn spec_eq(a: u64, b: u64) -> bool {
    &&& !spec_is_nan(a)
    &&& !spec_is_nan(b)
    &&& (a == b || (spec_is_zero(a) && spec_is_zero(b)))
}

/// Decides IEEE-754 equality of two doubles given by their bit patterns.
#[verifier::when_used_as_spec(spec_eq)]
pub fn eq(a: u64, b: u64) -> (r: bool)
    ensures
        r == spec_eq(a, b),
{
    !is_nan(a) && !is_nan(b) && (a == b || (is_zero(a) && is_zero(b)))
}

/// A key that orders non-`NaN` bit patterns as IEEE-754 orders their values:
/// negative values are mapped, larger magnitude first, below all positive
/// ones. Only the two zeros receive distinct keys despite comparing equal;
/// `spec_cmp` tests equality before consulting the key.
pub open spec fn spec_order_key(bits: u64) -> u64 {
    if bits & SIGN_MASK == SIGN_MASK {
        bits ^ 0xFFFF_FFFF_FFFF_FFFF
    } else {
        bits | SIGN_MASK
    }
}

/// Computes the ordering key of a bit pattern.
#[verifier::when_used_as_spec(spec_order_key)]
pub fn order_key(bits: u64) -> (r: u64)
    ensures
        r == spec_order_key(bits),
{
    if bits & SIGN_MASK == SIGN_MASK {
        bits ^ 0xFFFF_FFFF_FFFF_FFFF
    } else {
        bits | SIGN_MASK
    }
}

/// IEEE-754 partial order on bit patterns: `None` when either side is a
/// `NaN`, `Equal` on IEEE-equal values (including the two zeros), and
/// otherwise the order of the numeric values.
pub open spec fn spec_cmp(a: u64, b: u64) -> Option<Ordering> {
    if spec_is_nan(a) || spec_is_nan(b) {
        None
    } else if spec_eq(a, b) {
        Some(Ordering::Equal)
    } else if spec_order_key(a) < spec_order_key(b) {
        Some(Ordering::Less)
    } else {
        Some(Ordering::Greater)
    }
}

/// Decides the IEEE-754 partial order of two doubles given by their bit
/// patterns.
#[verifier::when_used_as_spec(spec_cmp)]
pub fn cmp(a: u64, b: u64) -> (r: Option<Ordering>)
    ensures
        r == spec_cmp(a, b),
{
    if is_nan(a) || is_nan(b) {
        None
    } else if eq(a, b) {
        Some(Ordering::Equal)
    } else if order_key(a) < order_key(b) {
        Some(Ordering::Less)
    } else {
        Some(Ordering::Greater)
    }
}

/// Strict IEEE-754 `<` on bit patterns.
pub open spec fn spec_lt(a: u64, b: u64) -> bool {
    spec_cmp(a, b) == Some(Ordering::Less)
}

} // verus!
