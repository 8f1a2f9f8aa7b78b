//! NaN-safe total ordering of hit distances.
//!
//! Primitive intersection returns its distance `t` as an `f32`; degenerate
//! geometry can make that distance NaN, and a naive float comparison would
//! have no consistent answer for it.  The renderer therefore ranks hit
//! distances by the IEEE-754 *total order* of their bit patterns: negative
//! values (sign bit set) in descending bit order, then positive values in
//! ascending bit order, with NaN payloads sorted after infinity.  On raw bit
//! patterns this order is pure integer logic, verified here: `total_key` is a
//! strictly monotone relabeling of the order, and the lemmas show the order
//! is total, antisymmetric and transitive, so selecting a minimum can never
//! go wrong, whatever bits the geometry produced.

use vstd::prelude::*;

verus! {

/// Bit pattern of positive infinity in IEEE-754 single precision.
pub const INFINITY_BITS: u32 = 0x7f80_0000;

/// The sign bit of an IEEE-754 single-precision value (also the bit pattern
/// of negative zero).
pub const SIGN_BIT: u32 = 0x8000_0000;

/// The bit pattern with the sign bit cleared: the bit pattern of the
/// value's absolute value.
pub open spec fn abs_bits(b: u32) -> u32 {
    if b >= SIGN_BIT {
        (b - SIGN_BIT) as u32
    } else {
        b
    }
}

/// The bit pattern encodes a NaN: the magnitude bits exceed those of
/// infinity.
pub open spec fn is_nan_bits(b: u32) -> bool {
    abs_bits(b) > INFINITY_BITS
}

/// The bit pattern encodes a value strictly less than zero (a negative
/// real or negative infinity; neither a NaN nor a zero).
pub open spec fn is_negative_bits(b: u32) -> bool {
    b > SIGN_BIT && !is_nan_bits(b)
}

/// The bit pattern encodes a value less than or equal to zero.
pub open spec fn is_nonpositive_bits(b: u32) -> bool {
    b == 0 || b == SIGN_BIT || is_negative_bits(b)
}

/// Bit pattern of `1.0` as an `f32`.
pub const ONE_BITS: u32 = 0x3f80_0000;

/// The bit pattern encodes a value strictly greater than zero (a positive
/// real or positive infinity; neither a NaN nor a zero).
pub open spec fn is_positive_bits(b: u32) -> bool {
    1 <= b <= INFINITY_BITS
}

/// The bit pattern encodes a value strictly greater than one, as the float
/// comparison has it (false on NaN).
pub open spec fn exceeds_one_bits(b: u32) -> bool {
    ONE_BITS < b <= INFINITY_BITS
}

/// Whether the bit pattern encodes a strictly positive value, as the float
/// comparison `x > 0.0` decides it (false on NaN and on either zero).
pub fn positive_bits(b: u32) -> (r: bool)
    ensures
        r == is_positive_bits(b),
{
    1 <= b && b <= INFINITY_BITS
}

/// Rank of a bit pattern in the IEEE-754 total order: bit patterns with the
/// sign bit set (negative values, negative NaNs) are reversed and placed
/// first, the rest keep their bit order and follow.
pub open spec fn total_key(bits: u32) -> int {
    if bits >= SIGN_BIT {
        0xffff_ffff - bits
    } else {
        bits + SIGN_BIT
    }
}

/// `a` precedes or equals `b` in the IEEE-754 total order.
pub open spec fn le_total(a: u32, b: u32) -> bool {
    total_key(a) <= total_key(b)
}

/// `a` strictly precedes `b` in the IEEE-754 total order.
pub open spec fn lt_total(a: u32, b: u32) -> bool {
    total_key(a) < total_key(b)
}

/// Compares two distances given as `f32` bit patterns in the IEEE-754 total
/// order.
pub fn le_total_bits(a: u32, b: u32) -> (r: bool)
    ensures
        r == le_total(a, b),
{
    let ka: u32 = if a >= SIGN_BIT { 0xffff_ffff - a } else { a + SIGN_BIT };
    let kb: u32 = if b >= SIGN_BIT { 0xffff_ffff - b } else { b + SIGN_BIT };
    ka <= kb
}

/// Any two bit patterns are comparable: the order is total, so a minimum
/// always exists and a comparison-based scan can never fail.
pub proof fn lemma_le_total_total(a: u32, b: u32)
    ensures
        le_total(a, b) || le_total(b, a),
{
}

/// Two bit patterns that precede each other are the same pattern: the key is
/// injective, so equal ranks mean equal bits.
pub proof fn lemma_le_total_antisymmetric(a: u32, b: u32)
    requires
        le_total(a, b),
        le_total(b, a),
    ensures
        a == b,
{
}

/// The order composes: a chain of comparisons yields a comparison.
pub proof fn lemma_le_total_transitive(a: u32, b: u32, c: u32)
    requires
        le_total(a, b),
        le_total(b, c),
    ensures
        le_total(a, c),
{
}

/// For bit patterns without the sign bit (non-negative values, the only ones
/// a positive hit distance can carry), the total order agrees with plain
/// integer order of the patterns.
pub proof fn lemma_le_total_nonnegative(a: u32, b: u32)
    requires
        a < SIGN_BIT,
        b < SIGN_BIT,
    ensures
        le_total(a, b) == (a <= b),
{
}

} // verus!
