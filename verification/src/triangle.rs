//! The triangle acceptance decision (Möller–Trumbore).
//!
//! The kernel computes the determinant, the barycentric coordinates and
//! the hit distance as floats; the rejection rules they feed are float
//! comparisons, verified here on the bit patterns with IEEE-754 comparison
//! semantics: near-parallel rays are rejected by the determinant, hits
//! outside the barycentric triangle by its coordinates (the edges
//! themselves included), and only strictly positive distances are
//! reported.

use vstd::prelude::*;

use crate::ray_order::abs_bits;
use crate::ray_order::is_nan_bits;
use crate::ray_order::is_negative_bits;
use crate::ray_order::exceeds_one_bits;
use crate::ray_order::is_positive_bits;
use crate::ray_order::ONE_BITS;
use crate::ray_order::INFINITY_BITS;
use crate::ray_order::SIGN_BIT;

verus! {

/// Bit pattern of the determinant threshold (`1e-8` as an `f32`): rays
/// closer to the triangle's plane than this count as parallel.
pub const DETERMINANT_EPSILON_BITS: u32 = 0x322b_cc77;

/// The determinant rules the hit out: its magnitude is below the
/// threshold.  A NaN determinant is not "small" — the float comparison
/// fails on it — and the poisoned barycentric coordinates flow on.
pub open spec fn determinant_reject(det: u32) -> bool {
    !is_nan_bits(det) && abs_bits(det) < DETERMINANT_EPSILON_BITS
}

/// The barycentric tests: the first coordinate must lie in `[0, 1]`, the
/// second must not be negative, and their sum must not exceed one, each as
/// the float comparisons decide them (an edge hit, where a coordinate is
/// exactly zero or the sum exactly one, is accepted).
pub open spec fn barycentric_reject(u: u32, v: u32, uv: u32) -> bool {
    ||| is_negative_bits(u)
    ||| exceeds_one_bits(u)
    ||| is_negative_bits(v)
    ||| exceeds_one_bits(uv)
}

/// Applies [`determinant_reject`] to the determinant's bit pattern.
pub fn determinant_rejects(det: u32) -> (r: bool)
    ensures
        r == determinant_reject(det),
{
    let mag: u32 = if det >= SIGN_BIT { det - SIGN_BIT } else { det };
    mag <= INFINITY_BITS && mag < DETERMINANT_EPSILON_BITS
}

/// Applies [`barycentric_reject`] to the coordinates' bit patterns:
/// `u` and `v` are the two barycentric coordinates, `uv` their float sum.
pub fn barycentric_rejects(u: u32, v: u32, uv: u32) -> (r: bool)
    ensures
        r == barycentric_reject(u, v, uv),
{
    let u_mag: u32 = if u >= SIGN_BIT { u - SIGN_BIT } else { u };
    if u > SIGN_BIT && u_mag <= INFINITY_BITS {
        return true;
    }
    if ONE_BITS < u && u <= INFINITY_BITS {
        return true;
    }
    let v_mag: u32 = if v >= SIGN_BIT { v - SIGN_BIT } else { v };
    if v > SIGN_BIT && v_mag <= INFINITY_BITS {
        return true;
    }
    ONE_BITS < uv && uv <= INFINITY_BITS
}

/// The distance test: only a strictly positive hit distance is reported
/// (so a NaN distance from degenerate vertices is dropped here, before it
/// could reach the mesh scan).
pub fn reports_hit(t: u32) -> (r: bool)
    ensures
        r == is_positive_bits(t),
{
    crate::ray_order::positive_bits(t)
}

} // verus!
