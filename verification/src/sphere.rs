//! The sphere acceptance decision.
//!
//! A ray meets a sphere where a quadratic has roots: the kernel computes
//! the discriminant and the smaller root as floats, and the two rejection
//! rules — no real root, and a root at or behind the ray origin — are
//! float comparisons, verified here on the bit patterns with IEEE-754
//! comparison semantics.  Note what the rules let through: a NaN
//! discriminant or root fails both `< 0` and `<= 0` and is *not* rejected,
//! so degenerate geometry can hand the scene scan a NaN hit distance.
//! That is exactly why the closest-hit selection ranks distances by the
//! NaN-safe total order.

use vstd::prelude::*;

use crate::ray_order::is_negative_bits;
use crate::ray_order::is_nonpositive_bits;
use crate::ray_order::INFINITY_BITS;
use crate::ray_order::SIGN_BIT;

verus! {

/// The discriminant rules the hit out: it is strictly negative (a NaN
/// discriminant is not, and flows on into the root).
pub fn discriminant_rejects(disc: u32) -> (r: bool)
    ensures
        r == is_negative_bits(disc),
{
    let mag: u32 = if disc >= SIGN_BIT { disc - SIGN_BIT } else { disc };
    disc > SIGN_BIT && mag <= INFINITY_BITS
}

/// The smaller root rules the hit out: the distance is zero or negative
/// (a NaN distance is not, and flows on into the scene scan).
pub fn root_rejects(t: u32) -> (r: bool)
    ensures
        r == is_nonpositive_bits(t),
{
    let mag: u32 = if t >= SIGN_BIT { t - SIGN_BIT } else { t };
    t == 0 || t == SIGN_BIT || (t > SIGN_BIT && mag <= INFINITY_BITS)
}

} // verus!
