//! The parallelogram acceptance decision.
//!
//! Intersecting a ray with a finite parallelogram means solving for the
//! distance on the supporting plane and testing the hit point against the
//! two edge vectors.  The dot products and the division are floating point
//! and computed outside; every comparison they feed — the parallel test,
//! the distance test, and the boundary-inclusive extent test — is a float
//! comparison, which on bit patterns is exact integer logic and is verified
//! here, NaN cases included, exactly as IEEE-754 comparison behaves.

use vstd::prelude::*;

use crate::ray_order::abs_bits;
use crate::ray_order::is_nan_bits;
use crate::ray_order::le_total;
use crate::ray_order::INFINITY_BITS;
use crate::ray_order::SIGN_BIT;

verus! {

/// Bit pattern of the parallel-rejection threshold (`1e-6` as an `f32`):
/// rays whose direction is this close to the plane are treated as parallel.
pub const PARALLEL_EPSILON_BITS: u32 = 0x3586_37bd;

/// Bit pattern of the minimum accepted hit distance (`1e-4` as an `f32`).
pub const DISTANCE_EPSILON_BITS: u32 = 0x38d1_b717;

/// Outcome of the acceptance decision: a miss, or a hit with the side of
/// the parallelogram the ray sees (the reported normal is flipped on the
/// back side, for two-sided shading).
#[derive(Clone, Copy, PartialEq, Eq, Structural, Debug)]
pub enum PlaneTest {
    Miss,
    /// The ray runs against the stored normal: report it unchanged.
    Front,
    /// The ray runs along the stored normal: report it negated.
    Back,
}

/// The ray is (nearly) parallel to the plane: `|denom|` is below the
/// threshold.  A NaN denominator is not "nearly parallel" — as a float
/// comparison it fails the test — and is instead rejected by the distance
/// test, whose result it poisons.
pub open spec fn parallel_reject(denom: u32) -> bool {
    !is_nan_bits(denom) && abs_bits(denom) < PARALLEL_EPSILON_BITS
}

/// The supporting-plane distance is unusable: not finite, or at most the
/// epsilon.  For finite values the float comparison `t <= 1e-4` coincides
/// with the IEEE-754 total order on the bit patterns.
pub open spec fn distance_reject(t: u32) -> bool {
    abs_bits(t) >= INFINITY_BITS || le_total(t, DISTANCE_EPSILON_BITS)
}

/// The boundary-inclusive extent test along one edge: the projection `d·e`
/// may reach `|e|²` in magnitude exactly; one ulp beyond is outside.  A NaN
/// on either side passes, as the original float comparison `|d·e| > |e|²`
/// fails on NaN; such a hit is harmless and mirrors IEEE-754 semantics.
pub open spec fn within_extent(d_dot_e: u32, e2: u32) -> bool {
    is_nan_bits(d_dot_e) || is_nan_bits(e2) || abs_bits(d_dot_e) <= e2
}

/// The full rejection rule of the parallelogram intersection.
pub open spec fn plane_reject(denom: u32, t: u32, du: u32, u2: u32, dv: u32, v2: u32) -> bool {
    ||| parallel_reject(denom)
    ||| distance_reject(t)
    ||| !within_extent(du, u2)
    ||| !within_extent(dv, v2)
}

/// Decides a parallelogram hit from the intersection arithmetic's results,
/// all given as `f32` bit patterns: `denom` is the direction's projection
/// on the normal, `t` the supporting-plane distance, `du` and `dv` the hit
/// displacement's projections on the edge vectors, `u2` and `v2` the edges'
/// squared lengths (non-negative by construction).
pub fn plane_test(denom: u32, t: u32, du: u32, u2: u32, dv: u32, v2: u32) -> (r: PlaneTest)
    ensures
        r is Miss <==> plane_reject(denom, t, du, u2, dv, v2),
        r is Front <==> !plane_reject(denom, t, du, u2, dv, v2) && denom >= SIGN_BIT,
        r is Back <==> !plane_reject(denom, t, du, u2, dv, v2) && denom < SIGN_BIT,
{
    let denom_abs: u32 = if denom >= SIGN_BIT { denom - SIGN_BIT } else { denom };
    if denom_abs <= INFINITY_BITS && denom_abs < PARALLEL_EPSILON_BITS {
        return PlaneTest::Miss;
    }
    let t_abs: u32 = if t >= SIGN_BIT { t - SIGN_BIT } else { t };
    if t_abs >= INFINITY_BITS || crate::ray_order::le_total_bits(t, DISTANCE_EPSILON_BITS) {
        return PlaneTest::Miss;
    }
    let du_abs: u32 = if du >= SIGN_BIT { du - SIGN_BIT } else { du };
    let u2_abs: u32 = if u2 >= SIGN_BIT { u2 - SIGN_BIT } else { u2 };
    if du_abs <= INFINITY_BITS && u2_abs <= INFINITY_BITS && du_abs > u2 {
        return PlaneTest::Miss;
    }
    let dv_abs: u32 = if dv >= SIGN_BIT { dv - SIGN_BIT } else { dv };
    let v2_abs: u32 = if v2 >= SIGN_BIT { v2 - SIGN_BIT } else { v2 };
    if dv_abs <= INFINITY_BITS && v2_abs <= INFINITY_BITS && dv_abs > v2 {
        return PlaneTest::Miss;
    }
    if denom >= SIGN_BIT {
        PlaneTest::Front
    } else {
        PlaneTest::Back
    }
}

} // verus!
