//! Closest-hit selection.
//!
//! The scene is a flat, ordered list of primitives; intersecting a ray means
//! asking every primitive for its hit distance and keeping the nearest.  The
//! per-primitive distance arithmetic is floating point and happens outside
//! this crate; each candidate arrives here as `Some` of the distance's `f32`
//! bit pattern, or `None` for a miss.  Selection itself is verified: the
//! result is the first candidate that is minimal in the IEEE-754 total
//! order, so ties go to the earlier primitive and a NaN distance can never
//! make the scan panic or behave inconsistently.

use vstd::prelude::*;

use crate::ray_order::le_total;
use crate::ray_order::le_total_bits;
use crate::ray_order::lt_total;

verus! {

/// Some candidate in `ts` is a hit.
pub open spec fn has_hit(ts: Seq<Option<u32>>) -> bool {
    exists|j: int| 0 <= j < ts.len() && ts[j] is Some
}

/// Index `i` holds a hit no farther (in the total order) than any other hit,
/// and strictly nearer than every earlier hit, i.e. it is the first minimal
/// candidate.
pub open spec fn is_closest_hit(ts: Seq<Option<u32>>, i: int) -> bool {
    &&& 0 <= i < ts.len()
    &&& ts[i] is Some
    &&& forall|j: int| 0 <= j < ts.len() && ts[j] is Some ==> le_total(ts[i]->0, ts[j]->0)
    &&& forall|j: int| 0 <= j < i && ts[j] is Some ==> lt_total(ts[i]->0, ts[j]->0)
}

/// Linear scan for the nearest surface along a ray.
///
/// `ts` holds, primitive by primitive in scene order, either the hit
/// distance as an `f32` bit pattern or `None` for a miss.  Returns the index
/// of the closest hit — the first one in case of exact ties — or `None` when
/// every primitive missed.
pub fn closest_hit(ts: &Vec<Option<u32>>) -> (r: Option<usize>)
    ensures
        r is Some <==> has_hit(ts@),
        r matches Some(i) ==> is_closest_hit(ts@, i as int),
{
    let mut best: Option<usize> = None;
    let mut k: usize = 0;
    while k < ts.len()
        invariant
            k <= ts.len(),
            best is None ==> forall|j: int| 0 <= j < k ==> ts@[j] is None,
            best matches Some(i) ==> {
                &&& i < k
                &&& ts@[i as int] is Some
                &&& forall|j: int|
                    0 <= j < k && ts@[j] is Some ==> le_total(ts@[i as int]->0, ts@[j]->0)
                &&& forall|j: int|
                    0 <= j < i && ts@[j] is Some ==> lt_total(ts@[i as int]->0, ts@[j]->0)
            },
        decreases ts.len() - k,
    {
        if let Some(t) = ts[k] {
            let replace: bool = match best {
                None => true,
                Some(i) => {
                    let bt = ts[i].unwrap();
                    !le_total_bits(bt, t)
                },
            };
            if replace {
                best = Some(k);
            }
        }
        k = k + 1;
    }
    best
}

/// Bit pattern of the mesh intersection epsilon (`1e-4` as an `f32`):
/// triangle hits at or below this distance are self-intersection noise and
/// are rejected.
pub const MESH_EPSILON_BITS: u32 = 0x38d1_b717;

/// A triangle hit distance is admissible when it lies strictly between the
/// epsilon and infinity.  Triangle intersection only reports distances
/// strictly greater than zero, and for such `f32` values plain integer order
/// of the bit patterns is exactly the order of the distances.
pub open spec fn admissible(b: u32) -> bool {
    MESH_EPSILON_BITS < b < crate::ray_order::INFINITY_BITS
}

/// The scan over a mesh's triangles: among the admissible hit distances
/// (given as `f32` bit patterns of positive values), return the index of the
/// first strictly closest one, or `None` when no triangle has an admissible
/// hit.
pub fn closest_triangle(ts: &Vec<Option<u32>>) -> (r: Option<usize>)
    ensures
        r is Some <==> exists|j: int|
            0 <= j < ts@.len() && #[trigger] ts@[j] is Some && admissible(ts@[j]->0),
        r matches Some(i) ==> {
            &&& i < ts@.len()
            &&& ts@[i as int] matches Some(b) && admissible(b)
            &&& forall|j: int|
                #![trigger ts@[j]]
                0 <= j < ts@.len() && ts@[j] is Some && admissible(ts@[j]->0) ==> ts@[i as int]->0
                    <= ts@[j]->0
            &&& forall|j: int|
                #![trigger ts@[j]]
                0 <= j < i && ts@[j] is Some && admissible(ts@[j]->0) ==> ts@[i as int]->0
                    < ts@[j]->0
        },
{
    let mut best: Option<usize> = None;
    let mut k: usize = 0;
    while k < ts.len()
        invariant
            k <= ts.len(),
            best is None ==> forall|j: int|
                #![trigger ts@[j]]
                0 <= j < k ==> !(ts@[j] is Some && admissible(ts@[j]->0)),
            best matches Some(i) ==> {
                &&& i < k
                &&& ts@[i as int] matches Some(b) && admissible(b)
                &&& forall|j: int|
                    #![trigger ts@[j]]
                    0 <= j < k && ts@[j] is Some && admissible(ts@[j]->0) ==> ts@[i as int]->0
                        <= ts@[j]->0
                &&& forall|j: int|
                    #![trigger ts@[j]]
                    0 <= j < i && ts@[j] is Some && admissible(ts@[j]->0) ==> ts@[i as int]->0
                        < ts@[j]->0
            },
        decreases ts.len() - k,
    {
        if let Some(t) = ts[k] {
            if t > MESH_EPSILON_BITS && t < crate::ray_order::INFINITY_BITS {
                let replace: bool = match best {
                    None => true,
                    Some(i) => t < ts[i].unwrap(),
                };
                if replace {
                    best = Some(k);
                }
            }
        }
        k = k + 1;
    }
    best
}

} // verus!
