//! Autofocus: the probe grid and the focal-distance selection rule.
//!
//! Before rendering, the camera casts a small grid of probe rays near the
//! screen center and focuses at the average of the distances they hit.  The
//! ray directions and the averaging are floating point and happen outside
//! this crate; verified here are the shape of the probe grid, the selection
//! of the probes that hit anything, and the rule that an all-miss grid
//! falls back to a fixed default distance instead of dividing by zero.

use vstd::prelude::*;

verus! {

/// Side length of the square autofocus probe grid.
pub const PROBE_GRID: u32 = 5;

/// Bit pattern of the default focal distance (`10.0` as an `f32`) used when
/// no probe ray hits anything.
pub const FALLBACK_FOCUS_BITS: u32 = 0x4120_0000;

/// The distances of the probes that hit something, in probe order: `Some`
/// entries keep their payload, misses are dropped.
pub open spec fn hit_distances(ts: Seq<Option<u32>>) -> Seq<u32>
    decreases ts.len(),
{
    if ts.len() == 0 {
        Seq::empty()
    } else {
        let rest = hit_distances(ts.drop_last());
        if ts.last() is Some {
            rest.push(ts.last()->0)
        } else {
            rest
        }
    }
}

/// Pixel offsets of the autofocus probe grid relative to the screen center:
/// a square block of `PROBE_GRID` by `PROBE_GRID` rays, centered.
pub fn probe_offsets() -> (r: Vec<(i64, i64)>)
    ensures
        r@.len() == PROBE_GRID * PROBE_GRID,
        forall|k: int|
            0 <= k < r@.len() ==> #[trigger] r@[k] == (((k / (PROBE_GRID as int)) - 2) as i64, ((k % (PROBE_GRID as int)) - 2) as i64),
{
    let mut r: Vec<(i64, i64)> = Vec::new();
    let mut i: u32 = 0;
    while i < PROBE_GRID
        invariant
            i <= PROBE_GRID,
            r@.len() == i * PROBE_GRID,
            forall|k: int|
                0 <= k < r@.len() ==> #[trigger] r@[k] == (((k / 5) - 2) as i64, ((k % 5)
                    - 2) as i64),
        decreases PROBE_GRID - i,
    {
        let mut j: u32 = 0;
        while j < PROBE_GRID
            invariant
                i < PROBE_GRID,
                j <= PROBE_GRID,
                r@.len() == i * PROBE_GRID + j,
                forall|k: int|
                    0 <= k < r@.len() ==> #[trigger] r@[k] == (((k / 5) - 2) as i64, ((k % 5)
                        - 2) as i64),
            decreases PROBE_GRID - j,
        {
            r.push((i as i64 - 2, j as i64 - 2));
            j = j + 1;
        }
        i = i + 1;
    }
    r
}

/// The focal-distance selection: from the probe results, either the
/// distances to average (every probe that hit, in probe order) or `None`,
/// in which case the camera focuses at the fallback distance.
pub fn autofocus_distances(ts: &Vec<Option<u32>>) -> (r: Option<Vec<u32>>)
    ensures
        r is None <==> hit_distances(ts@).len() == 0,
        r matches Some(v) ==> v@ == hit_distances(ts@),
{
    let mut hits: Vec<u32> = Vec::new();
    let mut k: usize = 0;
    while k < ts.len()
        invariant
            k <= ts.len(),
            hits@ == hit_distances(ts@.take(k as int)),
        decreases ts.len() - k,
    {
        proof {
            assert(ts@.take(k + 1 as int).drop_last() =~= ts@.take(k as int));
            assert(ts@.take(k + 1 as int).last() == ts@[k as int]);
        }
        if let Some(t) = ts[k] {
            hits.push(t);
        }
        k = k + 1;
    }
    proof {
        assert(ts@.take(ts@.len() as int) =~= ts@);
    }
    if hits.len() == 0 {
        None
    } else {
        Some(hits)
    }
}

} // verus!
