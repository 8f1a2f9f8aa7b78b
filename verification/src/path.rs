//! Control state machine of the recursive path integrator.
//!
//! One radiance estimate walks a ray through the scene: at every step the
//! floating-point kernel intersects, samples and shades, but which branch
//! the walk takes — stop, scatter in the carried medium, branch at a
//! dielectric, bounce off an opaque surface, or fall through to the sky —
//! and how the recursion state evolves is discrete and verified here.  The
//! kernel reports what it measured and which way each random coin fell as a
//! [`PathEvent`]; [`path_step`] answers with the [`PathAction`] to perform
//! and the state for the recursive call.  The contracts pin down the
//! machine completely: depth and glass-bounce budgets force termination,
//! the carried medium follows the surface-crossing rule, and Russian
//! roulette below the threshold depth never kills or reweights a path.

use vstd::prelude::*;

use crate::ray_order::abs_bits;
use crate::ray_order::exceeds_one_bits;
use crate::ray_order::is_nan_bits;
use crate::ray_order::is_positive_bits;
use crate::ray_order::INFINITY_BITS;
use crate::ray_order::ONE_BITS;
use crate::ray_order::SIGN_BIT;

verus! {

/// Maximum recursion depth of the path integrator; deeper paths contribute
/// black (a bounded energy-loss bias, not an error).
pub const MAX_DEPTH: u32 = 5;

/// Depth from which Russian roulette may terminate a path; below it every
/// opaque bounce survives unweighted.
pub const RUSSIAN_ROULETTE_DEPTH: u32 = 2;

/// Maximum number of dielectric bounces along one path; a path that refracts
/// or reflects through glass more often contributes black.
pub const MAX_GLASS_BOUNCES: u32 = 8;

/// Stratified shadow samples the kernel draws on each area light when a
/// step calls for direct lighting.
pub const SHADOW_SAMPLES: u32 = 4;

/// What the path integrator needs to know of a material: `dielectric`
/// holds when the index of refraction exceeds one and the metalness is
/// below one tenth; `volumetric` holds when the material carries a
/// participating medium (positive volume density).  [`classify_material`]
/// computes it from the surface parameters' bit patterns.
#[derive(Clone, Copy, PartialEq, Eq, Structural, Debug)]
pub struct MaterialClass {
    pub dielectric: bool,
    pub volumetric: bool,
}

/// Bit pattern of the metalness threshold (`0.1` as an `f32`) below which a
/// refracting surface counts as dielectric.
pub const METALLIC_THRESHOLD_BITS: u32 = 0x3dcc_cccd;

/// Bit pattern of the anisotropy threshold (`1e-3` as an `f32`) below which
/// a medium's phase function counts as isotropic.
pub const PHASE_ISOTROPY_EPSILON_BITS: u32 = 0x3a83_126f;

/// The float comparison `metallic < 0.1` on the bit pattern: false on NaN,
/// true on every negative value, and on non-negative values decided by the
/// bit order.
pub open spec fn metallic_below_threshold(b: u32) -> bool {
    !is_nan_bits(b) && (b >= SIGN_BIT || b < METALLIC_THRESHOLD_BITS)
}

/// Classifies a material from the bit patterns of its surface parameters,
/// exactly as the float comparisons would: dielectric when the index of
/// refraction exceeds one and the metalness is below the threshold,
/// volumetric when the volume density is strictly positive.
pub fn classify_material(ior: u32, metallic: u32, density: u32) -> (r: MaterialClass)
    ensures
        r.dielectric == (exceeds_one_bits(ior) && metallic_below_threshold(metallic)),
        r.volumetric == is_positive_bits(density),
{
    let ior_refracts: bool = ONE_BITS < ior && ior <= INFINITY_BITS;
    let m_mag: u32 = if metallic >= SIGN_BIT { metallic - SIGN_BIT } else { metallic };
    let metallic_low: bool = m_mag <= INFINITY_BITS && (metallic >= SIGN_BIT || metallic
        < METALLIC_THRESHOLD_BITS);
    MaterialClass {
        dielectric: ior_refracts && metallic_low,
        volumetric: crate::ray_order::positive_bits(density),
    }
}

/// The phase-function branch of medium scattering: anisotropy this close
/// to zero falls back to uniform sphere sampling (the float comparison
/// `|g| < 1e-3`, false on NaN).
pub fn phase_is_isotropic(g: u32) -> (r: bool)
    ensures
        r == (!is_nan_bits(g) && abs_bits(g) < PHASE_ISOTROPY_EPSILON_BITS),
{
    let mag: u32 = if g >= SIGN_BIT { g - SIGN_BIT } else { g };
    mag <= INFINITY_BITS && mag < PHASE_ISOTROPY_EPSILON_BITS
}

/// Recursion state of one radiance estimate: how deep the walk is, how many
/// dielectric bounces it took, and which medium the ray currently travels
/// in, named by the caller's identifier for the material (`None` outside any
/// medium).
#[derive(Clone, Copy, PartialEq, Eq, Structural, Debug)]
pub struct PathState {
    pub depth: u32,
    pub glass_bounces: u32,
    pub medium: Option<usize>,
}

impl PathState {
    /// The state a primary camera ray starts in: at the root of the
    /// recursion, outside any medium.
    pub fn initial() -> (s: PathState)
        ensures
            s == (PathState { depth: 0, glass_bounces: 0, medium: None }),
    {
        PathState { depth: 0, glass_bounces: 0, medium: None }
    }
}

/// What the floating-point kernel observed at the current step of the walk.
/// Comparisons of sampled floats against float thresholds (the reflectance
/// coin, the roulette survival coin, the lobe choice) are taken outside and
/// arrive as the booleans recorded in `Surface`.
#[derive(Clone, Copy, PartialEq, Eq, Structural, Debug)]
pub enum PathEvent {
    /// The free-flight distance sampled in the carried medium is shorter
    /// than the distance to the nearest surface: the ray scatters inside
    /// the medium.
    MediumScatter,
    /// No surface ahead of the ray.
    Miss,
    /// The nearest surface is hit before any medium event.
    Surface {
        /// Classification of the hit surface's material.
        class: MaterialClass,
        /// The caller's identifier for the hit material; names the medium
        /// entered when the ray continues into a volumetric object.
        material: usize,
        /// The view direction points into the object (the continuing ray
        /// crosses the surface inward).
        entering: bool,
        /// Dielectric surface: the reflectance-weighted coin chose
        /// reflection over refraction.
        reflect_sample: bool,
        /// Dielectric surface: refraction is impossible (total internal
        /// reflection), so reflection is forced whatever the coin said.
        total_internal_reflection: bool,
        /// Opaque surface at roulette depth: the survival coin passed.
        roulette_sample: bool,
        /// Opaque surface: the lobe coin chose the diffuse lobe over the
        /// specular one.
        diffuse_sample: bool,
    },
}

/// What the integrator does at this step.  Every continuing variant carries
/// the state for the recursive call.
#[derive(Clone, Copy, PartialEq, Eq, Structural, Debug)]
pub enum PathAction {
    /// A recursion budget is exhausted: contribute black.
    Terminate,
    /// The ray left the scene: contribute the sky gradient of the ray's
    /// vertical component, attenuated by the medium already traversed.
    Sky,
    /// Scatter at the sampled point inside the medium: add direct lighting
    /// there and recurse in the phase-function direction, staying in the
    /// same medium.
    Scatter { next: PathState },
    /// Dielectric surface: follow exactly one of reflection (`reflect`) or
    /// refraction, never both, and recurse through the glass.
    Glass { reflect: bool, next: PathState },
    /// Opaque surface: add direct lighting and one indirect bounce, diffuse
    /// or specular; when `weighted`, the indirect contribution is divided by
    /// the roulette survival probability to keep the estimator unbiased.
    Bounce { diffuse: bool, weighted: bool, next: PathState },
    /// Opaque surface whose roulette coin failed: add direct lighting only.
    DirectOnly,
}

/// Which of the three kinds of step happens first along the ray.
#[derive(Clone, Copy, PartialEq, Eq, Structural, Debug)]
pub enum FirstEvent {
    /// The medium's sampled free-flight distance comes first.
    Medium,
    /// The nearest surface comes first.
    Surface,
    /// Neither exists: the ray leaves the scene.
    Miss,
}

/// A candidate distance with a missing entry standing for infinity.  The
/// distances are `f32` bit patterns of positive values, on which plain
/// integer order is the order of the distances.
pub open spec fn effective_distance(t: Option<u32>) -> u32 {
    match t {
        Some(b) => b,
        None => crate::ray_order::INFINITY_BITS,
    }
}

/// The event-priority rule: a medium scattering event preempts the surface
/// exactly when its sampled distance is strictly shorter; otherwise the
/// surface is hit if there is one, and the ray misses if there is none.
///
/// `t_media` is the free-flight distance sampled in the carried medium
/// (`None` when the ray travels in no scattering medium), `t_surface` the
/// closest surface hit, both as `f32` bit patterns of positive values.
pub fn first_event(t_media: &Option<u32>, t_surface: &Option<u32>) -> (r: FirstEvent)
    ensures
        r is Medium <==> effective_distance(*t_media) < effective_distance(*t_surface),
        r is Surface <==> effective_distance(*t_media) >= effective_distance(*t_surface)
            && *t_surface is Some,
        r is Miss <==> effective_distance(*t_media) >= effective_distance(*t_surface)
            && *t_surface is None,
{
    let tm: u32 = match t_media {
        Some(b) => *b,
        None => crate::ray_order::INFINITY_BITS,
    };
    let ts: u32 = match t_surface {
        Some(b) => *b,
        None => crate::ray_order::INFINITY_BITS,
    };
    if tm < ts {
        FirstEvent::Medium
    } else if t_surface.is_some() {
        FirstEvent::Surface
    } else {
        FirstEvent::Miss
    }
}

/// The medium carried after crossing a surface: continuing inward through a
/// volumetric material enters that material's medium, any other crossing
/// leaves the ray outside a medium, and a non-volumetric surface does not
/// change what is carried.
pub open spec fn next_medium(
    cur: Option<usize>,
    class: MaterialClass,
    entering: bool,
    material: usize,
) -> Option<usize> {
    if class.volumetric {
        if entering {
            Some(material)
        } else {
            None
        }
    } else {
        cur
    }
}

/// Definition of the step relation: the action taken from `state` on
/// `event`.  [`path_step`] computes exactly this.
pub open spec fn step_spec(state: PathState, event: PathEvent) -> PathAction {
    if state.depth >= MAX_DEPTH || state.glass_bounces >= MAX_GLASS_BOUNCES {
        PathAction::Terminate
    } else {
        match event {
            PathEvent::MediumScatter => PathAction::Scatter {
                next: PathState {
                    depth: (state.depth + 1) as u32,
                    glass_bounces: state.glass_bounces,
                    medium: state.medium,
                },
            },
            PathEvent::Miss => PathAction::Sky,
            PathEvent::Surface {
                class,
                material,
                entering,
                reflect_sample,
                total_internal_reflection,
                roulette_sample,
                diffuse_sample,
            } => {
                let carried = next_medium(state.medium, class, entering, material);
                if class.dielectric {
                    PathAction::Glass {
                        reflect: reflect_sample || total_internal_reflection,
                        next: PathState {
                            depth: (state.depth + 1) as u32,
                            glass_bounces: (state.glass_bounces + 1) as u32,
                            medium: carried,
                        },
                    }
                } else if state.depth < RUSSIAN_ROULETTE_DEPTH || roulette_sample {
                    PathAction::Bounce {
                        diffuse: diffuse_sample,
                        weighted: state.depth >= RUSSIAN_ROULETTE_DEPTH,
                        next: PathState {
                            depth: (state.depth + 1) as u32,
                            glass_bounces: state.glass_bounces,
                            medium: carried,
                        },
                    }
                } else {
                    PathAction::DirectOnly
                }
            },
        }
    }
}

/// The action continues the walk with a recursive call.
pub open spec fn continues(a: PathAction) -> bool {
    ||| a is Scatter
    ||| a is Glass
    ||| a is Bounce
}

/// The recursion state carried by a continuing action.
pub open spec fn next_state(a: PathAction) -> PathState
    recommends
        continues(a),
{
    match a {
        PathAction::Scatter { next } => next,
        PathAction::Glass { next, .. } => next,
        PathAction::Bounce { next, .. } => next,
        _ => PathState { depth: 0, glass_bounces: 0, medium: None },
    }
}

/// One step of the path integrator's control: from the recursion state and
/// the kernel's observation, decide the action and the state of the
/// recursive call.
pub fn path_step(state: &PathState, event: &PathEvent) -> (r: PathAction)
    ensures
        r == step_spec(*state, *event),
{
    if state.depth >= MAX_DEPTH || state.glass_bounces >= MAX_GLASS_BOUNCES {
        return PathAction::Terminate;
    }
    match *event {
        PathEvent::MediumScatter => PathAction::Scatter {
            next: PathState {
                depth: state.depth + 1,
                glass_bounces: state.glass_bounces,
                medium: state.medium,
            },
        },
        PathEvent::Miss => PathAction::Sky,
        PathEvent::Surface {
            class,
            material,
            entering,
            reflect_sample,
            total_internal_reflection,
            roulette_sample,
            diffuse_sample,
        } => {
            let carried: Option<usize> = if class.volumetric {
                if entering {
                    Some(material)
                } else {
                    None
                }
            } else {
                state.medium
            };
            if class.dielectric {
                PathAction::Glass {
                    reflect: reflect_sample || total_internal_reflection,
                    next: PathState {
                        depth: state.depth + 1,
                        glass_bounces: state.glass_bounces + 1,
                        medium: carried,
                    },
                }
            } else if state.depth < RUSSIAN_ROULETTE_DEPTH || roulette_sample {
                PathAction::Bounce {
                    diffuse: diffuse_sample,
                    weighted: state.depth >= RUSSIAN_ROULETTE_DEPTH,
                    next: PathState {
                        depth: state.depth + 1,
                        glass_bounces: state.glass_bounces,
                        medium: carried,
                    },
                }
            } else {
                PathAction::DirectOnly
            }
        },
    }
}

/// The recursion is bounded: a step taken at or beyond the depth budget
/// terminates, and every continuing step deepens the state by exactly one,
/// so no radiance estimate recurses more than `MAX_DEPTH` times.
pub proof fn lemma_path_depth_bounded(state: PathState, event: PathEvent)
    ensures
        state.depth >= MAX_DEPTH ==> step_spec(state, event) is Terminate,
        continues(step_spec(state, event)) ==> next_state(step_spec(state, event)).depth
            == state.depth + 1,
{
}

/// The glass budget is enforced the same way: dielectric bounces are the
/// only steps that spend it, they spend exactly one each, and a state that
/// exhausted it terminates.
pub proof fn lemma_glass_budget(state: PathState, event: PathEvent)
    ensures
        state.glass_bounces >= MAX_GLASS_BOUNCES ==> step_spec(state, event) is Terminate,
        continues(step_spec(state, event)) ==> next_state(step_spec(state, event)).glass_bounces
            == if step_spec(state, event) is Glass {
                state.glass_bounces + 1
            } else {
                state.glass_bounces as int
            },
{
}

/// Discrete half of the roulette unbiasedness argument: below the threshold
/// depth an opaque bounce always survives and is never reweighted; at or
/// beyond it, the path survives exactly when the survival coin passed, and
/// the surviving contribution is then reweighted by the survival
/// probability.  (That the reweighting keeps the estimator's expectation
/// unchanged is a statement about the sampled floats, outside this crate.)
pub proof fn lemma_roulette_accounting(state: PathState, event: PathEvent)
    requires
        state.depth < MAX_DEPTH,
        state.glass_bounces < MAX_GLASS_BOUNCES,
        event matches PathEvent::Surface { class, .. } && !class.dielectric,
    ensures
        state.depth < RUSSIAN_ROULETTE_DEPTH ==> (step_spec(state, event) matches PathAction::Bounce
            { weighted, .. } && !weighted),
        state.depth >= RUSSIAN_ROULETTE_DEPTH ==> {
            &&& (step_spec(state, event) is Bounce <==> event->roulette_sample)
            &&& step_spec(state, event) matches PathAction::Bounce { weighted, .. } ==> weighted
            &&& !event->roulette_sample ==> step_spec(state, event) is DirectOnly
        },
{
}

/// A walk of the machine: consecutive states chained by continuing steps
/// on the given events.
pub open spec fn is_walk(states: Seq<PathState>, events: Seq<PathEvent>) -> bool {
    &&& states.len() == events.len() + 1
    &&& forall|k: int|
        0 <= k < events.len() ==> #[trigger] continues(step_spec(states[k], events[k]))
            && states[k + 1] == next_state(step_spec(states[k], events[k]))
}

/// Along a walk the depth counts the steps taken.
proof fn lemma_walk_depth(states: Seq<PathState>, events: Seq<PathEvent>, k: int)
    requires
        is_walk(states, events),
        0 <= k < states.len(),
    ensures
        states[k].depth == states[0].depth + k,
    decreases k,
{
    if k > 0 {
        lemma_walk_depth(states, events, k - 1);
        assert(continues(step_spec(states[k - 1], events[k - 1])));
    }
}

/// Every radiance estimate terminates: whatever events the kernel reports,
/// a walk makes at most `MAX_DEPTH` continuing steps, because each one
/// deepens the state and the machine refuses to continue past the depth
/// budget.
pub proof fn lemma_walk_bounded(states: Seq<PathState>, events: Seq<PathEvent>)
    requires
        is_walk(states, events),
    ensures
        events.len() > 0 ==> states[0].depth + events.len() <= MAX_DEPTH,
        events.len() <= MAX_DEPTH,
{
    if events.len() > 0 {
        let last = events.len() - 1;
        lemma_walk_depth(states, events, last);
        assert(continues(step_spec(states[last], events[last])));
    }
}

/// Within the recursion budgets, the sky is contributed exactly when the
/// ray hits nothing: no surface or medium event ever yields sky radiance,
/// and a miss never yields anything else.  (The sky value itself is a fixed
/// gradient of the ray's vertical component, computed by the kernel.)
pub proof fn lemma_sky_iff_miss(state: PathState, event: PathEvent)
    requires
        state.depth < MAX_DEPTH,
        state.glass_bounces < MAX_GLASS_BOUNCES,
    ensures
        step_spec(state, event) is Sky <==> event is Miss,
{
}

/// A dielectric surface takes exactly one branch, and total internal
/// reflection forces it to be reflection, whatever the reflectance coin
/// said.
pub proof fn lemma_total_internal_reflection_reflects(state: PathState, event: PathEvent)
    requires
        state.depth < MAX_DEPTH,
        state.glass_bounces < MAX_GLASS_BOUNCES,
        event matches PathEvent::Surface { class, total_internal_reflection, .. }
            && class.dielectric && total_internal_reflection,
    ensures
        step_spec(state, event) matches PathAction::Glass { reflect, .. } && reflect,
{
}

/// The carried medium follows the surface-crossing rule of participating
/// media: a scatter event stays in its medium, entering a volumetric
/// surface switches to that material's medium, leaving one drops it, and
/// ordinary surfaces keep whatever was carried.
pub proof fn lemma_medium_carries(state: PathState, event: PathEvent)
    requires
        continues(step_spec(state, event)),
    ensures
        event is MediumScatter ==> next_state(step_spec(state, event)).medium == state.medium,
        event matches PathEvent::Surface { class, entering, material, .. } ==> next_state(
            step_spec(state, event),
        ).medium == next_medium(state.medium, class, entering, material),
{
}

} // verus!
