//! Verified control core of a Monte Carlo path tracer.
//!
//! The renderer's numeric kernel (vector algebra, microfacet shading,
//! ray/primitive intersection arithmetic) runs on IEEE-754 floats and lives
//! outside this crate.  What is verified here is everything the renderer
//! decides rather than computes: the NaN-safe total ordering used to pick the
//! closest hit, the acceptance rules of the sphere, parallelogram and
//! triangle intersections, the selection of the nearest surface among
//! candidate distances, the path-integrator state machine (termination,
//! medium transitions, dielectric branching, Russian roulette accounting),
//! the event-priority rule between media and surfaces, the autofocus probe
//! grid and fallback rule, and the triangle-fan indexing of mesh faces.
//! Floats cross the boundary as raw `f32` bit patterns (`u32`), on which
//! every comparison the rules need is exact integer logic.

pub mod focus;
pub mod intersect;
pub mod mesh;
pub mod object;
pub mod path;
pub mod plane;
pub mod ray_order;
pub mod scene;
pub mod sphere;
pub mod triangle;
