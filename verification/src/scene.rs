//! Discrete parts of the scene description.
//!
//! A scene arrives as a JSON document holding the camera, render settings,
//! a material library and the primitives; parsing it and resolving missing
//! materials to a default are an external loader's job.  The pieces of the
//! description that carry no floating-point data are modeled here, so that
//! the verified core and its callers agree on them.

use vstd::prelude::*;

verus! {

/// Render settings: image size in pixels and the number of independent
/// radiance samples averaged per pixel.
#[derive(Clone, Copy, PartialEq, Eq, Structural, Debug)]
pub struct RenderJson {
    pub width: u32,
    pub height: u32,
    pub samples: u32,
}

/// Description of a mesh primitive in the scene document: the mesh file to
/// import, the name of its material in the material library, and whether
/// the autofocus probe regards it.
#[derive(Clone, Debug)]
pub struct MeshDesc {
    pub name: String,
    pub file: String,
    pub mat: String,
    pub in_focus: bool,
}

} // verus!
