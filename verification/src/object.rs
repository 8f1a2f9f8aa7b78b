//! Scene primitives as the verified core sees them.
//!
//! A primitive is a sphere, a finite parallelogram, or a triangle mesh.  Its
//! geometric payload — centers, edge vectors, vertices — is floating point
//! and lives with the numeric kernel, keyed by position in the scene's
//! object list.  What the verified control logic reads of a primitive is
//! discrete and kept here: its name, whether the autofocus probe should
//! regard it, and the classification and identifier of its material, from
//! which the path integrator builds its surface events.

use vstd::prelude::*;

use crate::path::MaterialClass;

verus! {

/// Discrete payload of a sphere: everything but its center and radius.
#[derive(Clone, Debug)]
pub struct SphereInfo {
    pub name: String,
    pub material: usize,
    pub class: MaterialClass,
    pub in_focus: bool,
}

/// Discrete payload of a finite parallelogram.
#[derive(Clone, Debug)]
pub struct PlaneInfo {
    pub name: String,
    pub material: usize,
    pub class: MaterialClass,
    pub in_focus: bool,
}

/// Discrete payload of a triangle mesh, with the number of triangles its
/// geometry holds.
#[derive(Clone, Debug)]
pub struct MeshInfo {
    pub name: String,
    pub material: usize,
    pub class: MaterialClass,
    pub in_focus: bool,
    pub triangle_count: usize,
}

/// A primitive of the scene, tagged by kind.
#[derive(Clone, Debug)]
pub enum Object {
    Sphere(SphereInfo),
    Plane(PlaneInfo),
    Mesh(MeshInfo),
}

/// The autofocus flag of a primitive, whichever kind it is.
pub open spec fn focus_flag(o: Object) -> bool {
    match o {
        Object::Sphere(s) => s.in_focus,
        Object::Plane(p) => p.in_focus,
        Object::Mesh(m) => m.in_focus,
    }
}

/// The material classification of a primitive.
pub open spec fn class_of(o: Object) -> MaterialClass {
    match o {
        Object::Sphere(s) => s.class,
        Object::Plane(p) => p.class,
        Object::Mesh(m) => m.class,
    }
}

/// The material identifier of a primitive.
pub open spec fn material_of(o: Object) -> usize {
    match o {
        Object::Sphere(s) => s.material,
        Object::Plane(p) => p.material,
        Object::Mesh(m) => m.material,
    }
}

impl Object {
    /// Whether this primitive takes part in autofocus.
    pub fn is_in_focus(&self) -> (r: bool)
        ensures
            r == focus_flag(*self),
    {
        match self {
            Object::Sphere(s) => s.in_focus,
            Object::Plane(p) => p.in_focus,
            Object::Mesh(m) => m.in_focus,
        }
    }

    /// The classification the path integrator uses for this primitive's
    /// material.
    pub fn material_class(&self) -> (r: MaterialClass)
        ensures
            r == class_of(*self),
    {
        match self {
            Object::Sphere(s) => s.class,
            Object::Plane(p) => p.class,
            Object::Mesh(m) => m.class,
        }
    }

    /// The identifier of this primitive's material.
    pub fn material_id(&self) -> (r: usize)
        ensures
            r == material_of(*self),
    {
        match self {
            Object::Sphere(s) => s.material,
            Object::Plane(p) => p.material,
            Object::Mesh(m) => m.material,
        }
    }
}

} // verus!
