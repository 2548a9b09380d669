//! Per-vertex attribute bundles.
//!
//! A vertex carries its authoring attributes (object-space position,
//! normal, texture coordinates, color) plus the derived screen-space
//! position and transformed normal, which the vertex stage overwrites
//! each frame.

use vstd::prelude::*;
use crate::color::Color;
use crate::geometry::{vec2_ok, vec3_ok, Vec2, Vec3};

verus! {

#[derive(Clone, Copy, Debug, PartialEq, Eq, Structural)]
pub struct Vertex {
    pub position: Vec3,
    pub normal: Vec3,
    pub tex_coords: Vec2,
    pub color: Color,
    pub transformed_position: Vec3,
    pub transformed_normal: Vec3,
}

/// Every component of every attribute is a valid fixed-point scalar.
pub open spec fn vertex_ok(v: Vertex) -> bool {
    &&& vec3_ok(v.position)
    &&& vec3_ok(v.normal)
    &&& vec2_ok(v.tex_coords)
    &&& vec3_ok(v.transformed_position)
    &&& vec3_ok(v.transformed_normal)
}

impl Vertex {
    /// A fresh vertex; the derived attributes start as the authoring
    /// position and normal until the vertex stage rewrites them.
    pub fn new(position: Vec3, normal: Vec3, tex_coords: Vec2, color: Color) -> (v: Vertex)
        ensures
            v.position == position,
            v.normal == normal,
            v.tex_coords == tex_coords,
            v.color == color,
            v.transformed_position == position,
            v.transformed_normal == normal,
    {
        Vertex {
            position,
            normal,
            tex_coords,
            color,
            transformed_position: position,
            transformed_normal: normal,
        }
    }
}

} // verus!
