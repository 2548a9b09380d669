//! Per-pixel attribute bundles produced by the rasterizer.

use vstd::prelude::*;
use crate::color::Color;
use crate::fixed::fx_ok;
use crate::geometry::{vec2_ok, vec3_ok, Vec2, Vec3};

verus! {

/// One rasterized pixel: its screen position, interpolated color,
/// depth (smaller is nearer), normal, scalar light intensity,
/// pre-projection position and texture coordinates.
#[derive(Clone, Copy, Debug, PartialEq, Eq, Structural)]
pub struct Fragment {
    pub position: Vec2,
    pub color: Color,
    pub depth: i64,
    pub normal: Vec3,
    pub intensity: i64,
    pub vertex_position: Vec3,
    pub tex_coords: Vec2,
}

/// Every fixed-point attribute of the fragment is in range.
pub open spec fn fragment_ok(f: Fragment) -> bool {
    &&& vec2_ok(f.position)
    &&& fx_ok(f.depth)
    &&& vec3_ok(f.normal)
    &&& fx_ok(f.intensity)
    &&& vec3_ok(f.vertex_position)
    &&& vec2_ok(f.tex_coords)
}

impl Fragment {
    pub fn new(
        position: Vec2,
        color: Color,
        depth: i64,
        normal: Vec3,
        intensity: i64,
        vertex_position: Vec3,
        tex_coords: Vec2,
    ) -> (f: Fragment)
        ensures
            f == (Fragment { position, color, depth, normal, intensity, vertex_position, tex_coords }),
    {
        Fragment { position, color, depth, normal, intensity, vertex_position, tex_coords }
    }
}

} // verus!
