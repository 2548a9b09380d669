//! Mesh data and vertex-array assembly.
//!
//! An `Obj` holds positions, normals, texture coordinates and a flat
//! triangle index list, already converted to fixed point by whatever
//! loaded the mesh.  `get_vertex_array` expands the index list into
//! one authoring vertex per index, substituting zero vectors for
//! missing normals or texture coordinates.

use vstd::prelude::*;
use crate::color::Color;
use crate::geometry::{vec2_ok, vec3_ok, Vec2, Vec3};
use crate::vertex::{vertex_ok, Vertex};

verus! {

pub struct Obj {
    pub vertices: Vec<Vec3>,
    pub normals: Vec<Vec3>,
    pub texcoords: Vec<Vec2>,
    pub indices: Vec<u32>,
}

/// Every stored attribute is a valid fixed-point value and every
/// index addresses a position.
pub open spec fn obj_wf(o: Obj) -> bool {
    &&& forall|i: int| 0 <= i < o.vertices@.len() ==> vec3_ok(#[trigger] o.vertices@[i])
    &&& forall|i: int| 0 <= i < o.normals@.len() ==> vec3_ok(#[trigger] o.normals@[i])
    &&& forall|i: int| 0 <= i < o.texcoords@.len() ==> vec2_ok(#[trigger] o.texcoords@[i])
    &&& forall|i: int| 0 <= i < o.indices@.len() ==> (#[trigger] o.indices@[i]) < o.vertices@.len()
}

/// The authoring vertex produced for one index.
pub open spec fn spec_obj_vertex(o: Obj, i: int) -> Vertex {
    let idx = o.indices@[i] as int;
    let pos = o.vertices@[idx];
    let normal = if idx < o.normals@.len() {
        o.normals@[idx]
    } else {
        Vec3 { x: 0, y: 0, z: 0 }
    };
    let tex = if idx < o.texcoords@.len() {
        o.texcoords@[idx]
    } else {
        Vec2 { x: 0, y: 0 }
    };
    Vertex {
        position: pos,
        normal,
        tex_coords: tex,
        color: Color { r: 0, g: 0, b: 0 },
        transformed_position: pos,
        transformed_normal: normal,
    }
}

impl Obj {
    /// A mesh from its attribute arrays and triangle index list;
    /// rejected when an index does not address a position.
    pub fn new(vertices: Vec<Vec3>, normals: Vec<Vec3>, texcoords: Vec<Vec2>, indices: Vec<u32>)
        -> (r: Option<Obj>)
        requires
            forall|i: int| 0 <= i < vertices@.len() ==> vec3_ok(#[trigger] vertices@[i]),
            forall|i: int| 0 <= i < normals@.len() ==> vec3_ok(#[trigger] normals@[i]),
            forall|i: int| 0 <= i < texcoords@.len() ==> vec2_ok(#[trigger] texcoords@[i]),
        ensures
            match r {
                Some(o) => {
                    &&& obj_wf(o)
                    &&& o.vertices@ == vertices@
                    &&& o.normals@ == normals@
                    &&& o.texcoords@ == texcoords@
                    &&& o.indices@ == indices@
                },
                None => exists|i: int|
                    0 <= i < indices@.len() && (#[trigger] indices@[i]) >= vertices@.len(),
            },
    {
        let mut i: usize = 0;
        while i < indices.len()
            invariant
                i <= indices@.len(),
                forall|k: int| 0 <= k < i ==> (#[trigger] indices@[k]) < vertices@.len(),
            decreases indices@.len() - i,
        {
            if indices[i] as usize >= vertices.len() {
                return None;
            }
            i = i + 1;
        }
        Some(Obj { vertices, normals, texcoords, indices })
    }

    /// Expand the index list into one authoring vertex per index.
    pub fn get_vertex_array(&self) -> (va: Vec<Vertex>)
        requires
            obj_wf(*self),
        ensures
            va@.len() == self.indices@.len(),
            forall|i: int| 0 <= i < va@.len() ==> va@[i] == spec_obj_vertex(*self, i),
            forall|i: int| 0 <= i < va@.len() ==> vertex_ok(#[trigger] va@[i]),
    {
        let mut va: Vec<Vertex> = Vec::new();
        let mut i: usize = 0;
        while i < self.indices.len()
            invariant
                obj_wf(*self),
                i <= self.indices@.len(),
                va@.len() == i,
                forall|k: int| 0 <= k < i ==> va@[k] == spec_obj_vertex(*self, k),
                forall|k: int| 0 <= k < i ==> vertex_ok(#[trigger] va@[k]),
            decreases self.indices@.len() - i,
        {
            let idx = self.indices[i] as usize;
            let pos = self.vertices[idx];
            let normal = if idx < self.normals.len() {
                self.normals[idx]
            } else {
                Vec3 { x: 0, y: 0, z: 0 }
            };
            let tex = if idx < self.texcoords.len() {
                self.texcoords[idx]
            } else {
                Vec2 { x: 0, y: 0 }
            };
            let v = Vertex {
                position: pos,
                normal,
                tex_coords: tex,
                color: Color { r: 0, g: 0, b: 0 },
                transformed_position: pos,
                transformed_normal: normal,
            };
            va.push(v);
            i = i + 1;
        }
        va
    }
}

} // verus!
