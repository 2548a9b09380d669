//! A software 3D rendering pipeline over fixed-point arithmetic.
//!
//! The crate turns a stream of world-space triangles and per-frame
//! transformation state into a 2D pixel buffer: vertex transform,
//! barycentric rasterization, depth testing, per-pixel shading with an
//! auxiliary emissive output, and a bloom-style post-process.  All
//! geometry and color math is carried out on Q16.16 fixed-point values
//! so that every stage has an exact, machine-checked contract.

pub mod color;
pub mod fixed;
pub mod fragment;
pub mod fragment_shader;
pub mod framebuffer;
pub mod geometry;
pub mod line;
pub mod noise;
pub mod obj;
pub mod pipeline;
pub mod planets_shader;
pub mod shader;
pub mod texture;
pub mod triangle;
pub mod uniforms;
pub mod vertex;
