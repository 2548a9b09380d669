//! The per-frame uniform bundle and the matrix builders that fill it.
//!
//! A bundle carries the model/view/projection/viewport matrices, their
//! precomposed product, the normal matrix, a frame counter, a noise
//! handle and the global emission intensity.  It is built once per
//! object per frame and read-only inside the pipeline.

use vstd::prelude::*;
use crate::fixed::{
    fx_add, fx_cos, fx_div, fx_mul, fx_neg, fx_ok, fx_sin, fx_sub, fx_saturate, spec_fx_cos,
    spec_fx_div, spec_fx_mul, spec_fx_sin,
};
use crate::geometry::{
    mat3_ok, mat4_ok, spec_dot3, spec_mat3_identity, spec_mat4_identity, spec_mat4_mul_mat4,
    spec_normalize3, vec3_ok, Mat3, Mat4, Vec3, Vec4,
};
use crate::noise::{noise_ok, Noise};

verus! {

pub struct Uniforms {
    pub model_matrix: Mat4,
    pub view_matrix: Mat4,
    pub projection_matrix: Mat4,
    pub viewport_matrix: Mat4,
    pub transformation_matrix: Mat4,
    pub normal_matrix: Mat3,
    pub time: u32,
    pub noise: Noise,
    pub emission_intensity: i64,
}

/// Every matrix entry and scalar of the bundle is a valid fixed-point
/// value and the emission intensity is nonnegative.
pub open spec fn uniforms_ok(u: Uniforms) -> bool {
    &&& mat4_ok(u.model_matrix)
    &&& mat4_ok(u.view_matrix)
    &&& mat4_ok(u.projection_matrix)
    &&& mat4_ok(u.viewport_matrix)
    &&& mat4_ok(u.transformation_matrix)
    &&& mat3_ok(u.normal_matrix)
    &&& noise_ok(u.noise)
    &&& 0 <= u.emission_intensity <= crate::fixed::FX_SAT
}

impl Uniforms {
    /// A bundle from the three classic matrices; the transformation
    /// matrix is their precomposed product, the viewport and normal
    /// matrices start as identities, the clock at zero and the
    /// emission intensity at one.
    pub fn new(model_matrix: Mat4, view_matrix: Mat4, projection_matrix: Mat4) -> (u: Uniforms)
        requires
            mat4_ok(model_matrix),
            mat4_ok(view_matrix),
            mat4_ok(projection_matrix),
        ensures
            u.model_matrix == model_matrix,
            u.view_matrix == view_matrix,
            u.projection_matrix == projection_matrix,
            u.viewport_matrix == spec_mat4_identity(),
            u.transformation_matrix == spec_mat4_mul_mat4(
                spec_mat4_mul_mat4(projection_matrix, view_matrix),
                model_matrix,
            ),
            u.normal_matrix == spec_mat3_identity(),
            u.time == 0,
            u.emission_intensity == 65536,
            uniforms_ok(u),
    {
        let pv = projection_matrix.mul_mat4(&view_matrix);
        let transformation_matrix = pv.mul_mat4(&model_matrix);
        Uniforms {
            model_matrix,
            view_matrix,
            projection_matrix,
            viewport_matrix: Mat4::identity(),
            transformation_matrix,
            normal_matrix: Mat3::identity(),
            time: 0,
            noise: Noise::with_seed(2312),
            emission_intensity: 65536,
        }
    }
}

/// The time, folded into a bounded fixed-point scalar so that shader
/// animation factors can multiply it safely.
pub fn time_fx(time: u32) -> (t: i64)
    ensures
        t == (time as int % 16384) * 65536,
        0 <= t < 1073741824,
        fx_ok(t),
{
    ((time % 16384) as i64) * 65536
}

/// The meaning of [`time_fx`].
pub open spec fn spec_time_fx(time: u32) -> int {
    (time as int % 16384) * 65536
}

/// The viewport matrix: scales normalized device coordinates by half
/// the extent and translates by the same, mapping NDC `[-1, 1]` into
/// pixel coordinates `[0, width] x [0, height]` with y flipped.
/// `width` and `height` are in Q16.16.
pub fn create_viewport_matrix(width: i64, height: i64) -> (m: Mat4)
    requires
        0 <= width <= crate::fixed::FX_SAT,
        0 <= height <= crate::fixed::FX_SAT,
    ensures
        m == spec_viewport_matrix(width as int, height as int),
        mat4_ok(m),
{
    let hw = width / 2;
    let hh = height / 2;
    Mat4 {
        r0: Vec4 { x: hw, y: 0, z: 0, w: hw },
        r1: Vec4 { x: 0, y: -hh, z: 0, w: hh },
        r2: Vec4 { x: 0, y: 0, z: 65536, w: 0 },
        r3: Vec4 { x: 0, y: 0, z: 0, w: 65536 },
    }
}

pub open spec fn spec_viewport_matrix(width: int, height: int) -> Mat4 {
    Mat4 {
        r0: Vec4 { x: (width / 2) as i64, y: 0, z: 0, w: (width / 2) as i64 },
        r1: Vec4 { x: 0, y: (-(height / 2)) as i64, z: 0, w: (height / 2) as i64 },
        r2: Vec4 { x: 0, y: 0, z: 65536, w: 0 },
        r3: Vec4 { x: 0, y: 0, z: 0, w: 65536 },
    }
}

/// A perspective projection with a fov of pi/4, the window's aspect
/// ratio, near plane 0.1 and far plane 100.
pub fn create_projection_matrix(window_width: i64, window_height: i64) -> (m: Mat4)
    requires
        0 < window_width <= crate::fixed::FX_SAT,
        0 < window_height <= crate::fixed::FX_SAT,
    ensures
        m == spec_projection_matrix(window_width as int, window_height as int),
        mat4_ok(m),
{
    let aspect = fx_div(window_width, window_height);
    let half_fov: i64 = 25736;
    let s = fx_sin(half_fov);
    let c = fx_cos(half_fov);
    let t = fx_div(s, c);
    let f = fx_div(65536, t);
    let near: i64 = 6554;
    let far: i64 = 6553600;
    let m22 = fx_div(fx_add(far, near), fx_sub(near, far));
    let fn_prod = fx_mul(far, near);
    let m23 = fx_div(fx_add(fn_prod, fn_prod), fx_sub(near, far));
    Mat4 {
        r0: Vec4 { x: fx_div(f, aspect), y: 0, z: 0, w: 0 },
        r1: Vec4 { x: 0, y: f, z: 0, w: 0 },
        r2: Vec4 { x: 0, y: 0, z: m22, w: m23 },
        r3: Vec4 { x: 0, y: 0, z: -65536, w: 0 },
    }
}

pub open spec fn spec_projection_matrix(window_width: int, window_height: int) -> Mat4 {
    let aspect = spec_fx_div(window_width, window_height);
    let t = spec_fx_div(spec_fx_sin(25736), spec_fx_cos(25736));
    let f = spec_fx_div(65536, t);
    let near = 6554int;
    let far = 6553600int;
    let m22 = spec_fx_div(fx_saturate(far + near), fx_saturate(near - far));
    let fn_prod = spec_fx_mul(far, near);
    let m23 = spec_fx_div(fx_saturate(fn_prod + fn_prod), fx_saturate(near - far));
    Mat4 {
        r0: Vec4 { x: spec_fx_div(f, aspect) as i64, y: 0, z: 0, w: 0 },
        r1: Vec4 { x: 0, y: f as i64, z: 0, w: 0 },
        r2: Vec4 { x: 0, y: 0, z: m22 as i64, w: m23 as i64 },
        r3: Vec4 { x: 0, y: 0, z: -65536i64, w: 0 },
    }
}

/// A model matrix from a translation and a uniform scale.
pub fn create_model_matrix(position: Vec3, scale: i64) -> (m: Mat4)
    requires
        vec3_ok(position),
        fx_ok(scale),
    ensures
        m == spec_model_matrix(position, scale as int),
        mat4_ok(m),
{
    Mat4 {
        r0: Vec4 { x: scale, y: 0, z: 0, w: position.x },
        r1: Vec4 { x: 0, y: scale, z: 0, w: position.y },
        r2: Vec4 { x: 0, y: 0, z: scale, w: position.z },
        r3: Vec4 { x: 0, y: 0, z: 0, w: 65536 },
    }
}

pub open spec fn spec_model_matrix(position: Vec3, scale: int) -> Mat4 {
    Mat4 {
        r0: Vec4 { x: scale as i64, y: 0, z: 0, w: position.x },
        r1: Vec4 { x: 0, y: scale as i64, z: 0, w: position.y },
        r2: Vec4 { x: 0, y: 0, z: scale as i64, w: position.z },
        r3: Vec4 { x: 0, y: 0, z: 0, w: 65536 },
    }
}

/// A rotation about the y axis by a fixed-point angle in radians.
pub fn create_rotation_y_matrix(angle: i64) -> (m: Mat4)
    requires
        fx_ok(angle),
    ensures
        m == spec_rotation_y_matrix(angle as int),
        mat4_ok(m),
{
    let c = fx_cos(angle);
    let s = fx_sin(angle);
    Mat4 {
        r0: Vec4 { x: c, y: 0, z: s, w: 0 },
        r1: Vec4 { x: 0, y: 65536, z: 0, w: 0 },
        r2: Vec4 { x: -s, y: 0, z: c, w: 0 },
        r3: Vec4 { x: 0, y: 0, z: 0, w: 65536 },
    }
}

pub open spec fn spec_rotation_y_matrix(angle: int) -> Mat4 {
    let c = spec_fx_cos(angle);
    let s = spec_fx_sin(angle);
    Mat4 {
        r0: Vec4 { x: c as i64, y: 0, z: s as i64, w: 0 },
        r1: Vec4 { x: 0, y: 65536, z: 0, w: 0 },
        r2: Vec4 { x: (-s) as i64, y: 0, z: c as i64, w: 0 },
        r3: Vec4 { x: 0, y: 0, z: 0, w: 65536 },
    }
}

/// A model matrix from translation, uniform scale, and a rotation
/// about the y axis: `translation * rotation * scaling`.
pub fn create_model_matrix_with_rotation(position: Vec3, scale: i64, rotation: Vec3) -> (m: Mat4)
    requires
        vec3_ok(position),
        fx_ok(scale),
        vec3_ok(rotation),
    ensures
        m == spec_mat4_mul_mat4(
            spec_mat4_mul_mat4(
                spec_model_matrix(Vec3 { x: position.x, y: position.y, z: position.z }, 65536),
                spec_rotation_y_matrix(rotation.y as int),
            ),
            spec_model_matrix(Vec3 { x: 0, y: 0, z: 0 }, scale as int),
        ),
        mat4_ok(m),
{
    let translation = create_model_matrix(position, 65536);
    let rot = create_rotation_y_matrix(rotation.y);
    let scaling = create_model_matrix(Vec3 { x: 0, y: 0, z: 0 }, scale);
    let tr = translation.mul_mat4(&rot);
    tr.mul_mat4(&scaling)
}

/// A right-handed look-at view matrix.
pub fn look_at_matrix(eye: Vec3, center: Vec3, up: Vec3) -> (m: Mat4)
    requires
        vec3_ok(eye),
        vec3_ok(center),
        vec3_ok(up),
    ensures
        m == spec_look_at_matrix(eye, center, up),
        mat4_ok(m),
{
    let fwd = center.sub(&eye).normalize();
    let side = fwd.cross(&up).normalize();
    let upv = side.cross(&fwd);
    let se = side.dot(&eye);
    let ue = upv.dot(&eye);
    let fe = fwd.dot(&eye);
    Mat4 {
        r0: Vec4 { x: side.x, y: side.y, z: side.z, w: fx_neg(se) },
        r1: Vec4 { x: upv.x, y: upv.y, z: upv.z, w: fx_neg(ue) },
        r2: Vec4 { x: fx_neg(fwd.x), y: fx_neg(fwd.y), z: fx_neg(fwd.z), w: fe },
        r3: Vec4 { x: 0, y: 0, z: 0, w: 65536 },
    }
}

pub open spec fn spec_look_at_matrix(eye: Vec3, center: Vec3, up: Vec3) -> Mat4 {
    let fwd = spec_normalize3(
        Vec3 {
            x: fx_saturate(center.x - eye.x) as i64,
            y: fx_saturate(center.y - eye.y) as i64,
            z: fx_saturate(center.z - eye.z) as i64,
        },
    );
    let side = spec_normalize3(spec_cross(fwd, up));
    let upv = spec_cross(side, fwd);
    let se = spec_dot3(
        side.x as int,
        side.y as int,
        side.z as int,
        eye.x as int,
        eye.y as int,
        eye.z as int,
    );
    let ue = spec_dot3(
        upv.x as int,
        upv.y as int,
        upv.z as int,
        eye.x as int,
        eye.y as int,
        eye.z as int,
    );
    let fe = spec_dot3(
        fwd.x as int,
        fwd.y as int,
        fwd.z as int,
        eye.x as int,
        eye.y as int,
        eye.z as int,
    );
    Mat4 {
        r0: Vec4 { x: side.x, y: side.y, z: side.z, w: (-se) as i64 },
        r1: Vec4 { x: upv.x, y: upv.y, z: upv.z, w: (-ue) as i64 },
        r2: Vec4 { x: (-(fwd.x as int)) as i64, y: (-(fwd.y as int)) as i64, z: (-(
        fwd.z as int)) as i64, w: fe as i64 },
        r3: Vec4 { x: 0, y: 0, z: 0, w: 65536 },
    }
}

/// The fixed-point cross product as a spec value.
pub open spec fn spec_cross(a: Vec3, b: Vec3) -> Vec3 {
    Vec3 {
        x: fx_saturate(
            spec_fx_mul(a.y as int, b.z as int) - spec_fx_mul(a.z as int, b.y as int),
        ) as i64,
        y: fx_saturate(
            spec_fx_mul(a.z as int, b.x as int) - spec_fx_mul(a.x as int, b.z as int),
        ) as i64,
        z: fx_saturate(
            spec_fx_mul(a.x as int, b.y as int) - spec_fx_mul(a.y as int, b.x as int),
        ) as i64,
    }
}

} // verus!
