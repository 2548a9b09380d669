//! Fixed-point vectors and matrices.
//!
//! All components are Q16.16 scalars within the saturating range of
//! [`crate::fixed`]; every operation therefore has an exact spec
//! mirror built from [`spec_fx_mul`] and friends.

use vstd::prelude::*;
use crate::fixed::{
    fx_add, fx_div, fx_mul, fx_ok, fx_sat, fx_saturate, fx_sqrt, spec_fx_div, spec_fx_mul,
    spec_fx_sqrt,
};

verus! {

#[derive(Clone, Copy, Debug, PartialEq, Eq, Structural)]
pub struct Vec2 {
    pub x: i64,
    pub y: i64,
}

#[derive(Clone, Copy, Debug, PartialEq, Eq, Structural)]
pub struct Vec3 {
    pub x: i64,
    pub y: i64,
    pub z: i64,
}

#[derive(Clone, Copy, Debug, PartialEq, Eq, Structural)]
pub struct Vec4 {
    pub x: i64,
    pub y: i64,
    pub z: i64,
    pub w: i64,
}

/// A 3x3 matrix in row-major order.
#[derive(Clone, Copy, Debug, PartialEq, Eq, Structural)]
pub struct Mat3 {
    pub r0: Vec3,
    pub r1: Vec3,
    pub r2: Vec3,
}

/// A 4x4 matrix in row-major order.
#[derive(Clone, Copy, Debug, PartialEq, Eq, Structural)]
pub struct Mat4 {
    pub r0: Vec4,
    pub r1: Vec4,
    pub r2: Vec4,
    pub r3: Vec4,
}

pub open spec fn vec2_ok(v: Vec2) -> bool {
    fx_ok(v.x) && fx_ok(v.y)
}

pub open spec fn vec3_ok(v: Vec3) -> bool {
    fx_ok(v.x) && fx_ok(v.y) && fx_ok(v.z)
}

pub open spec fn vec4_ok(v: Vec4) -> bool {
    fx_ok(v.x) && fx_ok(v.y) && fx_ok(v.z) && fx_ok(v.w)
}

pub open spec fn mat3_ok(m: Mat3) -> bool {
    vec3_ok(m.r0) && vec3_ok(m.r1) && vec3_ok(m.r2)
}

pub open spec fn mat4_ok(m: Mat4) -> bool {
    vec4_ok(m.r0) && vec4_ok(m.r1) && vec4_ok(m.r2) && vec4_ok(m.r3)
}

/// A saturated two-term sum of fixed-point products.
pub open spec fn spec_dot2(a0: int, a1: int, b0: int, b1: int) -> int {
    fx_saturate(spec_fx_mul(a0, b0) + spec_fx_mul(a1, b1))
}

/// A saturated three-term sum of fixed-point products.
pub open spec fn spec_dot3(a0: int, a1: int, a2: int, b0: int, b1: int, b2: int) -> int {
    fx_saturate(spec_fx_mul(a0, b0) + spec_fx_mul(a1, b1) + spec_fx_mul(a2, b2))
}

/// A saturated four-term sum of fixed-point products.
pub open spec fn spec_dot4(
    a0: int,
    a1: int,
    a2: int,
    a3: int,
    b0: int,
    b1: int,
    b2: int,
    b3: int,
) -> int {
    fx_saturate(
        spec_fx_mul(a0, b0) + spec_fx_mul(a1, b1) + spec_fx_mul(a2, b2) + spec_fx_mul(a3, b3),
    )
}

pub fn dot2(a0: i64, a1: i64, b0: i64, b1: i64) -> (r: i64)
    requires
        fx_ok(a0),
        fx_ok(a1),
        fx_ok(b0),
        fx_ok(b1),
    ensures
        r == spec_dot2(a0 as int, a1 as int, b0 as int, b1 as int),
        fx_ok(r),
{
    let p0 = fx_mul(a0, b0);
    let p1 = fx_mul(a1, b1);
    fx_sat(p0 + p1)
}

pub fn dot3(a0: i64, a1: i64, a2: i64, b0: i64, b1: i64, b2: i64) -> (r: i64)
    requires
        fx_ok(a0),
        fx_ok(a1),
        fx_ok(a2),
        fx_ok(b0),
        fx_ok(b1),
        fx_ok(b2),
    ensures
        r == spec_dot3(a0 as int, a1 as int, a2 as int, b0 as int, b1 as int, b2 as int),
        fx_ok(r),
{
    let p0 = fx_mul(a0, b0);
    let p1 = fx_mul(a1, b1);
    let p2 = fx_mul(a2, b2);
    fx_sat(p0 + p1 + p2)
}

pub fn dot4(a0: i64, a1: i64, a2: i64, a3: i64, b0: i64, b1: i64, b2: i64, b3: i64) -> (r: i64)
    requires
        fx_ok(a0),
        fx_ok(a1),
        fx_ok(a2),
        fx_ok(a3),
        fx_ok(b0),
        fx_ok(b1),
        fx_ok(b2),
        fx_ok(b3),
    ensures
        r == spec_dot4(
            a0 as int,
            a1 as int,
            a2 as int,
            a3 as int,
            b0 as int,
            b1 as int,
            b2 as int,
            b3 as int,
        ),
        fx_ok(r),
{
    let p0 = fx_mul(a0, b0);
    let p1 = fx_mul(a1, b1);
    let p2 = fx_mul(a2, b2);
    let p3 = fx_mul(a3, b3);
    fx_sat(p0 + p1 + p2 + p3)
}

/// The squared length of a 2-vector, saturated.
pub open spec fn spec_len2_sq(v: Vec2) -> int {
    spec_dot2(v.x as int, v.y as int, v.x as int, v.y as int)
}

/// The squared length of a 3-vector, saturated.
pub open spec fn spec_len3_sq(v: Vec3) -> int {
    spec_dot3(v.x as int, v.y as int, v.z as int, v.x as int, v.y as int, v.z as int)
}

/// The Euclidean length of a 2-vector.
pub open spec fn spec_norm2(v: Vec2) -> int {
    spec_fx_sqrt(spec_len2_sq(v))
}

/// The Euclidean length of a 3-vector.
pub open spec fn spec_norm3(v: Vec3) -> int {
    spec_fx_sqrt(spec_len3_sq(v))
}

impl Vec2 {
    pub fn new(x: i64, y: i64) -> (v: Vec2)
        ensures
            v == (Vec2 { x, y }),
    {
        Vec2 { x, y }
    }

    pub fn sub(&self, o: &Vec2) -> (v: Vec2)
        requires
            vec2_ok(*self),
            vec2_ok(*o),
        ensures
            v.x == fx_saturate(self.x - o.x),
            v.y == fx_saturate(self.y - o.y),
            vec2_ok(v),
    {
        Vec2 { x: crate::fixed::fx_sub(self.x, o.x), y: crate::fixed::fx_sub(self.y, o.y) }
    }

    /// The length of the vector.
    pub fn norm(&self) -> (r: i64)
        requires
            vec2_ok(*self),
        ensures
            r == spec_norm2(*self),
            0 <= r <= 16777216,
    {
        let s = dot2(self.x, self.y, self.x, self.y);
        proof {
            lemma_sq_nonneg(self.x as int);
            lemma_sq_nonneg(self.y as int);
        }
        fx_sqrt(s)
    }

    /// The distance between two points.
    pub fn distance(&self, o: &Vec2) -> (r: i64)
        requires
            vec2_ok(*self),
            vec2_ok(*o),
        ensures
            r == spec_norm2(
                Vec2 { x: fx_saturate(self.x - o.x) as i64, y: fx_saturate(self.y - o.y) as i64 },
            ),
            0 <= r <= 16777216,
    {
        let d = self.sub(o);
        d.norm()
    }
}

impl Vec3 {
    pub fn new(x: i64, y: i64, z: i64) -> (v: Vec3)
        ensures
            v == (Vec3 { x, y, z }),
    {
        Vec3 { x, y, z }
    }

    pub fn add(&self, o: &Vec3) -> (v: Vec3)
        requires
            vec3_ok(*self),
            vec3_ok(*o),
        ensures
            v.x == fx_saturate(self.x + o.x),
            v.y == fx_saturate(self.y + o.y),
            v.z == fx_saturate(self.z + o.z),
            vec3_ok(v),
    {
        Vec3 {
            x: fx_add(self.x, o.x),
            y: fx_add(self.y, o.y),
            z: fx_add(self.z, o.z),
        }
    }

    pub fn sub(&self, o: &Vec3) -> (v: Vec3)
        requires
            vec3_ok(*self),
            vec3_ok(*o),
        ensures
            v.x == fx_saturate(self.x - o.x),
            v.y == fx_saturate(self.y - o.y),
            v.z == fx_saturate(self.z - o.z),
            vec3_ok(v),
    {
        Vec3 {
            x: crate::fixed::fx_sub(self.x, o.x),
            y: crate::fixed::fx_sub(self.y, o.y),
            z: crate::fixed::fx_sub(self.z, o.z),
        }
    }

    /// Every component scaled by a fixed-point factor.
    pub fn scale(&self, s: i64) -> (v: Vec3)
        requires
            vec3_ok(*self),
            fx_ok(s),
        ensures
            v.x == spec_fx_mul(self.x as int, s as int),
            v.y == spec_fx_mul(self.y as int, s as int),
            v.z == spec_fx_mul(self.z as int, s as int),
            vec3_ok(v),
    {
        Vec3 { x: fx_mul(self.x, s), y: fx_mul(self.y, s), z: fx_mul(self.z, s) }
    }

    /// The fixed-point dot product.
    pub fn dot(&self, o: &Vec3) -> (r: i64)
        requires
            vec3_ok(*self),
            vec3_ok(*o),
        ensures
            r == spec_dot3(
                self.x as int,
                self.y as int,
                self.z as int,
                o.x as int,
                o.y as int,
                o.z as int,
            ),
            fx_ok(r),
    {
        dot3(self.x, self.y, self.z, o.x, o.y, o.z)
    }

    /// The fixed-point cross product.
    pub fn cross(&self, o: &Vec3) -> (v: Vec3)
        requires
            vec3_ok(*self),
            vec3_ok(*o),
        ensures
            v.x == fx_saturate(
                spec_fx_mul(self.y as int, o.z as int) - spec_fx_mul(self.z as int, o.y as int),
            ),
            v.y == fx_saturate(
                spec_fx_mul(self.z as int, o.x as int) - spec_fx_mul(self.x as int, o.z as int),
            ),
            v.z == fx_saturate(
                spec_fx_mul(self.x as int, o.y as int) - spec_fx_mul(self.y as int, o.x as int),
            ),
            vec3_ok(v),
    {
        Vec3 {
            x: crate::fixed::fx_sub(fx_mul(self.y, o.z), fx_mul(self.z, o.y)),
            y: crate::fixed::fx_sub(fx_mul(self.z, o.x), fx_mul(self.x, o.z)),
            z: crate::fixed::fx_sub(fx_mul(self.x, o.y), fx_mul(self.y, o.x)),
        }
    }

    /// The length of the vector.
    pub fn norm(&self) -> (r: i64)
        requires
            vec3_ok(*self),
        ensures
            r == spec_norm3(*self),
            0 <= r <= 16777216,
    {
        let s = dot3(self.x, self.y, self.z, self.x, self.y, self.z);
        proof {
            lemma_sq_nonneg(self.x as int);
            lemma_sq_nonneg(self.y as int);
            lemma_sq_nonneg(self.z as int);
        }
        fx_sqrt(s)
    }

    /// The distance between two points.
    pub fn distance(&self, o: &Vec3) -> (r: i64)
        requires
            vec3_ok(*self),
            vec3_ok(*o),
        ensures
            r == spec_norm3(
                Vec3 {
                    x: fx_saturate(self.x - o.x) as i64,
                    y: fx_saturate(self.y - o.y) as i64,
                    z: fx_saturate(self.z - o.z) as i64,
                },
            ),
            0 <= r <= 16777216,
    {
        let d = self.sub(o);
        d.norm()
    }

    /// The vector scaled to unit length; the zero vector stays zero.
    pub fn normalize(&self) -> (v: Vec3)
        requires
            vec3_ok(*self),
        ensures
            v == spec_normalize3(*self),
            vec3_ok(v),
    {
        let n = self.norm();
        if n == 0 {
            Vec3 { x: 0, y: 0, z: 0 }
        } else {
            Vec3 { x: fx_div(self.x, n), y: fx_div(self.y, n), z: fx_div(self.z, n) }
        }
    }
}

/// The meaning of [`Vec3::normalize`].
pub open spec fn spec_normalize3(v: Vec3) -> Vec3 {
    let n = spec_norm3(v);
    if n == 0 {
        Vec3 { x: 0, y: 0, z: 0 }
    } else {
        Vec3 {
            x: spec_fx_div(v.x as int, n) as i64,
            y: spec_fx_div(v.y as int, n) as i64,
            z: spec_fx_div(v.z as int, n) as i64,
        }
    }
}

/// A fixed-point square is never negative.
proof fn lemma_sq_nonneg(a: int)
    ensures
        spec_fx_mul(a, a) >= 0,
{
    assert(a * a >= 0) by (nonlinear_arith);
}

impl Vec4 {
    pub fn new(x: i64, y: i64, z: i64, w: i64) -> (v: Vec4)
        ensures
            v == (Vec4 { x, y, z, w }),
    {
        Vec4 { x, y, z, w }
    }
}

/// The meaning of [`Mat3::mul_vec3`].
pub open spec fn spec_mat3_mul_vec3(m: Mat3, v: Vec3) -> Vec3 {
    Vec3 {
        x: spec_dot3(
            m.r0.x as int,
            m.r0.y as int,
            m.r0.z as int,
            v.x as int,
            v.y as int,
            v.z as int,
        ) as i64,
        y: spec_dot3(
            m.r1.x as int,
            m.r1.y as int,
            m.r1.z as int,
            v.x as int,
            v.y as int,
            v.z as int,
        ) as i64,
        z: spec_dot3(
            m.r2.x as int,
            m.r2.y as int,
            m.r2.z as int,
            v.x as int,
            v.y as int,
            v.z as int,
        ) as i64,
    }
}

impl Mat3 {
    /// The identity matrix.
    pub fn identity() -> (m: Mat3)
        ensures
            m == spec_mat3_identity(),
            mat3_ok(m),
    {
        Mat3 {
            r0: Vec3 { x: 65536, y: 0, z: 0 },
            r1: Vec3 { x: 0, y: 65536, z: 0 },
            r2: Vec3 { x: 0, y: 0, z: 65536 },
        }
    }

    /// Matrix-vector product.
    pub fn mul_vec3(&self, v: &Vec3) -> (r: Vec3)
        requires
            mat3_ok(*self),
            vec3_ok(*v),
        ensures
            r == spec_mat3_mul_vec3(*self, *v),
            vec3_ok(r),
    {
        Vec3 {
            x: dot3(self.r0.x, self.r0.y, self.r0.z, v.x, v.y, v.z),
            y: dot3(self.r1.x, self.r1.y, self.r1.z, v.x, v.y, v.z),
            z: dot3(self.r2.x, self.r2.y, self.r2.z, v.x, v.y, v.z),
        }
    }
}

pub open spec fn spec_mat3_identity() -> Mat3 {
    Mat3 {
        r0: Vec3 { x: 65536, y: 0, z: 0 },
        r1: Vec3 { x: 0, y: 65536, z: 0 },
        r2: Vec3 { x: 0, y: 0, z: 65536 },
    }
}

pub open spec fn spec_mat4_identity() -> Mat4 {
    Mat4 {
        r0: Vec4 { x: 65536, y: 0, z: 0, w: 0 },
        r1: Vec4 { x: 0, y: 65536, z: 0, w: 0 },
        r2: Vec4 { x: 0, y: 0, z: 65536, w: 0 },
        r3: Vec4 { x: 0, y: 0, z: 0, w: 65536 },
    }
}

/// The meaning of [`Mat4::mul_vec4`].
pub open spec fn spec_mat4_mul_vec4(m: Mat4, v: Vec4) -> Vec4 {
    Vec4 {
        x: spec_row_dot(m.r0, v) as i64,
        y: spec_row_dot(m.r1, v) as i64,
        z: spec_row_dot(m.r2, v) as i64,
        w: spec_row_dot(m.r3, v) as i64,
    }
}

/// One row of a matrix-vector product.
pub open spec fn spec_row_dot(r: Vec4, v: Vec4) -> int {
    spec_dot4(
        r.x as int,
        r.y as int,
        r.z as int,
        r.w as int,
        v.x as int,
        v.y as int,
        v.z as int,
        v.w as int,
    )
}

/// One entry of a matrix-matrix product: row `r` of `a` against
/// column `(bx, by, bz, bw)` of `b`.
pub open spec fn spec_col_dot(r: Vec4, bx: int, by: int, bz: int, bw: int) -> int {
    spec_dot4(r.x as int, r.y as int, r.z as int, r.w as int, bx, by, bz, bw)
}

/// The meaning of [`Mat4::mul_mat4`].
pub open spec fn spec_mat4_mul_mat4(a: Mat4, b: Mat4) -> Mat4 {
    Mat4 {
        r0: spec_mul_row(a.r0, b),
        r1: spec_mul_row(a.r1, b),
        r2: spec_mul_row(a.r2, b),
        r3: spec_mul_row(a.r3, b),
    }
}

pub open spec fn spec_mul_row(r: Vec4, b: Mat4) -> Vec4 {
    Vec4 {
        x: spec_col_dot(r, b.r0.x as int, b.r1.x as int, b.r2.x as int, b.r3.x as int) as i64,
        y: spec_col_dot(r, b.r0.y as int, b.r1.y as int, b.r2.y as int, b.r3.y as int) as i64,
        z: spec_col_dot(r, b.r0.z as int, b.r1.z as int, b.r2.z as int, b.r3.z as int) as i64,
        w: spec_col_dot(r, b.r0.w as int, b.r1.w as int, b.r2.w as int, b.r3.w as int) as i64,
    }
}

impl Mat4 {
    /// The identity matrix.
    pub fn identity() -> (m: Mat4)
        ensures
            m == spec_mat4_identity(),
            mat4_ok(m),
    {
        Mat4 {
            r0: Vec4 { x: 65536, y: 0, z: 0, w: 0 },
            r1: Vec4 { x: 0, y: 65536, z: 0, w: 0 },
            r2: Vec4 { x: 0, y: 0, z: 65536, w: 0 },
            r3: Vec4 { x: 0, y: 0, z: 0, w: 65536 },
        }
    }

    /// Matrix-vector product.
    pub fn mul_vec4(&self, v: &Vec4) -> (r: Vec4)
        requires
            mat4_ok(*self),
            vec4_ok(*v),
        ensures
            r == spec_mat4_mul_vec4(*self, *v),
            vec4_ok(r),
    {
        Vec4 {
            x: dot4(self.r0.x, self.r0.y, self.r0.z, self.r0.w, v.x, v.y, v.z, v.w),
            y: dot4(self.r1.x, self.r1.y, self.r1.z, self.r1.w, v.x, v.y, v.z, v.w),
            z: dot4(self.r2.x, self.r2.y, self.r2.z, self.r2.w, v.x, v.y, v.z, v.w),
            w: dot4(self.r3.x, self.r3.y, self.r3.z, self.r3.w, v.x, v.y, v.z, v.w),
        }
    }

    /// Matrix-matrix product.
    pub fn mul_mat4(&self, b: &Mat4) -> (r: Mat4)
        requires
            mat4_ok(*self),
            mat4_ok(*b),
        ensures
            r == spec_mat4_mul_mat4(*self, *b),
            mat4_ok(r),
    {
        Mat4 {
            r0: mul_row(&self.r0, b),
            r1: mul_row(&self.r1, b),
            r2: mul_row(&self.r2, b),
            r3: mul_row(&self.r3, b),
        }
    }
}

fn mul_row(r: &Vec4, b: &Mat4) -> (out: Vec4)
    requires
        vec4_ok(*r),
        mat4_ok(*b),
    ensures
        out == spec_mul_row(*r, *b),
        vec4_ok(out),
{
    Vec4 {
        x: dot4(r.x, r.y, r.z, r.w, b.r0.x, b.r1.x, b.r2.x, b.r3.x),
        y: dot4(r.x, r.y, r.z, r.w, b.r0.y, b.r1.y, b.r2.y, b.r3.y),
        z: dot4(r.x, r.y, r.z, r.w, b.r0.z, b.r1.z, b.r2.z, b.r3.z),
        w: dot4(r.x, r.y, r.z, r.w, b.r0.w, b.r1.w, b.r2.w, b.r3.w),
    }
}

} // verus!
