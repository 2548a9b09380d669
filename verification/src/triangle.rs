//! Triangle rasterization by edge functions.
//!
//! A triangle of three transformed vertices covers an integer pixel
//! exactly when the three oriented edge functions at the pixel center
//! all carry the sign of the triangle's winding, boundary included.
//! Each covered pixel yields one fragment whose attributes are the
//! barycentric interpolation of the vertex attributes.  Near-zero
//! (degenerate) triangles produce no fragments, and the scan is
//! clipped to the caller's buffer bounds.

use vstd::prelude::*;
use crate::color::Color;
use crate::fixed::{iabs, tdiv};
use crate::fragment::{fragment_ok, Fragment};
use crate::geometry::{Vec2, Vec3};
use crate::vertex::{vertex_ok, Vertex};

verus! {

/// The smallest `|area|` (in squared fixed-point units) that is still
/// rasterized; anything below is treated as degenerate.
pub const TRI_AREA_EPS: i64 = 65536;

/// The oriented edge function:
/// `(px - ax) * (by - ay) - (py - ay) * (bx - ax)`.
pub open spec fn edge_fn(ax: int, ay: int, bx: int, by: int, px: int, py: int) -> int {
    (px - ax) * (by - ay) - (py - ay) * (bx - ax)
}

/// Twice the signed area of the triangle, via the edge function at
/// the third vertex.
pub open spec fn tri_area(v0: Vertex, v1: Vertex, v2: Vertex) -> int {
    edge_fn(
        v0.transformed_position.x as int,
        v0.transformed_position.y as int,
        v1.transformed_position.x as int,
        v1.transformed_position.y as int,
        v2.transformed_position.x as int,
        v2.transformed_position.y as int,
    )
}

/// Whether the pixel center `(ix, iy)` lies inside the triangle
/// (boundary included): all three edge functions carry the winding
/// sign of the area.
#[verifier::opaque]
pub open spec fn tri_covers(v0: Vertex, v1: Vertex, v2: Vertex, ix: int, iy: int) -> bool {
    let ax = v0.transformed_position.x as int;
    let ay = v0.transformed_position.y as int;
    let bx = v1.transformed_position.x as int;
    let by = v1.transformed_position.y as int;
    let cx = v2.transformed_position.x as int;
    let cy = v2.transformed_position.y as int;
    let px = ix * 65536;
    let py = iy * 65536;
    let e0 = edge_fn(ax, ay, bx, by, px, py);
    let e1 = edge_fn(bx, by, cx, cy, px, py);
    let e2 = edge_fn(cx, cy, ax, ay, px, py);
    if tri_area(v0, v1, v2) > 0 {
        e0 >= 0 && e1 >= 0 && e2 >= 0
    } else {
        e0 <= 0 && e1 <= 0 && e2 <= 0
    }
}

/// Barycentric interpolation of one fixed-point attribute with
/// nonnegative weights summing to `area`.
pub open spec fn spec_interp(wa: int, wb: int, wc: int, area: int, a0: int, a1: int, a2: int) -> int {
    tdiv(wa * a0 + wb * a1 + wc * a2, area)
}

/// The fragment emitted for covered pixel `(ix, iy)`: position at the
/// pixel center, and color, depth, normal, object-space position and
/// texture coordinates interpolated barycentrically; the intensity is
/// one.
#[verifier::opaque]
pub open spec fn tri_fragment(v0: Vertex, v1: Vertex, v2: Vertex, ix: int, iy: int) -> Fragment {
    let ax = v0.transformed_position.x as int;
    let ay = v0.transformed_position.y as int;
    let bx = v1.transformed_position.x as int;
    let by = v1.transformed_position.y as int;
    let cx = v2.transformed_position.x as int;
    let cy = v2.transformed_position.y as int;
    let px = ix * 65536;
    let py = iy * 65536;
    let wa = iabs(edge_fn(bx, by, cx, cy, px, py));
    let wb = iabs(edge_fn(cx, cy, ax, ay, px, py));
    let wc = iabs(edge_fn(ax, ay, bx, by, px, py));
    let area = iabs(tri_area(v0, v1, v2));
    Fragment {
        position: Vec2 { x: (ix * 65536) as i64, y: (iy * 65536) as i64 },
        color: Color {
            r: spec_interp(
                wa,
                wb,
                wc,
                area,
                v0.color.r as int,
                v1.color.r as int,
                v2.color.r as int,
            ) as u8,
            g: spec_interp(
                wa,
                wb,
                wc,
                area,
                v0.color.g as int,
                v1.color.g as int,
                v2.color.g as int,
            ) as u8,
            b: spec_interp(
                wa,
                wb,
                wc,
                area,
                v0.color.b as int,
                v1.color.b as int,
                v2.color.b as int,
            ) as u8,
        },
        depth: spec_interp(
            wa,
            wb,
            wc,
            area,
            v0.transformed_position.z as int,
            v1.transformed_position.z as int,
            v2.transformed_position.z as int,
        ) as i64,
        normal: Vec3 {
            x: spec_interp(
                wa,
                wb,
                wc,
                area,
                v0.transformed_normal.x as int,
                v1.transformed_normal.x as int,
                v2.transformed_normal.x as int,
            ) as i64,
            y: spec_interp(
                wa,
                wb,
                wc,
                area,
                v0.transformed_normal.y as int,
                v1.transformed_normal.y as int,
                v2.transformed_normal.y as int,
            ) as i64,
            z: spec_interp(
                wa,
                wb,
                wc,
                area,
                v0.transformed_normal.z as int,
                v1.transformed_normal.z as int,
                v2.transformed_normal.z as int,
            ) as i64,
        },
        intensity: 65536,
        vertex_position: Vec3 {
            x: spec_interp(
                wa,
                wb,
                wc,
                area,
                v0.position.x as int,
                v1.position.x as int,
                v2.position.x as int,
            ) as i64,
            y: spec_interp(
                wa,
                wb,
                wc,
                area,
                v0.position.y as int,
                v1.position.y as int,
                v2.position.y as int,
            ) as i64,
            z: spec_interp(
                wa,
                wb,
                wc,
                area,
                v0.position.z as int,
                v1.position.z as int,
                v2.position.z as int,
            ) as i64,
        },
        tex_coords: Vec2 {
            x: spec_interp(
                wa,
                wb,
                wc,
                area,
                v0.tex_coords.x as int,
                v1.tex_coords.x as int,
                v2.tex_coords.x as int,
            ) as i64,
            y: spec_interp(
                wa,
                wb,
                wc,
                area,
                v0.tex_coords.y as int,
                v1.tex_coords.y as int,
                v2.tex_coords.y as int,
            ) as i64,
        },
    }
}

/// The three edge functions written in coordinates relative to the
/// first vertex.
proof fn lemma_edge_sum_origin(ux: int, uy: int, vx: int, vy: int, qx: int, qy: int)
    ensures
        (qx * uy - qy * ux) + ((qx - ux) * (vy - uy) - (qy - uy) * (vx - ux)) + ((qy - vy) * vx - (
        qx - vx) * vy) == vx * uy - vy * ux,
{
    broadcast use vstd::arithmetic::mul::group_mul_is_commutative_and_distributive;

    assert((qx - ux) * (vy - uy) == qx * vy - qx * uy - (ux * vy - ux * uy));
    assert((qy - uy) * (vx - ux) == qy * vx - qy * ux - (uy * vx - uy * ux));
    assert((qy - vy) * vx == qy * vx - vy * vx);
    assert((qx - vx) * vy == qx * vy - vx * vy);
}

/// The weight-coordinate identity in coordinates relative to the
/// first vertex.
proof fn lemma_bary_origin(ux: int, uy: int, vx: int, vy: int, qx: int, qy: int)
    ensures
        ((qy - vy) * vx - (qx - vx) * vy) * ux + (qx * uy - qy * ux) * vx == (vx * uy - vy * ux)
            * qx,
        ((qy - vy) * vx - (qx - vx) * vy) * uy + (qx * uy - qy * ux) * vy == (vx * uy - vy * ux)
            * qy,
{
    broadcast use vstd::arithmetic::mul::group_mul_is_commutative_and_distributive;
    broadcast use vstd::arithmetic::mul::lemma_mul_is_associative;

    let ea = (qy - vy) * vx - (qx - vx) * vy;
    let ec = qx * uy - qy * ux;
    assert(ea == qy * vx - vy * vx - (qx * vy - vx * vy));
    assert(ea * ux == (qy * vx) * ux - (vy * vx) * ux - ((qx * vy) * ux - (vx * vy) * ux));
    assert(ec * vx == (qx * uy) * vx - (qy * ux) * vx);
    assert((vx * uy - vy * ux) * qx == (vx * uy) * qx - (vy * ux) * qx);
    assert((qy * vx) * ux == (qy * ux) * vx);
    assert((vy * vx) * ux == (vx * vy) * ux);
    assert((qx * vy) * ux == (vy * ux) * qx);
    assert((qx * uy) * vx == (vx * uy) * qx);
    assert(ea * uy == (qy * vx) * uy - (vy * vx) * uy - ((qx * vy) * uy - (vx * vy) * uy));
    assert(ec * vy == (qx * uy) * vy - (qy * ux) * vy);
    assert((vx * uy - vy * ux) * qy == (vx * uy) * qy - (vy * ux) * qy);
    assert((vy * vx) * uy == (vx * vy) * uy);
    assert((qx * vy) * uy == (qx * uy) * vy);
    assert((qy * vx) * uy == (vx * uy) * qy);
    assert((qy * ux) * vy == (vy * ux) * qy);
}

/// The three edge functions of a triangle, evaluated anywhere, equal
/// its translated forms about the first vertex.
proof fn lemma_edge_translate(ax: int, ay: int, bx: int, by: int, cx: int, cy: int, px: int, py: int)
    ensures
        edge_fn(ax, ay, bx, by, px, py) == (px - ax) * (by - ay) - (py - ay) * (bx - ax),
        edge_fn(bx, by, cx, cy, px, py) == ((px - ax) - (bx - ax)) * ((cy - ay) - (by - ay)) - ((py
            - ay) - (by - ay)) * ((cx - ax) - (bx - ax)),
        edge_fn(cx, cy, ax, ay, px, py) == ((py - ay) - (cy - ay)) * (cx - ax) - ((px - ax) - (cx
            - ax)) * (cy - ay),
        edge_fn(ax, ay, bx, by, cx, cy) == (cx - ax) * (by - ay) - (cy - ay) * (bx - ax),
{
    assert(edge_fn(bx, by, cx, cy, px, py) == ((px - ax) - (bx - ax)) * ((cy - ay) - (by - ay)) - ((
    py - ay) - (by - ay)) * ((cx - ax) - (bx - ax))) by (nonlinear_arith);
    assert(edge_fn(cx, cy, ax, ay, px, py) == ((py - ay) - (cy - ay)) * (cx - ax) - ((px - ax) - (cx
        - ax)) * (cy - ay)) by (nonlinear_arith);
}

/// The three edge functions at any point sum to the area.
proof fn lemma_edge_sum(ax: int, ay: int, bx: int, by: int, cx: int, cy: int, px: int, py: int)
    ensures
        edge_fn(ax, ay, bx, by, px, py) + edge_fn(bx, by, cx, cy, px, py) + edge_fn(
            cx,
            cy,
            ax,
            ay,
            px,
            py,
        ) == edge_fn(ax, ay, bx, by, cx, cy),
{
    lemma_edge_translate(ax, ay, bx, by, cx, cy, px, py);
    lemma_edge_sum_origin(bx - ax, by - ay, cx - ax, cy - ay, px - ax, py - ay);
}

/// The weighted vertex coordinates reproduce the sample point.
proof fn lemma_bary_identity(
    ax: int,
    ay: int,
    bx: int,
    by: int,
    cx: int,
    cy: int,
    px: int,
    py: int,
)
    ensures
        edge_fn(bx, by, cx, cy, px, py) * ax + edge_fn(cx, cy, ax, ay, px, py) * bx + edge_fn(
            ax,
            ay,
            bx,
            by,
            px,
            py,
        ) * cx == edge_fn(ax, ay, bx, by, cx, cy) * px,
        edge_fn(bx, by, cx, cy, px, py) * ay + edge_fn(cx, cy, ax, ay, px, py) * by + edge_fn(
            ax,
            ay,
            bx,
            by,
            px,
            py,
        ) * cy == edge_fn(ax, ay, bx, by, cx, cy) * py,
{
    let e0 = edge_fn(ax, ay, bx, by, px, py);
    let e1 = edge_fn(bx, by, cx, cy, px, py);
    let e2 = edge_fn(cx, cy, ax, ay, px, py);
    let area = edge_fn(ax, ay, bx, by, cx, cy);
    lemma_edge_translate(ax, ay, bx, by, cx, cy, px, py);
    lemma_edge_sum(ax, ay, bx, by, cx, cy, px, py);
    lemma_bary_origin(bx - ax, by - ay, cx - ax, cy - ay, px - ax, py - ay);
    // The translated identity, with the translated edge values
    // recognized as e2, e0 and area.
    assert(e2 * (bx - ax) + e0 * (cx - ax) == area * (px - ax));
    assert(e2 * (by - ay) + e0 * (cy - ay) == area * (py - ay));
    // Distribute each product over its difference.
    vstd::arithmetic::mul::lemma_mul_is_distributive_sub(e2, bx, ax);
    vstd::arithmetic::mul::lemma_mul_is_distributive_sub(e0, cx, ax);
    vstd::arithmetic::mul::lemma_mul_is_distributive_sub(area, px, ax);
    vstd::arithmetic::mul::lemma_mul_is_distributive_sub(e2, by, ay);
    vstd::arithmetic::mul::lemma_mul_is_distributive_sub(e0, cy, ay);
    vstd::arithmetic::mul::lemma_mul_is_distributive_sub(area, py, ay);
    // The edge sum multiplied through by the first vertex.
    vstd::arithmetic::mul::lemma_mul_is_distributive_add_other_way(ax, e0 + e1, e2);
    vstd::arithmetic::mul::lemma_mul_is_distributive_add_other_way(ax, e0, e1);
    vstd::arithmetic::mul::lemma_mul_is_distributive_add_other_way(ay, e0 + e1, e2);
    vstd::arithmetic::mul::lemma_mul_is_distributive_add_other_way(ay, e0, e1);
    assert((e0 + e1 + e2) * ax == area * ax);
    assert((e0 + e1 + e2) * ay == area * ay);
}

/// A covered pixel center lies within the triangle's bounding box.
proof fn lemma_covered_in_box(v0: Vertex, v1: Vertex, v2: Vertex, ix: int, iy: int)
    requires
        tri_covers(v0, v1, v2, ix, iy),
        tri_area(v0, v1, v2) != 0,
    ensures
        ({
            let ax = v0.transformed_position.x as int;
            let bx = v1.transformed_position.x as int;
            let cx = v2.transformed_position.x as int;
            imin3(ax, bx, cx) <= ix * 65536 <= imax3(ax, bx, cx)
        }),
        ({
            let ay = v0.transformed_position.y as int;
            let by = v1.transformed_position.y as int;
            let cy = v2.transformed_position.y as int;
            imin3(ay, by, cy) <= iy * 65536 <= imax3(ay, by, cy)
        }),
{
    let ax = v0.transformed_position.x as int;
    let ay = v0.transformed_position.y as int;
    let bx = v1.transformed_position.x as int;
    let by = v1.transformed_position.y as int;
    let cx = v2.transformed_position.x as int;
    let cy = v2.transformed_position.y as int;
    let px = ix * 65536;
    let py = iy * 65536;
    let ea = edge_fn(bx, by, cx, cy, px, py);
    let eb = edge_fn(cx, cy, ax, ay, px, py);
    let ec = edge_fn(ax, ay, bx, by, px, py);
    let area = tri_area(v0, v1, v2);
    reveal(tri_covers);
    lemma_edge_sum(ax, ay, bx, by, cx, cy, px, py);
    lemma_bary_identity(ax, ay, bx, by, cx, cy, px, py);
    lemma_hull_coord(ea, eb, ec, area, ax, bx, cx, px);
    lemma_hull_coord(ea, eb, ec, area, ay, by, cy, py);
}

/// Rounding up to whole units never lands below rounding down.
proof fn lemma_ceil_ge_floor(x: int)
    ensures
        -((-x) / 65536) >= x / 65536,
{
    vstd::arithmetic::div_mod::lemma_fundamental_div_mod(x, 65536);
    vstd::arithmetic::div_mod::lemma_fundamental_div_mod(-x, 65536);
    let q = x / 65536;
    let r = x % 65536;
    if r == 0 {
        vstd::arithmetic::div_mod::lemma_fundamental_div_mod_converse_div(-x, 65536, -q, 0);
        assert(-x == (-q) * 65536 + 0) by (nonlinear_arith)
            requires
                x == 65536 * q + 0,
        ;
    } else {
        assert(-x == (-q - 1) * 65536 + (65536 - r)) by (nonlinear_arith)
            requires
                x == 65536 * q + r,
        ;
        vstd::arithmetic::div_mod::lemma_fundamental_div_mod_converse_div(
            -x,
            65536,
            -q - 1,
            65536 - r,
        );
    }
}

/// A whole-unit pixel coordinate is recovered by dividing its
/// fixed-point form back down.
proof fn lemma_units_round_trip(i: int)
    ensures
        (i * 65536) / 65536 == i,
{
    vstd::arithmetic::div_mod::lemma_fundamental_div_mod_converse_div(i * 65536, 65536, i, 0);
}

/// The edge function, evaluated over machine integers.
fn edge_exec(ax: i64, ay: i64, bx: i64, by: i64, px: i64, py: i64) -> (e: i128)
    requires
        -1073741824 <= ax <= 1073741824,
        -1073741824 <= ay <= 1073741824,
        -1073741824 <= bx <= 1073741824,
        -1073741824 <= by <= 1073741824,
        -1073741824 <= px <= 1073741824,
        -1073741824 <= py <= 1073741824,
    ensures
        e == edge_fn(ax as int, ay as int, bx as int, by as int, px as int, py as int),
        -9223372036854775808 <= e <= 9223372036854775808,
{
    proof {
        assert((px as int - ax as int) * (by as int - ay as int)
            <= 4611686018427387904int && (px as int - ax as int) * (by as int - ay as int)
            >= -4611686018427387904int) by (nonlinear_arith)
            requires
                -2147483648 <= px as int - ax as int <= 2147483648,
                -2147483648 <= by as int - ay as int <= 2147483648,
        ;
        assert((py as int - ay as int) * (bx as int - ax as int)
            <= 4611686018427387904int && (py as int - ay as int) * (bx as int - ax as int)
            >= -4611686018427387904int) by (nonlinear_arith)
            requires
                -2147483648 <= py as int - ay as int <= 2147483648,
                -2147483648 <= bx as int - ax as int <= 2147483648,
        ;
    }
    (px as i128 - ax as i128) * (by as i128 - ay as i128) - (py as i128 - ay as i128) * (bx as i128
        - ax as i128)
}

/// Barycentric interpolation of one attribute, executable.
fn interp_attr(wa: i128, wb: i128, wc: i128, area: i128, a0: i64, a1: i64, a2: i64) -> (r: i64)
    requires
        0 <= wa,
        0 <= wb,
        0 <= wc,
        wa + wb + wc == area,
        1 <= area <= 9223372036854775808,
        -1073741824 <= a0 <= 1073741824,
        -1073741824 <= a1 <= 1073741824,
        -1073741824 <= a2 <= 1073741824,
    ensures
        r == spec_interp(
            wa as int,
            wb as int,
            wc as int,
            area as int,
            a0 as int,
            a1 as int,
            a2 as int,
        ),
        -1073741824 <= r <= 1073741824,
        (0 <= a0 <= 255 && 0 <= a1 <= 255 && 0 <= a2 <= 255) ==> 0 <= r <= 255,
{
    proof {
        assert(-(wa * 1073741824) <= wa * (a0 as int) <= wa * 1073741824) by (nonlinear_arith)
            requires
                wa >= 0,
                -1073741824 <= a0 as int <= 1073741824,
        ;
        assert(-(wb * 1073741824) <= wb * (a1 as int) <= wb * 1073741824) by (nonlinear_arith)
            requires
                wb >= 0,
                -1073741824 <= a1 as int <= 1073741824,
        ;
        assert(-(wc * 1073741824) <= wc * (a2 as int) <= wc * 1073741824) by (nonlinear_arith)
            requires
                wc >= 0,
                -1073741824 <= a2 as int <= 1073741824,
        ;
        vstd::arithmetic::mul::lemma_mul_is_distributive_add_other_way(
            1073741824,
            wa as int + wb as int,
            wc as int,
        );
        vstd::arithmetic::mul::lemma_mul_is_distributive_add_other_way(
            1073741824,
            wa as int,
            wb as int,
        );
    }
    let num: i128 = wa * (a0 as i128) + wb * (a1 as i128) + wc * (a2 as i128);
    proof {
        assert(-(area * 1073741824) <= num <= area * 1073741824);
        vstd::arithmetic::mul::lemma_mul_is_commutative(area as int, 1073741824);
        vstd::arithmetic::div_mod::lemma_fundamental_div_mod_converse_div(
            area * 1073741824,
            area as int,
            1073741824,
            0,
        );
    }
    if num >= 0 {
        let u: u128 = (num as u128) / (area as u128);
        proof {
            vstd::arithmetic::div_mod::lemma_div_is_ordered(
                num as int,
                area * 1073741824,
                area as int,
            );
            vstd::arithmetic::div_mod::lemma_div_pos_is_pos(num as int, area as int);
            if 0 <= a0 <= 255 && 0 <= a1 <= 255 && 0 <= a2 <= 255 {
                assert(wa * (a0 as int) <= wa * 255) by (nonlinear_arith)
                    requires
                        wa >= 0,
                        a0 <= 255,
                ;
                assert(wb * (a1 as int) <= wb * 255) by (nonlinear_arith)
                    requires
                        wb >= 0,
                        a1 <= 255,
                ;
                assert(wc * (a2 as int) <= wc * 255) by (nonlinear_arith)
                    requires
                        wc >= 0,
                        a2 <= 255,
                ;
                vstd::arithmetic::mul::lemma_mul_is_distributive_add_other_way(
                    255,
                    wa as int + wb as int,
                    wc as int,
                );
                vstd::arithmetic::mul::lemma_mul_is_distributive_add_other_way(
                    255,
                    wa as int,
                    wb as int,
                );
                vstd::arithmetic::mul::lemma_mul_is_commutative(area as int, 255);
                vstd::arithmetic::div_mod::lemma_fundamental_div_mod_converse_div(
                    area * 255,
                    area as int,
                    255,
                    0,
                );
                vstd::arithmetic::div_mod::lemma_div_is_ordered(
                    num as int,
                    area * 255,
                    area as int,
                );
            }
        }
        u as i64
    } else {
        let u: u128 = ((-num) as u128) / (area as u128);
        proof {
            vstd::arithmetic::div_mod::lemma_div_is_ordered(
                -(num as int),
                area * 1073741824,
                area as int,
            );
            vstd::arithmetic::div_mod::lemma_div_pos_is_pos(-(num as int), area as int);
            if 0 <= a0 <= 255 && 0 <= a1 <= 255 && 0 <= a2 <= 255 {
                assert(wa * (a0 as int) >= 0) by (nonlinear_arith)
                    requires
                        wa >= 0,
                        a0 >= 0,
                ;
                assert(wb * (a1 as int) >= 0) by (nonlinear_arith)
                    requires
                        wb >= 0,
                        a1 >= 0,
                ;
                assert(wc * (a2 as int) >= 0) by (nonlinear_arith)
                    requires
                        wc >= 0,
                        a2 >= 0,
                ;
            }
        }
        -(u as i64)
    }
}

/// The smallest of three fixed-point values.
fn min3(a: i64, b: i64, c: i64) -> (r: i64)
    ensures
        r == imin3(a as int, b as int, c as int),
{
    if a <= b && a <= c {
        a
    } else if b <= c {
        b
    } else {
        c
    }
}

/// The largest of three fixed-point values.
fn max3(a: i64, b: i64, c: i64) -> (r: i64)
    ensures
        r == imax3(a as int, b as int, c as int),
{
    if a >= b && a >= c {
        a
    } else if b >= c {
        b
    } else {
        c
    }
}

pub open spec fn imin3(a: int, b: int, c: int) -> int {
    if a <= b && a <= c {
        a
    } else if b <= c {
        b
    } else {
        c
    }
}

pub open spec fn imax3(a: int, b: int, c: int) -> int {
    if a >= b && a >= c {
        a
    } else if b >= c {
        b
    } else {
        c
    }
}

/// From barycentric weights of one sign and the reproduction identity,
/// the sample coordinate lies between the vertex coordinates.
proof fn lemma_hull_coord(ea: int, eb: int, ec: int, area: int, va: int, vb: int, vc: int, p: int)
    requires
        ea + eb + ec == area,
        ea * va + eb * vb + ec * vc == area * p,
        area != 0,
        area > 0 ==> ea >= 0 && eb >= 0 && ec >= 0,
        area < 0 ==> ea <= 0 && eb <= 0 && ec <= 0,
    ensures
        imin3(va, vb, vc) <= p <= imax3(va, vb, vc),
{
    let lo = imin3(va, vb, vc);
    let hi = imax3(va, vb, vc);
    if area > 0 {
        assert(ea * va <= ea * hi) by (nonlinear_arith)
            requires
                ea >= 0,
                va <= hi,
        ;
        assert(eb * vb <= eb * hi) by (nonlinear_arith)
            requires
                eb >= 0,
                vb <= hi,
        ;
        assert(ec * vc <= ec * hi) by (nonlinear_arith)
            requires
                ec >= 0,
                vc <= hi,
        ;
        assert(ea * hi + eb * hi + ec * hi == (ea + eb + ec) * hi) by (nonlinear_arith);
        assert(area * p <= area * hi);
        assert(p <= hi) by (nonlinear_arith)
            requires
                area > 0,
                area * p <= area * hi,
        ;
        assert(ea * va >= ea * lo) by (nonlinear_arith)
            requires
                ea >= 0,
                va >= lo,
        ;
        assert(eb * vb >= eb * lo) by (nonlinear_arith)
            requires
                eb >= 0,
                vb >= lo,
        ;
        assert(ec * vc >= ec * lo) by (nonlinear_arith)
            requires
                ec >= 0,
                vc >= lo,
        ;
        assert(ea * lo + eb * lo + ec * lo == (ea + eb + ec) * lo) by (nonlinear_arith);
        assert(area * p >= area * lo);
        assert(p >= lo) by (nonlinear_arith)
            requires
                area > 0,
                area * p >= area * lo,
        ;
    } else {
        assert(ea * va >= ea * hi) by (nonlinear_arith)
            requires
                ea <= 0,
                va <= hi,
        ;
        assert(eb * vb >= eb * hi) by (nonlinear_arith)
            requires
                eb <= 0,
                vb <= hi,
        ;
        assert(ec * vc >= ec * hi) by (nonlinear_arith)
            requires
                ec <= 0,
                vc <= hi,
        ;
        assert(ea * hi + eb * hi + ec * hi == (ea + eb + ec) * hi) by (nonlinear_arith);
        assert(area * p >= area * hi);
        assert(p <= hi) by (nonlinear_arith)
            requires
                area < 0,
                area * p >= area * hi,
        ;
        assert(ea * va <= ea * lo) by (nonlinear_arith)
            requires
                ea <= 0,
                va >= lo,
        ;
        assert(eb * vb <= eb * lo) by (nonlinear_arith)
            requires
                eb <= 0,
                vb >= lo,
        ;
        assert(ec * vc <= ec * lo) by (nonlinear_arith)
            requires
                ec <= 0,
                vc >= lo,
        ;
        assert(ea * lo + eb * lo + ec * lo == (ea + eb + ec) * lo) by (nonlinear_arith);
        assert(area * p <= area * lo);
        assert(p >= lo) by (nonlinear_arith)
            requires
                area < 0,
                area * p <= area * lo,
        ;
    }
}


/// Build the interpolated fragment of one covered pixel.
fn covered_fragment(v1: &Vertex, v2: &Vertex, v3: &Vertex, ix: i64, iy: i64) -> (f: Fragment)
    requires
        vertex_ok(*v1),
        vertex_ok(*v2),
        vertex_ok(*v3),
        0 <= ix <= 16383,
        0 <= iy <= 16383,
        tri_covers(*v1, *v2, *v3, ix as int, iy as int),
        iabs(tri_area(*v1, *v2, *v3)) >= 65536,
    ensures
        f == tri_fragment(*v1, *v2, *v3, ix as int, iy as int),
        fragment_ok(f),
        f.position.x == ix * 65536,
        f.position.y == iy * 65536,
{
    proof {
        reveal(tri_covers);
        reveal(tri_fragment);
    }
    let ax = v1.transformed_position.x;
    let ay = v1.transformed_position.y;
    let bx = v2.transformed_position.x;
    let by = v2.transformed_position.y;
    let cx = v3.transformed_position.x;
    let cy = v3.transformed_position.y;
    let area: i128 = edge_exec(ax, ay, bx, by, cx, cy);
    let aabs: i128 = if area < 0 {
        -area
    } else {
        area
    };
    let px: i64 = ix * 65536;
    let py: i64 = iy * 65536;
    let e0 = edge_exec(ax, ay, bx, by, px, py);
    let e1 = edge_exec(bx, by, cx, cy, px, py);
    let e2 = edge_exec(cx, cy, ax, ay, px, py);
    let wa: i128 = if e1 < 0 {
        -e1
    } else {
        e1
    };
    let wb: i128 = if e2 < 0 {
        -e2
    } else {
        e2
    };
    let wc: i128 = if e0 < 0 {
        -e0
    } else {
        e0
    };
    proof {
        lemma_edge_sum(
            ax as int,
            ay as int,
            bx as int,
            by as int,
            cx as int,
            cy as int,
            px as int,
            py as int,
        );
        assert(wa + wb + wc == aabs);
    }
    let fr = interp_attr(wa, wb, wc, aabs, v1.color.r as i64, v2.color.r as i64, v3.color.r as i64);
    let fg = interp_attr(wa, wb, wc, aabs, v1.color.g as i64, v2.color.g as i64, v3.color.g as i64);
    let fb = interp_attr(wa, wb, wc, aabs, v1.color.b as i64, v2.color.b as i64, v3.color.b as i64);
    let fd = interp_attr(
        wa,
        wb,
        wc,
        aabs,
        v1.transformed_position.z,
        v2.transformed_position.z,
        v3.transformed_position.z,
    );
    let nx = interp_attr(
        wa,
        wb,
        wc,
        aabs,
        v1.transformed_normal.x,
        v2.transformed_normal.x,
        v3.transformed_normal.x,
    );
    let ny = interp_attr(
        wa,
        wb,
        wc,
        aabs,
        v1.transformed_normal.y,
        v2.transformed_normal.y,
        v3.transformed_normal.y,
    );
    let nz = interp_attr(
        wa,
        wb,
        wc,
        aabs,
        v1.transformed_normal.z,
        v2.transformed_normal.z,
        v3.transformed_normal.z,
    );
    let vx = interp_attr(wa, wb, wc, aabs, v1.position.x, v2.position.x, v3.position.x);
    let vy = interp_attr(wa, wb, wc, aabs, v1.position.y, v2.position.y, v3.position.y);
    let vz = interp_attr(wa, wb, wc, aabs, v1.position.z, v2.position.z, v3.position.z);
    let tu = interp_attr(wa, wb, wc, aabs, v1.tex_coords.x, v2.tex_coords.x, v3.tex_coords.x);
    let tv = interp_attr(wa, wb, wc, aabs, v1.tex_coords.y, v2.tex_coords.y, v3.tex_coords.y);
    Fragment {
        position: Vec2 { x: px, y: py },
        color: Color { r: fr as u8, g: fg as u8, b: fb as u8 },
        depth: fd,
        normal: Vec3 { x: nx, y: ny, z: nz },
        intensity: 65536,
        vertex_position: Vec3 { x: vx, y: vy, z: vz },
        tex_coords: Vec2 { x: tu, y: tv },
    }
}

/// The fragments of one scan row, left to right: one fragment per
/// covered pixel center of `[xlo, xhi]` at row `iy`.
pub open spec fn tri_row_frags(
    v0: Vertex,
    v1: Vertex,
    v2: Vertex,
    iy: int,
    xlo: int,
    xhi: int,
) -> Seq<Fragment>
    decreases xhi - xlo + 1,
{
    if xlo > xhi {
        Seq::empty()
    } else {
        tri_row_frags(v0, v1, v2, iy, xlo, xhi - 1) + (if tri_covers(v0, v1, v2, xhi, iy) {
            seq![tri_fragment(v0, v1, v2, xhi, iy)]
        } else {
            Seq::empty()
        })
    }
}

/// The rows of the scan concatenated top to bottom.
pub open spec fn tri_rows_frags(
    v0: Vertex,
    v1: Vertex,
    v2: Vertex,
    xlo: int,
    xhi: int,
    ylo: int,
    yhi: int,
) -> Seq<Fragment>
    decreases yhi - ylo + 1,
{
    if ylo > yhi {
        Seq::empty()
    } else {
        tri_rows_frags(v0, v1, v2, xlo, xhi, ylo, yhi - 1) + tri_row_frags(
            v0,
            v1,
            v2,
            yhi,
            xlo,
            xhi,
        )
    }
}

/// The exact fragment sequence of the rasterizer: the clipped
/// bounding box of the triangle, scanned row-major, one fragment per
/// covered pixel; empty for a near-degenerate triangle or an empty
/// buffer.
pub open spec fn spec_triangle_frags(
    v0: Vertex,
    v1: Vertex,
    v2: Vertex,
    width: int,
    height: int,
) -> Seq<Fragment> {
    if iabs(tri_area(v0, v1, v2)) < TRI_AREA_EPS || width <= 0 || height <= 0 {
        Seq::empty()
    } else {
        let minx = imin3(
            v0.transformed_position.x as int,
            v1.transformed_position.x as int,
            v2.transformed_position.x as int,
        );
        let maxx = imax3(
            v0.transformed_position.x as int,
            v1.transformed_position.x as int,
            v2.transformed_position.x as int,
        );
        let miny = imin3(
            v0.transformed_position.y as int,
            v1.transformed_position.y as int,
            v2.transformed_position.y as int,
        );
        let maxy = imax3(
            v0.transformed_position.y as int,
            v1.transformed_position.y as int,
            v2.transformed_position.y as int,
        );
        let xlo = if minx / 65536 > 0 {
            minx / 65536
        } else {
            0
        };
        let xhi = if -((-maxx) / 65536) < width - 1 {
            -((-maxx) / 65536)
        } else {
            width - 1
        };
        let ylo = if miny / 65536 > 0 {
            miny / 65536
        } else {
            0
        };
        let yhi = if -((-maxy) / 65536) < height - 1 {
            -((-maxy) / 65536)
        } else {
            height - 1
        };
        tri_rows_frags(v0, v1, v2, xlo, xhi, ylo, yhi)
    }
}

/// Rasterize one triangle: scan the integer pixels of its bounding
/// box, clipped to a `width` by `height` buffer, and emit one
/// fragment per covered pixel center.  A near-degenerate triangle
/// (area magnitude below [`TRI_AREA_EPS`]) produces no fragments.
///
/// The result is pinned exactly: it equals [`spec_triangle_frags`],
/// the row-major scan with one fragment per covered pixel, so there
/// are no duplicates and no strays; the remaining clauses restate
/// coverage in both directions for direct use.
#[verifier::rlimit(100)]
pub fn triangle(v1: &Vertex, v2: &Vertex, v3: &Vertex, width: usize, height: usize) -> (frags:
    Vec<Fragment>)
    requires
        vertex_ok(*v1),
        vertex_ok(*v2),
        vertex_ok(*v3),
        width <= 16384,
        height <= 16384,
    ensures
        frags@ == spec_triangle_frags(*v1, *v2, *v3, width as int, height as int),
        iabs(tri_area(*v1, *v2, *v3)) < TRI_AREA_EPS ==> frags@.len() == 0,
        forall|k: int| 0 <= k < frags@.len() ==> fragment_ok(#[trigger] frags@[k]),
        forall|k: int|
            #![trigger frags@[k]]
            0 <= k < frags@.len() ==> 0 <= frags@[k].position.x as int / 65536 < width && 0
                <= frags@[k].position.y as int / 65536 < height && tri_covers(
                *v1,
                *v2,
                *v3,
                frags@[k].position.x as int / 65536,
                frags@[k].position.y as int / 65536,
            ) && frags@[k] == tri_fragment(
                *v1,
                *v2,
                *v3,
                frags@[k].position.x as int / 65536,
                frags@[k].position.y as int / 65536,
            ),
        iabs(tri_area(*v1, *v2, *v3)) >= TRI_AREA_EPS ==> forall|ix: int, iy: int|
            0 <= ix < width && 0 <= iy < height && #[trigger] tri_covers(*v1, *v2, *v3, ix, iy)
                ==> exists|k: int|
                0 <= k < frags@.len() && frags@[k] == tri_fragment(*v1, *v2, *v3, ix, iy),
{
    let ax = v1.transformed_position.x;
    let ay = v1.transformed_position.y;
    let bx = v2.transformed_position.x;
    let by = v2.transformed_position.y;
    let cx = v3.transformed_position.x;
    let cy = v3.transformed_position.y;
    let area: i128 = edge_exec(ax, ay, bx, by, cx, cy);
    let aabs: i128 = if area < 0 {
        -area
    } else {
        area
    };
    proof {
        assert(area == tri_area(*v1, *v2, *v3));
        assert(aabs == iabs(tri_area(*v1, *v2, *v3)));
    }
    let mut frags: Vec<Fragment> = Vec::new();
    let ghost mut kmap: Map<(int, int), int> = Map::empty();
    if aabs < 65536 {
        proof {
            assert(frags@ =~= spec_triangle_frags(*v1, *v2, *v3, width as int, height as int));
        }
        return frags;
    }
    if width == 0 || height == 0 {
        proof {
            assert(frags@ =~= spec_triangle_frags(*v1, *v2, *v3, width as int, height as int));
        }
        return frags;
    }
    let minx = min3(ax, bx, cx);
    let maxx = max3(ax, bx, cx);
    let miny = min3(ay, by, cy);
    let maxy = max3(ay, by, cy);
    let xlo_f = crate::fixed::fx_floor_units(minx);
    let xhi_f = crate::fixed::fx_ceil_units(maxx);
    let ylo_f = crate::fixed::fx_floor_units(miny);
    let yhi_f = crate::fixed::fx_ceil_units(maxy);
    let xlo: i64 = if xlo_f > 0 {
        xlo_f
    } else {
        0
    };
    let xhi: i64 = if xhi_f < width as i64 - 1 {
        xhi_f
    } else {
        width as i64 - 1
    };
    let ylo: i64 = if ylo_f > 0 {
        ylo_f
    } else {
        0
    };
    let yhi: i64 = if yhi_f < height as i64 - 1 {
        yhi_f
    } else {
        height as i64 - 1
    };
    proof {
        assert forall|ix2: int, iy2: int|
            0 <= ix2 < width && 0 <= iy2 < height && #[trigger] tri_covers(
                *v1,
                *v2,
                *v3,
                ix2,
                iy2,
            ) implies xlo <= ix2 <= xhi && ylo <= iy2 <= yhi by {
            lemma_covered_in_box(*v1, *v2, *v3, ix2, iy2);
            lemma_units_round_trip(ix2);
            lemma_units_round_trip(iy2);
            vstd::arithmetic::div_mod::lemma_div_is_ordered(minx as int, ix2 * 65536, 65536);
            vstd::arithmetic::div_mod::lemma_div_is_ordered(ix2 * 65536, maxx as int, 65536);
            lemma_ceil_ge_floor(maxx as int);
            vstd::arithmetic::div_mod::lemma_div_is_ordered(miny as int, iy2 * 65536, 65536);
            vstd::arithmetic::div_mod::lemma_div_is_ordered(iy2 * 65536, maxy as int, 65536);
            lemma_ceil_ge_floor(maxy as int);
        }
        assert(frags@ =~= tri_rows_frags(
            *v1,
            *v2,
            *v3,
            xlo as int,
            xhi as int,
            ylo as int,
            ylo as int - 1,
        ));
    }
    let mut iy: i64 = ylo;
    while iy <= yhi
        invariant
            vertex_ok(*v1),
            vertex_ok(*v2),
            vertex_ok(*v3),
            1 <= width <= 16384,
            1 <= height <= 16384,
            ax == v1.transformed_position.x,
            ay == v1.transformed_position.y,
            bx == v2.transformed_position.x,
            by == v2.transformed_position.y,
            cx == v3.transformed_position.x,
            cy == v3.transformed_position.y,
            area == tri_area(*v1, *v2, *v3),
            aabs == iabs(tri_area(*v1, *v2, *v3)),
            65536 <= aabs <= 9223372036854775808,
            0 <= xlo <= 16384,
            xhi <= width - 1,
            0 <= ylo <= 16384,
            yhi <= height - 1,
            ylo <= iy,
            ylo > yhi ==> iy == ylo,
            ylo <= yhi ==> iy <= yhi + 1,
            forall|ix2: int, iy2: int|
                0 <= ix2 < width && 0 <= iy2 < height && #[trigger] tri_covers(
                    *v1,
                    *v2,
                    *v3,
                    ix2,
                    iy2,
                ) ==> xlo <= ix2 <= xhi && ylo <= iy2 <= yhi,
            forall|k: int| 0 <= k < frags@.len() ==> fragment_ok(#[trigger] frags@[k]),
            forall|k: int|
            #![trigger frags@[k]]
            0 <= k < frags@.len() ==> 0 <= frags@[k].position.x as int / 65536 < width && 0
                <= frags@[k].position.y as int / 65536 < height && tri_covers(
                *v1,
                *v2,
                *v3,
                frags@[k].position.x as int / 65536,
                frags@[k].position.y as int / 65536,
            ) && frags@[k] == tri_fragment(
                *v1,
                *v2,
                *v3,
                frags@[k].position.x as int / 65536,
                frags@[k].position.y as int / 65536,
            ),
            frags@ == tri_rows_frags(
                *v1,
                *v2,
                *v3,
                xlo as int,
                xhi as int,
                ylo as int,
                iy as int - 1,
            ),
            forall|ix2: int, iy2: int|
                0 <= ix2 < width && 0 <= iy2 < height && #[trigger] tri_covers(
                    *v1,
                    *v2,
                    *v3,
                    ix2,
                    iy2,
                ) && iy2 < iy ==> kmap.contains_key((ix2, iy2)) && 0 <= kmap[(ix2, iy2)]
                    < frags@.len() && frags@[kmap[(ix2, iy2)]] == tri_fragment(
                    *v1,
                    *v2,
                    *v3,
                    ix2,
                    iy2,
                ),
        decreases yhi - iy + 1,
    {
        let mut ix: i64 = xlo;
        proof {
            assert(tri_row_frags(*v1, *v2, *v3, iy as int, xlo as int, xlo as int - 1)
                =~= Seq::<Fragment>::empty());
            assert(frags@ =~= tri_rows_frags(
                *v1,
                *v2,
                *v3,
                xlo as int,
                xhi as int,
                ylo as int,
                iy as int - 1,
            ) + tri_row_frags(*v1, *v2, *v3, iy as int, xlo as int, xlo as int - 1));
        }
        while ix <= xhi
            invariant
                vertex_ok(*v1),
                vertex_ok(*v2),
                vertex_ok(*v3),
                1 <= width <= 16384,
                1 <= height <= 16384,
                ax == v1.transformed_position.x,
                ay == v1.transformed_position.y,
                bx == v2.transformed_position.x,
                by == v2.transformed_position.y,
                cx == v3.transformed_position.x,
                cy == v3.transformed_position.y,
                area == tri_area(*v1, *v2, *v3),
                aabs == iabs(tri_area(*v1, *v2, *v3)),
                65536 <= aabs <= 9223372036854775808,
                0 <= xlo <= 16384,
                xhi <= width - 1,
                0 <= ylo <= 16384,
                yhi <= height - 1,
                ylo <= iy <= yhi,
                xlo <= ix,
                xlo > xhi ==> ix == xlo,
                xlo <= xhi ==> ix <= xhi + 1,
                forall|ix2: int, iy2: int|
                    0 <= ix2 < width && 0 <= iy2 < height && #[trigger] tri_covers(
                        *v1,
                        *v2,
                        *v3,
                        ix2,
                        iy2,
                    ) ==> xlo <= ix2 <= xhi && ylo <= iy2 <= yhi,
                forall|k: int| 0 <= k < frags@.len() ==> fragment_ok(#[trigger] frags@[k]),
                forall|k: int|
            #![trigger frags@[k]]
            0 <= k < frags@.len() ==> 0 <= frags@[k].position.x as int / 65536 < width && 0
                <= frags@[k].position.y as int / 65536 < height && tri_covers(
                *v1,
                *v2,
                *v3,
                frags@[k].position.x as int / 65536,
                frags@[k].position.y as int / 65536,
            ) && frags@[k] == tri_fragment(
                *v1,
                *v2,
                *v3,
                frags@[k].position.x as int / 65536,
                frags@[k].position.y as int / 65536,
            ),
                frags@ == tri_rows_frags(
                    *v1,
                    *v2,
                    *v3,
                    xlo as int,
                    xhi as int,
                    ylo as int,
                    iy as int - 1,
                ) + tri_row_frags(*v1, *v2, *v3, iy as int, xlo as int, ix as int - 1),
                forall|ix2: int, iy2: int|
                    0 <= ix2 < width && 0 <= iy2 < height && #[trigger] tri_covers(
                        *v1,
                        *v2,
                        *v3,
                        ix2,
                        iy2,
                    ) && (iy2 < iy || (iy2 == iy && ix2 < ix)) ==> kmap.contains_key((ix2, iy2))
                        && 0 <= kmap[(ix2, iy2)] < frags@.len() && frags@[kmap[(ix2, iy2)]]
                        == tri_fragment(*v1, *v2, *v3, ix2, iy2),
            decreases xhi - ix + 1,
        {
            let px: i64 = ix * 65536;
            let py: i64 = iy * 65536;
            let e0 = edge_exec(ax, ay, bx, by, px, py);
            let e1 = edge_exec(bx, by, cx, cy, px, py);
            let e2 = edge_exec(cx, cy, ax, ay, px, py);
            let covered: bool = if area > 0 {
                e0 >= 0 && e1 >= 0 && e2 >= 0
            } else {
                e0 <= 0 && e1 <= 0 && e2 <= 0
            };
            proof {
                assert(covered == tri_covers(*v1, *v2, *v3, ix as int, iy as int)) by {
                    reveal(tri_covers);
                };
            }
            if covered {
                let f = covered_fragment(v1, v2, v3, ix, iy);
                let ghost frags_pre = frags@;
                let ghost kmap_pre = kmap;
                frags.push(f);
                proof {
                    kmap = kmap.insert((ix as int, iy as int), frags_pre.len() as int);
                    lemma_units_round_trip(ix as int);
                    lemma_units_round_trip(iy as int);
                    assert(forall|k: int|
                        0 <= k < frags_pre.len() ==> #[trigger] frags@[k] == frags_pre[k]);
                    assert(forall|p: (int, int)|
                        p != (ix as int, iy as int) && kmap_pre.contains_key(p)
                            ==> #[trigger] kmap.contains_key(p) && kmap[p] == kmap_pre[p]);
                    assert(kmap.contains_key((ix as int, iy as int)) && kmap[(
                    ix as int,
                    iy as int,
                )] == frags@.len() - 1);
                    assert(frags@[frags@.len() - 1] == tri_fragment(
                        *v1,
                        *v2,
                        *v3,
                        ix as int,
                        iy as int,
                    ));
                    assert(frags@[frags@.len() - 1].position.x as int / 65536 == ix as int);
                    assert(frags@[frags@.len() - 1].position.y as int / 65536 == iy as int);
                    assert(frags@ =~= frags_pre + seq![f]);
                    assert(tri_row_frags(*v1, *v2, *v3, iy as int, xlo as int, ix as int)
                        =~= tri_row_frags(*v1, *v2, *v3, iy as int, xlo as int, ix as int - 1)
                        + seq![tri_fragment(*v1, *v2, *v3, ix as int, iy as int)]);
                    assert(frags@ =~= tri_rows_frags(
                        *v1,
                        *v2,
                        *v3,
                        xlo as int,
                        xhi as int,
                        ylo as int,
                        iy as int - 1,
                    ) + tri_row_frags(*v1, *v2, *v3, iy as int, xlo as int, ix as int));
                }
            } else {
                proof {
                    assert(tri_row_frags(*v1, *v2, *v3, iy as int, xlo as int, ix as int)
                        =~= tri_row_frags(*v1, *v2, *v3, iy as int, xlo as int, ix as int - 1));
                }
            }
            ix = ix + 1;
        }
        proof {
            if xlo > xhi {
                assert(tri_row_frags(*v1, *v2, *v3, iy as int, xlo as int, ix as int - 1)
                    =~= tri_row_frags(*v1, *v2, *v3, iy as int, xlo as int, xhi as int));
            }
            assert(tri_rows_frags(*v1, *v2, *v3, xlo as int, xhi as int, ylo as int, iy as int)
                =~= tri_rows_frags(
                *v1,
                *v2,
                *v3,
                xlo as int,
                xhi as int,
                ylo as int,
                iy as int - 1,
            ) + tri_row_frags(*v1, *v2, *v3, iy as int, xlo as int, xhi as int));
            assert(frags@ =~= tri_rows_frags(
                *v1,
                *v2,
                *v3,
                xlo as int,
                xhi as int,
                ylo as int,
                iy as int,
            ));
        }
        iy = iy + 1;
    }
    proof {
        if ylo > yhi {
            assert(tri_rows_frags(*v1, *v2, *v3, xlo as int, xhi as int, ylo as int, iy as int - 1)
                =~= tri_rows_frags(*v1, *v2, *v3, xlo as int, xhi as int, ylo as int, yhi as int));
        }
        assert(frags@ =~= tri_rows_frags(
            *v1,
            *v2,
            *v3,
            xlo as int,
            xhi as int,
            ylo as int,
            yhi as int,
        ));
        assert(frags@ =~= spec_triangle_frags(*v1, *v2, *v3, width as int, height as int));
        if aabs >= 65536 {
            assert forall|ix2: int, iy2: int|
                0 <= ix2 < width && 0 <= iy2 < height && #[trigger] tri_covers(
                    *v1,
                    *v2,
                    *v3,
                    ix2,
                    iy2,
                ) implies exists|k: int|
                0 <= k < frags@.len() && frags@[k] == tri_fragment(*v1, *v2, *v3, ix2, iy2) by {
                assert(iy2 < iy);
                let kw = kmap[(ix2, iy2)];
                assert(0 <= kw < frags@.len() && frags@[kw] == tri_fragment(
                    *v1,
                    *v2,
                    *v3,
                    ix2,
                    iy2,
                ));
            }
        }
    }
    frags
}

} // verus!

