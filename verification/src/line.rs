//! Line rasterization: one fragment per visited point of the
//! error-accumulator walk between two transformed vertices, both end
//! points included, with depth and texture coordinates interpolated
//! along the dominant axis.

use vstd::prelude::*;
use crate::color::Color;
use crate::fixed::{
    fx_add, fx_div, fx_mul, fx_sub, fx_saturate, iabs, spec_fx_div, spec_fx_mul, tdiv, tdiv_i64,
};
use crate::fragment::{fragment_ok, Fragment};
use crate::geometry::{Vec2, Vec3};
use crate::vertex::{vertex_ok, Vertex};

verus! {

/// One step of this walk: the error itself (not doubled) is compared
/// against `-dx` and `dy`, and each advance folds the opposite span
/// into the error.
pub open spec fn seg_step(
    x0: int,
    y0: int,
    err: int,
    sx: int,
    sy: int,
    dx: int,
    dy: int,
) -> (int, int, int) {
    let e2 = err;
    let xn = if e2 > -dx {
        x0 + sx
    } else {
        x0
    };
    let err1 = if e2 > -dx {
        err - dy
    } else {
        err
    };
    let yn = if e2 < dy {
        y0 + sy
    } else {
        y0
    };
    let err2 = if e2 < dy {
        err1 + dx
    } else {
        err1
    };
    (xn, yn, err2)
}

/// The fragment emitted at pixel `(px, py)` of the segment: white, a
/// screen-facing normal, full intensity, and depth and texture
/// coordinates interpolated by the walk's progress along the
/// dominant axis.
pub open spec fn seg_fragment(a: Vertex, b: Vertex, px: int, py: int) -> Fragment {
    let x0 = tdiv(a.transformed_position.x as int, 65536);
    let y0 = tdiv(a.transformed_position.y as int, 65536);
    let x1 = tdiv(b.transformed_position.x as int, 65536);
    let y1 = tdiv(b.transformed_position.y as int, 65536);
    let t = if iabs(x1 - x0) > iabs(y1 - y0) {
        spec_fx_div(px - x0, x1 - x0)
    } else {
        spec_fx_div(py - y0, y1 - y0)
    };
    let z = fx_saturate(
        a.transformed_position.z + spec_fx_mul(
            fx_saturate(b.transformed_position.z - a.transformed_position.z),
            t,
        ),
    );
    let u = fx_saturate(
        a.tex_coords.x + spec_fx_mul(fx_saturate(b.tex_coords.x - a.tex_coords.x), t),
    );
    let v = fx_saturate(
        a.tex_coords.y + spec_fx_mul(fx_saturate(b.tex_coords.y - a.tex_coords.y), t),
    );
    Fragment {
        position: Vec2 { x: (px * 65536) as i64, y: (py * 65536) as i64 },
        color: Color { r: 255, g: 255, b: 255 },
        depth: z as i64,
        normal: Vec3 { x: 0, y: 0, z: 65536 },
        intensity: 65536,
        vertex_position: Vec3 { x: (px * 65536) as i64, y: (py * 65536) as i64, z: z as i64 },
        tex_coords: Vec2 { x: u as i64, y: v as i64 },
    }
}

/// The fragments of the walk from `(x0, y0)`: the current point is
/// emitted, and unless the walk has arrived (or the fuel is spent —
/// `dx + dy` always suffices), it steps on.
pub open spec fn spec_seg_frags(
    a: Vertex,
    b: Vertex,
    x0: int,
    y0: int,
    x1: int,
    y1: int,
    err: int,
    sx: int,
    sy: int,
    dx: int,
    dy: int,
    fuel: nat,
) -> Seq<Fragment>
    decreases fuel,
{
    seq![seg_fragment(a, b, x0, y0)] + (if (x0 == x1 && y0 == y1) || fuel == 0 {
        Seq::empty()
    } else {
        let s = seg_step(x0, y0, err, sx, sy, dx, dy);
        spec_seg_frags(a, b, s.0, s.1, x1, y1, s.2, sx, sy, dx, dy, (fuel - 1) as nat)
    })
}

/// The meaning of [`line`]: the whole walk between the two vertices'
/// screen pixels, the error seeded to half the dominant span.
pub open spec fn spec_line(a: Vertex, b: Vertex) -> Seq<Fragment> {
    let x0 = tdiv(a.transformed_position.x as int, 65536);
    let y0 = tdiv(a.transformed_position.y as int, 65536);
    let x1 = tdiv(b.transformed_position.x as int, 65536);
    let y1 = tdiv(b.transformed_position.y as int, 65536);
    let dx = iabs(x1 - x0);
    let dy = iabs(y1 - y0);
    let sx: int = if x0 < x1 {
        1
    } else {
        -1
    };
    let sy: int = if y0 < y1 {
        1
    } else {
        -1
    };
    let err = if dx > dy {
        dx / 2
    } else {
        -(dy / 2)
    };
    spec_seg_frags(a, b, x0, y0, x1, y1, err, sx, sy, dx, dy, (dx + dy) as nat)
}

/// Build the fragment for one visited pixel.
fn seg_fragment_exec(a: &Vertex, b: &Vertex, px: i64, py: i64) -> (f: Fragment)
    requires
        vertex_ok(*a),
        vertex_ok(*b),
        -16384 <= px <= 16384,
        -16384 <= py <= 16384,
    ensures
        f == seg_fragment(*a, *b, px as int, py as int),
        fragment_ok(f),
{
    let x0 = tdiv_i64(a.transformed_position.x, 65536);
    let y0 = tdiv_i64(a.transformed_position.y, 65536);
    let x1 = tdiv_i64(b.transformed_position.x, 65536);
    let y1 = tdiv_i64(b.transformed_position.y, 65536);
    let adx = if x1 >= x0 {
        x1 - x0
    } else {
        x0 - x1
    };
    let ady = if y1 >= y0 {
        y1 - y0
    } else {
        y0 - y1
    };
    let t = if adx > ady {
        fx_div(px - x0, x1 - x0)
    } else {
        fx_div(py - y0, y1 - y0)
    };
    let z = fx_add(
        a.transformed_position.z,
        fx_mul(fx_sub(b.transformed_position.z, a.transformed_position.z), t),
    );
    let u = fx_add(a.tex_coords.x, fx_mul(fx_sub(b.tex_coords.x, a.tex_coords.x), t));
    let v = fx_add(a.tex_coords.y, fx_mul(fx_sub(b.tex_coords.y, a.tex_coords.y), t));
    Fragment {
        position: Vec2 { x: px * 65536, y: py * 65536 },
        color: Color { r: 255, g: 255, b: 255 },
        depth: z,
        normal: Vec3 { x: 0, y: 0, z: 65536 },
        intensity: 65536,
        vertex_position: Vec3 { x: px * 65536, y: py * 65536, z: z },
        tex_coords: Vec2 { x: u, y: v },
    }
}

/// Rasterize the segment between two transformed vertices: one
/// fragment per visited pixel of the error-accumulator walk, both
/// end points included.
#[verifier::rlimit(100)]
#[verifier::spinoff_prover]
pub fn line(a: &Vertex, b: &Vertex) -> (frags: Vec<Fragment>)
    requires
        vertex_ok(*a),
        vertex_ok(*b),
    ensures
        frags@ == spec_line(*a, *b),
        frags@.len() >= 1,
        forall|i: int| 0 <= i < frags@.len() ==> fragment_ok(#[trigger] frags@[i]),
{
    let x0: i64 = tdiv_i64(a.transformed_position.x, 65536);
    let y0: i64 = tdiv_i64(a.transformed_position.y, 65536);
    let x1: i64 = tdiv_i64(b.transformed_position.x, 65536);
    let y1: i64 = tdiv_i64(b.transformed_position.y, 65536);
    let dx: i64 = if x0 < x1 {
        x1 - x0
    } else {
        x0 - x1
    };
    let dy: i64 = if y0 < y1 {
        y1 - y0
    } else {
        y0 - y1
    };
    let sx: i64 = if x0 < x1 {
        1
    } else {
        -1
    };
    let sy: i64 = if y0 < y1 {
        1
    } else {
        -1
    };
    let mut err: i64 = if dx > dy {
        ((dx as u64) / 2) as i64
    } else {
        -(((dy as u64) / 2) as i64)
    };
    let mut cx: i64 = x0;
    let mut cy: i64 = y0;
    let mut frags: Vec<Fragment> = Vec::new();
    let ghost mut ga: int = 0;
    let ghost mut gb: int = 0;
    let ghost mut fuel: int = dx + dy;
    let mut more: bool = true;
    proof {
        assert(Seq::<Fragment>::empty() + spec_seg_frags(
            *a,
            *b,
            cx as int,
            cy as int,
            x1 as int,
            y1 as int,
            err as int,
            sx as int,
            sy as int,
            dx as int,
            dy as int,
            fuel as nat,
        ) =~= spec_line(*a, *b));
    }
    while more
        invariant
            vertex_ok(*a),
            vertex_ok(*b),
            x0 == tdiv(a.transformed_position.x as int, 65536),
            y0 == tdiv(a.transformed_position.y as int, 65536),
            x1 == tdiv(b.transformed_position.x as int, 65536),
            y1 == tdiv(b.transformed_position.y as int, 65536),
            -16384 <= x0 <= 16384,
            -16384 <= y0 <= 16384,
            -16384 <= x1 <= 16384,
            -16384 <= y1 <= 16384,
            dx == iabs(x1 as int - x0 as int),
            dy == iabs(y1 as int - y0 as int),
            sx == (if x0 < x1 {
                1int
            } else {
                -1int
            }),
            sy == (if y0 < y1 {
                1int
            } else {
                -1int
            }),
            x1 as int - x0 as int == sx * dx,
            y1 as int - y0 as int == sy * dy,
            cx == x0 as int + sx * ga,
            cy == y0 as int + sy * gb,
            0 <= ga <= dx,
            0 <= gb <= dy,
            err == (if dx > dy {
                dx as int / 2
            } else {
                -(dy as int / 2)
            }) + gb * dx - ga * dy,
            dx > dy ==> 0 <= err <= dx - 1,
            dx <= dy ==> -dy <= err <= 0,
            (dx - ga) + (dy - gb) <= fuel <= dx + dy,
            more ==> frags@ + spec_seg_frags(
                *a,
                *b,
                cx as int,
                cy as int,
                x1 as int,
                y1 as int,
                err as int,
                sx as int,
                sy as int,
                dx as int,
                dy as int,
                fuel as nat,
            ) == spec_line(*a, *b),
            !more ==> frags@ == spec_line(*a, *b),
            !more ==> frags@.len() >= 1,
            forall|i: int| 0 <= i < frags@.len() ==> fragment_ok(#[trigger] frags@[i]),
        decreases fuel + (if more {
            1int
        } else {
            0int
        }),
    {
        let ghost frags_pre = frags@;
        let ghost cx0 = cx as int;
        let ghost cy0 = cy as int;
        let ghost err0 = err as int;
        let ghost ga0 = ga;
        let ghost gb0 = gb;
        let ghost fuel0 = fuel;
        let ghost hx = dx as int / 2;
        let ghost hy = dy as int / 2;
        proof {
            vstd::arithmetic::div_mod::lemma_fundamental_div_mod(dx as int, 2);
            vstd::arithmetic::div_mod::lemma_fundamental_div_mod(dy as int, 2);
            assert(0 <= hx && 2 * hx <= dx);
            assert(0 <= hy && 2 * hy <= dy);
            if sx == 1 {
                assert(cx == x0 as int + ga0) by (nonlinear_arith)
                    requires
                        cx == x0 as int + sx * ga0,
                        sx == 1,
                ;
            } else {
                assert(cx == x0 as int - ga0) by (nonlinear_arith)
                    requires
                        cx == x0 as int + sx * ga0,
                        sx == -1,
                ;
            }
            if sy == 1 {
                assert(cy == y0 as int + gb0) by (nonlinear_arith)
                    requires
                        cy == y0 as int + sy * gb0,
                        sy == 1,
                ;
            } else {
                assert(cy == y0 as int - gb0) by (nonlinear_arith)
                    requires
                        cy == y0 as int + sy * gb0,
                        sy == -1,
                ;
            }
            assert(x1 as int - x0 as int == dx || x1 as int - x0 as int == -(dx as int))
                by (nonlinear_arith)
                requires
                    x1 as int - x0 as int == sx * dx,
                    sx == 1 || sx == -1,
            ;
            assert(y1 as int - y0 as int == dy || y1 as int - y0 as int == -(dy as int))
                by (nonlinear_arith)
                requires
                    y1 as int - y0 as int == sy * dy,
                    sy == 1 || sy == -1,
            ;
            assert(-16384 <= cx <= 16384);
            assert(-16384 <= cy <= 16384);
            // arrival on an axis is exactly a spent span
            assert((cx == x1) == (ga0 == dx));
            assert((cy == y1) == (gb0 == dy));
        }
        let f = seg_fragment_exec(a, b, cx, cy);
        frags.push(f);
        proof {
            assert(frags@ =~= frags_pre + seq![seg_fragment(*a, *b, cx0, cy0)]);
        }
        if cx == x1 && cy == y1 {
            more = false;
            proof {
                assert(spec_seg_frags(
                    *a,
                    *b,
                    cx0,
                    cy0,
                    x1 as int,
                    y1 as int,
                    err0,
                    sx as int,
                    sy as int,
                    dx as int,
                    dy as int,
                    fuel0 as nat,
                ) =~= seq![seg_fragment(*a, *b, cx0, cy0)]);
                assert(frags@ =~= spec_line(*a, *b));
            }
        } else {
            let e2: i64 = err;
            let step_x: bool = e2 > -dx;
            let step_y: bool = e2 < dy;
            if step_x {
                proof {
                    // x cannot already be done
                    if ga0 == dx {
                        assert(gb0 <= dy - 1);
                        if dx > dy {
                            assert(hx + gb0 * (dx as int) - (dx as int) * (dy as int) < 0)
                                by (nonlinear_arith)
                                requires
                                    0 <= gb0 <= dy - 1,
                                    0 <= (dy as int) < dx as int,
                                    0 <= hx,
                                    2 * hx <= dx as int,
                            ;
                            assert(false);
                        } else {
                            assert(-hy + gb0 * (dx as int) - (dx as int) * (dy as int) <= -(
                            dx as int)) by (nonlinear_arith)
                                requires
                                    0 <= gb0 <= dy - 1,
                                    0 <= dx as int <= dy as int,
                                    0 <= hy,
                            ;
                            assert(false);
                        }
                    }
                }
                err = err - dy;
                cx = cx + sx;
                proof {
                    ga = ga0 + 1;
                    assert(ga * (dy as int) == ga0 * (dy as int) + dy) by (nonlinear_arith)
                        requires
                            ga == ga0 + 1,
                    ;
                    assert(sx * ga == sx * ga0 + sx) by (nonlinear_arith)
                        requires
                            ga == ga0 + 1,
                    ;
                }
            }
            if step_y {
                proof {
                    if gb == gb0 && gb0 == dy {
                        assert(ga0 <= dx - 1);
                        if dx > dy {
                            assert(hx + (dy as int) * (dx as int) - ga0 * (dy as int)
                                >= dy as int) by (nonlinear_arith)
                                requires
                                    0 <= ga0 <= dx - 1,
                                    0 <= dy as int,
                                    0 <= hx,
                            ;
                            assert(false);
                        } else {
                            assert(-hy + (dy as int) * (dx as int) - ga0 * (dy as int) >= 1)
                                by (nonlinear_arith)
                                requires
                                    0 <= ga0 <= dx - 1,
                                    1 <= dx as int,
                                    dx as int <= dy as int,
                                    0 <= hy,
                                    2 * hy <= dy as int,
                            ;
                            assert(false);
                        }
                    }
                }
                err = err + dx;
                cy = cy + sy;
                proof {
                    gb = gb0 + 1;
                    assert(gb * (dx as int) == gb0 * (dx as int) + dx) by (nonlinear_arith)
                        requires
                            gb == gb0 + 1,
                    ;
                    assert(sy * gb == sy * gb0 + sy) by (nonlinear_arith)
                        requires
                            gb == gb0 + 1,
                    ;
                }
            }
            proof {
                if !step_x && !step_y {
                    assert(dy as int <= err0 <= -(dx as int));
                    assert(false);
                }
                fuel = fuel - 1;
                assert((cx as int, cy as int, err as int) == seg_step(
                    cx0,
                    cy0,
                    err0,
                    sx as int,
                    sy as int,
                    dx as int,
                    dy as int,
                ));
                assert(spec_seg_frags(
                    *a,
                    *b,
                    cx0,
                    cy0,
                    x1 as int,
                    y1 as int,
                    err0,
                    sx as int,
                    sy as int,
                    dx as int,
                    dy as int,
                    fuel0 as nat,
                ) =~= seq![seg_fragment(*a, *b, cx0, cy0)] + spec_seg_frags(
                    *a,
                    *b,
                    cx as int,
                    cy as int,
                    x1 as int,
                    y1 as int,
                    err as int,
                    sx as int,
                    sy as int,
                    dx as int,
                    dy as int,
                    fuel as nat,
                ));
                assert(frags@ + spec_seg_frags(
                    *a,
                    *b,
                    cx as int,
                    cy as int,
                    x1 as int,
                    y1 as int,
                    err as int,
                    sx as int,
                    sy as int,
                    dx as int,
                    dy as int,
                    fuel as nat,
                ) =~= spec_line(*a, *b));
            }
        }
    }
    frags
}

} // verus!
