//! Shader dispatch and the per-object render pass.
//!
//! A drawable object selects one of a closed set of surface kinds;
//! every fragment of the object is routed to that kind's shading
//! function, which yields a base color and an optional emissive
//! color.  The render pass runs the vertex stage over the object's
//! vertices, assembles triples into triangles, rasterizes them, and
//! shades and depth-tests every fragment; both the color write and
//! the emissive write stand under the same depth test.  The bloom
//! pass is not part of the per-object pass: the caller runs
//! [`Framebuffer::apply_emission`] once per frame, after all objects
//! are drawn, so emissive contributions from all objects blur and
//! blend together.

use vstd::prelude::*;
use crate::color::Color;
use crate::color::spec_color_scale;
use crate::fixed::{tdiv, tdiv_i64};
use crate::fragment::{fragment_ok, Fragment};
use crate::framebuffer::{spec_point, spec_set_emission, FbView, Framebuffer};
use crate::planets_shader::{
    earth_planet_shader, frozen_planet_shader, gargantua_shader, gaseous_planet_shader,
    oceanic_planet_shader, rocky_planet_shader, spec_earth, spec_frozen, spec_gaseous, spec_rocky,
    spec_ufo, spec_wormhole, ufo_shader, wormhole_shader,
};
use crate::shader::{spec_vertex_shader, vertex_shader};
use crate::texture::{spec_sample, Texture};
use crate::triangle::{spec_triangle_frags, triangle};
use crate::uniforms::{uniforms_ok, Uniforms};
use crate::vertex::{vertex_ok, Vertex};

verus! {

/// The closed set of surface kinds an object can select.
#[derive(Clone, Copy, Debug, PartialEq, Eq, Structural)]
pub enum PlanetShader {
    Rocky,
    Gaseous,
    Frozen,
    Earth,
    Oceanic,
    Ufo,
    Gargantua,
    Wormhole,
}

/// The meaning of [`shade_fragment`]: which shading function each
/// surface kind routes to, and which of them emit.
#[verifier::opaque]
pub open spec fn spec_shade(kind: PlanetShader, f: Fragment, u: Uniforms, tex: &Texture) -> (
    Color,
    Option<Color>,
) {
    match kind {
        PlanetShader::Rocky => (spec_rocky(f, u), None),
        PlanetShader::Gaseous => (spec_gaseous(f, u), None),
        PlanetShader::Frozen => (spec_frozen(f, u), None),
        PlanetShader::Earth => (spec_earth(f, u), None),
        PlanetShader::Oceanic => (
            spec_sample(tex, f.tex_coords.x as int, f.tex_coords.y as int),
            None,
        ),
        PlanetShader::Ufo => (spec_ufo(f, u), None),
        PlanetShader::Gargantua => {
            let tex_c = spec_sample(tex, f.tex_coords.x as int, f.tex_coords.y as int);
            (tex_c, Some(spec_color_scale(tex_c, u.emission_intensity as int)))
        },
        PlanetShader::Wormhole => spec_wormhole(f, u),
    }
}

/// Route one fragment to the selected surface kind's shading
/// function.
pub fn shade_fragment(kind: &PlanetShader, fragment: &Fragment, uniforms: &Uniforms, texture:
    &Texture) -> (r: (Color, Option<Color>))
    requires
        fragment_ok(*fragment),
        uniforms_ok(*uniforms),
        texture.wf(),
    ensures
        r == spec_shade(*kind, *fragment, *uniforms, texture),
{
    proof {
        reveal(spec_shade);
    }
    match kind {
        PlanetShader::Rocky => (rocky_planet_shader(fragment, uniforms), None),
        PlanetShader::Gaseous => (gaseous_planet_shader(fragment, uniforms), None),
        PlanetShader::Frozen => (frozen_planet_shader(fragment, uniforms), None),
        PlanetShader::Earth => (earth_planet_shader(fragment, uniforms), None),
        PlanetShader::Oceanic => (oceanic_planet_shader(fragment, uniforms, texture), None),
        PlanetShader::Ufo => (ufo_shader(fragment, uniforms), None),
        PlanetShader::Gargantua => gargantua_shader(fragment, uniforms, texture),
        PlanetShader::Wormhole => wormhole_shader(fragment, uniforms),
    }
}

/// The bloom radius the frame loop passes to
/// [`Framebuffer::apply_emission`].
pub const BLOOM_RADIUS: usize = 2;

/// A color packed as 0xRRGGBB.
pub open spec fn pack_color(c: Color) -> u32 {
    (c.r as int * 65536 + c.g as int * 256 + c.b as int) as u32
}

/// One fragment drawn into a framebuffer state: the shaded color
/// becomes the current color and is written under the depth test at
/// the fragment's pixel; an emissive color, if the kind yields one,
/// is written to the emission plane under the same depth test.
/// Fragments left of or above the buffer change nothing.
pub open spec fn spec_draw_frag(
    v: FbView,
    kind: PlanetShader,
    f: Fragment,
    u: Uniforms,
    tex: &Texture,
) -> FbView {
    let shaded = spec_shade(kind, f, u, tex);
    let x = tdiv(f.position.x as int, 65536);
    let y = tdiv(f.position.y as int, 65536);
    if x >= 0 && y >= 0 {
        let v1 = FbView { current: pack_color(shaded.0), ..v };
        let wins = 0 <= x < v1.width && 0 <= y < v1.height && f.depth < v1.depths[y * v1.width
            + x];
        let v2 = spec_point(v1, x, y, f.depth, pack_color(shaded.0));
        match shaded.1 {
            Some(e) => if wins {
                spec_set_emission(v2, x, y, pack_color(e))
            } else {
                v2
            },
            None => v2,
        }
    } else {
        v
    }
}

/// A fragment batch drawn in order.
pub open spec fn spec_draw_frags(
    v: FbView,
    frags: Seq<Fragment>,
    kind: PlanetShader,
    u: Uniforms,
    tex: &Texture,
) -> FbView
    decreases frags.len(),
{
    if frags.len() == 0 {
        v
    } else {
        spec_draw_frag(spec_draw_frags(v, frags.drop_last(), kind, u, tex), kind, frags.last(), u, tex)
    }
}

/// The vertex stage over a whole vertex array.
pub open spec fn spec_transformed_vertices(verts: Seq<Vertex>, u: Uniforms) -> Seq<Vertex> {
    Seq::new(verts.len(), |i: int| spec_vertex_shader(verts[i], u))
}

/// The first `t` triangles of the transformed array, rasterized and
/// drawn in order.
pub open spec fn spec_draw_upto(
    v: FbView,
    tv: Seq<Vertex>,
    t: int,
    kind: PlanetShader,
    u: Uniforms,
    tex: &Texture,
    width: int,
    height: int,
) -> FbView
    decreases t,
{
    if t <= 0 {
        v
    } else {
        spec_draw_frags(
            spec_draw_upto(v, tv, t - 1, kind, u, tex, width, height),
            spec_triangle_frags(tv[3 * (t - 1)], tv[3 * (t - 1) + 1], tv[3 * (t - 1) + 2], width, height),
            kind,
            u,
            tex,
        )
    }
}

/// The whole render pass over one object: the vertex stage, then
/// every full triple of transformed vertices rasterized and drawn;
/// a trailing group of one or two vertices is discarded.
pub open spec fn spec_draw(
    v: FbView,
    u: Uniforms,
    verts: Seq<Vertex>,
    kind: PlanetShader,
    tex: &Texture,
) -> FbView {
    spec_draw_upto(
        v,
        spec_transformed_vertices(verts, u),
        verts.len() as int / 3,
        kind,
        u,
        tex,
        v.width,
        v.height,
    )
}

/// Shade and depth-test one batch of fragments; an emissive output is
/// written under the same depth test as the color.  The result is
/// exactly the in-order fold of [`spec_draw_frag`], and depths only
/// ever move nearer.
fn draw_fragments(
    framebuffer: &mut Framebuffer,
    frags: &Vec<Fragment>,
    planet_shader: &PlanetShader,
    uniforms: &Uniforms,
    texture: &Texture,
)
    requires
        old(framebuffer).wf(),
        uniforms_ok(*uniforms),
        texture.wf(),
        forall|m: int| 0 <= m < frags@.len() ==> fragment_ok(#[trigger] frags@[m]),
    ensures
        final(framebuffer)@ == spec_draw_frags(
            old(framebuffer)@,
            frags@,
            *planet_shader,
            *uniforms,
            texture,
        ),
        final(framebuffer).wf(),
        final(framebuffer)@.width == old(framebuffer)@.width,
        final(framebuffer)@.height == old(framebuffer)@.height,
        final(framebuffer)@.background == old(framebuffer)@.background,
        final(framebuffer)@.depths.len() == old(framebuffer)@.depths.len(),
        forall|p: int|
            0 <= p < old(framebuffer)@.depths.len() ==> final(framebuffer)@.depths[p]
                <= #[trigger] old(framebuffer)@.depths[p],
{
    let ghost v0 = framebuffer@;
    let ghost w0 = framebuffer@.width;
    let ghost h0 = framebuffer@.height;
    let ghost bg0 = framebuffer@.background;
    let ghost d0 = framebuffer@.depths;
    proof {
        assert(frags@.take(0) =~= Seq::<Fragment>::empty());
    }
    let mut k: usize = 0;
    while k < frags.len()
        invariant
            framebuffer.wf(),
            framebuffer@.width == w0,
            framebuffer@.height == h0,
            framebuffer@.background == bg0,
            framebuffer@.depths.len() == d0.len(),
            forall|p: int| 0 <= p < d0.len() ==> framebuffer@.depths[p] <= #[trigger] d0[p],
            uniforms_ok(*uniforms),
            texture.wf(),
            forall|m: int| 0 <= m < frags@.len() ==> fragment_ok(#[trigger] frags@[m]),
            k <= frags@.len(),
            framebuffer@ == spec_draw_frags(
                v0,
                frags@.take(k as int),
                *planet_shader,
                *uniforms,
                texture,
            ),
        decreases frags@.len() - k,
    {
        let ghost pre = framebuffer@;
        let ghost dpre = framebuffer@.depths;
        let frag = &frags[k];
        let (shaded, emission) = shade_fragment(planet_shader, frag, uniforms, texture);
        let px = tdiv_i64(frag.position.x, 65536);
        let py = tdiv_i64(frag.position.y, 65536);
        if px >= 0 && py >= 0 {
            framebuffer.set_current_color(shaded.to_hex());
            let wins: bool = if (px as usize) < framebuffer.width() && (py as usize)
                < framebuffer.height() {
                framebuffer.depth_wins(px as usize, py as usize, frag.depth)
            } else {
                false
            };
            framebuffer.point(px as usize, py as usize, frag.depth);
            proof {
                crate::framebuffer::lemma_pixel_index_in_range(
                    framebuffer@,
                    px as int,
                    py as int,
                );
                assert forall|p: int| 0 <= p < d0.len() implies framebuffer@.depths[p]
                    <= #[trigger] d0[p] by {
                    assert(dpre[p] <= d0[p]);
                }
            }
            match emission {
                Some(e) => {
                    if wins {
                        framebuffer.set_emission_color(px as usize, py as usize, e.to_hex());
                    }
                },
                None => {},
            }
        }
        proof {
            assert(framebuffer@ == spec_draw_frag(
                pre,
                *planet_shader,
                frags@[k as int],
                *uniforms,
                texture,
            ));
            assert(frags@.take(k as int + 1).drop_last() =~= frags@.take(k as int));
            assert(frags@.take(k as int + 1).last() == frags@[k as int]);
        }
        k = k + 1;
    }
    proof {
        assert(frags@.take(frags@.len() as int) =~= frags@);
    }
}

/// Render one object: transform its vertices, assemble consecutive
/// triples into triangles, rasterize each, and shade and depth-test
/// every fragment, routing emissive output to the emission plane
/// under the same depth test.
///
/// The result is exactly [`spec_draw`]: the in-order draw of the
/// first `len / 3` triangles of the transformed array, so a trailing
/// group of one or two vertices is discarded, and fewer than three
/// vertices change nothing.  The caller runs the bloom pass once per
/// frame, after all objects.
pub fn render(
    framebuffer: &mut Framebuffer,
    uniforms: &Uniforms,
    vertex_array: &Vec<Vertex>,
    planet_shader: &PlanetShader,
    texture: &Texture,
)
    requires
        old(framebuffer).wf(),
        uniforms_ok(*uniforms),
        forall|i: int| 0 <= i < vertex_array@.len() ==> vertex_ok(#[trigger] vertex_array@[i]),
        texture.wf(),
    ensures
        final(framebuffer)@ == spec_draw(
            old(framebuffer)@,
            *uniforms,
            vertex_array@,
            *planet_shader,
            texture,
        ),
        final(framebuffer).wf(),
        final(framebuffer)@.width == old(framebuffer)@.width,
        final(framebuffer)@.height == old(framebuffer)@.height,
        final(framebuffer)@.background == old(framebuffer)@.background,
        final(framebuffer)@.depths.len() == old(framebuffer)@.depths.len(),
        forall|p: int|
            0 <= p < old(framebuffer)@.depths.len() ==> final(framebuffer)@.depths[p]
                <= #[trigger] old(framebuffer)@.depths[p],
{
    let ghost v0 = framebuffer@;
    let ghost w0 = framebuffer@.width;
    let ghost h0 = framebuffer@.height;
    let ghost bg0 = framebuffer@.background;
    let ghost d0 = framebuffer@.depths;
    let mut transformed: Vec<Vertex> = Vec::new();
    let mut i: usize = 0;
    while i < vertex_array.len()
        invariant
            uniforms_ok(*uniforms),
            forall|k: int| 0 <= k < vertex_array@.len() ==> vertex_ok(#[trigger] vertex_array@[k]),
            i <= vertex_array@.len(),
            transformed@.len() == i,
            forall|k: int| 0 <= k < i ==> vertex_ok(#[trigger] transformed@[k]),
            forall|k: int|
                0 <= k < i ==> #[trigger] transformed@[k] == spec_vertex_shader(
                    vertex_array@[k],
                    *uniforms,
                ),
        decreases vertex_array@.len() - i,
    {
        let t = vertex_shader(&vertex_array[i], uniforms);
        transformed.push(t);
        i = i + 1;
    }
    let ghost tv = transformed@;
    proof {
        assert(tv =~= spec_transformed_vertices(vertex_array@, *uniforms));
    }
    let ghost mut t: int = 0;
    let mut j: usize = 0;
    while transformed.len() >= 3 && j < transformed.len() - 2
        invariant
            j <= transformed@.len(),
            j == 3 * t,
            0 <= t,
            transformed@ == tv,
            framebuffer.wf(),
            framebuffer@.width == w0,
            framebuffer@.height == h0,
            framebuffer@.background == bg0,
            framebuffer@.depths.len() == d0.len(),
            forall|p: int| 0 <= p < d0.len() ==> framebuffer@.depths[p] <= #[trigger] d0[p],
            framebuffer@ == spec_draw_upto(
                v0,
                tv,
                t,
                *planet_shader,
                *uniforms,
                texture,
                w0,
                h0,
            ),
            uniforms_ok(*uniforms),
            texture.wf(),
            forall|k: int| 0 <= k < transformed@.len() ==> vertex_ok(#[trigger] transformed@[k]),
        decreases transformed@.len() - j,
    {
        let frags = triangle(
            &transformed[j],
            &transformed[j + 1],
            &transformed[j + 2],
            framebuffer.width(),
            framebuffer.height(),
        );
        let ghost dpre = framebuffer@.depths;
        draw_fragments(framebuffer, &frags, planet_shader, uniforms, texture);
        proof {
            assert forall|p: int| 0 <= p < d0.len() implies framebuffer@.depths[p]
                <= #[trigger] d0[p] by {
                assert(dpre[p] <= d0[p]);
            }
            t = t + 1;
            assert(3 * (t - 1) == j as int);
        }
        j = j + 3;
    }
    proof {
        let n = tv.len() as int;
        vstd::arithmetic::div_mod::lemma_fundamental_div_mod(n, 3);
        vstd::arithmetic::div_mod::lemma_div_pos_is_pos(n, 3);
        assert(t == n / 3);
        assert(v0.width == w0 && v0.height == h0);
    }
}

} // verus!
