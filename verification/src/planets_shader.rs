//! The planet surface shaders: procedural rocky, gaseous, frozen,
//! earth-like and oceanic surfaces, a metallic craft, and two
//! emissive singularities.
//!
//! Each shader is a pure function of the fragment, the uniform
//! bundle and (for the textured ones) an injected texture; the
//! emissive ones also return the color routed to the emission plane.

use vstd::prelude::*;
use crate::color::{spec_color_blend_add, spec_color_lerp, spec_color_scale, Color};
use crate::fixed::{
    fx_abs, fx_add, fx_clamp, fx_cos, fx_div, fx_half, fx_mul, fx_pow, fx_saturate, fx_sin,
    fx_sub, iabs, spec_clamp, spec_fx_div, spec_fx_mul, spec_fx_pow, spec_fx_cos, spec_fx_sin,
    tdiv,
};
use crate::fragment::{fragment_ok, Fragment};
use crate::geometry::{spec_dot3, spec_norm2, spec_norm3, spec_normalize3, Vec2, Vec3};
use crate::noise::{spec_noise_2d, Noise};
use crate::shader::{depth_based_fragment_shader, spec_depth_shade};
use crate::texture::{spec_sample, Texture};
use crate::uniforms::{spec_time_fx, time_fx, uniforms_ok, Uniforms};

verus! {

/// A light direction as a normalized spec value.
pub open spec fn spec_lit(x: int, y: int, z: int) -> Vec3 {
    spec_normalize3(Vec3 { x: x as i64, y: y as i64, z: z as i64 })
}

/// Diffuse intensity: the normal against a light direction, floored
/// at zero.
pub open spec fn spec_diffuse(n: Vec3, l: Vec3) -> int {
    let d = spec_dot3(n.x as int, n.y as int, n.z as int, l.x as int, l.y as int, l.z as int);
    if d >= 0 {
        d
    } else {
        0
    }
}

fn diffuse(n: &Vec3, l: &Vec3) -> (r: i64)
    requires
        crate::geometry::vec3_ok(*n),
        crate::geometry::vec3_ok(*l),
    ensures
        r == spec_diffuse(*n, *l),
        0 <= r <= crate::fixed::FX_SAT,
{
    let d = n.dot(l);
    if d >= 0 {
        d
    } else {
        0
    }
}

/// The meaning of [`rocky_planet_shader`].
pub open spec fn spec_rocky(f: Fragment, u: Uniforms) -> Color {
    let sand = Color { r: 210, g: 180, b: 140 };
    let rock = Color { r: 139, g: 115, b: 85 };
    let cracked = Color { r: 148, g: 129, b: 104 };
    let dune = Noise { seed: 101, frequency: 1311 };
    let rockn = Noise { seed: 102, frequency: 6554 };
    let tf = spec_fx_mul(spec_time_fx(u.time), 32768);
    let dust = spec_noise_2d(
        dune,
        fx_saturate(f.position.x as int + tf),
        fx_saturate(f.position.y as int + tf),
    );
    let dune_v = spec_noise_2d(dune, f.position.x as int, f.position.y as int);
    let rock_v = spec_noise_2d(rockn, f.position.x as int, f.position.y as int);
    let surface = if dune_v > 19661 {
        spec_color_lerp(sand, rock, iabs(rock_v))
    } else {
        spec_color_lerp(sand, cracked, iabs(rock_v))
    };
    let dusty = spec_color_lerp(surface, sand, spec_fx_mul(iabs(dust), 13107));
    let lit = spec_lit(65536, -65536, 32768);
    let it = spec_diffuse(f.normal, lit);
    let illuminated = spec_color_scale(dusty, fx_saturate(39322 + spec_fx_mul(26214, it)));
    let dist = spec_norm3(f.vertex_position);
    let fog_i = spec_clamp(spec_fx_div(fx_saturate(dist - 45875), 19661), 0, 65536);
    let fog = Color { r: 255, g: 245, b: 230 };
    spec_depth_shade(f, spec_color_lerp(illuminated, fog, fog_i))
}

/// An arid surface of dunes and rock, with drifting dust, a low sun
/// and horizon fog.
pub fn rocky_planet_shader(fragment: &Fragment, uniforms: &Uniforms) -> (c: Color)
    requires
        fragment_ok(*fragment),
        uniforms_ok(*uniforms),
    ensures
        c == spec_rocky(*fragment, *uniforms),
{
    let sand = Color { r: 210, g: 180, b: 140 };
    let rock = Color { r: 139, g: 115, b: 85 };
    let cracked = Color { r: 148, g: 129, b: 104 };
    let dune = Noise::new(101, 1311);
    let rockn = Noise::new(102, 6554);
    let tf = fx_mul(time_fx(uniforms.time), 32768);
    let dust = dune.get_noise_2d(fx_add(fragment.position.x, tf), fx_add(fragment.position.y, tf));
    let dune_v = dune.get_noise_2d(fragment.position.x, fragment.position.y);
    let rock_v = rockn.get_noise_2d(fragment.position.x, fragment.position.y);
    let surface = if dune_v > 19661 {
        sand.lerp(&rock, fx_abs(rock_v))
    } else {
        sand.lerp(&cracked, fx_abs(rock_v))
    };
    let dusty = surface.lerp(&sand, fx_mul(fx_abs(dust), 13107));
    let lit = Vec3 { x: 65536, y: -65536, z: 32768 }.normalize();
    let it = diffuse(&fragment.normal, &lit);
    let illuminated = dusty.scale(fx_add(39322, fx_mul(26214, it)));
    let dist = fragment.vertex_position.norm();
    let fog_i = fx_clamp(fx_div(fx_sub(dist, 45875), 19661), 0, 65536);
    let fog = Color { r: 255, g: 245, b: 230 };
    let final_color = illuminated.lerp(&fog, fog_i);
    depth_based_fragment_shader(fragment, final_color)
}

/// The meaning of [`gaseous_planet_shader`].
pub open spec fn spec_gaseous(f: Fragment, u: Uniforms) -> Color {
    let dark_brown = Color { r: 139, g: 69, b: 19 };
    let beige = Color { r: 222, g: 184, b: 135 };
    let orange = Color { r: 255, g: 140, b: 0 };
    let white = Color { r: 255, g: 255, b: 255 };
    let red_spot = Color { r: 255, g: 69, b: 0 };
    let spot_highlight = Color { r: 255, g: 160, b: 122 };
    let band = Noise { seed: 201, frequency: 3277 };
    let turb = Noise { seed: 202, frequency: 13107 };
    let tf = spec_fx_mul(spec_time_fx(u.time), 1966);
    let band_v = spec_noise_2d(band, f.position.x as int, fx_saturate(f.position.y as int + tf));
    let turb_v = spec_noise_2d(turb, fx_saturate(f.position.x as int + tf), f.position.y as int);
    let band_color = if band_v < -13107 {
        dark_brown
    } else if band_v < 6554 {
        beige
    } else if band_v < 19661 {
        orange
    } else {
        white
    };
    let turbulent = spec_color_lerp(band_color, beige, spec_fx_mul(iabs(turb_v), 19661));
    let sd = spec_norm2(
        Vec2 {
            x: fx_saturate(f.position.x as int - 19661) as i64,
            y: fx_saturate(f.position.y as int + 32768) as i64,
        },
    );
    let spot_color = if sd < 6554 {
        let si = spec_clamp(spec_fx_div(fx_saturate(6554 - sd), 6554), 0, 65536);
        spec_color_lerp(red_spot, spot_highlight, si)
    } else {
        turbulent
    };
    let lit = spec_lit(65536, 65536, -65536);
    let it = spec_diffuse(f.normal, lit);
    spec_depth_shade(f, spec_color_scale(spot_color, fx_saturate(45875 + spec_fx_mul(19661, it))))
}

/// Banded gas-giant turbulence with a great red spot, shaded at the
/// limb.
pub fn gaseous_planet_shader(fragment: &Fragment, uniforms: &Uniforms) -> (c: Color)
    requires
        fragment_ok(*fragment),
        uniforms_ok(*uniforms),
    ensures
        c == spec_gaseous(*fragment, *uniforms),
{
    let dark_brown = Color { r: 139, g: 69, b: 19 };
    let beige = Color { r: 222, g: 184, b: 135 };
    let orange = Color { r: 255, g: 140, b: 0 };
    let white = Color { r: 255, g: 255, b: 255 };
    let red_spot = Color { r: 255, g: 69, b: 0 };
    let spot_highlight = Color { r: 255, g: 160, b: 122 };
    let band = Noise::new(201, 3277);
    let turb = Noise::new(202, 13107);
    let tf = fx_mul(time_fx(uniforms.time), 1966);
    let band_v = band.get_noise_2d(fragment.position.x, fx_add(fragment.position.y, tf));
    let turb_v = turb.get_noise_2d(fx_add(fragment.position.x, tf), fragment.position.y);
    let band_color = if band_v < -13107 {
        dark_brown
    } else if band_v < 6554 {
        beige
    } else if band_v < 19661 {
        orange
    } else {
        white
    };
    let turbulent = band_color.lerp(&beige, fx_mul(fx_abs(turb_v), 19661));
    let spot_pos = Vec2 { x: 19661, y: -32768 };
    let sd = fragment.position.distance(&spot_pos);
    let spot_color = if sd < 6554 {
        let si = fx_clamp(fx_div(fx_sub(6554, sd), 6554), 0, 65536);
        red_spot.lerp(&spot_highlight, si)
    } else {
        turbulent
    };
    let lit = Vec3 { x: 65536, y: 65536, z: -65536 }.normalize();
    let it = diffuse(&fragment.normal, &lit);
    let shaded = spot_color.scale(fx_add(45875, fx_mul(19661, it)));
    depth_based_fragment_shader(fragment, shaded)
}

/// The meaning of [`frozen_planet_shader`].
pub open spec fn spec_frozen(f: Fragment, u: Uniforms) -> Color {
    let ice = Color { r: 19, g: 62, b: 135 };
    let snow = Color { r: 255, g: 255, b: 255 };
    let crack = Color { r: 198, g: 231, b: 255 };
    let cloud = Color { r: 247, g: 247, b: 248 };
    let fieldn = Noise { seed: 301, frequency: 1311 };
    let nv = spec_noise_2d(fieldn, f.position.x as int, f.position.y as int);
    let q = spec_fx_mul(fx_saturate(nv + 65536), 1311);
    let tf = spec_fx_mul(spec_time_fx(u.time), 137626);
    let fog_n = spec_fx_mul(
        spec_noise_2d(u.noise, fx_saturate(f.position.x as int + tf), f.position.y as int),
        32768,
    );
    let fog_op = fx_saturate(fog_n + 65536);
    let surface = if q < 1311 {
        snow
    } else if q < 5898 {
        crack
    } else {
        ice
    };
    let lit = spec_lit(65536, 65536, -65536);
    let it = spec_diffuse(f.normal, lit);
    let reflective = spec_color_scale(surface, fx_saturate(45875 + spec_fx_mul(19661, it)));
    spec_depth_shade(f, spec_color_lerp(reflective, cloud, fog_op))
}

/// Blue ice with scattered snow and cracks under drifting fog.
pub fn frozen_planet_shader(fragment: &Fragment, uniforms: &Uniforms) -> (c: Color)
    requires
        fragment_ok(*fragment),
        uniforms_ok(*uniforms),
    ensures
        c == spec_frozen(*fragment, *uniforms),
{
    let ice = Color { r: 19, g: 62, b: 135 };
    let snow = Color { r: 255, g: 255, b: 255 };
    let crack = Color { r: 198, g: 231, b: 255 };
    let cloud = Color { r: 247, g: 247, b: 248 };
    let fieldn = Noise::new(301, 1311);
    let nv = fieldn.get_noise_2d(fragment.position.x, fragment.position.y);
    let q = fx_mul(fx_add(nv, 65536), 1311);
    let tf = fx_mul(time_fx(uniforms.time), 137626);
    let fog_n = fx_mul(
        uniforms.noise.get_noise_2d(fx_add(fragment.position.x, tf), fragment.position.y),
        32768,
    );
    let fog_op = fx_add(fog_n, 65536);
    let surface = if q < 1311 {
        snow
    } else if q < 5898 {
        crack
    } else {
        ice
    };
    let lit = Vec3 { x: 65536, y: 65536, z: -65536 }.normalize();
    let it = diffuse(&fragment.normal, &lit);
    let reflective = surface.scale(fx_add(45875, fx_mul(19661, it)));
    let blended = reflective.lerp(&cloud, fog_op);
    depth_based_fragment_shader(fragment, blended)
}

/// The meaning of [`oceanic_planet_shader1`].
pub open spec fn spec_oceanic1(f: Fragment, u: Uniforms) -> Color {
    let deep = Color { r: 0, g: 40, b: 90 };
    let shallow = Color { r: 0, g: 140, b: 180 };
    let highlight = Color { r: 255, g: 255, b: 255 };
    let wave = Noise { seed: 501, frequency: 5243 };
    let large = Noise { seed: 502, frequency: 1311 };
    let tf = spec_fx_mul(spec_time_fx(u.time), 13107);
    let wv = spec_noise_2d(wave, fx_saturate(f.position.x as int + tf), f.position.y as int);
    let lv = spec_noise_2d(large, f.position.x as int, fx_saturate(f.position.y as int + tf));
    let mixv = fx_saturate(spec_fx_mul(wv, 26214) + spec_fx_mul(lv, 39322));
    let ocean = spec_color_lerp(deep, shallow, iabs(mixv));
    let lit = spec_lit(65536, 65536, -32768);
    let d = spec_dot3(
        f.normal.x as int,
        f.normal.y as int,
        f.normal.z as int,
        lit.x as int,
        lit.y as int,
        lit.z as int,
    );
    let two_d = fx_saturate(d + d);
    let refl = Vec3 {
        x: fx_saturate(spec_fx_mul(f.normal.x as int, two_d) - lit.x) as i64,
        y: fx_saturate(spec_fx_mul(f.normal.y as int, two_d) - lit.y) as i64,
        z: fx_saturate(spec_fx_mul(f.normal.z as int, two_d) - lit.z) as i64,
    };
    let rd = spec_dot3(
        refl.x as int,
        refl.y as int,
        refl.z as int,
        f.normal.x as int,
        f.normal.y as int,
        f.normal.z as int,
    );
    let spec_i = spec_fx_pow(spec_clamp(rd, 0, 65536), 25);
    let spec_high = spec_color_scale(highlight, spec_i);
    let dn = spec_norm2(f.position);
    let df = spec_clamp(tdiv(fx_saturate(dn + 32768), 2), 0, 65536);
    let adjusted = spec_color_lerp(ocean, highlight, spec_fx_mul(df, 6554));
    spec_depth_shade(f, spec_color_blend_add(adjusted, spec_high))
}

/// Procedural ocean: layered waves, a specular sun glint and a depth
/// tint.
pub fn oceanic_planet_shader1(fragment: &Fragment, uniforms: &Uniforms) -> (c: Color)
    requires
        fragment_ok(*fragment),
        uniforms_ok(*uniforms),
    ensures
        c == spec_oceanic1(*fragment, *uniforms),
{
    let deep = Color { r: 0, g: 40, b: 90 };
    let shallow = Color { r: 0, g: 140, b: 180 };
    let highlight = Color { r: 255, g: 255, b: 255 };
    let wave = Noise::new(501, 5243);
    let large = Noise::new(502, 1311);
    let tf = fx_mul(time_fx(uniforms.time), 13107);
    let wv = wave.get_noise_2d(fx_add(fragment.position.x, tf), fragment.position.y);
    let lv = large.get_noise_2d(fragment.position.x, fx_add(fragment.position.y, tf));
    let mixv = fx_add(fx_mul(wv, 26214), fx_mul(lv, 39322));
    let ocean = deep.lerp(&shallow, fx_abs(mixv));
    let lit = Vec3 { x: 65536, y: 65536, z: -32768 }.normalize();
    let d = fragment.normal.dot(&lit);
    let two_d = fx_add(d, d);
    let refl = Vec3 {
        x: fx_sub(fx_mul(fragment.normal.x, two_d), lit.x),
        y: fx_sub(fx_mul(fragment.normal.y, two_d), lit.y),
        z: fx_sub(fx_mul(fragment.normal.z, two_d), lit.z),
    };
    let rd = refl.dot(&fragment.normal);
    let spec_i = fx_pow(fx_clamp(rd, 0, 65536), 25);
    let spec_high = highlight.scale(spec_i);
    let dn = fragment.position.norm();
    let df = fx_clamp(fx_half(fx_add(dn, 32768)), 0, 65536);
    let adjusted = ocean.lerp(&highlight, fx_mul(df, 6554));
    let final_color = adjusted.blend_add(&spec_high);
    depth_based_fragment_shader(fragment, final_color)
}

/// Ocean surface sampled from the injected water texture by the
/// fragment's texture coordinates.
pub fn oceanic_planet_shader(fragment: &Fragment, _uniforms: &Uniforms, texture: &Texture) -> (c:
    Color)
    requires
        fragment_ok(*fragment),
        texture.wf(),
    ensures
        c == spec_sample(texture, fragment.tex_coords.x as int, fragment.tex_coords.y as int),
{
    texture.sample(fragment.tex_coords.x, fragment.tex_coords.y)
}

/// The meaning of [`ufo_shader`].
pub open spec fn spec_ufo(f: Fragment, u: Uniforms) -> Color {
    let metallic = Color { r: 192, g: 192, b: 192 };
    let highlight = Color { r: 255, g: 255, b: 255 };
    let aura = Color { r: 200, g: 200, b: 255 };
    let metal = Noise { seed: 601, frequency: 328 };
    let rv = spec_clamp(
        spec_fx_mul(spec_noise_2d(metal, f.position.x as int, f.position.y as int), 98304),
        -65536,
        0,
    );
    let msurf = spec_color_lerp(
        metallic,
        highlight,
        spec_fx_mul(spec_fx_mul(iabs(rv), 32768), f.intensity as int),
    );
    let dist = spec_norm3(f.vertex_position);
    let aura_i = spec_fx_mul(spec_clamp(fx_saturate(39322 - dist), 0, 65536), 32768);
    spec_depth_shade(f, spec_color_lerp(msurf, aura, aura_i))
}

/// Brushed metal with a soft blue aura.
pub fn ufo_shader(fragment: &Fragment, uniforms: &Uniforms) -> (c: Color)
    requires
        fragment_ok(*fragment),
        uniforms_ok(*uniforms),
    ensures
        c == spec_ufo(*fragment, *uniforms),
{
    let metallic = Color { r: 192, g: 192, b: 192 };
    let highlight = Color { r: 255, g: 255, b: 255 };
    let aura = Color { r: 200, g: 200, b: 255 };
    let metal = Noise::new(601, 328);
    let rv = fx_clamp(
        fx_mul(metal.get_noise_2d(fragment.position.x, fragment.position.y), 98304),
        -65536,
        0,
    );
    let msurf = metallic.lerp(&highlight, fx_mul(fx_mul(fx_abs(rv), 32768), fragment.intensity));
    let dist = fragment.vertex_position.norm();
    let aura_i = fx_mul(fx_clamp(fx_sub(39322, dist), 0, 65536), 32768);
    let aura_effect = msurf.lerp(&aura, aura_i);
    depth_based_fragment_shader(fragment, aura_effect)
}

/// The meaning of [`gargantua_shader1`].
pub open spec fn spec_gargantua1(f: Fragment, u: Uniforms) -> (Color, Option<Color>) {
    let event = Color { r: 0, g: 0, b: 0 };
    let disk = Color { r: 255, g: 60, b: 248 };
    let dist = spec_norm3(f.vertex_position);
    let in_disk = dist > 22938 && dist < 98304;
    let pulse = spec_fx_mul(
        fx_saturate(spec_fx_mul(spec_fx_sin(spec_fx_mul(spec_time_fx(u.time), 19661)), 32768)
            + 32768),
        98304,
    );
    let final_disk = if in_disk {
        let lit = spec_color_scale(disk, pulse);
        let denom = fx_saturate(65536 + spec_fx_mul(fx_saturate(dist - 39322), 655360));
        let brightness = spec_clamp(spec_fx_div(65536, denom), 65536, 131072);
        spec_color_scale(lit, brightness)
    } else {
        event
    };
    let emissive = spec_color_scale(
        final_disk,
        spec_fx_mul(
            u.emission_intensity as int,
            fx_saturate(65536 + spec_fx_mul(dist, 32768)),
        ),
    );
    (final_disk, Some(emissive))
}

/// A pulsing accretion disk around a dark event horizon, with an
/// emissive contribution that grows away from the core.
pub fn gargantua_shader1(fragment: &Fragment, uniforms: &Uniforms) -> (r: (Color, Option<Color>))
    requires
        fragment_ok(*fragment),
        uniforms_ok(*uniforms),
    ensures
        r == spec_gargantua1(*fragment, *uniforms),
{
    let event = Color { r: 0, g: 0, b: 0 };
    let disk = Color { r: 255, g: 60, b: 248 };
    let dist = fragment.vertex_position.norm();
    let in_disk = dist > 22938 && dist < 98304;
    let pulse = fx_mul(
        fx_add(fx_mul(fx_sin(fx_mul(time_fx(uniforms.time), 19661)), 32768), 32768),
        98304,
    );
    let final_disk = if in_disk {
        let lit = disk.scale(pulse);
        let denom = fx_add(65536, fx_mul(fx_sub(dist, 39322), 655360));
        let brightness = fx_clamp(fx_div(65536, denom), 65536, 131072);
        lit.scale(brightness)
    } else {
        event
    };
    let emissive = final_disk.scale(
        fx_mul(uniforms.emission_intensity, fx_add(65536, fx_mul(dist, 32768))),
    );
    (final_disk, Some(emissive))
}

/// The textured singularity: the injected texture is both the base
/// color and, scaled by the global emission intensity, the emissive
/// output.
pub fn gargantua_shader(fragment: &Fragment, uniforms: &Uniforms, texture: &Texture) -> (r: (
    Color,
    Option<Color>,
))
    requires
        fragment_ok(*fragment),
        uniforms_ok(*uniforms),
        texture.wf(),
    ensures
        ({
            let tex = spec_sample(
                texture,
                fragment.tex_coords.x as int,
                fragment.tex_coords.y as int,
            );
            r == (tex, Some(spec_color_scale(tex, uniforms.emission_intensity as int)))
        }),
{
    let tex = texture.sample(fragment.tex_coords.x, fragment.tex_coords.y);
    let emissive = tex.scale(uniforms.emission_intensity);
    (tex, Some(emissive))
}

/// The meaning of [`wormhole1_shader`].
pub open spec fn spec_wormhole1(f: Fragment, u: Uniforms) -> (Color, Option<Color>) {
    let core = Color { r: 0, g: 0, b: 0 };
    let inner = Color { r: 100, g: 0, b: 200 };
    let outer = Color { r: 255, g: 100, b: 255 };
    let dist = spec_norm3(f.vertex_position);
    let in_ring = dist > 9830 && dist < 32768;
    let ring0 = if in_ring {
        let ratio = spec_fx_div(fx_saturate(dist - 9830), 22938);
        spec_color_scale(spec_color_lerp(inner, outer, ratio), 0)
    } else {
        core
    };
    let y_pos = iabs(f.vertex_position.y as int);
    let in_horizontal = y_pos < 32768 && dist < 32768;
    let ring = if in_horizontal {
        let ratio = spec_fx_div(y_pos, 32768);
        let horizontal = spec_color_lerp(inner, outer, ratio);
        spec_color_scale(spec_color_lerp(ring0, horizontal, 45875), 85197)
    } else {
        ring0
    };
    let emissive = spec_color_scale(ring, spec_fx_mul(u.emission_intensity as int, 98304));
    (ring, Some(emissive))
}

/// A dark throat with a fully darkened outer ring and a bright
/// symmetric band crossing the core, emitting at reinforced
/// intensity.
pub fn wormhole1_shader(fragment: &Fragment, uniforms: &Uniforms) -> (r: (Color, Option<Color>))
    requires
        fragment_ok(*fragment),
        uniforms_ok(*uniforms),
    ensures
        r == spec_wormhole1(*fragment, *uniforms),
{
    let core = Color { r: 0, g: 0, b: 0 };
    let inner = Color { r: 100, g: 0, b: 200 };
    let outer = Color { r: 255, g: 100, b: 255 };
    let dist = fragment.vertex_position.norm();
    let in_ring = dist > 9830 && dist < 32768;
    let ring0 = if in_ring {
        let ratio = fx_div(fx_sub(dist, 9830), 22938);
        inner.lerp(&outer, ratio).scale(0)
    } else {
        core
    };
    let y_pos = fx_abs(fragment.vertex_position.y);
    let in_horizontal = y_pos < 32768 && dist < 32768;
    let ring = if in_horizontal {
        let ratio = fx_div(y_pos, 32768);
        let horizontal = inner.lerp(&outer, ratio);
        ring0.lerp(&horizontal, 45875).scale(85197)
    } else {
        ring0
    };
    let emissive = ring.scale(fx_mul(uniforms.emission_intensity, 98304));
    (ring, Some(emissive))
}

/// The meaning of [`wormhole_shader`].
pub open spec fn spec_wormhole(f: Fragment, u: Uniforms) -> (Color, Option<Color>) {
    let core = Color { r: 0, g: 0, b: 0 };
    let border_emission = Color { r: 255, g: 140, b: 0 };
    let cross_emission = Color { r: 255, g: 100, b: 100 };
    let dist = spec_norm3(f.vertex_position);
    let t = spec_fx_mul(spec_time_fx(u.time), 32768);
    let ca = spec_fx_cos(t);
    let sa = spec_fx_sin(t);
    let rx = fx_saturate(
        spec_fx_mul(f.vertex_position.x as int, ca) - spec_fx_mul(f.vertex_position.y as int, sa),
    );
    let ry = fx_saturate(
        spec_fx_mul(f.vertex_position.x as int, sa) + spec_fx_mul(f.vertex_position.y as int, ca),
    );
    let in_border = dist > 45875 && dist < 58982;
    let in_horizontal = iabs(ry) < 6554 && iabs(rx) < 98304;
    let in_vertical = iabs(rx) < 6554 && iabs(ry) < 98304;
    let in_cross = in_horizontal || in_vertical;
    let ring0 = if in_border {
        let ratio = spec_clamp(spec_fx_div(fx_saturate(dist - 45875), 13107), 0, 65536);
        let bi = spec_clamp(fx_saturate(65536 - spec_fx_pow(ratio, 2)), 0, 65536);
        spec_color_lerp(core, border_emission, bi)
    } else {
        core
    };
    let ring = if in_cross {
        let ci = spec_clamp(fx_saturate(65536 - spec_fx_div(dist, 45875)), 0, 65536);
        spec_color_lerp(ring0, cross_emission, ci)
    } else {
        ring0
    };
    let emissive = spec_color_scale(ring, spec_fx_mul(u.emission_intensity as int, 98304));
    (ring, Some(emissive))
}

/// An orange-rimmed throat with a rotating emissive cross, both
/// routed to the emission plane at reinforced intensity.
pub fn wormhole_shader(fragment: &Fragment, uniforms: &Uniforms) -> (r: (Color, Option<Color>))
    requires
        fragment_ok(*fragment),
        uniforms_ok(*uniforms),
    ensures
        r == spec_wormhole(*fragment, *uniforms),
{
    let core = Color { r: 0, g: 0, b: 0 };
    let border_emission = Color { r: 255, g: 140, b: 0 };
    let cross_emission = Color { r: 255, g: 100, b: 100 };
    let dist = fragment.vertex_position.norm();
    let t = fx_mul(time_fx(uniforms.time), 32768);
    let ca = fx_cos(t);
    let sa = fx_sin(t);
    let rx = fx_sub(
        fx_mul(fragment.vertex_position.x, ca),
        fx_mul(fragment.vertex_position.y, sa),
    );
    let ry = fx_add(
        fx_mul(fragment.vertex_position.x, sa),
        fx_mul(fragment.vertex_position.y, ca),
    );
    let in_border = dist > 45875 && dist < 58982;
    let in_horizontal = fx_abs(ry) < 6554 && fx_abs(rx) < 98304;
    let in_vertical = fx_abs(rx) < 6554 && fx_abs(ry) < 98304;
    let in_cross = in_horizontal || in_vertical;
    let ring0 = if in_border {
        let ratio = fx_clamp(fx_div(fx_sub(dist, 45875), 13107), 0, 65536);
        let bi = fx_clamp(fx_sub(65536, fx_pow(ratio, 2)), 0, 65536);
        core.lerp(&border_emission, bi)
    } else {
        core
    };
    let ring = if in_cross {
        let ci = fx_clamp(fx_sub(65536, fx_div(dist, 45875)), 0, 65536);
        ring0.lerp(&cross_emission, ci)
    } else {
        ring0
    };
    let emissive = ring.scale(fx_mul(uniforms.emission_intensity, 98304));
    (ring, Some(emissive))
}

/// The earth shader's ocean regions come from the procedural ocean.
pub open spec fn spec_earth(f: Fragment, u: Uniforms) -> Color {
    let land = Color { r: 34, g: 139, b: 34 };
    let mountain = Color { r: 139, g: 69, b: 19 };
    let terrain = Noise { seed: 401, frequency: 655 };
    let ttf = spec_fx_mul(spec_time_fx(u.time), 5898);
    let tv = spec_noise_2d(
        terrain,
        fx_saturate(f.position.x as int + ttf),
        fx_saturate(f.position.y as int + ttf),
    );
    let base = if tv < -19661 {
        spec_oceanic1(f, u)
    } else if tv < 6554 {
        spec_color_lerp(land, mountain, spec_fx_mul(iabs(tv), 26214))
    } else {
        mountain
    };
    let cloudn = Noise { seed: 402, frequency: 1311 };
    let ctf = spec_fx_mul(spec_time_fx(u.time), 52429);
    let cv = spec_noise_2d(cloudn, fx_saturate(f.position.x as int + ctf), f.position.y as int);
    let cop = spec_clamp(tdiv(fx_saturate(cv + 65536), 2), 0, 65536);
    let layer = spec_color_lerp(
        base,
        Color { r: 255, g: 255, b: 255 },
        spec_fx_mul(cop, 32768),
    );
    let dist = spec_norm3(f.vertex_position);
    let atm_i = spec_clamp(spec_fx_div(fx_saturate(dist - 52429), 19661), 0, 65536);
    let atm = Color { r: 135, g: 206, b: 250 };
    spec_depth_shade(f, spec_color_lerp(layer, atm, atm_i))
}

/// Drifting continents over procedural ocean, cloud cover and a blue
/// atmospheric rim.
pub fn earth_planet_shader(fragment: &Fragment, uniforms: &Uniforms) -> (c: Color)
    requires
        fragment_ok(*fragment),
        uniforms_ok(*uniforms),
    ensures
        c == spec_earth(*fragment, *uniforms),
{
    let land = Color { r: 34, g: 139, b: 34 };
    let mountain = Color { r: 139, g: 69, b: 19 };
    let terrain = Noise::new(401, 655);
    let ttf = fx_mul(time_fx(uniforms.time), 5898);
    let tv = terrain.get_noise_2d(
        fx_add(fragment.position.x, ttf),
        fx_add(fragment.position.y, ttf),
    );
    let base = if tv < -19661 {
        oceanic_planet_shader1(fragment, uniforms)
    } else if tv < 6554 {
        land.lerp(&mountain, fx_mul(fx_abs(tv), 26214))
    } else {
        mountain
    };
    let cloudn = Noise::new(402, 1311);
    let ctf = fx_mul(time_fx(uniforms.time), 52429);
    let cv = cloudn.get_noise_2d(fx_add(fragment.position.x, ctf), fragment.position.y);
    let cop = fx_clamp(fx_half(fx_add(cv, 65536)), 0, 65536);
    let layer = base.lerp(&Color { r: 255, g: 255, b: 255 }, fx_mul(cop, 32768));
    let dist = fragment.vertex_position.norm();
    let atm_i = fx_clamp(fx_div(fx_sub(dist, 52429), 19661), 0, 65536);
    let atm = Color { r: 135, g: 206, b: 250 };
    let final_color = layer.lerp(&atm, atm_i);
    depth_based_fragment_shader(fragment, final_color)
}

} // verus!
