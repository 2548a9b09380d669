//! The vertex stage and the general shading functions.
//!
//! Every shading function is a pure mapping from a fragment and the
//! per-frame uniforms to a color; all of them funnel their result
//! through the shared exposure step of
//! [`depth_based_fragment_shader`], which darkens with depth and
//! scales by the fragment's intensity.

use vstd::prelude::*;
use crate::color::{
    spec_color_blend_add, spec_color_blend_multiply, spec_color_blend_normal,
    spec_color_blend_overlay, spec_color_blend_screen, spec_color_lerp, spec_color_scale, Color,
};
use crate::fixed::{
    fx_add, fx_clamp, fx_div, fx_frac, fx_half, fx_mul, fx_saturate, fx_sin, fx_sub,
    fx_to_channel, spec_clamp, spec_fx_div, spec_fx_mul, spec_fx_sin, tdiv,
};
use crate::fragment::{fragment_ok, Fragment};
use crate::geometry::{spec_mat3_mul_vec3, spec_mat4_mul_vec4, spec_normalize3, Vec3, Vec4};
use crate::noise::{spec_noise_2d, Noise};
use crate::uniforms::{spec_time_fx, time_fx, uniforms_ok, Uniforms};
use crate::vertex::{vertex_ok, Vertex};

verus! {

/// The meaning of [`vertex_shader`]: the precomposed transformation,
/// a perspective divide that maps an exactly-zero `w` through unit
/// `w` instead, the viewport transform, and the normal matrix with
/// renormalization.
pub open spec fn spec_vertex_shader(v: Vertex, u: Uniforms) -> Vertex {
    let p4 = spec_mat4_mul_vec4(
        u.transformation_matrix,
        Vec4 { x: v.position.x, y: v.position.y, z: v.position.z, w: 65536 },
    );
    let wd = if p4.w == 0 {
        1int
    } else {
        p4.w as int
    };
    let ndc = Vec4 {
        x: spec_fx_div(p4.x as int, wd) as i64,
        y: spec_fx_div(p4.y as int, wd) as i64,
        z: spec_fx_div(p4.z as int, wd) as i64,
        w: 65536,
    };
    let tp = spec_mat4_mul_vec4(u.viewport_matrix, ndc);
    let tn = spec_normalize3(spec_mat3_mul_vec3(u.normal_matrix, v.normal));
    Vertex {
        position: v.position,
        normal: v.normal,
        tex_coords: v.tex_coords,
        color: v.color,
        transformed_position: Vec3 { x: tp.x, y: tp.y, z: tp.z },
        transformed_normal: tn,
    }
}

/// The vertex stage: object space to screen space, one vertex at a
/// time, leaving the authoring attributes untouched.
pub fn vertex_shader(vertex: &Vertex, uniforms: &Uniforms) -> (v: Vertex)
    requires
        vertex_ok(*vertex),
        uniforms_ok(*uniforms),
    ensures
        v == spec_vertex_shader(*vertex, *uniforms),
        vertex_ok(v),
{
    let p4 = uniforms.transformation_matrix.mul_vec4(
        &Vec4 {
            x: vertex.position.x,
            y: vertex.position.y,
            z: vertex.position.z,
            w: 65536,
        },
    );
    let wd: i64 = if p4.w == 0 {
        1
    } else {
        p4.w
    };
    let ndc = Vec4 { x: fx_div(p4.x, wd), y: fx_div(p4.y, wd), z: fx_div(p4.z, wd), w: 65536 };
    let tp = uniforms.viewport_matrix.mul_vec4(&ndc);
    let tn = uniforms.normal_matrix.mul_vec3(&vertex.normal).normalize();
    Vertex {
        position: vertex.position,
        normal: vertex.normal,
        tex_coords: vertex.tex_coords,
        color: vertex.color,
        transformed_position: Vec3 { x: tp.x, y: tp.y, z: tp.z },
        transformed_normal: tn,
    }
}

/// Law: a vertex that the precomposed transformation maps onto the
/// view axis — clip `x` and `y` both zero, as the look-at target is
/// mapped under a look-at view and a standard perspective — lands
/// exactly at the viewport center under a standard viewport matrix,
/// whatever clip `w` and depth came out.
pub proof fn lemma_view_axis_lands_at_viewport_center(
    v: Vertex,
    u: Uniforms,
    width: int,
    height: int,
)
    requires
        vertex_ok(v),
        uniforms_ok(u),
        0 <= width <= crate::fixed::FX_SAT,
        0 <= height <= crate::fixed::FX_SAT,
        u.viewport_matrix == crate::uniforms::spec_viewport_matrix(width, height),
        spec_mat4_mul_vec4(
            u.transformation_matrix,
            Vec4 { x: v.position.x, y: v.position.y, z: v.position.z, w: 65536 },
        ).x == 0,
        spec_mat4_mul_vec4(
            u.transformation_matrix,
            Vec4 { x: v.position.x, y: v.position.y, z: v.position.z, w: 65536 },
        ).y == 0,
    ensures
        spec_vertex_shader(v, u).transformed_position.x == width / 2,
        spec_vertex_shader(v, u).transformed_position.y == height / 2,
{
    broadcast use vstd::arithmetic::mul::group_mul_basics;

    let p4 = spec_mat4_mul_vec4(
        u.transformation_matrix,
        Vec4 { x: v.position.x, y: v.position.y, z: v.position.z, w: 65536 },
    );
    let wd = if p4.w == 0 {
        1int
    } else {
        p4.w as int
    };
    // a zero numerator divides to zero, whatever the divisor
    assert(spec_fx_div(0, wd) == 0);
    let ndc = Vec4 {
        x: spec_fx_div(p4.x as int, wd) as i64,
        y: spec_fx_div(p4.y as int, wd) as i64,
        z: spec_fx_div(p4.z as int, wd) as i64,
        w: 65536,
    };
    assert(ndc.x == 0 && ndc.y == 0);
    let hw = width / 2;
    let hh = height / 2;
    // the half-extent column survives the viewport product exactly
    assert(spec_fx_mul(hw, 65536) == hw) by {
        vstd::arithmetic::div_mod::lemma_fundamental_div_mod_converse_div(
            hw * 65536,
            65536,
            hw,
            0,
        );
    }
    assert(spec_fx_mul(hh, 65536) == hh) by {
        vstd::arithmetic::div_mod::lemma_fundamental_div_mod_converse_div(
            hh * 65536,
            65536,
            hh,
            0,
        );
    }
    let tp = spec_mat4_mul_vec4(u.viewport_matrix, ndc);
    assert(spec_fx_mul(hw, 0) == 0);
    assert(spec_fx_mul(-hh, 0) == 0);
    assert(spec_fx_mul(0, ndc.z as int) == 0);
    assert(spec_fx_mul(0, 0) == 0);
    assert(tp.x == hw);
    assert(tp.y == hh);
}

/// A fixed debugging shade: pure red, whatever the fragment.
pub fn fragment_shader(_fragment: &Fragment) -> (c: Color)
    ensures
        c == (Color { r: 255, g: 0, b: 0 }),
{
    Color { r: 255, g: 0, b: 0 }
}

/// The brightness factor of the shared exposure step:
/// `clamp(1 - depth/2, 0, 1)` in Q16.16.
pub open spec fn spec_brightness(depth: int) -> int {
    spec_clamp(fx_saturate(65536 - spec_fx_mul(depth, 32768)), 0, 65536)
}

/// The meaning of [`depth_based_fragment_shader`]: the base color
/// scaled by the depth brightness, then by the fragment's intensity.
pub open spec fn spec_depth_shade(f: Fragment, base: Color) -> Color {
    spec_color_scale(spec_color_scale(base, spec_brightness(f.depth as int)), f.intensity as int)
}

/// The single mandatory exposure step every surface kind funnels
/// through: brightness falls off with depth, then the whole color is
/// scaled by the fragment's intensity.
pub fn depth_based_fragment_shader(fragment: &Fragment, base_color: Color) -> (c: Color)
    requires
        fragment_ok(*fragment),
    ensures
        c == spec_depth_shade(*fragment, base_color),
{
    let brightness = fx_clamp(fx_sub(65536, fx_mul(fragment.depth, 32768)), 0, 65536);
    base_color.scale(brightness).scale(fragment.intensity)
}

/// The meaning of [`pattern_fragment_shader`].
pub open spec fn spec_pattern_shader(f: Fragment) -> Color {
    let stripe = spec_fx_div(
        crate::fixed::iabs(spec_fx_mul(f.vertex_position.y as int, 6553600)),
        655360,
    );
    let t = stripe % 65536;
    spec_depth_shade(
        f,
        spec_color_lerp(Color { r: 91, g: 153, b: 194 }, Color { r: 26, g: 72, b: 112 }, t),
    )
}

/// Horizontal stripes over the object-space height, interpolating
/// between two blues, then exposed.
pub fn pattern_fragment_shader(fragment: &Fragment) -> (c: Color)
    requires
        fragment_ok(*fragment),
    ensures
        c == spec_pattern_shader(*fragment),
{
    let scaled = fx_mul(fragment.vertex_position.y, 6553600);
    let a = if scaled < 0 {
        -scaled
    } else {
        scaled
    };
    let stripe = fx_div(a, 655360);
    let t = fx_frac(stripe);
    let color1 = Color { r: 91, g: 153, b: 194 };
    let color2 = Color { r: 26, g: 72, b: 112 };
    let mixed = color1.lerp(&color2, t);
    depth_based_fragment_shader(fragment, mixed)
}

/// The meaning of [`time_based_fragment_shader`].
pub open spec fn spec_time_based_shader(f: Fragment, u: Uniforms) -> Color {
    let red = spec_fx_sin(spec_fx_mul(spec_time_fx(u.time), 3277));
    let dynamic = tdiv(fx_saturate(red + 65536), 2);
    let mixed = spec_color_lerp(f.color, Color { r: 255, g: 0, b: 0 }, dynamic);
    spec_depth_shade(f, spec_color_scale(mixed, 32768))
}

/// A pulse of red that grows and fades with the frame counter,
/// blended over the fragment color at half strength, then exposed.
pub fn time_based_fragment_shader(fragment: &Fragment, uniforms: &Uniforms) -> (c: Color)
    requires
        fragment_ok(*fragment),
        uniforms_ok(*uniforms),
    ensures
        c == spec_time_based_shader(*fragment, *uniforms),
{
    let red = fx_sin(fx_mul(time_fx(uniforms.time), 3277));
    let dynamic = fx_half(fx_add(red, 65536));
    let mixed = fragment.color.lerp(&Color { r: 255, g: 0, b: 0 }, dynamic);
    let transparent = mixed.scale(32768);
    depth_based_fragment_shader(fragment, transparent)
}

/// The meaning of [`simple_pattern_shader`].
pub open spec fn spec_simple_pattern(f: Fragment) -> Color {
    let t = spec_fx_div(f.position.x as int, 1310720) % 65536;
    if t > 32768 {
        Color { r: 255, g: 255, b: 255 }
    } else {
        Color { r: 0, g: 0, b: 0 }
    }
}

/// Vertical stripes 20 pixels wide, alternating white and black.
pub fn simple_pattern_shader(fragment: &Fragment) -> (c: Color)
    requires
        fragment_ok(*fragment),
    ensures
        c == spec_simple_pattern(*fragment),
{
    let t = fx_frac(fx_div(fragment.position.x, 1310720));
    if t > 32768 {
        Color { r: 255, g: 255, b: 255 }
    } else {
        Color { r: 0, g: 0, b: 0 }
    }
}

/// The meaning of [`moving_pattern_shader`].
pub open spec fn spec_moving_pattern(f: Fragment, u: Uniforms) -> Color {
    let offset = spec_fx_mul(spec_fx_sin(spec_fx_mul(spec_time_fx(u.time), 6554)), 3276800);
    let t = spec_fx_div(fx_saturate(f.position.x as int + offset), 1310720) % 65536;
    if t > 32768 {
        Color { r: 255, g: 0, b: 0 }
    } else {
        Color { r: 0, g: 0, b: 255 }
    }
}

/// Stripes that slide over time, alternating red and blue.
pub fn moving_pattern_shader(fragment: &Fragment, uniforms: &Uniforms) -> (c: Color)
    requires
        fragment_ok(*fragment),
        uniforms_ok(*uniforms),
    ensures
        c == spec_moving_pattern(*fragment, *uniforms),
{
    let offset = fx_mul(fx_sin(fx_mul(time_fx(uniforms.time), 6554)), 3276800);
    let t = fx_frac(fx_div(fx_add(fragment.position.x, offset), 1310720));
    if t > 32768 {
        Color { r: 255, g: 0, b: 0 }
    } else {
        Color { r: 0, g: 0, b: 255 }
    }
}

/// The meaning of [`combined_pattern_shader`].
pub open spec fn spec_combined_pattern(f: Fragment, u: Uniforms) -> Color {
    let simple = spec_simple_pattern(f);
    if simple == (Color { r: 255, g: 255, b: 255 }) {
        spec_moving_pattern(f, u)
    } else {
        simple
    }
}

/// The simple stripes, with the moving pattern shown through their
/// white bands.
pub fn combined_pattern_shader(fragment: &Fragment, uniforms: &Uniforms) -> (c: Color)
    requires
        fragment_ok(*fragment),
        uniforms_ok(*uniforms),
    ensures
        c == spec_combined_pattern(*fragment, *uniforms),
{
    let simple = simple_pattern_shader(fragment);
    if simple == Color::new(255, 255, 255) {
        moving_pattern_shader(fragment, uniforms)
    } else {
        simple
    }
}

/// Normal blend with the given color, then a fixed multiply tint.
pub fn multiply_shader(fragment: &Fragment, blend_color: Color) -> (c: Color)
    ensures
        c == spec_color_blend_multiply(
            spec_color_blend_normal(fragment.color, blend_color),
            Color { r: 50, g: 100, b: 150 },
        ),
{
    let base_color = fragment.color.blend_normal(&blend_color);
    base_color.blend_multiply(&Color { r: 50, g: 100, b: 150 })
}

/// Screen blend of the fragment color with the given color.
pub fn screen_shader(fragment: &Fragment, blend_color: Color) -> (c: Color)
    ensures
        c == spec_color_blend_screen(fragment.color, blend_color),
{
    fragment.color.blend_screen(&blend_color)
}

/// Saturating additive blend of the fragment color with the given
/// color.
pub fn add_shader(fragment: &Fragment, blend_color: Color) -> (c: Color)
    ensures
        c == spec_color_blend_add(fragment.color, blend_color),
{
    fragment.color.blend_add(&blend_color)
}

/// Overlay blend of the fragment color with the given color.
pub fn overlay_shader(fragment: &Fragment, blend_color: Color) -> (c: Color)
    ensures
        c == spec_color_blend_overlay(fragment.color, blend_color),
{
    fragment.color.blend_overlay(&blend_color)
}

/// The meaning of [`time_movement_shader`].
pub open spec fn spec_time_movement(f: Fragment, u: Uniforms) -> Color {
    let s = spec_fx_sin(spec_fx_mul(spec_time_fx(u.time), 6554));
    let g = (spec_clamp(spec_fx_mul(s, 16711680), 0, 16711680) / 65536) as u8;
    let blend = Color { r: 100, g: g, b: 150 };
    spec_color_blend_screen(
        spec_color_blend_overlay(f.color, blend),
        Color { r: 200, g: 200, b: 200 },
    )
}

/// A time-varying overlay followed by a bright screen blend.
pub fn time_movement_shader(fragment: &Fragment, uniforms: &Uniforms) -> (c: Color)
    requires
        fragment_ok(*fragment),
        uniforms_ok(*uniforms),
    ensures
        c == spec_time_movement(*fragment, *uniforms),
{
    let s = fx_sin(fx_mul(time_fx(uniforms.time), 6554));
    let g = fx_to_channel(fx_mul(s, 16711680));
    let blend = Color { r: 100, g, b: 150 };
    let overlaid = fragment.color.blend_overlay(&blend);
    overlaid.blend_screen(&Color { r: 200, g: 200, b: 200 })
}

/// The meaning of [`exceptional_fragment_shader`].
pub open spec fn spec_exceptional_shader(f: Fragment, u: Uniforms) -> Color {
    let wave = fx_saturate(
        spec_fx_sin(spec_fx_mul(spec_time_fx(u.time), 3277)) + spec_fx_sin(
            spec_fx_mul(f.position.y as int, 6554),
        ),
    );
    let blended = spec_color_lerp(
        Color { r: 255, g: 0, b: 128 },
        Color { r: 0, g: 128, b: 255 },
        tdiv(fx_saturate(wave + 65536), 2),
    );
    let brightness = spec_clamp(fx_saturate(65536 - spec_fx_mul(f.depth as int, 45875)), 0, 65536);
    let bright = spec_color_scale(blended, brightness);
    let moving = spec_color_blend_add(bright, Color { r: 255, g: 255, b: 0 });
    let fused = spec_color_blend_multiply(moving, bright);
    spec_color_scale(fused, spec_fx_mul(f.intensity as int, crate::fixed::iabs(wave)))
}

/// Oscillating magenta and electric blue with additive and multiply
/// distortion, vibrating with the fragment's intensity.
pub fn exceptional_fragment_shader(fragment: &Fragment, uniforms: &Uniforms) -> (c: Color)
    requires
        fragment_ok(*fragment),
        uniforms_ok(*uniforms),
    ensures
        c == spec_exceptional_shader(*fragment, *uniforms),
{
    let wave = fx_add(
        fx_sin(fx_mul(time_fx(uniforms.time), 3277)),
        fx_sin(fx_mul(fragment.position.y, 6554)),
    );
    let blended = Color { r: 255, g: 0, b: 128 }.lerp(
        &Color { r: 0, g: 128, b: 255 },
        fx_half(fx_add(wave, 65536)),
    );
    let brightness = fx_clamp(fx_sub(65536, fx_mul(fragment.depth, 45875)), 0, 65536);
    let bright = blended.scale(brightness);
    let moving = bright.blend_add(&Color { r: 255, g: 255, b: 0 });
    let fused = moving.blend_multiply(&bright);
    let vib = fx_mul(fragment.intensity, crate::fixed::fx_abs(wave));
    fused.scale(vib)
}

/// The meaning of [`noise_2d`]: a grayscale value from the built-in
/// unit-frequency noise field.
pub open spec fn spec_noise_gray(n: int) -> u8 {
    (spec_clamp(spec_fx_mul(tdiv(fx_saturate(n + 65536), 2), 16711680), 0, 16711680)
        / 65536) as u8
}

pub open spec fn spec_noise_2d_color(x: int, y: int) -> Color {
    let n = spec_noise_2d(Noise { seed: 9001, frequency: 65536 }, x, y);
    let g = spec_noise_gray(n);
    Color { r: g, g: g, b: g }
}

/// Deterministic grayscale noise keyed by a 2D position.
pub fn noise_2d(x: i64, y: i64) -> (c: Color)
    requires
        crate::fixed::fx_ok(x),
        crate::fixed::fx_ok(y),
    ensures
        c == spec_noise_2d_color(x as int, y as int),
{
    let field = Noise::new(9001, 65536);
    let n = field.get_noise_2d(x, y);
    let g = fx_to_channel(fx_mul(fx_half(fx_add(n, 65536)), 16711680));
    Color { r: g, g: g, b: g }
}

/// The same grayscale noise, sampled at an offset position.
pub fn smooth_noise(x: i64, y: i64, offset_x: i64, offset_y: i64) -> (c: Color)
    requires
        crate::fixed::fx_ok(x),
        crate::fixed::fx_ok(y),
        crate::fixed::fx_ok(offset_x),
        crate::fixed::fx_ok(offset_y),
    ensures
        c == spec_noise_2d_color(
            fx_saturate(x + offset_x),
            fx_saturate(y + offset_y),
        ),
{
    let nx = fx_add(x, offset_x);
    let ny = fx_add(y, offset_y);
    noise_2d(nx, ny)
}

/// The meaning of [`noise_based_fragment_shader`].
pub open spec fn spec_noise_based_shader(f: Fragment, u: Uniforms) -> Color {
    let n = spec_noise_2d(u.noise, f.position.x as int, f.position.y as int);
    let g = spec_noise_gray(n);
    Color { r: g, g: g, b: g }
}

/// Grayscale from the uniform bundle's noise field at the screen
/// position.
pub fn noise_based_fragment_shader(fragment: &Fragment, uniforms: &Uniforms) -> (c: Color)
    requires
        fragment_ok(*fragment),
        uniforms_ok(*uniforms),
    ensures
        c == spec_noise_based_shader(*fragment, *uniforms),
{
    let n = uniforms.noise.get_noise_2d(fragment.position.x, fragment.position.y);
    let g = fx_to_channel(fx_mul(fx_half(fx_add(n, 65536)), 16711680));
    Color { r: g, g: g, b: g }
}

/// The meaning of [`moving_clouds_shader`].
pub open spec fn spec_moving_clouds(f: Fragment, u: Uniforms) -> Color {
    let tf = spec_fx_mul(spec_time_fx(u.time), 72090);
    let n = spec_noise_2d(u.noise, fx_saturate(f.position.x as int + tf), f.position.y as int);
    let opacity = tdiv(fx_saturate(n + 65536), 2);
    spec_color_lerp(Color { r: 0, g: 0, b: 139 }, Color { r: 255, g: 255, b: 255 }, opacity)
}

/// White clouds drifting over a deep blue surface.
pub fn moving_clouds_shader(fragment: &Fragment, uniforms: &Uniforms) -> (c: Color)
    requires
        fragment_ok(*fragment),
        uniforms_ok(*uniforms),
    ensures
        c == spec_moving_clouds(*fragment, *uniforms),
{
    let tf = fx_mul(time_fx(uniforms.time), 72090);
    let n = uniforms.noise.get_noise_2d(fx_add(fragment.position.x, tf), fragment.position.y);
    let opacity = fx_half(fx_add(n, 65536));
    Color { r: 0, g: 0, b: 139 }.lerp(&Color { r: 255, g: 255, b: 255 }, opacity)
}

/// The noise field used for plant-like cellular texturing.
pub fn create_plant_noise() -> (n: Noise)
    ensures
        n.seed == 742,
        n.frequency == 3277,
        crate::noise::noise_ok(n),
{
    Noise::new(742, 3277)
}

/// The meaning of [`plant_texture_shader`].
pub open spec fn spec_plant_texture(f: Fragment, u: Uniforms) -> Color {
    let n = spec_noise_2d(u.noise, f.position.x as int, f.position.y as int);
    let t = tdiv(fx_saturate(n + 65536), 2);
    spec_color_lerp(Color { r: 34, g: 139, b: 34 }, Color { r: 144, g: 238, b: 144 }, t)
}

/// Dark and light greens mixed by the noise field.
pub fn plant_texture_shader(fragment: &Fragment, uniforms: &Uniforms) -> (c: Color)
    requires
        fragment_ok(*fragment),
        uniforms_ok(*uniforms),
    ensures
        c == spec_plant_texture(*fragment, *uniforms),
{
    let n = uniforms.noise.get_noise_2d(fragment.position.x, fragment.position.y);
    let t = fx_half(fx_add(n, 65536));
    Color { r: 34, g: 139, b: 34 }.lerp(&Color { r: 144, g: 238, b: 144 }, t)
}

/// The dense cellular field used for cracked-earth texturing.
pub fn create_cracked_earth_noise() -> (n: Noise)
    ensures
        n.seed == 2312,
        n.frequency == 661914,
        crate::noise::noise_ok(n),
{
    Noise::new(2312, 661914)
}

/// The meaning of [`cracked_earth_shader`].
pub open spec fn spec_cracked_earth(f: Fragment, u: Uniforms) -> Color {
    let n = spec_noise_2d(u.noise, f.position.x as int, f.position.y as int);
    let t = tdiv(fx_saturate(n + 65536), 2);
    if t < 26214 {
        Color { r: 100, g: 80, b: 60 }
    } else if t > 45875 {
        spec_color_lerp(Color { r: 150, g: 111, b: 80 }, Color { r: 200, g: 160, b: 130 }, 19661)
    } else {
        Color { r: 150, g: 111, b: 80 }
    }
}

/// Earth tones with deep cracks where the cellular noise dips.
pub fn cracked_earth_shader(fragment: &Fragment, uniforms: &Uniforms) -> (c: Color)
    requires
        fragment_ok(*fragment),
        uniforms_ok(*uniforms),
    ensures
        c == spec_cracked_earth(*fragment, *uniforms),
{
    let n = uniforms.noise.get_noise_2d(fragment.position.x, fragment.position.y);
    let t = fx_half(fx_add(n, 65536));
    let base = Color { r: 150, g: 111, b: 80 };
    if t < 26214 {
        Color { r: 100, g: 80, b: 60 }
    } else if t > 45875 {
        base.lerp(&Color { r: 200, g: 160, b: 130 }, 19661)
    } else {
        base
    }
}

} // verus!
