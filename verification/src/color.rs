//! 3x8-bit RGB color values with saturating arithmetic and the
//! photographic blend operators of the pipeline.
//!
//! Every operator keeps each channel inside `[0, 255]`; none wraps and
//! none panics.  The contracts state the integer formula of each
//! channel exactly.

use vstd::prelude::*;
use vstd::arithmetic::div_mod::{
    lemma_div_is_ordered,
    lemma_fundamental_div_mod_converse_div,
};
use vstd::arithmetic::mul::lemma_mul_upper_bound;
use crate::fixed::{fx_clamp, spec_clamp, tdiv};

verus! {

#[derive(Clone, Copy, Debug, PartialEq, Eq, Structural)]
pub struct Color {
    pub r: u8,
    pub g: u8,
    pub b: u8,
}

/// One channel of a multiply blend: `a * b / 255`.
pub open spec fn spec_mul255(a: int, b: int) -> int {
    a * b / 255
}

/// One channel of a screen blend: `255 - (255 - a) * (255 - b) / 255`.
pub open spec fn spec_screen_ch(a: int, b: int) -> int {
    255 - (255 - a) * (255 - b) / 255
}

/// One channel of a saturating add.
pub open spec fn spec_add_ch(a: int, b: int) -> int {
    if a + b > 255 {
        255
    } else {
        a + b
    }
}

/// One channel of a saturating subtract.
pub open spec fn spec_sub_ch(a: int, b: int) -> int {
    if a - b < 0 {
        0
    } else {
        a - b
    }
}

/// One channel of an overlay blend, branching on the base channel.
pub open spec fn spec_overlay_ch(a: int, b: int) -> int {
    if a < 128 {
        2 * a * b / 255
    } else {
        255 - 2 * (255 - a) * (255 - b) / 255
    }
}

/// One channel of a linear interpolation with a Q16.16 weight
/// `t` in `[0, FX_ONE]`, rounded to the nearest integer.
pub open spec fn spec_lerp_ch(a: int, b: int, t: int) -> int {
    (a * (65536 - t) + b * t + 32768) / 65536
}

/// One channel scaled by a Q16.16 factor, clamped into `[0, 255]`.
pub open spec fn spec_scale_ch(a: int, s: int) -> int {
    spec_clamp(tdiv(a * s, 65536), 0, 255)
}

/// `a * b / 255` for channel values, proved to stay within a channel.
fn mul255(a: u8, b: u8) -> (r: u8)
    ensures
        r == spec_mul255(a as int, b as int),
{
    proof {
        lemma_mul_upper_bound(a as int, 255, b as int, 255);
        lemma_div_is_ordered(a as int * b as int, 65025int, 255);
    }
    ((a as u32 * b as u32) / 255) as u8
}

impl Color {
    /// A color from its three channels.
    pub fn new(r: u8, g: u8, b: u8) -> (c: Color)
        ensures
            c.r == r,
            c.g == g,
            c.b == b,
    {
        Color { r, g, b }
    }

    /// The color with every channel zero.
    pub fn black() -> (c: Color)
        ensures
            c == (Color { r: 0, g: 0, b: 0 }),
    {
        Color { r: 0, g: 0, b: 0 }
    }

    /// The color packed into the low 24 bits of a `u32` as 0xRRGGBB.
    pub fn from_hex(hex: u32) -> (c: Color)
        ensures
            c.r == hex as int / 65536 % 256,
            c.g == hex as int / 256 % 256,
            c.b == hex as int % 256,
    {
        let r = ((hex / 65536) % 256) as u8;
        let g = ((hex / 256) % 256) as u8;
        let b = (hex % 256) as u8;
        Color { r, g, b }
    }

    /// The channels packed into a `u32` as 0xRRGGBB.
    pub fn to_hex(&self) -> (hex: u32)
        ensures
            hex == self.r as int * 65536 + self.g as int * 256 + self.b as int,
            hex < 16777216,
    {
        self.r as u32 * 65536 + self.g as u32 * 256 + self.b as u32
    }

    /// Whether every channel is zero.
    pub fn is_black(&self) -> (black: bool)
        ensures
            black == (self.r == 0 && self.g == 0 && self.b == 0),
    {
        self.r == 0 && self.g == 0 && self.b == 0
    }

    /// Linear interpolation toward `other` with Q16.16 weight `t`,
    /// clamped into `[0, FX_ONE]`; each channel rounds to nearest.
    pub fn lerp(&self, other: &Color, t: i64) -> (c: Color)
        ensures
            ({
                let tc = spec_clamp(t as int, 0, 65536);
                c.r == spec_lerp_ch(self.r as int, other.r as int, tc)
                    && c.g == spec_lerp_ch(self.g as int, other.g as int, tc)
                    && c.b == spec_lerp_ch(self.b as int, other.b as int, tc)
            }),
            c == spec_color_lerp(*self, *other, t as int),
            t <= 0 ==> c == *self,
            t >= 65536 ==> c == *other,
    {
        let tc: i64 = fx_clamp(t, 0, 65536);
        let c = Color {
            r: lerp_ch(self.r, other.r, tc),
            g: lerp_ch(self.g, other.g, tc),
            b: lerp_ch(self.b, other.b, tc),
        };
        proof {
            if t <= 0 {
                lemma_lerp_ch_ends(self.r as int, other.r as int, 0);
                lemma_lerp_ch_ends(self.g as int, other.g as int, 0);
                lemma_lerp_ch_ends(self.b as int, other.b as int, 0);
            }
            if t >= 65536 {
                lemma_lerp_ch_ends(self.r as int, other.r as int, 65536);
                lemma_lerp_ch_ends(self.g as int, other.g as int, 65536);
                lemma_lerp_ch_ends(self.b as int, other.b as int, 65536);
            }
        }
        c
    }

    /// Normal blend: the blend color wins unless it is pure black,
    /// which this operator treats as transparent.
    pub fn blend_normal(&self, blend: &Color) -> (c: Color)
        ensures
            c == spec_color_blend_normal(*self, *blend),
            c == if blend.r == 0 && blend.g == 0 && blend.b == 0 {
                *self
            } else {
                *blend
            },
    {
        if blend.is_black() {
            *self
        } else {
            *blend
        }
    }

    /// Multiply blend: `a * b / 255` per channel.
    pub fn blend_multiply(&self, blend: &Color) -> (c: Color)
        ensures
            c.r == spec_mul255(self.r as int, blend.r as int),
            c.g == spec_mul255(self.g as int, blend.g as int),
            c.b == spec_mul255(self.b as int, blend.b as int),
            c == spec_color_blend_multiply(*self, *blend),
    {
        Color {
            r: mul255(self.r, blend.r),
            g: mul255(self.g, blend.g),
            b: mul255(self.b, blend.b),
        }
    }

    /// Add blend: saturating sum per channel.
    pub fn blend_add(&self, blend: &Color) -> (c: Color)
        ensures
            c.r == spec_add_ch(self.r as int, blend.r as int),
            c.g == spec_add_ch(self.g as int, blend.g as int),
            c.b == spec_add_ch(self.b as int, blend.b as int),
            c == spec_color_blend_add(*self, *blend),
    {
        Color {
            r: self.r.saturating_add(blend.r),
            g: self.g.saturating_add(blend.g),
            b: self.b.saturating_add(blend.b),
        }
    }

    /// Subtract blend: saturating difference per channel, except that a
    /// pure-black blend color is an explicit no-op.
    pub fn blend_subtract(&self, blend: &Color) -> (c: Color)
        ensures
            blend.r == 0 && blend.g == 0 && blend.b == 0 ==> c == *self,
            !(blend.r == 0 && blend.g == 0 && blend.b == 0) ==> {
                &&& c.r == spec_sub_ch(self.r as int, blend.r as int)
                &&& c.g == spec_sub_ch(self.g as int, blend.g as int)
                &&& c.b == spec_sub_ch(self.b as int, blend.b as int)
            },
            c == spec_color_blend_subtract(*self, *blend),
    {
        if blend.is_black() {
            *self
        } else {
            Color {
                r: self.r.saturating_sub(blend.r),
                g: self.g.saturating_sub(blend.g),
                b: self.b.saturating_sub(blend.b),
            }
        }
    }

    /// Screen blend: `255 - (255 - a) * (255 - b) / 255` per channel.
    pub fn blend_screen(&self, blend: &Color) -> (c: Color)
        ensures
            c.r == spec_screen_ch(self.r as int, blend.r as int),
            c.g == spec_screen_ch(self.g as int, blend.g as int),
            c.b == spec_screen_ch(self.b as int, blend.b as int),
            c == spec_color_blend_screen(*self, *blend),
    {
        Color {
            r: 255 - mul255(255 - self.r, 255 - blend.r),
            g: 255 - mul255(255 - self.g, 255 - blend.g),
            b: 255 - mul255(255 - self.b, 255 - blend.b),
        }
    }

    /// Overlay blend: multiply in dark regions of the base color,
    /// screen in bright ones.
    pub fn blend_overlay(&self, blend: &Color) -> (c: Color)
        ensures
            c.r == spec_overlay_ch(self.r as int, blend.r as int),
            c.g == spec_overlay_ch(self.g as int, blend.g as int),
            c.b == spec_overlay_ch(self.b as int, blend.b as int),
            c == spec_color_blend_overlay(*self, *blend),
    {
        Color {
            r: overlay_ch(self.r, blend.r),
            g: overlay_ch(self.g, blend.g),
            b: overlay_ch(self.b, blend.b),
        }
    }

    /// Saturating channel-wise sum of two colors.
    pub fn saturating_add(&self, other: &Color) -> (c: Color)
        ensures
            c.r == spec_add_ch(self.r as int, other.r as int),
            c.g == spec_add_ch(self.g as int, other.g as int),
            c.b == spec_add_ch(self.b as int, other.b as int),
    {
        self.blend_add(other)
    }

    /// Every channel scaled by a Q16.16 factor and clamped to a channel.
    pub fn scale(&self, s: i64) -> (c: Color)
        requires
            crate::fixed::fx_ok(s),
        ensures
            c.r == spec_scale_ch(self.r as int, s as int),
            c.g == spec_scale_ch(self.g as int, s as int),
            c.b == spec_scale_ch(self.b as int, s as int),
            c == spec_color_scale(*self, s as int),
    {
        Color {
            r: scale_ch(self.r, s),
            g: scale_ch(self.g, s),
            b: scale_ch(self.b, s),
        }
    }
}


/// Whole-color interpolation, as a value.
pub open spec fn spec_color_lerp(a: Color, b: Color, t: int) -> Color {
    let tc = spec_clamp(t, 0, 65536);
    Color {
        r: spec_lerp_ch(a.r as int, b.r as int, tc) as u8,
        g: spec_lerp_ch(a.g as int, b.g as int, tc) as u8,
        b: spec_lerp_ch(a.b as int, b.b as int, tc) as u8,
    }
}

/// Whole-color normal blend, as a value.
pub open spec fn spec_color_blend_normal(a: Color, b: Color) -> Color {
    if b.r == 0 && b.g == 0 && b.b == 0 {
        a
    } else {
        b
    }
}

/// Whole-color multiply blend, as a value.
pub open spec fn spec_color_blend_multiply(a: Color, b: Color) -> Color {
    Color {
        r: spec_mul255(a.r as int, b.r as int) as u8,
        g: spec_mul255(a.g as int, b.g as int) as u8,
        b: spec_mul255(a.b as int, b.b as int) as u8,
    }
}

/// Whole-color saturating add, as a value.
pub open spec fn spec_color_blend_add(a: Color, b: Color) -> Color {
    Color {
        r: spec_add_ch(a.r as int, b.r as int) as u8,
        g: spec_add_ch(a.g as int, b.g as int) as u8,
        b: spec_add_ch(a.b as int, b.b as int) as u8,
    }
}

/// Whole-color subtract blend, as a value.
pub open spec fn spec_color_blend_subtract(a: Color, b: Color) -> Color {
    if b.r == 0 && b.g == 0 && b.b == 0 {
        a
    } else {
        Color {
            r: spec_sub_ch(a.r as int, b.r as int) as u8,
            g: spec_sub_ch(a.g as int, b.g as int) as u8,
            b: spec_sub_ch(a.b as int, b.b as int) as u8,
        }
    }
}

/// Whole-color screen blend, as a value.
pub open spec fn spec_color_blend_screen(a: Color, b: Color) -> Color {
    Color {
        r: spec_screen_ch(a.r as int, b.r as int) as u8,
        g: spec_screen_ch(a.g as int, b.g as int) as u8,
        b: spec_screen_ch(a.b as int, b.b as int) as u8,
    }
}

/// Whole-color overlay blend, as a value.
pub open spec fn spec_color_blend_overlay(a: Color, b: Color) -> Color {
    Color {
        r: spec_overlay_ch(a.r as int, b.r as int) as u8,
        g: spec_overlay_ch(a.g as int, b.g as int) as u8,
        b: spec_overlay_ch(a.b as int, b.b as int) as u8,
    }
}

/// Whole-color scale by a Q16.16 factor, as a value.
pub open spec fn spec_color_scale(a: Color, s: int) -> Color {
    Color {
        r: spec_scale_ch(a.r as int, s) as u8,
        g: spec_scale_ch(a.g as int, s) as u8,
        b: spec_scale_ch(a.b as int, s) as u8,
    }
}

/// Law: `to_hex` and `from_hex` round-trip losslessly — unpacking the
/// packed form of any color recovers its three channels exactly.
pub proof fn lemma_hex_round_trip(c: Color)
    ensures
        (c.r as int * 65536 + c.g as int * 256 + c.b as int) / 65536 % 256 == c.r,
        (c.r as int * 65536 + c.g as int * 256 + c.b as int) / 256 % 256 == c.g,
        (c.r as int * 65536 + c.g as int * 256 + c.b as int) % 256 == c.b,
{
    let h = c.r as int * 65536 + c.g as int * 256 + c.b as int;
    let low = c.g as int * 256 + c.b as int;
    assert(h == c.r as int * 65536 + low);
    lemma_fundamental_div_mod_converse_div(h, 65536, c.r as int, low);
    vstd::arithmetic::div_mod::lemma_small_mod(c.r as nat, 256);
    let mid = c.r as int * 256 + c.g as int;
    assert(h == mid * 256 + c.b as int) by (nonlinear_arith)
        requires
            h == c.r as int * 65536 + c.g as int * 256 + c.b as int,
            mid == c.r as int * 256 + c.g as int,
    ;
    lemma_fundamental_div_mod_converse_div(h, 256, mid, c.b as int);
    vstd::arithmetic::div_mod::lemma_fundamental_div_mod_converse_mod(h, 256, mid, c.b as int);
    assert(mid == c.g as int + c.r as int * 256);
    vstd::arithmetic::div_mod::lemma_fundamental_div_mod_converse_mod(
        mid,
        256,
        c.r as int,
        c.g as int,
    );
}

/// One interpolated channel; `t` must already be clamped.
fn lerp_ch(a: u8, b: u8, t: i64) -> (r: u8)
    requires
        0 <= t <= 65536,
    ensures
        r == spec_lerp_ch(a as int, b as int, t as int),
{
    proof {
        lemma_mul_upper_bound(a as int, 255, 65536 - t as int, 65536);
        lemma_mul_upper_bound(b as int, 255, t as int, 65536);
        assert(a as int * (65536 - t as int) >= 0) by (nonlinear_arith)
            requires
                a >= 0,
                t <= 65536,
        ;
        assert(b as int * t as int >= 0) by (nonlinear_arith)
            requires
                b >= 0,
                t >= 0,
        ;
    }
    let num: u64 = a as u64 * ((65536 - t) as u64) + b as u64 * (t as u64) + 32768;
    proof {
        assert(a as int * (65536 - t as int) + b as int * t as int <= 255 * 65536) by (nonlinear_arith)
            requires
                a <= 255,
                b <= 255,
                0 <= t <= 65536,
        ;
        lemma_div_is_ordered(
            a as int * (65536 - t as int) + b as int * t as int + 32768,
            16744448int,
            65536,
        );
        assert(16744448int / 65536 == 255);
    }
    (num / 65536) as u8
}

/// The two ends of a channel interpolation are the operands themselves.
proof fn lemma_lerp_ch_ends(a: int, b: int, t: int)
    requires
        0 <= a <= 255,
        0 <= b <= 255,
    ensures
        t == 0 ==> spec_lerp_ch(a, b, t) == a,
        t == 65536 ==> spec_lerp_ch(a, b, t) == b,
{
    if t == 0 {
        assert(a * 65536 + b * 0 + 32768 == 65536 * a + 32768) by (nonlinear_arith);
        lemma_fundamental_div_mod_converse_div(a * 65536 + b * 0 + 32768, 65536, a, 32768);
    }
    if t == 65536 {
        assert(a * 0 + b * 65536 + 32768 == 65536 * b + 32768) by (nonlinear_arith);
        lemma_fundamental_div_mod_converse_div(a * 0 + b * 65536 + 32768, 65536, b, 32768);
    }
}

/// One overlay channel.
fn overlay_ch(a: u8, b: u8) -> (r: u8)
    ensures
        r == spec_overlay_ch(a as int, b as int),
{
    if a < 128 {
        proof {
            lemma_mul_upper_bound(2 * a as int, 254, b as int, 255);
            lemma_div_is_ordered(2 * a as int * b as int, 64770int, 255);
        }
        ((2 * a as u32 * b as u32) / 255) as u8
    } else {
        proof {
            lemma_mul_upper_bound(2 * (255 - a as int), 254, 255 - b as int, 255);
            lemma_div_is_ordered(2 * (255 - a as int) * (255 - b as int), 64770int, 255);
            assert(2 * (255 - a as int) * (255 - b as int) >= 0) by (nonlinear_arith)
                requires
                    a <= 255,
                    b <= 255,
            ;
        }
        (255 - (2 * (255 - a as u32) * (255 - b as u32)) / 255) as u8
    }
}

/// One scaled channel.
fn scale_ch(a: u8, s: i64) -> (r: u8)
    requires
        crate::fixed::fx_ok(s),
    ensures
        r == spec_scale_ch(a as int, s as int),
{
    if s <= 0 {
        proof {
            if s < 0 {
                assert(a as int * s as int <= 0) by (nonlinear_arith)
                    requires
                        a >= 0,
                        s < 0,
                ;
            }
        }
        if s == 0 {
            proof {
                assert(a as int * 0int == 0) by (nonlinear_arith);
            }
            0
        } else {
            0
        }
    } else {
        proof {
            lemma_mul_upper_bound(a as int, 255, s as int, 1073741824);
            assert(a as int * s as int >= 0) by (nonlinear_arith)
                requires
                    a >= 0,
                    s >= 0,
            ;
        }
        let p: u64 = a as u64 * s as u64;
        proof {
            lemma_div_is_ordered(p as int, 273804165120int, 65536);
        }
        let q: u64 = p / 65536;
        if q > 255 {
            255
        } else {
            q as u8
        }
    }
}

} // verus!
