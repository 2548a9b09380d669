//! The framebuffer: a color plane, a parallel depth plane and a
//! parallel emission plane.
//!
//! Per frame the state machine is `clear`, then any number of
//! depth-tested writes, then one bloom/composite pass.  Depth is a
//! Q16.16 value where smaller is nearer; the depth plane starts at a
//! far sentinel that every finite depth beats.  Out-of-bounds writes
//! are silent no-ops.

use vstd::prelude::*;
use vstd::pervasive::VecAdditionalExecFns;
use vstd::arithmetic::div_mod::{
    lemma_breakdown, lemma_div_is_ordered, lemma_fundamental_div_mod,
    lemma_fundamental_div_mod_converse_div, lemma_small_mod,
};
use vstd::arithmetic::mul::lemma_mul_upper_bound;
use crate::color::Color;

verus! {

/// The farthest representable depth; `clear` resets the depth plane to
/// this sentinel, which no depth-tested write can equal or beat less
/// than strictly.
pub const DEPTH_FAR: i64 = 9223372036854775807;

/// The mathematical state of a framebuffer.
#[verifier::ext_equal]
pub ghost struct FbView {
    pub width: int,
    pub height: int,
    pub colors: Seq<u32>,
    pub depths: Seq<i64>,
    pub emission: Seq<u32>,
    pub background: u32,
    pub current: u32,
}

/// A well-formed framebuffer state: bounded dimensions, one entry per
/// pixel in each plane, and 24-bit packed colors everywhere.
pub open spec fn fb_wf(v: FbView) -> bool {
    &&& 1 <= v.width <= 16384
    &&& 1 <= v.height <= 16384
    &&& v.colors.len() == v.width * v.height
    &&& v.depths.len() == v.width * v.height
    &&& v.emission.len() == v.width * v.height
    &&& forall|i: int| 0 <= i < v.colors.len() ==> v.colors[i] < 16777216
    &&& forall|i: int| 0 <= i < v.emission.len() ==> v.emission[i] < 16777216
    &&& v.background < 16777216
    &&& v.current < 16777216
}

/// The freshly cleared planes of a state: every color the background,
/// every depth the far sentinel, every emission entry zero.
pub open spec fn spec_clear(v: FbView) -> FbView {
    FbView {
        colors: Seq::new((v.width * v.height) as nat, |i: int| v.background),
        depths: Seq::new((v.width * v.height) as nat, |i: int| DEPTH_FAR),
        emission: Seq::new((v.width * v.height) as nat, |i: int| 0u32),
        ..v
    }
}

/// A depth-tested write of `color` at `(x, y)`: only a strictly nearer
/// depth updates the pixel, and then color and depth move together.
/// Out of bounds, nothing changes.
pub open spec fn spec_point(v: FbView, x: int, y: int, depth: i64, color: u32) -> FbView {
    if 0 <= x < v.width && 0 <= y < v.height && depth < v.depths[y * v.width + x] {
        FbView {
            colors: v.colors.update(y * v.width + x, color),
            depths: v.depths.update(y * v.width + x, depth),
            ..v
        }
    } else {
        v
    }
}

/// An unconditional emission-plane write at `(x, y)`; out of bounds,
/// nothing changes.
pub open spec fn spec_set_emission(v: FbView, x: int, y: int, color: u32) -> FbView {
    if 0 <= x < v.width && 0 <= y < v.height {
        FbView { emission: v.emission.update(y * v.width + x, color), ..v }
    } else {
        v
    }
}

/// A depth-tested write into the emission plane: the same depth test
/// as [`spec_point`], updating emission and depth together.
pub open spec fn spec_point_emission(v: FbView, x: int, y: int, depth: i64, color: u32) -> FbView {
    if 0 <= x < v.width && 0 <= y < v.height && depth < v.depths[y * v.width + x] {
        FbView {
            emission: v.emission.update(y * v.width + x, color),
            depths: v.depths.update(y * v.width + x, depth),
            ..v
        }
    } else {
        v
    }
}

/// Channel `k` (0 red, 1 green, 2 blue) of a packed color.
pub open spec fn ch(c: u32, k: int) -> int {
    if k == 0 {
        c as int / 65536 % 256
    } else if k == 1 {
        c as int / 256 % 256
    } else {
        c as int % 256
    }
}

/// The sum of channel `k` of an emission plane over one row segment
/// `[xlo, xhi]` of row `y` (empty when `xlo > xhi`).
pub open spec fn em_row_sum(em: Seq<u32>, width: int, y: int, xlo: int, xhi: int, k: int) -> int
    decreases xhi - xlo + 1,
{
    if xlo > xhi {
        0
    } else {
        em_row_sum(em, width, y, xlo, xhi - 1, k) + ch(em[y * width + xhi], k)
    }
}

/// The sum of channel `k` of an emission plane over the rectangle
/// `[xlo, xhi] x [ylo, yhi]` (empty when `ylo > yhi`).
pub open spec fn em_rect_sum(
    em: Seq<u32>,
    width: int,
    xlo: int,
    xhi: int,
    ylo: int,
    yhi: int,
    k: int,
) -> int
    decreases yhi - ylo + 1,
{
    if ylo > yhi {
        0
    } else {
        em_rect_sum(em, width, xlo, xhi, ylo, yhi - 1, k) + em_row_sum(em, width, yhi, xlo, xhi, k)
    }
}

pub open spec fn imax(a: int, b: int) -> int {
    if a >= b {
        a
    } else {
        b
    }
}

pub open spec fn imin(a: int, b: int) -> int {
    if a <= b {
        a
    } else {
        b
    }
}

/// One channel of the bloom result at pixel `(x, y)`: the emission
/// plane averaged over the in-bounds part of the square neighborhood,
/// scaled by the Q16.16 `intensity`, clamped to a channel, and
/// screen-blended under the base channel.
pub open spec fn bloom_ch(v: FbView, radius: int, intensity: int, x: int, y: int, k: int) -> int {
    let xlo = imax(x - radius, 0);
    let xhi = imin(x + radius, v.width - 1);
    let ylo = imax(y - radius, 0);
    let yhi = imin(y + radius, v.height - 1);
    let count = (xhi - xlo + 1) * (yhi - ylo + 1);
    let avg = em_rect_sum(v.emission, v.width, xlo, xhi, ylo, yhi, k) / count;
    let scaled = imin(avg * intensity / 65536, 255);
    let base = ch(v.colors[y * v.width + x], k);
    255 - (255 - base) * (255 - scaled) / 255
}

/// The bloom result for a whole pixel, repacked.
pub open spec fn bloom_pixel(v: FbView, radius: int, intensity: int, i: int) -> u32 {
    let x = i % v.width;
    let y = i / v.width;
    (bloom_ch(v, radius, intensity, x, y, 0) * 65536 + bloom_ch(v, radius, intensity, x, y, 1)
        * 256 + bloom_ch(v, radius, intensity, x, y, 2)) as u32
}

/// The bloom/composite pass over a whole state: every color plane
/// pixel is screen-blended with its blurred, scaled emission, and the
/// emission plane is cleared for the next frame.
pub open spec fn spec_apply_emission(v: FbView, radius: int, intensity: int) -> FbView {
    FbView {
        colors: Seq::new(v.colors.len(), |i: int| bloom_pixel(v, radius, intensity, i)),
        emission: Seq::new(v.emission.len(), |i: int| 0u32),
        ..v
    }
}

pub struct Framebuffer {
    pub width: usize,
    pub height: usize,
    pub buffer: Vec<u32>,
    pub zbuffer: Vec<i64>,
    pub emission_buffer: Vec<u32>,
    background_color: u32,
    current_color: u32,
}

impl View for Framebuffer {
    type V = FbView;

    closed spec fn view(&self) -> FbView {
        FbView {
            width: self.width as int,
            height: self.height as int,
            colors: self.buffer@,
            depths: self.zbuffer@,
            emission: self.emission_buffer@,
            background: self.background_color,
            current: self.current_color,
        }
    }
}

impl Framebuffer {
    pub open spec fn wf(&self) -> bool {
        fb_wf(self@)
    }

    /// A cleared framebuffer of the given resolution, black background
    /// and white current color.
    pub fn new(width: usize, height: usize) -> (fb: Framebuffer)
        requires
            1 <= width <= 16384,
            1 <= height <= 16384,
        ensures
            fb@.width == width,
            fb@.height == height,
            fb@.background == 0,
            fb@.current == 0xFFFFFF,
            fb@.colors =~= Seq::new((width * height) as nat, |i: int| 0u32),
            fb@.depths =~= Seq::new((width * height) as nat, |i: int| DEPTH_FAR),
            fb@.emission =~= Seq::new((width * height) as nat, |i: int| 0u32),
            fb.wf(),
    {
        proof {
            lemma_mul_upper_bound(width as int, 16384, height as int, 16384);
            assert(width as int * height as int >= 0) by (nonlinear_arith)
                requires
                    width >= 0,
                    height >= 0,
            ;
        }
        let len = width * height;
        let fb = Framebuffer {
            width,
            height,
            buffer: vec![0u32; len],
            zbuffer: vec![DEPTH_FAR; len],
            emission_buffer: vec![0u32; len],
            background_color: 0,
            current_color: 0xFFFFFF,
        };
        proof {
            assert(fb@.colors =~= Seq::new((width * height) as nat, |i: int| 0u32));
            assert(fb@.depths =~= Seq::new((width * height) as nat, |i: int| DEPTH_FAR));
            assert(fb@.emission =~= Seq::new((width * height) as nat, |i: int| 0u32));
        }
        fb
    }

    /// The width in pixels.
    pub fn width(&self) -> (w: usize)
        ensures
            w == self@.width,
    {
        self.width
    }

    /// The height in pixels.
    pub fn height(&self) -> (h: usize)
        ensures
            h == self@.height,
    {
        self.height
    }

    /// Reset all three planes for a new frame.
    pub fn clear(&mut self)
        requires
            old(self).wf(),
        ensures
            final(self)@ =~= spec_clear(old(self)@),
            final(self).wf(),
    {
        proof {
            lemma_mul_upper_bound(self.width as int, 16384, self.height as int, 16384);
            assert(self@.width * self@.height >= 0) by (nonlinear_arith)
                requires
                    self@.width >= 0,
                    self@.height >= 0,
            ;
        }
        let len = self.width * self.height;
        let bg = self.background_color;
        self.buffer = vec![bg; len];
        self.zbuffer = vec![DEPTH_FAR; len];
        self.emission_buffer = vec![0u32; len];
        proof {
            assert(self@.colors =~= spec_clear(old(self)@).colors);
            assert(self@.depths =~= spec_clear(old(self)@).depths);
            assert(self@.emission =~= spec_clear(old(self)@).emission);
        }
    }

    /// The row-major index of an in-bounds pixel.
    fn pixel_index(&self, x: usize, y: usize) -> (i: usize)
        requires
            self.wf(),
            x < self.width,
            y < self.height,
        ensures
            i == y * self@.width + x,
            i < self@.colors.len(),
            i < self@.depths.len(),
            i < self@.emission.len(),
    {
        proof {
            lemma_mul_upper_bound(y as int, 16383, self.width as int, 16384);
            assert(y as int * self.width as int >= 0) by (nonlinear_arith)
                requires
                    y >= 0,
                    self.width as int >= 0,
            ;
            assert((y as int * self.width as int + x as int) < self.height as int
                * self.width as int) by (nonlinear_arith)
                requires
                    x < self.width,
                    y < self.height,
            ;
            vstd::arithmetic::mul::lemma_mul_is_commutative(
                self.height as int,
                self.width as int,
            );
        }
        y * self.width + x
    }

    /// Whether a write at this depth would win the depth test at an
    /// in-bounds pixel.
    pub fn depth_wins(&self, x: usize, y: usize, depth: i64) -> (r: bool)
        requires
            self.wf(),
            x < self@.width,
            y < self@.height,
        ensures
            r == (depth < self@.depths[y as int * self@.width + x as int]),
    {
        let i = self.pixel_index(x, y);
        self.zbuffer[i] > depth
    }

    /// Depth-tested write of the current color.
    pub fn point(&mut self, x: usize, y: usize, depth: i64)
        requires
            old(self).wf(),
        ensures
            final(self)@ == spec_point(old(self)@, x as int, y as int, depth, old(self)@.current),
            final(self).wf(),
    {
        if x < self.width && y < self.height {
            let i = self.pixel_index(x, y);
            if self.zbuffer[i] > depth {
                let c = self.current_color;
                self.buffer.set(i, c);
                self.zbuffer.set(i, depth);
            }
        }
    }

    /// Choose the color that `clear` fills the color plane with.
    pub fn set_background_color(&mut self, color: u32)
        requires
            old(self).wf(),
            color < 16777216,
        ensures
            final(self)@ == (FbView { background: color, ..old(self)@ }),
            final(self).wf(),
    {
        self.background_color = color;
    }

    /// Choose the color that the next depth-tested writes use.
    pub fn set_current_color(&mut self, color: u32)
        requires
            old(self).wf(),
            color < 16777216,
        ensures
            final(self)@ == (FbView { current: color, ..old(self)@ }),
            final(self).wf(),
    {
        self.current_color = color;
    }

    /// Write an emission color without a depth test.
    pub fn set_emission_color(&mut self, x: usize, y: usize, color: u32)
        requires
            old(self).wf(),
            color < 16777216,
        ensures
            final(self)@ == spec_set_emission(old(self)@, x as int, y as int, color),
            final(self).wf(),
    {
        if x < self.width && y < self.height {
            let i = self.pixel_index(x, y);
            self.emission_buffer.set(i, color);
        }
    }

    /// Depth-tested write of the current color into the emission
    /// plane; the depth plane is updated exactly as by `point`.
    pub fn point_emission(&mut self, x: usize, y: usize, depth: i64)
        requires
            old(self).wf(),
        ensures
            final(self)@ == spec_point_emission(
                old(self)@,
                x as int,
                y as int,
                depth,
                old(self)@.current,
            ),
            final(self).wf(),
    {
        if x < self.width && y < self.height {
            let i = self.pixel_index(x, y);
            if self.zbuffer[i] > depth {
                let c = self.current_color;
                self.emission_buffer.set(i, c);
                self.zbuffer.set(i, depth);
            }
        }
    }
    /// The bloom/composite pass: blur the emission plane over a square
    /// neighborhood (out-of-bounds neighbors excluded from sum and
    /// count alike), scale by the global emission intensity, screen-
    /// blend into the color plane, then clear the emission plane.
    #[verifier::rlimit(100)]
    #[verifier::spinoff_prover]
    pub fn apply_emission(&mut self, radius: usize, intensity: i64)
        requires
            old(self).wf(),
            0 <= intensity <= 1073741824,
        ensures
            final(self)@ =~= spec_apply_emission(old(self)@, radius as int, intensity as int),
            final(self).wf(),
    {
        let w = self.width;
        let h = self.height;
        // the window is clipped to the plane, so any radius beyond the
        // largest possible extent behaves like that extent
        let rc: usize = if radius > 16384 {
            16384
        } else {
            radius
        };
        let ghost v0 = self@;
        let mut y: usize = 0;
        while y < h
            invariant
                self.wf(),
                fb_wf(v0),
                self.width == w,
                self.height == h,
                w == v0.width,
                h == v0.height,
                self@ == (FbView { colors: self@.colors, ..v0 }),
                self@.colors.len() == v0.colors.len(),
                rc == (if radius > 16384 {
                    16384int
                } else {
                    radius as int
                }),
                0 <= intensity <= 1073741824,
                y <= h,
                forall|j: int|
                    0 <= j < y as int * w as int ==> self@.colors[j] == bloom_pixel(
                        v0,
                        radius as int,
                        intensity as int,
                        j,
                    ),
                forall|j: int|
                    y as int * w as int <= j < v0.colors.len() ==> self@.colors[j]
                        == v0.colors[j],
            decreases h - y,
        {
            let mut x: usize = 0;
            proof {
                lemma_mul_upper_bound(y as int, 16383, w as int, 16384);
                assert(y as int * w as int >= 0) by (nonlinear_arith)
                    requires
                        y >= 0,
                        w as int >= 0,
                ;
            }
            while x < w
                invariant
                    self.wf(),
                    fb_wf(v0),
                    self.width == w,
                    self.height == h,
                    w == v0.width,
                    h == v0.height,
                    self@ == (FbView { colors: self@.colors, ..v0 }),
                    self@.colors.len() == v0.colors.len(),
                    rc == (if radius > 16384 {
                        16384int
                    } else {
                        radius as int
                    }),
                    0 <= intensity <= 1073741824,
                    y < h,
                    x <= w,
                    0 <= y as int * w as int <= 268435456,
                    forall|j: int|
                        0 <= j < y as int * w as int + x as int ==> self@.colors[j]
                            == bloom_pixel(v0, radius as int, intensity as int, j),
                    forall|j: int|
                        y as int * w as int + x as int <= j < v0.colors.len() ==> self@.colors[j]
                            == v0.colors[j],
                decreases w - x,
            {
                let xlo: usize = if x >= rc {
                    x - rc
                } else {
                    0
                };
                let xhi: usize = if x + rc <= w - 1 {
                    x + rc
                } else {
                    w - 1
                };
                let ylo: usize = if y >= rc {
                    y - rc
                } else {
                    0
                };
                let yhi: usize = if y + rc <= h - 1 {
                    y + rc
                } else {
                    h - 1
                };
                proof {
                    // the clipped window of the clamped radius is the
                    // window of the requested radius
                    assert(xlo as int == imax(x as int - radius as int, 0));
                    assert(xhi as int == imin(x as int + radius as int, w as int - 1));
                    assert(ylo as int == imax(y as int - radius as int, 0));
                    assert(yhi as int == imin(y as int + radius as int, h as int - 1));
                }
                let (sr, sg, sb) = self.emission_rect_sums(xlo, xhi, ylo, yhi);
                proof {
                    lemma_mul_upper_bound(
                        (xhi - xlo + 1) as int,
                        16384,
                        (yhi - ylo + 1) as int,
                        16384,
                    );
                    assert(((xhi - xlo + 1) as int) * ((yhi - ylo + 1) as int) >= 1)
                        by (nonlinear_arith)
                        requires
                            xhi >= xlo,
                            yhi >= ylo,
                    ;
                }
                let count: u64 = ((xhi - xlo + 1) * (yhi - ylo + 1)) as u64;
                let ar: u64 = sr / count;
                let ag: u64 = sg / count;
                let ab: u64 = sb / count;
                proof {
                    // the average of channel values never exceeds a channel
                    assert(((yhi - ylo + 1) as int) * (((xhi - xlo + 1) as int) * 255)
                        == count as int * 255) by (nonlinear_arith)
                        requires
                            count as int == ((xhi - xlo + 1) as int) * ((yhi - ylo + 1) as int),
                    ;
                    vstd::arithmetic::mul::lemma_mul_is_commutative(count as int, 255);
                    lemma_fundamental_div_mod_converse_div(count as int * 255, count as int, 255, 0);
                    lemma_div_is_ordered(sr as int, count as int * 255, count as int);
                    lemma_div_is_ordered(sg as int, count as int * 255, count as int);
                    lemma_div_is_ordered(sb as int, count as int * 255, count as int);
                    lemma_mul_upper_bound(ar as int, 255, intensity as int, 1073741824);
                    lemma_mul_upper_bound(ag as int, 255, intensity as int, 1073741824);
                    lemma_mul_upper_bound(ab as int, 255, intensity as int, 1073741824);
                    assert(ar as int * intensity as int >= 0) by (nonlinear_arith)
                        requires
                            ar >= 0,
                            intensity >= 0,
                    ;
                    assert(ag as int * intensity as int >= 0) by (nonlinear_arith)
                        requires
                            ag >= 0,
                            intensity >= 0,
                    ;
                    assert(ab as int * intensity as int >= 0) by (nonlinear_arith)
                        requires
                            ab >= 0,
                            intensity >= 0,
                    ;
                }
                let scr: u64 = ar * (intensity as u64) / 65536;
                let scg: u64 = ag * (intensity as u64) / 65536;
                let scb: u64 = ab * (intensity as u64) / 65536;
                let scaled = Color {
                    r: if scr > 255 {
                        255
                    } else {
                        scr as u8
                    },
                    g: if scg > 255 {
                        255
                    } else {
                        scg as u8
                    },
                    b: if scb > 255 {
                        255
                    } else {
                        scb as u8
                    },
                };
                let i = self.pixel_index(x, y);
                let base = Color::from_hex(self.buffer[i]);
                let blended = base.blend_screen(&scaled);
                let out = blended.to_hex();
                proof {
                    vstd::arithmetic::div_mod::lemma_fundamental_div_mod_converse_div(
                        y as int * w as int + x as int,
                        w as int,
                        y as int,
                        x as int,
                    );
                    vstd::arithmetic::div_mod::lemma_fundamental_div_mod_converse_mod(
                        y as int * w as int + x as int,
                        w as int,
                        y as int,
                        x as int,
                    );
                    assert(bloom_pixel(v0, radius as int, intensity as int, i as int) == out);
                }
                self.buffer.set(i, out);
                proof {
                    assert(forall|j: int|
                        0 <= j < y as int * w as int + x as int + 1 ==> self@.colors[j]
                            == bloom_pixel(v0, radius as int, intensity as int, j));
                }
                x = x + 1;
            }
            proof {
                assert((y as int + 1) * w as int == y as int * w as int + w as int)
                    by (nonlinear_arith);
            }
            y = y + 1;
        }
        proof {
            lemma_mul_upper_bound(w as int, 16384, h as int, 16384);
            assert(w as int * h as int >= 0) by (nonlinear_arith)
                requires
                    w >= 1,
                    h >= 1,
            ;
            vstd::arithmetic::mul::lemma_mul_is_commutative(w as int, h as int);
            assert(y as int * w as int == h as int * w as int);
        }
        let len = w * h;
        self.emission_buffer = vec![0u32; len];
        proof {
            assert(self@.colors =~= spec_apply_emission(
                v0,
                radius as int,
                intensity as int,
            ).colors);
            assert(self@.emission =~= spec_apply_emission(
                v0,
                radius as int,
                intensity as int,
            ).emission);
        }
    }

    /// Per-channel sums of the emission plane over an in-bounds
    /// rectangle.
    fn emission_rect_sums(&self, xlo: usize, xhi: usize, ylo: usize, yhi: usize) -> (sums: (
        u64,
        u64,
        u64,
    ))
        requires
            self.wf(),
            xlo <= xhi < self@.width,
            ylo <= yhi < self@.height,
        ensures
            sums.0 == em_rect_sum(
                self@.emission,
                self@.width,
                xlo as int,
                xhi as int,
                ylo as int,
                yhi as int,
                0,
            ),
            sums.1 == em_rect_sum(
                self@.emission,
                self@.width,
                xlo as int,
                xhi as int,
                ylo as int,
                yhi as int,
                1,
            ),
            sums.2 == em_rect_sum(
                self@.emission,
                self@.width,
                xlo as int,
                xhi as int,
                ylo as int,
                yhi as int,
                2,
            ),
            sums.0 <= ((yhi - ylo + 1) as int) * (((xhi - xlo + 1) as int) * 255),
            sums.1 <= ((yhi - ylo + 1) as int) * (((xhi - xlo + 1) as int) * 255),
            sums.2 <= ((yhi - ylo + 1) as int) * (((xhi - xlo + 1) as int) * 255),
    {
        let mut sr: u64 = 0;
        let mut sg: u64 = 0;
        let mut sb: u64 = 0;
        let mut yy: usize = ylo;
        proof {
            lemma_rect_sum_bounds(self@.emission, self@.width, xlo as int, xhi as int, ylo as int, ylo as int - 1, 0);
            lemma_rect_sum_bounds(self@.emission, self@.width, xlo as int, xhi as int, ylo as int, ylo as int - 1, 1);
            lemma_rect_sum_bounds(self@.emission, self@.width, xlo as int, xhi as int, ylo as int, ylo as int - 1, 2);
        }
        while yy <= yhi
            invariant
                self.wf(),
                xlo <= xhi < self@.width,
                ylo <= yhi < self@.height,
                ylo <= yy <= yhi + 1,
                sr == em_rect_sum(self@.emission, self@.width, xlo as int, xhi as int, ylo as int, yy as int - 1, 0),
                sg == em_rect_sum(self@.emission, self@.width, xlo as int, xhi as int, ylo as int, yy as int - 1, 1),
                sb == em_rect_sum(self@.emission, self@.width, xlo as int, xhi as int, ylo as int, yy as int - 1, 2),
                sr <= ((yy - ylo) as int) * (((xhi - xlo + 1) as int) * 255),
                sg <= ((yy - ylo) as int) * (((xhi - xlo + 1) as int) * 255),
                sb <= ((yy - ylo) as int) * (((xhi - xlo + 1) as int) * 255),
                sr <= 68451041280,
                sg <= 68451041280,
                sb <= 68451041280,
            decreases yhi + 1 - yy,
        {
            let mut xx: usize = xlo;
            let mut rr: u64 = 0;
            let mut rg: u64 = 0;
            let mut rb: u64 = 0;
            while xx <= xhi
                invariant
                    self.wf(),
                    xlo <= xhi < self@.width,
                    ylo <= yy <= yhi < self@.height,
                    xlo <= xx <= xhi + 1,
                    rr == em_row_sum(self@.emission, self@.width, yy as int, xlo as int, xx as int - 1, 0),
                    rg == em_row_sum(self@.emission, self@.width, yy as int, xlo as int, xx as int - 1, 1),
                    rb == em_row_sum(self@.emission, self@.width, yy as int, xlo as int, xx as int - 1, 2),
                    rr <= ((xx - xlo) as int) * 255,
                    rg <= ((xx - xlo) as int) * 255,
                    rb <= ((xx - xlo) as int) * 255,
                    rr <= 4177920,
                    rg <= 4177920,
                    rb <= 4177920,
                decreases xhi + 1 - xx,
            {
                let i = self.pixel_index(xx, yy);
                let e = self.emission_buffer[i];
                let er = (e / 65536) % 256;
                let eg = (e / 256) % 256;
                let eb = e % 256;
                proof {
                    lemma_row_sum_bounds(self@.emission, self@.width, yy as int, xlo as int, xx as int, 0);
                    lemma_row_sum_bounds(self@.emission, self@.width, yy as int, xlo as int, xx as int, 1);
                    lemma_row_sum_bounds(self@.emission, self@.width, yy as int, xlo as int, xx as int, 2);
                }
                rr = rr + er as u64;
                rg = rg + eg as u64;
                rb = rb + eb as u64;
                xx = xx + 1;
            }
            proof {
                lemma_rect_sum_bounds(self@.emission, self@.width, xlo as int, xhi as int, ylo as int, yy as int, 0);
                lemma_rect_sum_bounds(self@.emission, self@.width, xlo as int, xhi as int, ylo as int, yy as int, 1);
                lemma_rect_sum_bounds(self@.emission, self@.width, xlo as int, xhi as int, ylo as int, yy as int, 2);
            }
            sr = sr + rr;
            sg = sg + rg;
            sb = sb + rb;
            yy = yy + 1;
        }
        (sr, sg, sb)
    }
}

/// A row sum of emission channels is between zero and 255 per pixel.
proof fn lemma_row_sum_bounds(em: Seq<u32>, width: int, y: int, xlo: int, xhi: int, k: int)
    requires
        xhi - xlo <= 16384,
    ensures
        0 <= em_row_sum(em, width, y, xlo, xhi, k) <= if xhi >= xlo {
            (xhi - xlo + 1) * 255
        } else {
            0
        },
    decreases xhi - xlo + 1,
{
    if xlo > xhi {
    } else {
        lemma_row_sum_bounds(em, width, y, xlo, xhi - 1, k);
        assert(0 <= ch(em[y * width + xhi], k) <= 255);
    }
}

/// A rectangle sum of emission channels is bounded by its area.
proof fn lemma_rect_sum_bounds(em: Seq<u32>, width: int, xlo: int, xhi: int, ylo: int, yhi: int, k: int)
    requires
        xhi - xlo <= 16383,
        yhi - ylo <= 16383,
    ensures
        0 <= em_rect_sum(em, width, xlo, xhi, ylo, yhi, k) <= if yhi >= ylo && xhi >= xlo {
            (yhi - ylo + 1) * ((xhi - xlo + 1) * 255)
        } else {
            0
        },
        em_rect_sum(em, width, xlo, xhi, ylo, yhi, k) <= 68451041280,
    decreases yhi - ylo + 1,
{
    if ylo > yhi {
    } else {
        lemma_rect_sum_bounds(em, width, xlo, xhi, ylo, yhi - 1, k);
        lemma_row_sum_bounds(em, width, yhi, xlo, xhi, k);
        if xhi >= xlo {
            assert((yhi - ylo + 1) * ((xhi - xlo + 1) * 255) == (yhi - ylo) * ((xhi - xlo + 1)
                * 255) + (xhi - xlo + 1) * 255) by (nonlinear_arith);
            assert((yhi - ylo + 1) * ((xhi - xlo + 1) * 255) <= 16384 * (16384 * 255))
                by (nonlinear_arith)
                requires
                    0 <= yhi - ylo <= 16383,
                    0 <= xhi - xlo <= 16383,
            ;
        }
    }
}

/// One step of the error-accumulator line walk: x advances when
/// twice the error clears `-dy`, y advances when it stays under
/// `dx`, and each advance folds its span into the error term.
pub open spec fn bres_step(
    x0: int,
    y0: int,
    err: int,
    sx: int,
    sy: int,
    dx: int,
    dy: int,
) -> (int, int, int) {
    let e2 = 2 * err;
    let xn = if e2 > -dy {
        x0 + sx
    } else {
        x0
    };
    let err1 = if e2 > -dy {
        err - dy
    } else {
        err
    };
    let yn = if e2 < dx {
        y0 + sy
    } else {
        y0
    };
    let err2 = if e2 < dx {
        err1 + dx
    } else {
        err1
    };
    (xn, yn, err2)
}

/// One pixel painted into a color plane; out of bounds, nothing
/// changes.
pub open spec fn spec_plot(
    colors: Seq<u32>,
    width: int,
    height: int,
    x: int,
    y: int,
    color: u32,
) -> Seq<u32> {
    if 0 <= x < width && 0 <= y < height {
        colors.update(y * width + x, color)
    } else {
        colors
    }
}

/// The color plane after the error-accumulator walk from `(x0, y0)`
/// toward `(x1, y1)`: each visited point short of the end point is
/// painted and the walk steps on, for at most `fuel` iterations
/// (`dx + dy` always suffices).
pub open spec fn spec_line_walk(
    colors: Seq<u32>,
    width: int,
    height: int,
    x0: int,
    y0: int,
    x1: int,
    y1: int,
    err: int,
    sx: int,
    sy: int,
    dx: int,
    dy: int,
    color: u32,
    fuel: nat,
) -> Seq<u32>
    decreases fuel,
{
    if fuel == 0 || (x0 == x1 && y0 == y1) {
        colors
    } else {
        let painted = spec_plot(colors, width, height, x0, y0, color);
        let s = bres_step(x0, y0, err, sx, sy, dx, dy);
        spec_line_walk(
            painted,
            width,
            height,
            s.0,
            s.1,
            x1,
            y1,
            s.2,
            sx,
            sy,
            dx,
            dy,
            color,
            (fuel - 1) as nat,
        )
    }
}

/// The meaning of [`Framebuffer::draw_line`]: the error-accumulator
/// walk over the whole segment, starting at `(x0, y0)` with the
/// error seeded to `dx - dy`.
pub open spec fn spec_draw_line(
    v: FbView,
    x0: int,
    y0: int,
    x1: int,
    y1: int,
    color: u32,
) -> Seq<u32> {
    let dx = crate::fixed::iabs(x1 - x0);
    let dy = crate::fixed::iabs(y1 - y0);
    let sx: int = if x0 < x1 {
        1
    } else {
        -1
    };
    let sy: int = if y0 < y1 {
        1
    } else {
        -1
    };
    spec_line_walk(
        v.colors,
        v.width,
        v.height,
        x0,
        y0,
        x1,
        y1,
        dx - dy,
        sx,
        sy,
        dx,
        dy,
        color,
        (dx + dy) as nat,
    )
}

/// The walk's error term stays well inside the machine range.
proof fn lemma_bres_err_bound(dx: int, dy: int, a: int, b: int, err: int)
    requires
        0 <= a <= dx <= 16384,
        0 <= b <= dy <= 16384,
        err == dx - dy + b * dx - a * dy,
    ensures
        -536887296 <= err <= 536887296,
{
    assert(0 <= b * dx <= 16384 * 16384) by (nonlinear_arith)
        requires
            0 <= b <= 16384,
            0 <= dx <= 16384,
    ;
    assert(0 <= a * dy <= 16384 * 16384) by (nonlinear_arith)
        requires
            0 <= a <= 16384,
            0 <= dy <= 16384,
    ;
}

impl Framebuffer {
    /// Draw a straight line segment into the color plane (no depth
    /// test) with the error-accumulator walk: every visited pixel is
    /// painted, stepping toward `(x1, y1)`, which itself is never
    /// reached by a paint (a zero-length segment paints nothing);
    /// pixels outside the buffer are skipped.
    #[verifier::rlimit(100)]
    #[verifier::spinoff_prover]
    pub fn draw_line(&mut self, x0: usize, y0: usize, x1: usize, y1: usize, color: u32)
        requires
            old(self).wf(),
            x0 <= 16384,
            y0 <= 16384,
            x1 <= 16384,
            y1 <= 16384,
            color < 16777216,
        ensures
            final(self)@ == (FbView {
                colors: spec_draw_line(
                    old(self)@,
                    x0 as int,
                    y0 as int,
                    x1 as int,
                    y1 as int,
                    color,
                ),
                ..old(self)@
            }),
            final(self).wf(),
    {
        let ghost v0 = self@;
        let x1i: i64 = x1 as i64;
        let y1i: i64 = y1 as i64;
        let mut cx: i64 = x0 as i64;
        let mut cy: i64 = y0 as i64;
        let dx: i64 = if cx < x1i {
            x1i - cx
        } else {
            cx - x1i
        };
        let dy: i64 = if cy < y1i {
            y1i - cy
        } else {
            cy - y1i
        };
        let sx: i64 = if cx < x1i {
            1
        } else {
            -1
        };
        let sy: i64 = if cy < y1i {
            1
        } else {
            -1
        };
        let mut err: i64 = dx - dy;
        let ghost mut a: int = 0;
        let ghost mut b: int = 0;
        let ghost mut fuel: int = dx + dy;
        while cx != x1i || cy != y1i
            invariant
                self.wf(),
                fb_wf(v0),
                self@ == (FbView { colors: self@.colors, ..v0 }),
                x0 <= 16384,
                y0 <= 16384,
                x1 <= 16384,
                y1 <= 16384,
                color < 16777216,
                x1i == x1 as int,
                y1i == y1 as int,
                dx == crate::fixed::iabs(x1 as int - x0 as int),
                dy == crate::fixed::iabs(y1 as int - y0 as int),
                sx == (if (x0 as int) < x1 as int {
                    1int
                } else {
                    -1int
                }),
                sy == (if (y0 as int) < y1 as int {
                    1int
                } else {
                    -1int
                }),
                x1 as int - x0 as int == sx * dx,
                y1 as int - y0 as int == sy * dy,
                cx == x0 as int + sx * a,
                cy == y0 as int + sy * b,
                0 <= a <= dx,
                0 <= b <= dy,
                err == dx - dy + b * dx - a * dy,
                (dx - a) + (dy - b) <= fuel <= dx + dy,
                spec_line_walk(
                    self@.colors,
                    v0.width,
                    v0.height,
                    cx as int,
                    cy as int,
                    x1 as int,
                    y1 as int,
                    err as int,
                    sx as int,
                    sy as int,
                    dx as int,
                    dy as int,
                    color,
                    fuel as nat,
                ) == spec_draw_line(v0, x0 as int, y0 as int, x1 as int, y1 as int, color),
            decreases fuel,
        {
            let ghost colors_pre = self@.colors;
            let ghost cx0 = cx as int;
            let ghost cy0 = cy as int;
            let ghost err0 = err as int;
            let ghost a0 = a;
            let ghost b0 = b;
            let ghost fuel0 = fuel;
            proof {
                lemma_bres_err_bound(dx as int, dy as int, a, b, err as int);
                // the walk never overshoots, so the point is in range
                if sx == 1 {
                    assert(cx == x0 as int + a) by (nonlinear_arith)
                        requires
                            cx == x0 as int + sx * a,
                            sx == 1,
                    ;
                } else {
                    assert(cx == x0 as int - a) by (nonlinear_arith)
                        requires
                            cx == x0 as int + sx * a,
                            sx == -1,
                    ;
                }
                if sy == 1 {
                    assert(cy == y0 as int + b) by (nonlinear_arith)
                        requires
                            cy == y0 as int + sy * b,
                            sy == 1,
                    ;
                } else {
                    assert(cy == y0 as int - b) by (nonlinear_arith)
                        requires
                            cy == y0 as int + sy * b,
                            sy == -1,
                    ;
                }
                assert(x1 as int - x0 as int == dx || x1 as int - x0 as int == -(dx as int))
                    by (nonlinear_arith)
                    requires
                        x1 as int - x0 as int == sx * dx,
                        sx == 1 || sx == -1,
                ;
                assert(y1 as int - y0 as int == dy || y1 as int - y0 as int == -(dy as int))
                    by (nonlinear_arith)
                    requires
                        y1 as int - y0 as int == sy * dy,
                        sy == 1 || sy == -1,
                ;
                assert(0 <= cx <= 16384);
                assert(0 <= cy <= 16384);
            }
            if cx >= 0 && cy >= 0 && (cx as usize) < self.width && (cy as usize) < self.height {
                let i = self.pixel_index(cx as usize, cy as usize);
                self.buffer.set(i, color);
            }
            proof {
                assert(self@.colors =~= spec_plot(
                    colors_pre,
                    v0.width,
                    v0.height,
                    cx0,
                    cy0,
                    color,
                ));
            }
            let e2: i64 = 2 * err;
            let step_x: bool = e2 > -dy;
            let step_y: bool = e2 < dx;
            if step_x {
                proof {
                    // x is not yet done: were it, the error would sit
                    // at or below -dy and the branch could not fire
                    if a == dx {
                        assert(b <= dy - 1);
                        assert(2 * (dx - dy + b * dx - dx * dy) <= -2 * dy) by (nonlinear_arith)
                            requires
                                0 <= b <= dy - 1,
                                dx >= 0,
                                dy >= 1,
                        ;
                        assert(false);
                    }
                }
                err = err - dy;
                cx = cx + sx;
                proof {
                    a = a + 1;
                    assert(a * (dy as int) == a0 * (dy as int) + dy) by (nonlinear_arith)
                        requires
                            a == a0 + 1,
                    ;
                    assert(sx * a == sx * a0 + sx) by (nonlinear_arith)
                        requires
                            a == a0 + 1,
                    ;
                }
            }
            if step_y {
                proof {
                    if b == b0 && b == dy {
                        assert(a0 <= dx - 1);
                        assert(2 * (dx - dy + dy * dx - a0 * dy) >= 2 * dx) by (nonlinear_arith)
                            requires
                                0 <= a0 <= dx - 1,
                                dx >= 1,
                                dy >= 0,
                        ;
                        assert(false);
                    }
                }
                err = err + dx;
                cy = cy + sy;
                proof {
                    b = b + 1;
                    assert(b * (dx as int) == b0 * (dx as int) + dx) by (nonlinear_arith)
                        requires
                            b == b0 + 1,
                    ;
                    assert(sy * b == sy * b0 + sy) by (nonlinear_arith)
                        requires
                            b == b0 + 1,
                    ;
                }
            }
            proof {
                if !step_x && !step_y {
                    assert(dx as int <= 2 * err0 <= -(dy as int));
                    assert(false);
                }
                fuel = fuel - 1;
                assert((cx as int, cy as int, err as int) == bres_step(
                    cx0,
                    cy0,
                    err0,
                    sx as int,
                    sy as int,
                    dx as int,
                    dy as int,
                ));
                assert(spec_line_walk(
                    colors_pre,
                    v0.width,
                    v0.height,
                    cx0,
                    cy0,
                    x1 as int,
                    y1 as int,
                    err0,
                    sx as int,
                    sy as int,
                    dx as int,
                    dy as int,
                    color,
                    fuel0 as nat,
                ) == spec_line_walk(
                    self@.colors,
                    v0.width,
                    v0.height,
                    cx as int,
                    cy as int,
                    x1 as int,
                    y1 as int,
                    err as int,
                    sx as int,
                    sy as int,
                    dx as int,
                    dy as int,
                    color,
                    fuel as nat,
                ));
            }
        }
    }
}

/// Law: the depth-tested write is idempotent — writing the same
/// `(x, y, depth, color)` a second time leaves the state unchanged.
pub proof fn lemma_point_idempotent(v: FbView, x: int, y: int, depth: i64, color: u32)
    requires
        fb_wf(v),
    ensures
        spec_point(spec_point(v, x, y, depth, color), x, y, depth, color) == spec_point(
            v,
            x,
            y,
            depth,
            color,
        ),
{
    lemma_pixel_index_in_range(v, x, y);
}

/// Law: after a depth-tested write, a second write at the same pixel
/// with a depth at least as far does not overwrite it.
pub proof fn lemma_point_farther_no_overwrite(
    v: FbView,
    x: int,
    y: int,
    d1: i64,
    c1: u32,
    d2: i64,
    c2: u32,
)
    requires
        fb_wf(v),
        d1 <= d2,
    ensures
        spec_point(spec_point(v, x, y, d1, c1), x, y, d2, c2) == spec_point(v, x, y, d1, c1),
{
    lemma_pixel_index_in_range(v, x, y);
}

/// An in-bounds pixel's row-major index addresses every plane.
pub proof fn lemma_pixel_index_in_range(v: FbView, x: int, y: int)
    requires
        fb_wf(v),
    ensures
        0 <= x < v.width && 0 <= y < v.height ==> 0 <= y * v.width + x < v.colors.len(),
{
    if 0 <= x < v.width && 0 <= y < v.height {
        assert((y * v.width + x) < v.height * v.width) by (nonlinear_arith)
            requires
                0 <= x < v.width,
                0 <= y < v.height,
        ;
        assert(y * v.width >= 0) by (nonlinear_arith)
            requires
                y >= 0,
                v.width >= 0,
        ;
        vstd::arithmetic::mul::lemma_mul_is_commutative(v.height, v.width);
    }
}

/// Law: with emission intensity zero, the bloom pass leaves the color
/// plane identical.
pub proof fn lemma_bloom_identity_at_zero_intensity(v: FbView, radius: int)
    requires
        fb_wf(v),
        0 <= radius,
    ensures
        spec_apply_emission(v, radius, 0).colors =~= v.colors,
{
    assert forall|i: int| 0 <= i < v.colors.len() implies bloom_pixel(v, radius, 0, i)
        == v.colors[i] by {
        let x = i % v.width;
        let y = i / v.width;
        vstd::arithmetic::div_mod::lemma_multiply_divide_lt(i, v.width, v.height);
        lemma_fundamental_div_mod(i, v.width);
        assert(0 <= x < v.width);
        assert(0 <= y < v.height);
        assert(y * v.width + x == i);
        lemma_bloom_ch_zero(v, radius, x, y, 0);
        lemma_bloom_ch_zero(v, radius, x, y, 1);
        lemma_bloom_ch_zero(v, radius, x, y, 2);
        lemma_unpack_repack(v.colors[i]);
    }
}

/// One channel of the bloom at intensity zero is the base channel.
proof fn lemma_bloom_ch_zero(v: FbView, radius: int, x: int, y: int, k: int)
    requires
        fb_wf(v),
        0 <= radius,
        0 <= x < v.width,
        0 <= y < v.height,
    ensures
        bloom_ch(v, radius, 0, x, y, k) == ch(v.colors[y * v.width + x], k),
{
    let xlo = imax(x - radius, 0);
    let xhi = imin(x + radius, v.width - 1);
    let ylo = imax(y - radius, 0);
    let yhi = imin(y + radius, v.height - 1);
    let count = (xhi - xlo + 1) * (yhi - ylo + 1);
    let avg = em_rect_sum(v.emission, v.width, xlo, xhi, ylo, yhi, k) / count;
    assert(avg * 0 == 0) by (nonlinear_arith);
    let base = ch(v.colors[y * v.width + x], k);
    assert(0 <= base <= 255);
    lemma_fundamental_div_mod_converse_div((255 - base) * 255, 255, 255 - base, 0);
}

/// Screen-blend two packed colors: per channel,
/// `255 - (255 - base) * (255 - emission) / 255`.
pub fn blend_screen(base: u32, emission: u32) -> (r: u32)
    ensures
        r == spec_blend_screen(base, emission),
        r < 16777216,
{
    let b = Color::from_hex(base);
    let e = Color::from_hex(emission);
    let s = b.blend_screen(&e);
    let out = s.to_hex();
    proof {
        lemma_repack_channels(s);
    }
    out
}

/// The meaning of [`blend_screen`]: each channel screen-blended, then
/// repacked.
pub open spec fn spec_blend_screen(base: u32, emission: u32) -> u32 {
    ((255 - (255 - ch(base, 0)) * (255 - ch(emission, 0)) / 255) * 65536 + (255 - (255 - ch(
        base,
        1,
    )) * (255 - ch(emission, 1)) / 255) * 256 + (255 - (255 - ch(base, 2)) * (255 - ch(
        emission,
        2,
    )) / 255)) as u32
}

/// Packing three in-range channels and unpacking them is lossless.
proof fn lemma_repack_channels(c: Color)
    ensures
        ch((c.r as int * 65536 + c.g as int * 256 + c.b as int) as u32, 0) == c.r,
        ch((c.r as int * 65536 + c.g as int * 256 + c.b as int) as u32, 1) == c.g,
        ch((c.r as int * 65536 + c.g as int * 256 + c.b as int) as u32, 2) == c.b,
{
    crate::color::lemma_hex_round_trip(c);
}

/// Unpacking a 24-bit packed color and repacking it is the identity.
pub proof fn lemma_unpack_repack(c: u32)
    requires
        c < 16777216,
    ensures
        ch(c, 0) * 65536 + ch(c, 1) * 256 + ch(c, 2) == c,
{
    let x = c as int;
    lemma_fundamental_div_mod(x, 65536);
    lemma_breakdown(x, 256, 256);
    lemma_div_is_ordered(x, 16777215, 65536);
    lemma_small_mod((x / 65536) as nat, 256);
}

} // verus!
