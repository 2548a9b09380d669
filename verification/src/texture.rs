//! A 2D color texture sampled by UV coordinates.
//!
//! The pixel grid is owned by the structure and injected into shading
//! explicitly, so there is no initialize-before-use hazard.  Sampling
//! wraps fractionally: the integer part of each coordinate is dropped
//! and the magnitude of the remainder addresses the grid.

use vstd::prelude::*;
use vstd::arithmetic::div_mod::lemma_multiply_divide_lt;
use vstd::arithmetic::mul::lemma_mul_upper_bound;
use crate::color::Color;
use crate::fixed::{fx_ok, iabs};

verus! {

#[derive(Clone, Debug)]
pub struct Texture {
    width: u32,
    height: u32,
    data: Vec<Color>,
}

impl Texture {
    /// The pixel grid as a sequence, row-major.
    pub closed spec fn spec_data(&self) -> Seq<Color> {
        self.data@
    }

    pub closed spec fn spec_width(&self) -> int {
        self.width as int
    }

    pub closed spec fn spec_height(&self) -> int {
        self.height as int
    }

    /// A well-formed texture: a nonempty grid of at most 16384 pixels
    /// a side whose data holds exactly one color per pixel.
    pub open spec fn wf(&self) -> bool {
        &&& 1 <= self.spec_width() <= 16384
        &&& 1 <= self.spec_height() <= 16384
        &&& self.spec_data().len() == self.spec_width() * self.spec_height()
    }

    /// A texture from its dimensions and row-major pixels; rejects
    /// dimensions of zero, dimensions beyond 16384, and a pixel count
    /// that does not match.
    pub fn new(width: u32, height: u32, data: Vec<Color>) -> (r: Option<Texture>)
        ensures
            match r {
                Some(t) => {
                    &&& t.wf()
                    &&& t.spec_width() == width
                    &&& t.spec_height() == height
                    &&& t.spec_data() == data@
                    &&& 1 <= width <= 16384
                    &&& 1 <= height <= 16384
                    &&& data@.len() == width * height
                },
                None => !(1 <= width <= 16384 && 1 <= height <= 16384 && data@.len() == width
                    * height),
            },
    {
        if width < 1 || width > 16384 || height < 1 || height > 16384 {
            return None;
        }
        proof {
            lemma_mul_upper_bound(width as int, 16384, height as int, 16384);
            assert(width as int * height as int >= 0) by (nonlinear_arith)
                requires
                    width >= 0,
                    height >= 0,
            ;
        }
        let expect: u64 = width as u64 * height as u64;
        if data.len() as u64 != expect {
            return None;
        }
        Some(Texture { width, height, data })
    }

    /// The width in pixels.
    pub fn width(&self) -> (w: u32)
        ensures
            w == self.spec_width(),
    {
        self.width
    }

    /// The height in pixels.
    pub fn height(&self) -> (h: u32)
        ensures
            h == self.spec_height(),
    {
        self.height
    }

    /// Sample by fixed-point UV coordinates with fractional
    /// wraparound: the fractional magnitude of each coordinate picks
    /// the grid cell.
    pub fn sample(&self, u: i64, v: i64) -> (c: Color)
        requires
            self.wf(),
            fx_ok(u),
            fx_ok(v),
        ensures
            c == spec_sample(self, u as int, v as int),
    {
        let fu: u64 = (if u < 0 {
            -u
        } else {
            u
        }) as u64 % 65536;
        let fv: u64 = (if v < 0 {
            -v
        } else {
            v
        }) as u64 % 65536;
        proof {
            lemma_mul_upper_bound(fu as int, 65535, self.width as int, 16384);
            lemma_mul_upper_bound(fv as int, 65535, self.height as int, 16384);
            assert(fu as int * self.width as int >= 0) by (nonlinear_arith)
                requires
                    fu >= 0,
                    self.width >= 0,
            ;
            assert(fv as int * self.height as int >= 0) by (nonlinear_arith)
                requires
                    fv >= 0,
                    self.height >= 0,
            ;
            assert((fu as int * self.width as int) < 65536 * self.width as int) by (nonlinear_arith)
                requires
                    fu < 65536,
                    self.width >= 1,
            ;
            lemma_multiply_divide_lt(fu as int * self.width as int, 65536, self.width as int);
            assert((fv as int * self.height as int) < 65536 * self.height as int) by (nonlinear_arith)
                requires
                    fv < 65536,
                    self.height >= 1,
            ;
            lemma_multiply_divide_lt(fv as int * self.height as int, 65536, self.height as int);
        }
        let x: u64 = fu * self.width as u64 / 65536;
        let y: u64 = fv * self.height as u64 / 65536;
        proof {
            assert((y as int * self.width as int + x as int) < self.height as int
                * self.width as int) by (nonlinear_arith)
                requires
                    x < self.width,
                    y < self.height,
            ;
            lemma_mul_upper_bound(y as int, 16383, self.width as int, 16384);
            assert(y as int * self.width as int >= 0) by (nonlinear_arith)
                requires
                    y >= 0,
                    self.width >= 0,
            ;
            vstd::arithmetic::mul::lemma_mul_is_commutative(
                self.height as int,
                self.width as int,
            );
        }
        let index: u64 = y * self.width as u64 + x;
        self.data[index as usize]
    }
}

/// The meaning of [`Texture::sample`].
pub open spec fn spec_sample(t: &Texture, u: int, v: int) -> Color {
    let fu = iabs(u) % 65536;
    let fv = iabs(v) % 65536;
    let x = fu * t.spec_width() / 65536;
    let y = fv * t.spec_height() / 65536;
    t.spec_data()[y * t.spec_width() + x]
}

} // verus!
