//! Deterministic procedural value noise over fixed-point coordinates.
//!
//! A `Noise` handle holds a seed and a sampling frequency; sampling
//! hashes the four surrounding lattice points with modular arithmetic
//! and interpolates bilinearly.  The result is always in
//! `[-FX_ONE, FX_ONE]` and depends on nothing but the handle and the
//! coordinates, so shading with it is reproducible.

use vstd::prelude::*;
use vstd::arithmetic::mul::lemma_mul_upper_bound;
use crate::fixed::{
    fx_clamp, fx_floor_units, fx_mul, fx_ok, fx_sub, spec_clamp, spec_fx_mul,
};

verus! {

/// The modulus of the lattice hash: a Mersenne prime.
pub const NOISE_MOD: u64 = 2147483647;

#[derive(Clone, Copy, Debug, PartialEq, Eq, Structural)]
pub struct Noise {
    pub seed: u64,
    pub frequency: i64,
}

pub open spec fn noise_ok(n: Noise) -> bool {
    fx_ok(n.frequency)
}

/// The hash of one lattice point, a value in `[-FX_ONE, FX_ONE]`.
pub open spec fn spec_lattice(seed: u64, xi: int, yi: int) -> int {
    let a = ((xi + 20000) * 73856093 + (yi + 20000) * 19349663 + (seed as int % 2147483647)
        * 83492791) % 2147483647;
    let b = ((a * a) % 2147483647 + a) % 2147483647;
    b % 131073 - 65536
}

/// Linear interpolation between two lattice values with a fractional
/// weight `t` in `[0, FX_ONE)`.
pub open spec fn spec_nlerp(a: int, b: int, t: int) -> int {
    a + spec_fx_mul(b - a, t)
}

/// The meaning of [`Noise::get_noise_2d`].
pub open spec fn spec_noise_2d(n: Noise, x: int, y: int) -> int {
    let xs = spec_fx_mul(x, n.frequency as int);
    let ys = spec_fx_mul(y, n.frequency as int);
    let xi = xs / 65536;
    let yi = ys / 65536;
    let tx = xs - xi * 65536;
    let ty = ys - yi * 65536;
    let h00 = spec_lattice(n.seed, xi, yi);
    let h10 = spec_lattice(n.seed, xi + 1, yi);
    let h01 = spec_lattice(n.seed, xi, yi + 1);
    let h11 = spec_lattice(n.seed, xi + 1, yi + 1);
    let a = spec_nlerp(h00, h10, tx);
    let b = spec_nlerp(h01, h11, tx);
    spec_clamp(spec_nlerp(a, b, ty), -65536, 65536)
}

fn lattice(seed: u64, xi: i64, yi: i64) -> (h: i64)
    requires
        -16385 <= xi <= 16385,
        -16385 <= yi <= 16385,
    ensures
        h == spec_lattice(seed, xi as int, yi as int),
        -65536 <= h <= 65536,
{
    let xu: u64 = (xi + 20000) as u64;
    let yu: u64 = (yi + 20000) as u64;
    let s: u64 = seed % NOISE_MOD;
    proof {
        lemma_mul_upper_bound(s as int, 2147483646, 83492791, 83492791);
    }
    let a: u64 = (xu * 73856093 + yu * 19349663 + s * 83492791) % NOISE_MOD;
    proof {
        lemma_mul_upper_bound(a as int, 2147483646, a as int, 2147483646);
    }
    let b: u64 = ((a * a) % NOISE_MOD + a) % NOISE_MOD;
    let h: i64 = (b % 131073) as i64 - 65536;
    h
}

/// One interpolation step between lattice values.
fn nlerp(a: i64, b: i64, t: i64) -> (r: i64)
    requires
        -65536 <= a <= 65536,
        -65536 <= b <= 65536,
        0 <= t < 65536,
    ensures
        r == spec_nlerp(a as int, b as int, t as int),
        -196608 <= r <= 196608,
{
    let d = fx_sub(b, a);
    let m = fx_mul(d, t);
    proof {
        crate::fixed::lemma_fx_mul_le_left(d as int, t as int, 131072);
    }
    a + m
}

impl Noise {
    /// A noise field from a seed and a Q16.16 sampling frequency.
    pub fn new(seed: u64, frequency: i64) -> (n: Noise)
        requires
            fx_ok(frequency),
        ensures
            n.seed == seed,
            n.frequency == frequency,
            noise_ok(n),
    {
        Noise { seed, frequency }
    }

    /// A noise field with the default frequency of 0.01 units.
    pub fn with_seed(seed: u64) -> (n: Noise)
        ensures
            n.seed == seed,
            n.frequency == 655,
            noise_ok(n),
    {
        Noise { seed, frequency: 655 }
    }

    /// Change the sampling frequency.
    pub fn set_frequency(&mut self, frequency: i64)
        requires
            fx_ok(frequency),
        ensures
            final(self).seed == old(self).seed,
            final(self).frequency == frequency,
            noise_ok(*final(self)),
    {
        self.frequency = frequency;
    }

    /// Sample the field at a fixed-point position.
    pub fn get_noise_2d(&self, x: i64, y: i64) -> (r: i64)
        requires
            noise_ok(*self),
            fx_ok(x),
            fx_ok(y),
        ensures
            r == spec_noise_2d(*self, x as int, y as int),
            -65536 <= r <= 65536,
    {
        let xs = fx_mul(x, self.frequency);
        let ys = fx_mul(y, self.frequency);
        let xi = fx_floor_units(xs);
        let yi = fx_floor_units(ys);
        proof {
            vstd::arithmetic::div_mod::lemma_fundamental_div_mod(xs as int, 65536);
            vstd::arithmetic::div_mod::lemma_fundamental_div_mod(ys as int, 65536);
        }
        let tx = xs - xi * 65536;
        let ty = ys - yi * 65536;
        let h00 = lattice(self.seed, xi, yi);
        let h10 = lattice(self.seed, xi + 1, yi);
        let h01 = lattice(self.seed, xi, yi + 1);
        let h11 = lattice(self.seed, xi + 1, yi + 1);
        let a = nlerp(h00, h10, tx);
        let b = nlerp(h01, h11, tx);
        let ab = nlerp2(a, b, ty);
        fx_clamp(ab, -65536, 65536)
    }
}

/// The outer interpolation step, over the wider intermediate range.
fn nlerp2(a: i64, b: i64, t: i64) -> (r: i64)
    requires
        -196608 <= a <= 196608,
        -196608 <= b <= 196608,
        0 <= t < 65536,
    ensures
        r == spec_nlerp(a as int, b as int, t as int),
        -589824 <= r <= 589824,
{
    let d = fx_sub(b, a);
    let m = fx_mul(d, t);
    proof {
        crate::fixed::lemma_fx_mul_le_left(d as int, t as int, 393216);
    }
    a + m
}

} // verus!
