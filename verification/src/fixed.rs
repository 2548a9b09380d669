//! Q16.16 fixed-point scalar arithmetic.
//!
//! Every geometric quantity in the pipeline is an `i64` holding a real
//! value scaled by [`FX_ONE`].  All operations saturate into
//! `[-FX_SAT, FX_SAT]`, so no operation panics and no intermediate
//! overflows; extreme inputs (for example a perspective divide by a
//! vanishing `w`) produce extreme but finite coordinates that the
//! framebuffer's bounds checks later discard.

use vstd::prelude::*;
use vstd::arithmetic::div_mod::{lemma_div_is_ordered, lemma_fundamental_div_mod};
use vstd::arithmetic::mul::lemma_mul_upper_bound;

verus! {

/// One whole unit: 2^16.
pub const FX_ONE: i64 = 65536;
/// Half of a unit, used for rounding.
pub const FX_HALF: i64 = 32768;
/// Saturation bound of every fixed-point value: 2^30 (16384 whole units).
pub const FX_SAT: i64 = 1073741824;
/// The angle pi in fixed-point radians.
pub const FX_PI: i64 = 205887;
/// The angle pi/2 in fixed-point radians.
pub const FX_HALF_PI: i64 = 102943;
/// The angle 2*pi in fixed-point radians (2 * FX_PI + 1).
pub const FX_TWO_PI: i64 = 411774;

/// A value the rest of the pipeline may assume of every fixed-point scalar.
pub open spec fn fx_ok(v: i64) -> bool {
    -FX_SAT <= v <= FX_SAT
}

/// Absolute value over mathematical integers.
pub open spec fn iabs(a: int) -> int {
    if a >= 0 {
        a
    } else {
        -a
    }
}

/// Truncating (round-toward-zero) division by a positive divisor.
pub open spec fn tdiv(n: int, d: int) -> int {
    if n >= 0 {
        n / d
    } else {
        -((-n) / d)
    }
}

/// Saturation of an unbounded intermediate into the fixed-point range.
pub open spec fn fx_saturate(v: int) -> int {
    if v > FX_SAT {
        FX_SAT as int
    } else if v < -FX_SAT {
        -FX_SAT as int
    } else {
        v
    }
}

/// The exact meaning of fixed-point multiplication.
pub open spec fn spec_fx_mul(a: int, b: int) -> int {
    fx_saturate(tdiv(a * b, FX_ONE as int))
}

/// The exact meaning of fixed-point division; a zero divisor saturates
/// in the direction of the dividend.
pub open spec fn spec_fx_div(a: int, b: int) -> int {
    if b == 0 {
        if a > 0 {
            FX_SAT as int
        } else if a < 0 {
            -FX_SAT as int
        } else {
            0
        }
    } else {
        let q = (iabs(a) * (FX_ONE as int)) / iabs(b);
        if (a >= 0) == (b >= 0) {
            fx_saturate(q)
        } else {
            fx_saturate(-q)
        }
    }
}

/// Clamp a value into `[lo, hi]`.
pub open spec fn spec_clamp(v: int, lo: int, hi: int) -> int {
    if v < lo {
        lo
    } else if v > hi {
        hi
    } else {
        v
    }
}

/// Clamp an arbitrary `i64` into the fixed-point range.
pub fn fx_sat(v: i64) -> (r: i64)
    ensures
        r == fx_saturate(v as int),
        fx_ok(r),
{
    if v > FX_SAT {
        FX_SAT
    } else if v < -FX_SAT {
        -FX_SAT
    } else {
        v
    }
}

/// Saturating fixed-point addition.
pub fn fx_add(a: i64, b: i64) -> (r: i64)
    requires
        fx_ok(a),
        fx_ok(b),
    ensures
        r == fx_saturate(a + b),
        fx_ok(r),
{
    fx_sat(a + b)
}

/// Saturating fixed-point subtraction.
pub fn fx_sub(a: i64, b: i64) -> (r: i64)
    requires
        fx_ok(a),
        fx_ok(b),
    ensures
        r == fx_saturate(a - b),
        fx_ok(r),
{
    fx_sat(a - b)
}

/// Negation (exact: the range is symmetric).
pub fn fx_neg(a: i64) -> (r: i64)
    requires
        fx_ok(a),
    ensures
        r == -a,
        fx_ok(r),
{
    -a
}

/// Absolute value.
pub fn fx_abs(a: i64) -> (r: i64)
    requires
        fx_ok(a),
    ensures
        r == iabs(a as int),
        fx_ok(r),
{
    if a < 0 {
        -a
    } else {
        a
    }
}

/// Clamp into a caller-supplied interval.
pub fn fx_clamp(v: i64, lo: i64, hi: i64) -> (r: i64)
    requires
        lo <= hi,
    ensures
        r == spec_clamp(v as int, lo as int, hi as int),
        lo <= r <= hi,
{
    if v < lo {
        lo
    } else if v > hi {
        hi
    } else {
        v
    }
}

/// The smaller of two values.
pub fn fx_min(a: i64, b: i64) -> (r: i64)
    ensures
        r == if a <= b { a as int } else { b as int },
{
    if a <= b {
        a
    } else {
        b
    }
}

/// The larger of two values.
pub fn fx_max(a: i64, b: i64) -> (r: i64)
    ensures
        r == if a >= b { a as int } else { b as int },
{
    if a >= b {
        a
    } else {
        b
    }
}

/// Saturating fixed-point multiplication: `a * b / FX_ONE`, truncated
/// toward zero, then saturated.
pub fn fx_mul(a: i64, b: i64) -> (r: i64)
    requires
        fx_ok(a),
        fx_ok(b),
    ensures
        r == spec_fx_mul(a as int, b as int),
        fx_ok(r),
{
    let neg = (a < 0) != (b < 0);
    let pa: u64 = if a < 0 {
        (-a) as u64
    } else {
        a as u64
    };
    let pb: u64 = if b < 0 {
        (-b) as u64
    } else {
        b as u64
    };
    proof {
        assert(pa == iabs(a as int));
        assert(pb == iabs(b as int));
        assert(pa as int * pb as int <= 1152921504606846976int) by {
            lemma_mul_upper_bound(pa as int, 1073741824, pb as int, 1073741824);
        }
    }
    let p: u64 = pa * pb;
    let q: u64 = p / 65536;
    proof {
        assert(q <= 1152921504606846976int / 65536) by {
            lemma_div_is_ordered(p as int, 1152921504606846976int, 65536);
        }
        // |a * b| == |a| * |b|, by cases on the signs.
        if a >= 0 && b >= 0 {
            assert(a as int * b as int == pa as int * pb as int) by (nonlinear_arith)
                requires
                    pa == a,
                    pb == b,
            ;
            assert(a as int * b as int >= 0) by (nonlinear_arith)
                requires
                    a >= 0,
                    b >= 0,
            ;
        } else if a < 0 && b < 0 {
            assert(a as int * b as int == pa as int * pb as int) by (nonlinear_arith)
                requires
                    pa == -(a as int),
                    pb == -(b as int),
            ;
            assert(a as int * b as int >= 0) by (nonlinear_arith)
                requires
                    a < 0,
                    b < 0,
            ;
        } else if a < 0 {
            assert(a as int * b as int == -(pa as int * pb as int)) by (nonlinear_arith)
                requires
                    pa == -(a as int),
                    pb == b,
            ;
            assert(a as int * b as int <= 0) by (nonlinear_arith)
                requires
                    a < 0,
                    b >= 0,
            ;
        } else {
            assert(a as int * b as int == -(pa as int * pb as int)) by (nonlinear_arith)
                requires
                    pa == a,
                    pb == -(b as int),
            ;
            assert(a as int * b as int <= 0) by (nonlinear_arith)
                requires
                    a >= 0,
                    b < 0,
            ;
        }
    }
    let r: i64 = if neg {
        -(q as i64)
    } else {
        q as i64
    };
    fx_sat(r)
}

/// Saturating fixed-point division: `a * FX_ONE / b`, truncated toward
/// zero, then saturated; `b == 0` saturates in the direction of `a`.
pub fn fx_div(a: i64, b: i64) -> (r: i64)
    requires
        fx_ok(a),
        fx_ok(b),
    ensures
        r == spec_fx_div(a as int, b as int),
        fx_ok(r),
{
    if b == 0 {
        if a > 0 {
            FX_SAT
        } else if a < 0 {
            -FX_SAT
        } else {
            0
        }
    } else {
        let neg = (a < 0) != (b < 0);
        let pa: u64 = if a < 0 {
            (-a) as u64
        } else {
            a as u64
        };
        let pb: u64 = if b < 0 {
            (-b) as u64
        } else {
            b as u64
        };
        proof {
            assert(pa == iabs(a as int));
            assert(pb == iabs(b as int));
        }
        let n: u64 = pa * 65536;
        let q: u64 = n / pb;
        proof {
            assert(q * pb <= n && q <= n) by {
                lemma_fundamental_div_mod(n as int, pb as int);
                lemma_div_is_ordered(n as int, n as int, pb as int);
                assert(n as int / pb as int <= n as int / 1) by {
                    lemma_div_is_ordered_by_denominator_local(n as int, 1, pb as int);
                }
            }
        }
        let r: i64 = if neg {
            -(q as i64)
        } else {
            q as i64
        };
        fx_sat(r)
    }
}

proof fn lemma_div_is_ordered_by_denominator_local(x: int, y: int, z: int)
    requires
        x >= 0,
        1 <= y <= z,
    ensures
        x / y >= x / z,
{
    vstd::arithmetic::div_mod::lemma_div_is_ordered_by_denominator(x, y, z);
}

/// A fixed-point product with a factor of magnitude at most one keeps
/// the magnitude of the other factor.
pub proof fn lemma_fx_mul_le_left(a: int, b: int, bound: int)
    requires
        -bound <= a <= bound,
        -65536 <= b <= 65536,
        0 <= bound,
    ensures
        -bound <= spec_fx_mul(a, b) <= bound,
{
    let p = a * b;
    assert(p <= bound * 65536) by (nonlinear_arith)
        requires
            p == a * b,
            -bound <= a <= bound,
            -65536 <= b <= 65536,
            0 <= bound,
    ;
    assert(-(bound * 65536) <= p) by (nonlinear_arith)
        requires
            p == a * b,
            -bound <= a <= bound,
            -65536 <= b <= 65536,
            0 <= bound,
    ;
    vstd::arithmetic::div_mod::lemma_fundamental_div_mod_converse_div(
        bound * 65536,
        65536,
        bound,
        0,
    );
    if p >= 0 {
        lemma_div_is_ordered(p, bound * 65536, 65536);
        vstd::arithmetic::div_mod::lemma_div_pos_is_pos(p, 65536);
    } else {
        lemma_div_is_ordered(-p, bound * 65536, 65536);
        vstd::arithmetic::div_mod::lemma_div_pos_is_pos(-p, 65536);
    }
}

/// Half of a fixed-point value, truncated toward zero.
pub fn fx_half(v: i64) -> (r: i64)
    requires
        fx_ok(v),
    ensures
        r == tdiv(v as int, 2),
        fx_ok(r),
{
    if v >= 0 {
        ((v as u64) / 2) as i64
    } else {
        -((((-v) as u64) / 2) as i64)
    }
}

/// The fractional part of a fixed-point value as a Euclidean
/// remainder: always in `[0, FX_ONE)`.
pub fn fx_frac(v: i64) -> (r: i64)
    requires
        fx_ok(v),
    ensures
        r == v as int % 65536,
        0 <= r < 65536,
{
    let f = fx_floor_units(v);
    proof {
        lemma_fundamental_div_mod(v as int, 65536);
    }
    v - f * 65536
}

/// A fixed-point value interpreted as a color channel: clamped into
/// `[0, 255 * FX_ONE]` and truncated down to whole channel units.
pub fn fx_to_channel(v: i64) -> (r: u8)
    requires
        fx_ok(v),
    ensures
        r == spec_clamp(v as int, 0, 16711680) / 65536,
{
    let c = fx_clamp(v, 0, 16711680);
    proof {
        lemma_div_is_ordered(c as int, 16711680, 65536);
    }
    ((c as u64) / 65536) as u8
}

/// A truncated step `i` of `d` along a span `delta` stays within the
/// span.
pub proof fn lemma_tdiv_step_bound(i: int, delta: int, d: int)
    requires
        0 <= i <= d,
        1 <= d,
    ensures
        delta >= 0 ==> 0 <= tdiv(i * delta, d) <= delta,
        delta < 0 ==> delta <= tdiv(i * delta, d) <= 0,
{
    let p = i * delta;
    if delta >= 0 {
        assert(0 <= p <= d * delta) by (nonlinear_arith)
            requires
                p == i * delta,
                0 <= i <= d,
                delta >= 0,
        ;
        lemma_div_is_ordered(p, d * delta, d);
        vstd::arithmetic::mul::lemma_mul_is_commutative(d, delta);
        vstd::arithmetic::div_mod::lemma_fundamental_div_mod_converse_div(d * delta, d, delta, 0);
        vstd::arithmetic::div_mod::lemma_div_pos_is_pos(p, d);
    } else {
        assert(0 <= -p <= d * (-delta)) by (nonlinear_arith)
            requires
                p == i * delta,
                0 <= i <= d,
                delta < 0,
        ;
        lemma_div_is_ordered(-p, d * (-delta), d);
        vstd::arithmetic::mul::lemma_mul_is_commutative(d, -delta);
        vstd::arithmetic::div_mod::lemma_fundamental_div_mod_converse_div(d * (-delta), d, -delta, 0);
        vstd::arithmetic::div_mod::lemma_div_pos_is_pos(-p, d);
    }
}

/// Truncating division of a bounded signed value by a positive
/// divisor.
pub fn tdiv_i64(n: i64, d: i64) -> (r: i64)
    requires
        0 < d,
        -4611686018427387904 <= n <= 4611686018427387904,
    ensures
        r == tdiv(n as int, d as int),
{
    if n >= 0 {
        let q: u64 = (n as u64) / (d as u64);
        proof {
            lemma_div_is_ordered(n as int, 4611686018427387904int, d as int);
            lemma_div_is_ordered_by_denominator_local(n as int, 1, d as int);
        }
        q as i64
    } else {
        let q: u64 = ((-n) as u64) / (d as u64);
        proof {
            lemma_div_is_ordered(-(n as int), 4611686018427387904int, d as int);
            lemma_div_is_ordered_by_denominator_local(-(n as int), 1, d as int);
        }
        -(q as i64)
    }
}

/// The whole-unit part of a fixed-point value, rounded toward negative
/// infinity (Euclidean division by FX_ONE).
pub fn fx_floor_units(v: i64) -> (r: i64)
    requires
        fx_ok(v),
    ensures
        r == v as int / 65536,
        -16384 <= r <= 16384,
{
    if v >= 0 {
        let d: u64 = (v as u64) / 65536;
        d as i64
    } else {
        let k: u64 = (-v) as u64;
        let d: u64 = k / 65536;
        let m: u64 = k % 65536;
        proof {
            lemma_fundamental_div_mod(k as int, 65536);
            lemma_fundamental_div_mod(v as int, 65536);
        }
        if m == 0 {
            -(d as i64)
        } else {
            -(d as i64) - 1
        }
    }
}

/// The whole-unit part of a fixed-point value, rounded toward positive
/// infinity.
pub fn fx_ceil_units(v: i64) -> (r: i64)
    requires
        fx_ok(v),
    ensures
        r == -((-(v as int)) / 65536),
        -16384 <= r <= 16384,
{
    let f = fx_floor_units(-v);
    -f
}

/// The integer square root, defined by recursion for specifications.
pub open spec fn spec_isqrt(n: nat) -> nat
    decreases n,
{
    if n == 0 {
        0
    } else {
        let r = spec_isqrt((n - 1) as nat);
        if (r + 1) * (r + 1) <= n {
            r + 1
        } else {
            r
        }
    }
}

/// `spec_isqrt(n)` is the unique `r` with `r * r <= n < (r + 1) * (r + 1)`.
pub proof fn lemma_isqrt_bounds(n: nat)
    ensures
        spec_isqrt(n) * spec_isqrt(n) <= n,
        n < (spec_isqrt(n) + 1) * (spec_isqrt(n) + 1),
    decreases n,
{
    if n == 0 {
        assert(spec_isqrt(n) == 0);
        assert(spec_isqrt(n) * spec_isqrt(n) == 0nat * 0nat);
        assert((spec_isqrt(n) + 1) * (spec_isqrt(n) + 1) == 1nat * 1nat);
        assert(1nat * 1nat == 1nat);
    } else {
        lemma_isqrt_bounds((n - 1) as nat);
        let r = spec_isqrt((n - 1) as nat);
        assert(r * r <= n - 1);
        if (r + 1) * (r + 1) <= n {
            assert(spec_isqrt(n) == r + 1);
            assert(spec_isqrt(n) * spec_isqrt(n) == (r + 1) * (r + 1));
            assert(n - 1 < (r + 1) * (r + 1));
            assert((r + 2) * (r + 2) > (r + 1) * (r + 1)) by (nonlinear_arith);
            assert((spec_isqrt(n) + 1) * (spec_isqrt(n) + 1) == (r + 2) * (r + 2));
        } else {
            assert(spec_isqrt(n) == r);
            assert(spec_isqrt(n) * spec_isqrt(n) == r * r);
            assert((spec_isqrt(n) + 1) * (spec_isqrt(n) + 1) == (r + 1) * (r + 1));
        }
    }
}

/// Any `r` within both square bounds is `spec_isqrt(n)`.
proof fn lemma_isqrt_unique(n: nat, r: nat)
    requires
        r * r <= n,
        n < (r + 1) * (r + 1),
    ensures
        r == spec_isqrt(n),
{
    lemma_isqrt_bounds(n);
    let s = spec_isqrt(n);
    if r < s {
        assert((r + 1) * (r + 1) <= s * s) by (nonlinear_arith)
            requires
                r + 1 <= s,
        ;
    }
    if s < r {
        assert((s + 1) * (s + 1) <= r * r) by (nonlinear_arith)
            requires
                s + 1 <= r,
        ;
    }
}

/// Integer square root by bisection.
pub fn isqrt_u64(n: u64) -> (r: u64)
    ensures
        r == spec_isqrt(n as nat),
        r * r <= n,
        n < (r + 1) * (r + 1),
{
    if n == 0 {
        proof {
            assert(spec_isqrt(0) == 0);
        }
        return 0;
    }
    let mut lo: u64 = 0;
    let mut hi: u64 = 4294967296;
    proof {
        assert(hi as int * hi as int > n) by (nonlinear_arith)
            requires
                hi == 4294967296,
                n <= 18446744073709551615,
        ;
    }
    while hi - lo > 1
        invariant
            lo < hi <= 4294967296,
            lo as int * lo as int <= n,
            n < hi as int * hi as int,
        decreases hi - lo,
    {
        let mid: u64 = lo + (hi - lo) / 2;
        proof {
            assert(mid as int * mid as int <= 18446744065119617025int) by (nonlinear_arith)
                requires
                    mid <= 4294967295,
            ;
        }
        if mid * mid <= n {
            lo = mid;
        } else {
            hi = mid;
        }
    }
    proof {
        lemma_isqrt_unique(n as nat, lo as nat);
    }
    lo
}

/// Fixed-point square root of a nonnegative fixed-point value:
/// `isqrt(n * FX_ONE)`, so that the result is again in Q16.16.
pub open spec fn spec_fx_sqrt(n: int) -> int {
    spec_isqrt((n * 65536) as nat) as int
}

pub fn fx_sqrt(n: i64) -> (r: i64)
    requires
        0 <= n <= 4294967296,
    ensures
        r == spec_fx_sqrt(n as int),
        0 <= r <= 16777216,
        fx_ok(r),
{
    let m: u64 = (n as u64) * 65536;
    let r = isqrt_u64(m);
    proof {
        assert(m <= 281474976710656);
        if r > 16777216 {
            assert(r * r >= 16777217 * 16777217) by (nonlinear_arith)
                requires
                    r >= 16777217,
            ;
        }
    }
    r as i64
}

/// An angle reduced into `[0, FX_TWO_PI)` by Euclidean remainder.
pub fn fx_angle_norm(a: i64) -> (r: u64)
    requires
        -4611686018427387904 <= a <= 4611686018427387904,
    ensures
        r == a as int % 411774,
        r < 411774,
{
    if a >= 0 {
        (a as u64) % 411774
    } else {
        let k: u64 = ((-a) as u64) % 411774;
        proof {
            lemma_fundamental_div_mod((-a) as int, 411774);
            lemma_fundamental_div_mod(a as int, 411774);
        }
        if k == 0 {
            0
        } else {
            411774 - k
        }
    }
}

/// The parabolic arch used to approximate sine on `[0, pi]`.
pub open spec fn spec_sin_arch(x: int) -> int {
    spec_clamp(4 * x * (205887 - x) / 646812, 0, 65536)
}

/// A fixed-point approximation of the sine of an angle in radians:
/// the angle is reduced modulo 2*pi and each half-period is a
/// parabolic arch.  The result always lies in `[-FX_ONE, FX_ONE]`.
pub open spec fn spec_fx_sin(a: int) -> int {
    let m = a % 411774;
    if m <= 205887 {
        spec_sin_arch(m)
    } else {
        -spec_sin_arch(m - 205887)
    }
}

pub fn fx_sin(a: i64) -> (r: i64)
    requires
        -4611686018427387904 <= a <= 4611686018427387904,
    ensures
        r == spec_fx_sin(a as int),
        -65536 <= r <= 65536,
{
    let m: u64 = fx_angle_norm(a);
    let (x, neg): (u64, bool) = if m <= 205887 {
        (m, false)
    } else {
        (m - 205887, true)
    };
    proof {
        assert(4 * x as int * (205887 - x as int) <= 169527827076int) by (nonlinear_arith)
            requires
                0 <= x <= 205887,
        ;
        assert(4 * x as int * (205887 - x as int) >= 0) by (nonlinear_arith)
            requires
                0 <= x <= 205887,
        ;
    }
    let num: u64 = 4 * x * (205887 - x);
    let q: u64 = num / 646812;
    let arch: i64 = if q > 65536 {
        65536
    } else {
        q as i64
    };
    if neg {
        -arch
    } else {
        arch
    }
}

/// Cosine via the shift `cos(a) == sin(a + pi/2)`.
pub open spec fn spec_fx_cos(a: int) -> int {
    spec_fx_sin(a + 102944)
}

pub fn fx_cos(a: i64) -> (r: i64)
    requires
        -2305843009213693952 <= a <= 2305843009213693952,
    ensures
        r == spec_fx_cos(a as int),
        -65536 <= r <= 65536,
{
    fx_sin(a + 102944)
}

/// Fixed-point powers of a value in `[0, FX_ONE]`.
pub open spec fn spec_fx_pow(b: int, e: nat) -> int
    decreases e,
{
    if e == 0 {
        65536
    } else {
        spec_fx_mul(b, spec_fx_pow(b, (e - 1) as nat))
    }
}

pub fn fx_pow(b: i64, e: u32) -> (r: i64)
    requires
        0 <= b <= 65536,
    ensures
        r == spec_fx_pow(b as int, e as nat),
        0 <= r <= 65536,
{
    let mut acc: i64 = 65536;
    let mut i: u32 = 0;
    while i < e
        invariant
            0 <= b <= 65536,
            i <= e,
            acc == spec_fx_pow(b as int, i as nat),
            0 <= acc <= 65536,
        decreases e - i,
    {
        proof {
            lemma_mul_upper_bound(b as int, 65536, acc as int, 65536);
            assert(b as int * acc as int >= 0) by (nonlinear_arith)
                requires
                    b >= 0,
                    acc >= 0,
            ;
            lemma_div_is_ordered(b as int * acc as int, 4294967296int, 65536);
        }
        let next = fx_mul(b, acc);
        proof {
            assert(spec_fx_pow(b as int, (i + 1) as nat) == spec_fx_mul(
                b as int,
                spec_fx_pow(b as int, i as nat),
            ));
        }
        acc = next;
        i = i + 1;
    }
    acc
}

} // verus!

