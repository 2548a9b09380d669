use softrender::fixed::{
    fx_abs, fx_add, fx_ceil_units, fx_clamp, fx_cos, fx_div, fx_floor_units, fx_frac, fx_half,
    fx_mul, fx_pow, fx_sin, fx_sqrt, fx_sub, fx_to_channel, isqrt_u64, tdiv_i64, FX_HALF_PI,
    FX_ONE, FX_PI, FX_SAT,
};

#[test]
fn mul_basic_and_signs() {
    assert_eq!(fx_mul(FX_ONE, FX_ONE), FX_ONE);
    assert_eq!(fx_mul(2 * FX_ONE, 3 * FX_ONE), 6 * FX_ONE);
    assert_eq!(fx_mul(-2 * FX_ONE, 3 * FX_ONE), -6 * FX_ONE);
    assert_eq!(fx_mul(-2 * FX_ONE, -3 * FX_ONE), 6 * FX_ONE);
    // truncation toward zero
    assert_eq!(fx_mul(1, 1), 0);
    assert_eq!(fx_mul(-1, 1), 0);
}

#[test]
fn mul_saturates() {
    assert_eq!(fx_mul(FX_SAT, FX_SAT), FX_SAT);
    assert_eq!(fx_mul(-FX_SAT, FX_SAT), -FX_SAT);
}

#[test]
fn div_basic_and_zero() {
    assert_eq!(fx_div(6 * FX_ONE, 3 * FX_ONE), 2 * FX_ONE);
    assert_eq!(fx_div(-6 * FX_ONE, 3 * FX_ONE), -2 * FX_ONE);
    assert_eq!(fx_div(FX_ONE, 2 * FX_ONE), 32768);
    assert_eq!(fx_div(FX_ONE, 0), FX_SAT);
    assert_eq!(fx_div(-FX_ONE, 0), -FX_SAT);
    assert_eq!(fx_div(0, 0), 0);
}

#[test]
fn add_sub_saturate() {
    assert_eq!(fx_add(FX_SAT, FX_SAT), FX_SAT);
    assert_eq!(fx_sub(-FX_SAT, FX_SAT), -FX_SAT);
    assert_eq!(fx_add(FX_ONE, FX_ONE), 2 * FX_ONE);
}

#[test]
fn floor_ceil_frac() {
    assert_eq!(fx_floor_units(3 * FX_ONE + 10), 3);
    assert_eq!(fx_floor_units(-3 * FX_ONE - 10), -4);
    assert_eq!(fx_ceil_units(3 * FX_ONE + 10), 4);
    assert_eq!(fx_ceil_units(-3 * FX_ONE - 10), -3);
    assert_eq!(fx_frac(3 * FX_ONE + 10), 10);
    assert_eq!(fx_frac(-10), 65526);
    assert_eq!(fx_half(5), 2);
    assert_eq!(fx_half(-5), -2);
}

#[test]
fn sqrt_values() {
    assert_eq!(isqrt_u64(0), 0);
    assert_eq!(isqrt_u64(15), 3);
    assert_eq!(isqrt_u64(16), 4);
    assert_eq!(fx_sqrt(4 * FX_ONE), 2 * FX_ONE);
    assert_eq!(fx_sqrt(FX_ONE), FX_ONE);
    assert_eq!(fx_sqrt(0), 0);
}

#[test]
fn sine_landmarks() {
    assert_eq!(fx_sin(0), 0);
    assert_eq!(fx_sin(FX_HALF_PI), FX_ONE - 1);
    assert_eq!(fx_sin(FX_PI), 0);
    assert_eq!(fx_sin(-FX_HALF_PI), -(FX_ONE - 1));
    // cosine via the shift
    assert_eq!(fx_cos(0), fx_sin(FX_HALF_PI + 1));
    for a in (-400000i64..400000).step_by(7919) {
        let s = fx_sin(a);
        assert!(-FX_ONE <= s && s <= FX_ONE);
    }
}

#[test]
fn pow_and_channel() {
    assert_eq!(fx_pow(FX_ONE, 25), FX_ONE);
    assert_eq!(fx_pow(32768, 2), 16384);
    assert_eq!(fx_pow(12345, 0), FX_ONE);
    assert_eq!(fx_to_channel(255 * FX_ONE), 255);
    assert_eq!(fx_to_channel(256 * FX_ONE), 255);
    assert_eq!(fx_to_channel(-5), 0);
    assert_eq!(fx_to_channel(FX_ONE + 32768), 1);
}

#[test]
fn truncating_division() {
    assert_eq!(tdiv_i64(7, 2), 3);
    assert_eq!(tdiv_i64(-7, 2), -3);
    assert_eq!(fx_abs(-42), 42);
    assert_eq!(fx_clamp(100, 0, 50), 50);
    assert_eq!(fx_clamp(-100, 0, 50), 0);
}
