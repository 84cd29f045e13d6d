use graphics_engine::fixed::{
    fx_add, fx_clamp, fx_cos, fx_div, fx_from_int, fx_idiv, fx_mul, fx_neg, fx_sin, fx_sqrt,
    fx_sub, fx_trunc, FX_HALF_PI, FX_MAX, FX_MIN, FX_ONE,
};

#[test]
fn add_sub_neg_exact() {
    assert_eq!(fx_add(FX_ONE, FX_ONE), 2 * FX_ONE);
    assert_eq!(fx_sub(FX_ONE, 3 * FX_ONE), -2 * FX_ONE);
    assert_eq!(fx_neg(5), -5);
    assert_eq!(fx_add(FX_MAX, FX_MAX), FX_MAX);
    assert_eq!(fx_sub(FX_MIN, FX_ONE), FX_MIN);
}

#[test]
fn mul_truncates_toward_zero() {
    // 1.5 * 4 == 6
    assert_eq!(fx_mul(3 * FX_ONE / 2, 4 * FX_ONE), 393216);
    // 1/3 * 3 is one bit short of 1 under truncation
    let third = fx_div(FX_ONE, 3 * FX_ONE);
    assert_eq!(third, 21845);
    assert_eq!(fx_mul(third, 3 * FX_ONE), 65535);
    // symmetric for negatives
    assert_eq!(fx_mul(-third, 3 * FX_ONE), -65535);
}

#[test]
fn div_exact_and_saturating() {
    assert_eq!(fx_div(FX_ONE, 2 * FX_ONE), 32768);
    assert_eq!(fx_div(-FX_ONE, 2 * FX_ONE), -32768);
    // a zero divisor saturates with the numerator's sign
    assert_eq!(fx_div(FX_ONE, 0), FX_MAX);
    assert_eq!(fx_div(-FX_ONE, 0), FX_MIN);
    assert_eq!(fx_div(0, 0), 0);
    assert_eq!(fx_idiv(7 * FX_ONE, 2), 7 * FX_ONE / 2);
}

#[test]
fn trunc_and_from_int() {
    assert_eq!(fx_trunc(3 * FX_ONE + 40000), 3);
    assert_eq!(fx_trunc(-(3 * FX_ONE + 40000)), -3);
    assert_eq!(fx_from_int(100), 100 * FX_ONE);
    assert_eq!(fx_clamp(300, 0, 255), 255);
    assert_eq!(fx_clamp(-7, 0, 255), 0);
}

#[test]
fn sqrt_exact_squares() {
    assert_eq!(fx_sqrt(4 * FX_ONE), 2 * FX_ONE);
    assert_eq!(fx_sqrt(25 * FX_ONE), 5 * FX_ONE);
    assert_eq!(fx_sqrt(0), 0);
    // sqrt(2) to the last fixed bit: 92681^2 <= 2 * ONE^2 < 92682^2
    let r = fx_sqrt(2 * FX_ONE);
    assert!((r as i128) * (r as i128) <= 2 * 65536 * 65536);
    assert!(((r + 1) as i128) * ((r + 1) as i128) > 2 * 65536 * 65536);
}

#[test]
fn trig_anchor_values() {
    assert_eq!(fx_sin(0), 0);
    assert_eq!(fx_cos(0), FX_ONE);
    assert_eq!(fx_sin(FX_HALF_PI), FX_ONE);
    // the quarter-turn values are within a few bits of exact
    assert!(fx_cos(FX_HALF_PI).abs() < 16);
    assert_eq!(fx_sin(FX_HALF_PI / 3), 32768); // sin(pi/6) == 0.5
    // odd symmetry of the sine
    assert_eq!(fx_sin(-20000), -fx_sin(20000));
}
