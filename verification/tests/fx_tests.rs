use orbit_controller::fx::{fx_add, fx_clamp, fx_div, fx_exp, fx_mul, fx_sqrt, fx_sub, CAP, SCALE};

#[test]
fn exp_of_zero_is_one() {
    assert_eq!(fx_exp(0), SCALE);
}

#[test]
fn exp_matches_decay_factor() {
    // exp(-224620 / 2^20) = exp(-0.21421...) = 0.80717...; in raw steps
    // the float value is 846384.7, and the fixed-point result truncates.
    assert_eq!(fx_exp(-224620), 846384);
    assert!(fx_exp(-224620) < SCALE);
}

#[test]
fn exp_of_positive_grows() {
    // exp(0.16001...) = 1.17351...; raw 1230512.
    assert_eq!(fx_exp(167770), 1230512);
    assert!(fx_exp(167770) > SCALE);
}

#[test]
fn mul_of_whole_units_is_exact() {
    assert_eq!(fx_mul(3 * SCALE, 2 * SCALE), 6 * SCALE);
    assert_eq!(fx_mul(-3 * SCALE, 2 * SCALE), -6 * SCALE);
}

#[test]
fn mul_truncates_toward_zero() {
    // -1 raw times one half rounds toward zero, not toward minus infinity.
    assert_eq!(fx_mul(-1, SCALE / 2), 0);
    assert_eq!(fx_mul(1, SCALE / 2), 0);
}

#[test]
fn add_and_sub_saturate() {
    assert_eq!(fx_add(CAP, CAP), CAP);
    assert_eq!(fx_sub(-CAP, CAP), -CAP);
    assert_eq!(fx_add(1, 2), 3);
}

#[test]
fn clamp_pulls_into_range() {
    assert_eq!(fx_clamp(i64::MAX), CAP);
    assert_eq!(fx_clamp(i64::MIN), -CAP);
    assert_eq!(fx_clamp(7), 7);
}

#[test]
fn sqrt_of_perfect_squares() {
    assert_eq!(fx_sqrt(0), 0);
    assert_eq!(fx_sqrt(SCALE), SCALE);
    assert_eq!(fx_sqrt(4 * SCALE), 2 * SCALE);
}

#[test]
fn div_of_whole_units() {
    assert_eq!(fx_div(SCALE, 2 * SCALE), SCALE / 2);
    assert_eq!(fx_div(-SCALE, 2 * SCALE), -SCALE / 2);
}
