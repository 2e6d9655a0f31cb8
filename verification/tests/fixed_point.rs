use atmos::constants::clamp01;
use atmos::fixed::{
    divide, multiply, product, quantize, round_divide, saturate, times, LIMIT, QUANTUM, SCALE,
};

#[test]
fn quantize_rounds_to_the_nearest_quantum() {
    assert_eq!(quantize(0), 0);
    assert_eq!(quantize(49), 0);
    assert_eq!(quantize(51), 100);
    assert_eq!(quantize(149), 100);
    assert_eq!(quantize(1_234_567), 1_234_600);
    assert_eq!(quantize(-1_234_567), -1_234_600);
}

#[test]
fn quantize_rounds_halves_away_from_zero() {
    assert_eq!(quantize(50), 100);
    assert_eq!(quantize(150), 200);
    assert_eq!(quantize(-50), -100);
    assert_eq!(quantize(-150), -200);
    assert_eq!(quantize(-49), 0);
}

#[test]
fn quantize_is_idempotent() {
    let samples: Vec<i64> = vec![
        0,
        1,
        49,
        50,
        99,
        100,
        -1,
        -50,
        -99,
        123_456_789,
        -987_654_321,
        i64::MAX,
        i64::MIN,
        LIMIT,
        -LIMIT,
        LIMIT - 49,
        LIMIT + 1,
    ];
    for x in samples {
        let once = quantize(x);
        assert_eq!(quantize(once), once);
        assert_eq!(once % QUANTUM, 0);
    }
}

#[test]
fn quantize_sticks_to_the_limit() {
    assert_eq!(quantize(i64::MAX), LIMIT);
    assert_eq!(quantize(i64::MIN), -LIMIT);
}

#[test]
fn quantize_agrees_with_rounding_to_four_places() {
    let samples: Vec<f64> = vec![0.123_449, 0.123_451, 7.000_06, -3.141_592, 103.983_803];
    for x in samples {
        let fixed = quantize((x * 1e6).round() as i64);
        let expected = (x * 1e4).round() / 1e4;
        assert!((fixed as f64 / 1e6 - expected).abs() < 1e-9);
    }
}

#[test]
fn divide_rounds_to_the_nearest() {
    assert_eq!(divide(7, 2), 4);
    assert_eq!(divide(-7, 2), -4);
    assert_eq!(divide(7, -2), -4);
    assert_eq!(divide(-7, -2), 4);
    assert_eq!(divide(10, 3), 3);
    assert_eq!(divide(11, 3), 4);
    assert_eq!(divide(0, -5), 0);
    assert_eq!(divide(1, 3), 0);
}

#[test]
fn divide_by_zero_sticks_to_the_limit() {
    assert_eq!(divide(1, 0), LIMIT);
    assert_eq!(divide(-1, 0), -LIMIT);
    assert_eq!(divide(0, 0), 0);
}

#[test]
fn divide_clamps_large_quotients() {
    assert_eq!(divide(i128::MAX, 1), LIMIT);
    assert_eq!(divide(i128::MIN, 1), -LIMIT);
    assert_eq!(divide(i128::MIN, -1), LIMIT);
    assert_eq!(divide(LIMIT as i128 + 1, 1), LIMIT);
    assert_eq!(divide(LIMIT as i128, 1), LIMIT);
}

#[test]
fn round_divide_does_not_clamp() {
    assert_eq!(round_divide(3 * (LIMIT as i128) + 1, 2), 1_500_000_000_000_001);
    assert_eq!(round_divide(-9, 6), -2);
}

#[test]
fn multiply_is_the_fixed_point_product() {
    assert_eq!(multiply(2 * SCALE, 3 * SCALE), 6 * SCALE);
    assert_eq!(multiply(1_500_000, 1_500_000), 2_250_000);
    assert_eq!(multiply(-1_500_000, 1_500_000), -2_250_000);
    assert_eq!(multiply(1, 500_000), 1);
    assert_eq!(multiply(1, 499_999), 0);
    assert_eq!(multiply(i64::MAX, i64::MAX), LIMIT);
    assert_eq!(multiply(i64::MIN, i64::MAX), -LIMIT);
}

#[test]
fn saturate_brings_into_range() {
    assert_eq!(saturate(5), 5);
    assert_eq!(saturate(LIMIT as i128 + 1), LIMIT);
    assert_eq!(saturate(-(LIMIT as i128) - 1), -LIMIT);
    assert_eq!(saturate(i128::MAX), LIMIT);
}

#[test]
fn product_and_times_are_exact() {
    assert_eq!(product(i64::MAX, i64::MAX), (i64::MAX as i128) * (i64::MAX as i128));
    assert_eq!(product(-3, 7), -21);
    assert_eq!(times(1_000_000_000_000_000_000_000_000_000_000, 8_310_000), 8_310_000_000_000_000_000_000_000_000_000_000_000);
}

#[test]
fn clamp01_keeps_coefficients_between_zero_and_one() {
    assert_eq!(clamp01(150_000), 150_000);
    assert_eq!(clamp01(-1), 0);
    assert_eq!(clamp01(SCALE + 1), SCALE);
    assert_eq!(clamp01(0), 0);
    assert_eq!(clamp01(SCALE), SCALE);
}
