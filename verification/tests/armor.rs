//! End-to-end tests of the armor-geometry calculator, exercised through the
//! real fixed-point trigonometry.

use armor_calc::DomainError;
use armor_calc::armor::{
    compose_angles, effective_from_normal, incidence_angle, incidence_from_thicknesses,
    line_of_sight, normal_from_effective,
};
use armor_calc::fxp::{div_fx, mul_fx, to_deg, to_rad, FX_ONE, PI_FX};

/// A number as a Q32.32 bit value.
fn fx(x: f64) -> i64 {
    (x * 4294967296.0).round() as i64
}

/// A Q32.32 bit value as a number.
fn unfx(b: i64) -> f64 {
    b as f64 / 4294967296.0
}

fn assert_close(bits: i64, expected: f64, tol: f64) {
    let got = unfx(bits);
    assert!(
        (got - expected).abs() <= tol,
        "got {got}, expected {expected} (tolerance {tol})"
    );
}

#[test]
fn mul_fx_exact() {
    assert_eq!(mul_fx(fx(2.0), fx(3.0)), Some(fx(6.0)));
    assert_eq!(mul_fx(fx(-2.0), fx(3.0)), Some(fx(-6.0)));
    assert_eq!(mul_fx(fx(-2.0), fx(-3.0)), Some(fx(6.0)));
    assert_eq!(mul_fx(0, i64::MAX), Some(0));
    // 1.5 * 1.5 = 2.25, exactly representable.
    assert_eq!(mul_fx(fx(1.5), fx(1.5)), Some(fx(2.25)));
    // The product of the two largest magnitudes does not fit.
    assert_eq!(mul_fx(i64::MAX, i64::MAX), None);
}

#[test]
fn div_fx_exact() {
    assert_eq!(div_fx(fx(6.0), fx(3.0)), Some(fx(2.0)));
    assert_eq!(div_fx(fx(6.0), fx(-3.0)), Some(fx(-2.0)));
    // 1/3 in Q32.32 truncates to 0x55555555.
    assert_eq!(div_fx(fx(1.0), fx(3.0)), Some(0x5555_5555));
    // Dividing by the smallest positive value overflows.
    assert_eq!(div_fx(i64::MAX, 1), None);
}

#[test]
fn degree_radian_conversion_exact() {
    assert_eq!(to_rad(fx(180.0)), PI_FX);
    assert_eq!(to_rad(fx(-180.0)), -PI_FX);
    assert_eq!(to_rad(0), 0);
    assert_eq!(to_deg(PI_FX), Some(fx(180.0)));
    assert_eq!(to_deg(-PI_FX), Some(fx(-180.0)));
    // 90 degrees is pi/2 up to the truncation of the conversion.
    let rad = to_rad(fx(90.0));
    assert!((rad - PI_FX / 2).abs() <= 1);
    // A degree value this large has no Q32.32 representation.
    assert_eq!(to_deg(i64::MAX), None);
}

#[test]
fn compose_zero_with_zero_is_zero() {
    // No slope and no lateral rotation give a zero angle of incidence,
    // up to the accuracy of the fixed-point trigonometry.
    let r = compose_angles(0, 0).unwrap();
    assert_close(r, 0.0, 0.01);
}

#[test]
fn compose_with_zero_secondary_is_primary() {
    let a = to_rad(fx(30.0));
    let r = compose_angles(a, 0).unwrap();
    assert_close(r, unfx(a), 0.001);
    let b = to_rad(fx(55.0));
    let s = compose_angles(b, 0).unwrap();
    assert_close(s, unfx(b), 0.001);
}

#[test]
fn compose_is_symmetric() {
    // Bit-for-bit equality, as proved by lemma_compose_angles_symmetric.
    let a = to_rad(fx(30.0));
    let b = to_rad(fx(20.0));
    assert_eq!(compose_angles(a, b), compose_angles(b, a));
    let c = to_rad(fx(-75.0));
    assert_eq!(compose_angles(a, c), compose_angles(c, a));
    assert_eq!(compose_angles(0, b), compose_angles(b, 0));
}

#[test]
fn compose_never_leaves_the_acos_domain() {
    // The saturated cosines keep the product inside [-1, 1], as proved by
    // lemma_compose_angles_in_domain.
    assert!(compose_angles(to_rad(fx(89.9)), to_rad(fx(179.0))).is_ok());
    assert!(compose_angles(to_rad(fx(-120.0)), to_rad(fx(45.0))).is_ok());
}

#[test]
fn slope_of_negative_ratio_is_obtuse() {
    // acos(-0.5) = 120 degrees.
    let r = incidence_from_thicknesses(fx(-50.0), fx(100.0)).unwrap();
    assert_close(r, 120.0, 0.01);
}

#[test]
fn slope_fails_when_normal_exceeds_effective() {
    // The ratio handed to the inverse cosine exceeds one.
    assert_eq!(
        incidence_from_thicknesses(fx(100.0), fx(80.0)),
        Err(DomainError)
    );
    assert_eq!(incidence_from_thicknesses(fx(1.0), 1), Err(DomainError));
}

#[test]
fn slope_fails_on_zero_effective() {
    assert_eq!(incidence_from_thicknesses(fx(10.0), 0), Err(DomainError));
}

#[test]
fn line_of_sight_at_30_degrees() {
    // 100 / cos(30 deg) = 115.4701...
    let r = line_of_sight(fx(100.0), fx(30.0), None).unwrap();
    assert_close(r, 115.47, 0.01);
}

#[test]
fn line_of_sight_with_secondary_angle() {
    // The compound angle is acos(cos(30 deg) * cos(20 deg)) = 35.53 deg,
    // and 100 / (cos(30 deg) * cos(20 deg)) = 122.88...
    let r = line_of_sight(fx(100.0), fx(30.0), Some(fx(20.0))).unwrap();
    assert_close(r, 122.8806, 0.01);
    let i = incidence_angle(fx(30.0), Some(fx(20.0))).unwrap();
    let deg = to_deg(i).unwrap();
    assert_close(deg, 35.5313, 0.01);
}

#[test]
fn line_of_sight_at_60_degrees_doubles() {
    // 100 / cos(60 deg) = 200.00..., and a frontal hit never sees less
    // than the normal thickness.
    let r = line_of_sight(fx(100.0), fx(60.0), None).unwrap();
    assert_close(r, 200.0, 0.01);
    assert!(r >= fx(100.0));
}

#[test]
fn line_of_sight_edge_on_is_a_domain_error() {
    // At 90 degrees the plate is edge-on: the cosine is zero (or the
    // quotient unrepresentable) in Q32.32, and the calculator signals a
    // domain error instead of printing a garbage value.
    assert!(line_of_sight(fx(100.0), fx(90.0), None).is_err());
}

#[test]
fn line_of_sight_near_edge_on_diverges() {
    // 100 / cos(89 deg) = 5729.87...
    let r = line_of_sight(fx(100.0), fx(89.0), None).unwrap();
    assert_close(r, 5729.87, 0.05);
}

#[test]
fn find_slope_80_of_100() {
    // acos(0.8) = 36.8698... degrees.
    let r = incidence_from_thicknesses(fx(80.0), fx(100.0)).unwrap();
    assert_close(r, 36.8699, 0.01);
}

#[test]
fn find_normal_100_at_30_degrees() {
    // 100 * cos(30 deg) = 86.6025...
    let r = normal_from_effective(fx(100.0), fx(30.0)).unwrap();
    assert_close(r, 86.60, 0.01);
}

#[test]
fn normal_round_trips_through_effective() {
    // find-normal(line-of-sight(n, a), a) recovers n.
    let e = line_of_sight(fx(100.0), fx(30.0), None).unwrap();
    let n = normal_from_effective(e, fx(30.0)).unwrap();
    assert_close(n, 100.0, 0.01);
    let e2 = line_of_sight(fx(55.5), fx(60.0), None).unwrap();
    let n2 = normal_from_effective(e2, fx(60.0)).unwrap();
    assert_close(n2, 55.5, 0.01);
}

#[test]
fn slope_is_in_range_and_round_trips() {
    // For 0 < n <= e the slope lies in [0, 90] degrees, and the effective
    // thickness computed back from it recovers e.
    let slope = incidence_from_thicknesses(fx(80.0), fx(100.0)).unwrap();
    assert!(0 <= slope && slope <= fx(90.0));
    let e = line_of_sight(fx(80.0), slope, None).unwrap();
    assert_close(e, 100.0, 0.05);
    // At n == e the ratio is exactly one and the slope is zero up to the
    // accuracy of the fixed-point trigonometry.
    let flat = incidence_from_thicknesses(fx(42.0), fx(42.0)).unwrap();
    assert_close(flat, 0.0, 0.5);
    assert!(flat <= fx(90.0));
}

#[test]
fn incidence_angle_without_secondary_is_conversion() {
    assert_eq!(incidence_angle(fx(30.0), None), Ok(to_rad(fx(30.0))));
    assert_eq!(incidence_angle(fx(-10.0), None), Ok(to_rad(fx(-10.0))));
}

#[test]
fn effective_from_normal_head_on() {
    // At zero incidence the saturated cosine is exactly one, so the plate
    // presents exactly its normal thickness.
    assert_eq!(effective_from_normal(fx(100.0), 0), Ok(fx(100.0)));
}

#[test]
fn find_normal_head_on_is_exact() {
    assert_eq!(normal_from_effective(fx(250.0), 0), Ok(fx(250.0)));
}

#[test]
fn fixed_point_constants_match() {
    assert_eq!(FX_ONE, 1i64 << 32);
    assert_eq!(PI_FX, (std::f64::consts::PI * 4294967296.0).round() as i64);
}
