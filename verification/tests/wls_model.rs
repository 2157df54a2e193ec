//! Tests of the estimator: construction, validation, and the fit itself.

use wls::Point;
use wls::Ratio;
use wls::Wls;
use wls::WlsError;

/// One-sided closeness check: passes whenever `actual` is no more than
/// `delta` below `expected`.
fn assert_almost_equal(expected: f64, actual: f64, delta: f64) {
    assert!(delta > expected - actual);
}

fn ratio_as_f64(r: Ratio) -> f64 {
    r.numerator() as f64 / r.denominator() as f64
}

fn assert_model_can_be_fit(wls: &Wls) -> Point {
    match wls.fit_linear_regression() {
        Some(point) => point,
        None => panic!("can't fit linear regression"),
    }
}

#[test]
fn test_wls_model_with_weights_ok() {
    let x_points: Vec<i64> = vec![1, 2, 3, 4, 5, 6, 7];
    let y_points: Vec<i64> = vec![1, 3, 4, 5, 2, 3, 4];
    let weights: Vec<i64> = vec![1, 2, 3, 1, 8, 1, 5];

    let wls = Wls::new(x_points, y_points, Some(weights)).unwrap();

    let point = assert_model_can_be_fit(&wls);
    assert_almost_equal(2.14285714, ratio_as_f64(point.get_intercept()), 1.0e-6);
    assert_almost_equal(0.150862, ratio_as_f64(point.get_slope()), 1.0e-6);
}

#[test]
fn test_wls_model_with_stable_weights_ok() {
    let x_points: Vec<i64> = vec![1, 2, 3, 4, 5, 6, 7];
    let y_points: Vec<i64> = vec![1, 3, 4, 5, 2, 3, 4];

    let wls = Wls::new(x_points, y_points, None).unwrap();

    let point = assert_model_can_be_fit(&wls);
    assert_almost_equal(2.14285714, ratio_as_f64(point.get_intercept()), 1.0e-6);
    assert_eq!(0.25, ratio_as_f64(point.get_slope()));
}

#[test]
fn test_horizontal_line_ok() {
    let x_points: Vec<i64> = vec![0, 1];
    let y_points: Vec<i64> = vec![10, 10];

    let wls = Wls::new(x_points, y_points, None).unwrap();

    let point = assert_model_can_be_fit(&wls);
    assert_eq!(10.0, ratio_as_f64(point.get_intercept()));
    assert_eq!(0.0, ratio_as_f64(point.get_slope()));
}

#[test]
fn test_vertical_line_ok() {
    let x_points: Vec<i64> = vec![1, 1];
    let y_points: Vec<i64> = vec![0, 1];

    let wls = Wls::new(x_points, y_points, None).unwrap();
    assert!(wls.fit_linear_regression().is_none());
}

#[test]
fn test_run_uphill_ok() {
    let x_points: Vec<i64> = vec![0, 1];
    let y_points: Vec<i64> = vec![0, 1];

    let wls = Wls::new(x_points, y_points, None).unwrap();

    let point = assert_model_can_be_fit(&wls);
    assert_eq!(0.0, ratio_as_f64(point.get_intercept()));
    assert_eq!(1.0, ratio_as_f64(point.get_slope()));
}

#[test]
fn test_run_downhill_ok() {
    let x_points: Vec<i64> = vec![1, 0];
    let y_points: Vec<i64> = vec![0, 1];

    let wls = Wls::new(x_points, y_points, None).unwrap();

    let point = assert_model_can_be_fit(&wls);
    assert_eq!(1.0, ratio_as_f64(point.get_intercept()));
    assert_eq!(-1.0, ratio_as_f64(point.get_slope()));
}

#[test]
fn test_weighted_fixture_exact_fractions() {
    // Sw = 21, Swx = 99, Swy = 63, Swxy = 307, Swxx = 533, so the slope is
    // 210/1392 and the intercept 3186/1392, both over the determinant.
    let wls = Wls::new(
        vec![1, 2, 3, 4, 5, 6, 7],
        vec![1, 3, 4, 5, 2, 3, 4],
        Some(vec![1, 2, 3, 1, 8, 1, 5]),
    )
    .unwrap();

    let point = assert_model_can_be_fit(&wls);
    assert_eq!(210, point.get_slope().numerator());
    assert_eq!(1392, point.get_slope().denominator());
    assert_eq!(3186, point.get_intercept().numerator());
    assert_eq!(1392, point.get_intercept().denominator());
}

#[test]
fn test_unweighted_fixture_exact_fractions() {
    // Sw = 7, Swx = 28, Swy = 22, Swxy = 95, Swxx = 140: the slope is
    // 49/196 (exactly 1/4) and the intercept 420/196 (exactly 15/7).
    let wls = Wls::new(vec![1, 2, 3, 4, 5, 6, 7], vec![1, 3, 4, 5, 2, 3, 4], None).unwrap();

    let point = assert_model_can_be_fit(&wls);
    assert_eq!(49, point.get_slope().numerator());
    assert_eq!(196, point.get_slope().denominator());
    assert_eq!(4 * point.get_slope().numerator(), point.get_slope().denominator());
    assert_eq!(420, point.get_intercept().numerator());
    assert_eq!(7 * point.get_intercept().numerator(), 15 * point.get_intercept().denominator());
}

#[test]
fn test_omitted_weights_equal_explicit_ones() {
    let with_none = Wls::new(vec![1, 2, 3, 4, 5, 6, 7], vec![1, 3, 4, 5, 2, 3, 4], None).unwrap();
    let with_ones = Wls::new(
        vec![1, 2, 3, 4, 5, 6, 7],
        vec![1, 3, 4, 5, 2, 3, 4],
        Some(vec![1, 1, 1, 1, 1, 1, 1]),
    )
    .unwrap();

    let a = assert_model_can_be_fit(&with_none);
    let b = assert_model_can_be_fit(&with_ones);
    assert_eq!(a.get_slope().numerator(), b.get_slope().numerator());
    assert_eq!(a.get_slope().denominator(), b.get_slope().denominator());
    assert_eq!(a.get_intercept().numerator(), b.get_intercept().numerator());
    assert_eq!(a.get_intercept().denominator(), b.get_intercept().denominator());
}

#[test]
fn test_scaled_weights_preserve_fit() {
    let plain = Wls::new(
        vec![1, 2, 3, 4, 5, 6, 7],
        vec![1, 3, 4, 5, 2, 3, 4],
        Some(vec![1, 2, 3, 1, 8, 1, 5]),
    )
    .unwrap();
    let scaled = Wls::new(
        vec![1, 2, 3, 4, 5, 6, 7],
        vec![1, 3, 4, 5, 2, 3, 4],
        Some(vec![3, 6, 9, 3, 24, 3, 15]),
    )
    .unwrap();

    let a = assert_model_can_be_fit(&plain);
    let b = assert_model_can_be_fit(&scaled);
    // Equal as rational numbers: cross products agree exactly.
    assert_eq!(
        a.get_slope().numerator() * b.get_slope().denominator(),
        b.get_slope().numerator() * a.get_slope().denominator()
    );
    assert_eq!(
        a.get_intercept().numerator() * b.get_intercept().denominator(),
        b.get_intercept().numerator() * a.get_intercept().denominator()
    );
}

#[test]
fn test_zero_weights_give_no_fit() {
    let wls = Wls::new(vec![1, 2, 3], vec![1, 2, 3], Some(vec![0, 0, 0])).unwrap();
    assert!(wls.fit_linear_regression().is_none());
}

#[test]
fn test_negative_weights_accepted() {
    let wls = Wls::new(vec![1, 2, 3], vec![1, 2, 3], Some(vec![1, -1, 1])).unwrap();
    assert!(wls.fit_linear_regression().is_some());
}

#[test]
fn test_length_mismatch_rejected() {
    let r = Wls::new(vec![1, 2, 3], vec![1, 2], None);
    assert_eq!(r.err(), Some(WlsError::MismatchedLengths));
}

#[test]
fn test_weights_length_mismatch_rejected() {
    let r = Wls::new(vec![1, 2, 3], vec![1, 2, 3], Some(vec![1, 1]));
    assert_eq!(r.err(), Some(WlsError::MismatchedWeightsLength));
}

#[test]
fn test_too_few_samples_rejected() {
    let r = Wls::new(vec![1], vec![1], None);
    assert_eq!(r.err(), Some(WlsError::TooFewSamples));
}

#[test]
fn test_too_many_samples_rejected() {
    let n = wls::MAX_SAMPLES + 1;
    let r = Wls::new(vec![0; n], vec![0; n], None);
    assert_eq!(r.err(), Some(WlsError::TooManySamples));
}

#[test]
fn test_sample_out_of_range_rejected() {
    let r = Wls::new(
        vec![wls::MAX_SAMPLE_MAGNITUDE + 1, 0],
        vec![0, 0],
        None,
    );
    assert_eq!(r.err(), Some(WlsError::SampleOutOfRange));

    let r = Wls::new(vec![0, 0], vec![0, 0], Some(vec![0, -(wls::MAX_SAMPLE_MAGNITUDE + 1)]));
    assert_eq!(r.err(), Some(WlsError::SampleOutOfRange));
}

#[test]
fn test_magnitude_boundary_accepted() {
    let r = Wls::new(
        vec![wls::MAX_SAMPLE_MAGNITUDE, -wls::MAX_SAMPLE_MAGNITUDE],
        vec![wls::MAX_SAMPLE_MAGNITUDE, -wls::MAX_SAMPLE_MAGNITUDE],
        None,
    );
    let point = assert_model_can_be_fit(&r.unwrap());
    assert_eq!(0.0, ratio_as_f64(point.get_intercept()));
    assert_eq!(1.0, ratio_as_f64(point.get_slope()));
}

#[test]
fn test_point_accessors() {
    let point = Point::new(Ratio::new(3, 2), Ratio::new(-1, 4));
    assert_eq!(3, point.get_intercept().numerator());
    assert_eq!(2, point.get_intercept().denominator());
    assert_eq!(-1, point.get_slope().numerator());
    assert_eq!(4, point.get_slope().denominator());
}

#[test]
fn test_validation_helpers() {
    wls::asserts::assert_true(true);
    wls::asserts::assert_have_same_size(&vec![1, 2, 3], &vec![4, 5, 6]);
    wls::asserts::assert_have_size_greater_than_two(&vec![1, 2]);
}
