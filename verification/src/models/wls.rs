//! The weighted least squares estimator.

use vstd::prelude::*;

use crate::models::point::Point;
use crate::models::rational::Ratio;
use crate::models::rational::RatioModel;
use crate::models::rational::rat_eq;
use crate::models::sums::all_within_magnitude;
use crate::models::sums::lemma_sum_of_products_scaled;
use crate::models::sums::lemma_sum_of_scaled;
use crate::models::sums::lemma_sum_of_triple_products_scaled;
use crate::models::sums::scaled;
use crate::models::sums::fit_dividend;
use crate::models::sums::fit_divisor;
use crate::models::sums::fit_intercept_dividend;
use crate::models::sums::int_seq;
use crate::models::sums::sum_of;
use crate::models::sums::sum_of_products;
use crate::models::sums::sum_of_triple_products;
use crate::models::sums::uniform_weights;

verus! {

/// Largest magnitude a sample value or weight may have. The limit keeps
/// every intermediate of the exact fit within 128-bit arithmetic.
pub const MAX_SAMPLE_MAGNITUDE: i64 = 100_000;

/// Largest number of samples an estimator may hold; see
/// [`MAX_SAMPLE_MAGNITUDE`].
pub const MAX_SAMPLES: usize = 1_000_000;

/// Why construction of an estimator was rejected.
#[derive(Clone, Copy, Debug, PartialEq, Eq, Structural)]
pub enum WlsError {
    /// The x and y vectors do not have the same length.
    MismatchedLengths,
    /// Explicit weights were supplied with a length differing from x's.
    MismatchedWeightsLength,
    /// Fewer than two samples were supplied.
    TooFewSamples,
    /// More than [`MAX_SAMPLES`] samples were supplied.
    TooManySamples,
    /// A sample value or weight exceeds [`MAX_SAMPLE_MAGNITUDE`].
    SampleOutOfRange,
}

/// The mathematical content of an estimator: three index-aligned integer
/// sequences.
pub ghost struct WlsModel {
    pub x: Seq<int>,
    pub y: Seq<int>,
    pub w: Seq<int>,
}

/// Weighted least squares linear regression fit calculator.
///
/// Owns its samples and weights, validated at construction and read-only
/// afterwards.
pub struct Wls {
    x_points: Vec<i64>,
    y_points: Vec<i64>,
    weights: Vec<i64>,
}

impl View for Wls {
    type V = WlsModel;

    closed spec fn view(&self) -> WlsModel {
        WlsModel {
            x: int_seq(self.x_points@),
            y: int_seq(self.y_points@),
            w: int_seq(self.weights@),
        }
    }
}

/// Builds a weight vector of the same length as `capacity` in which every
/// element equals `value`.
fn populate_weights(capacity: &Vec<i64>, value: i64) -> (r: Vec<i64>)
    ensures
        r@.len() == capacity@.len(),
        forall|i: int| 0 <= i < r@.len() ==> r@[i] == value,
{
    let mut r: Vec<i64> = Vec::new();
    let mut i: usize = 0;
    while i < capacity.len()
        invariant
            i <= capacity@.len(),
            r@.len() == i,
            forall|j: int| 0 <= j < i ==> r@[j] == value,
        decreases capacity@.len() - i,
    {
        r.push(value);
        i += 1;
    }
    r
}

/// Reports whether every element of `values` lies within
/// [`MAX_SAMPLE_MAGNITUDE`] in magnitude.
fn all_within_limit(values: &Vec<i64>) -> (b: bool)
    ensures
        b == all_within_magnitude(int_seq(values@)),
{
    let mut i: usize = 0;
    while i < values.len()
        invariant
            i <= values@.len(),
            forall|j: int|
                0 <= j < i ==> -(MAX_SAMPLE_MAGNITUDE as int) <= #[trigger] (values@[j] as int)
                    <= MAX_SAMPLE_MAGNITUDE as int,
        decreases values@.len() - i,
    {
        let v = values[i];
        if v < -MAX_SAMPLE_MAGNITUDE || v > MAX_SAMPLE_MAGNITUDE {
            proof {
                assert(int_seq(values@)[i as int] == values@[i as int] as int);
                assert(!all_within_magnitude(int_seq(values@)));
            }
            return false;
        }
        i += 1;
    }
    proof {
        assert forall|j: int| 0 <= j < values@.len() implies -(MAX_SAMPLE_MAGNITUDE as int)
            <= #[trigger] int_seq(values@)[j] <= MAX_SAMPLE_MAGNITUDE as int by {
            assert(int_seq(values@)[j] == values@[j] as int);
        }
    }
    true
}

impl Wls {
    #[verifier::type_invariant]
    spec fn type_inv(self) -> bool {
        &&& self@.y.len() == self@.x.len()
        &&& self@.w.len() == self@.x.len()
        &&& 2 <= self@.x.len() <= MAX_SAMPLES
        &&& all_within_magnitude(self@.x)
        &&& all_within_magnitude(self@.y)
        &&& all_within_magnitude(self@.w)
    }

    /// Create a new instance of the weighted least square linear regression
    /// calculator.
    ///
    /// The x and y vectors must be index-aligned; weights, when supplied,
    /// must align with them too, and default to one otherwise. At least two
    /// samples are required. Malformed input is reported as an error rather
    /// than accepted, and each error states exactly which check failed
    /// first, in the order the checks run.
    pub fn new(x_points: Vec<i64>, y_points: Vec<i64>, weights: Option<Vec<i64>>) -> (r: Result<
        Wls,
        WlsError,
    >)
        ensures
            ({
                let len_ok = x_points@.len() == y_points@.len();
                let w_ok = match weights {
                    Some(ws) => ws@.len() == x_points@.len(),
                    None => true,
                };
                let wm = match weights {
                    Some(ws) => int_seq(ws@),
                    None => uniform_weights(x_points@.len()),
                };
                let shape_ok = len_ok && w_ok && 2 <= x_points@.len() <= MAX_SAMPLES;
                let range_ok = all_within_magnitude(int_seq(x_points@)) && all_within_magnitude(
                    int_seq(y_points@),
                ) && all_within_magnitude(wm);
                match r {
                    Ok(e) => {
                        &&& shape_ok
                        &&& range_ok
                        &&& e@.x == int_seq(x_points@)
                        &&& e@.y == int_seq(y_points@)
                        &&& e@.w == wm
                    },
                    Err(WlsError::MismatchedLengths) => !len_ok,
                    Err(WlsError::MismatchedWeightsLength) => len_ok && !w_ok,
                    Err(WlsError::TooFewSamples) => len_ok && w_ok && x_points@.len() < 2,
                    Err(WlsError::TooManySamples) => len_ok && w_ok && x_points@.len() > MAX_SAMPLES,
                    Err(WlsError::SampleOutOfRange) => shape_ok && !range_ok,
                }
            }),
    {
        if x_points.len() != y_points.len() {
            return Err(WlsError::MismatchedLengths);
        }
        let ghost had_weights = weights is Some;
        let weights_normalized: Vec<i64> = match weights {
            Some(ws) => {
                if ws.len() != x_points.len() {
                    return Err(WlsError::MismatchedWeightsLength);
                }
                ws
            },
            None => populate_weights(&x_points, 1),
        };
        if x_points.len() < 2 {
            return Err(WlsError::TooFewSamples);
        }
        if x_points.len() > MAX_SAMPLES {
            return Err(WlsError::TooManySamples);
        }
        if !all_within_limit(&x_points) || !all_within_limit(&y_points) || !all_within_limit(
            &weights_normalized,
        ) {
            return Err(WlsError::SampleOutOfRange);
        }
        proof {
            if !had_weights {
                assert(int_seq(weights_normalized@) =~= uniform_weights(x_points@.len()));
            } else {
                assert(int_seq(weights_normalized@) =~= int_seq(weights_normalized@));
            }
        }
        Ok(Wls { x_points, y_points, weights: weights_normalized })
    }

    /// Perform the linear regression and return the fit, if calculable.
    ///
    /// A single weighted pass accumulates the five sums `Sw`, `Swx`, `Swy`,
    /// `Swxy` and `Swxx`; the slope is `(Sw*Swxy - Swx*Swy) / (Sw*Swxx -
    /// Swx*Swx)` and the intercept is `(Swy*Swxx - Swx*Swxy)` over the same
    /// denominator (the Cramer solution of the weighted normal equations;
    /// see `lemma_intercept_normal_equation` for the equivalent
    /// `(Swy - slope*Swx) / Sw` form). A zero denominator means no unique
    /// line fits the weighted data: that is a defined empty outcome, not an
    /// error. The call is pure and recomputes from the stored data every
    /// time.
    pub fn fit_linear_regression(&self) -> (r: Option<Point>)
        ensures
            r is Some <==> fit_divisor(self@.x, self@.w) != 0,
            r matches Some(p) ==> ({
                let dd = fit_dividend(self@.x, self@.y, self@.w);
                let dv = fit_divisor(self@.x, self@.w);
                let id = fit_intercept_dividend(self@.x, self@.y, self@.w);
                &&& p@.slope.num == (if dv > 0 { dd } else { -dd })
                &&& p@.slope.den == (if dv > 0 { dv } else { -dv })
                &&& p@.intercept.num == (if dv > 0 { id } else { -id })
                &&& p@.intercept.den == (if dv > 0 { dv } else { -dv })
            }),
    {
        proof {
            use_type_invariant(&*self);
        }
        let ghost xs = self@.x;
        let ghost ys = self@.y;
        let ghost ws = self@.w;

        let mut sum_of_weights: i128 = 0;
        let mut sum_of_products_of_weights_and_x_squared: i128 = 0;
        let mut sum_of_products_of_x_and_y_and_weights: i128 = 0;
        let mut sum_of_products_of_xi_and_wi: i128 = 0;
        let mut sum_of_products_of_y_and_weights: i128 = 0;

        let n = self.x_points.len();
        let mut i: usize = 0;
        while i < n
            invariant
                i <= n,
                n == xs.len(),
                ys.len() == n,
                ws.len() == n,
                n <= MAX_SAMPLES,
                xs == self@.x,
                ys == self@.y,
                ws == self@.w,
                n == self.x_points@.len(),
                all_within_magnitude(xs),
                all_within_magnitude(ys),
                all_within_magnitude(ws),
                sum_of_weights as int == sum_of(ws, i as int),
                sum_of_products_of_xi_and_wi as int == sum_of_products(xs, ws, i as int),
                sum_of_products_of_y_and_weights as int == sum_of_products(ys, ws, i as int),
                sum_of_products_of_x_and_y_and_weights as int == sum_of_triple_products(
                    xs,
                    ws,
                    ys,
                    i as int,
                ),
                sum_of_products_of_weights_and_x_squared as int == sum_of_triple_products(
                    xs,
                    ws,
                    xs,
                    i as int,
                ),
                -(i as int) * 100_000 <= sum_of_weights as int <= (i as int) * 100_000,
                -(i as int) * 10_000_000_000 <= sum_of_products_of_xi_and_wi as int <= (i as int)
                    * 10_000_000_000,
                -(i as int) * 10_000_000_000 <= sum_of_products_of_y_and_weights as int <= (
                i as int) * 10_000_000_000,
                -(i as int) * 1_000_000_000_000_000 <= sum_of_products_of_x_and_y_and_weights as int
                    <= (i as int) * 1_000_000_000_000_000,
                -(i as int) * 1_000_000_000_000_000 <= sum_of_products_of_weights_and_x_squared as int
                    <= (i as int) * 1_000_000_000_000_000,
            decreases n - i,
        {
            let xi = self.x_points[i] as i128;
            let yi = self.y_points[i] as i128;
            let wi = self.weights[i] as i128;
            proof {
                assert(xi as int == xs[i as int]);
                assert(yi as int == ys[i as int]);
                assert(wi as int == ws[i as int]);
                assert(-10_000_000_000 <= xi as int * wi as int <= 10_000_000_000)
                    by (nonlinear_arith)
                    requires
                        -100_000 <= xi as int <= 100_000,
                        -100_000 <= wi as int <= 100_000,
                ;
                assert(-10_000_000_000 <= yi as int * wi as int <= 10_000_000_000)
                    by (nonlinear_arith)
                    requires
                        -100_000 <= yi as int <= 100_000,
                        -100_000 <= wi as int <= 100_000,
                ;
                assert(-1_000_000_000_000_000 <= (xi as int * wi as int) * yi as int
                    <= 1_000_000_000_000_000) by (nonlinear_arith)
                    requires
                        -10_000_000_000 <= xi as int * wi as int <= 10_000_000_000,
                        -100_000 <= yi as int <= 100_000,
                ;
                assert(-1_000_000_000_000_000 <= (xi as int * wi as int) * xi as int
                    <= 1_000_000_000_000_000) by (nonlinear_arith)
                    requires
                        -10_000_000_000 <= xi as int * wi as int <= 10_000_000_000,
                        -100_000 <= xi as int <= 100_000,
                ;
            }
            let product_of_xi_and_wi = xi * wi;
            sum_of_weights = sum_of_weights + wi;
            sum_of_products_of_xi_and_wi = sum_of_products_of_xi_and_wi + product_of_xi_and_wi;
            sum_of_products_of_x_and_y_and_weights = sum_of_products_of_x_and_y_and_weights
                + product_of_xi_and_wi * yi;
            sum_of_products_of_y_and_weights = sum_of_products_of_y_and_weights + yi * wi;
            sum_of_products_of_weights_and_x_squared = sum_of_products_of_weights_and_x_squared
                + product_of_xi_and_wi * xi;
            i += 1;
        }

        proof {
            assert(-100_000_000_000 <= sum_of_weights as int <= 100_000_000_000);
            assert(-10_000_000_000_000_000 <= sum_of_products_of_xi_and_wi as int
                <= 10_000_000_000_000_000);
            assert(-10_000_000_000_000_000 <= sum_of_products_of_y_and_weights as int
                <= 10_000_000_000_000_000);
            assert(-1_000_000_000_000_000_000_000 <= sum_of_products_of_x_and_y_and_weights as int
                <= 1_000_000_000_000_000_000_000);
            assert(-1_000_000_000_000_000_000_000 <= sum_of_products_of_weights_and_x_squared as int
                <= 1_000_000_000_000_000_000_000);
            assert(-100_000_000_000_000_000_000_000_000_000_000 <= sum_of_weights as int
                * sum_of_products_of_x_and_y_and_weights as int
                <= 100_000_000_000_000_000_000_000_000_000_000) by (nonlinear_arith)
                requires
                    -100_000_000_000 <= sum_of_weights as int <= 100_000_000_000,
                    -1_000_000_000_000_000_000_000 <= sum_of_products_of_x_and_y_and_weights as int
                        <= 1_000_000_000_000_000_000_000,
            ;
            assert(-100_000_000_000_000_000_000_000_000_000_000 <= sum_of_weights as int
                * sum_of_products_of_weights_and_x_squared as int
                <= 100_000_000_000_000_000_000_000_000_000_000) by (nonlinear_arith)
                requires
                    -100_000_000_000 <= sum_of_weights as int <= 100_000_000_000,
                    -1_000_000_000_000_000_000_000 <= sum_of_products_of_weights_and_x_squared as int
                        <= 1_000_000_000_000_000_000_000,
            ;
            assert(-100_000_000_000_000_000_000_000_000_000_000 <= sum_of_products_of_xi_and_wi as int
                * sum_of_products_of_y_and_weights as int
                <= 100_000_000_000_000_000_000_000_000_000_000) by (nonlinear_arith)
                requires
                    -10_000_000_000_000_000 <= sum_of_products_of_xi_and_wi as int
                        <= 10_000_000_000_000_000,
                    -10_000_000_000_000_000 <= sum_of_products_of_y_and_weights as int
                        <= 10_000_000_000_000_000,
            ;
            assert(-100_000_000_000_000_000_000_000_000_000_000 <= sum_of_products_of_xi_and_wi as int
                * sum_of_products_of_xi_and_wi as int
                <= 100_000_000_000_000_000_000_000_000_000_000) by (nonlinear_arith)
                requires
                    -10_000_000_000_000_000 <= sum_of_products_of_xi_and_wi as int
                        <= 10_000_000_000_000_000,
            ;
            assert(-10_000_000_000_000_000_000_000_000_000_000_000_000 <= sum_of_products_of_y_and_weights as int
                * sum_of_products_of_weights_and_x_squared as int
                <= 10_000_000_000_000_000_000_000_000_000_000_000_000) by (nonlinear_arith)
                requires
                    -10_000_000_000_000_000 <= sum_of_products_of_y_and_weights as int
                        <= 10_000_000_000_000_000,
                    -1_000_000_000_000_000_000_000 <= sum_of_products_of_weights_and_x_squared as int
                        <= 1_000_000_000_000_000_000_000,
            ;
            assert(-10_000_000_000_000_000_000_000_000_000_000_000_000 <= sum_of_products_of_xi_and_wi as int
                * sum_of_products_of_x_and_y_and_weights as int
                <= 10_000_000_000_000_000_000_000_000_000_000_000_000) by (nonlinear_arith)
                requires
                    -10_000_000_000_000_000 <= sum_of_products_of_xi_and_wi as int
                        <= 10_000_000_000_000_000,
                    -1_000_000_000_000_000_000_000 <= sum_of_products_of_x_and_y_and_weights as int
                        <= 1_000_000_000_000_000_000_000,
            ;
        }
        let dividend = sum_of_weights * sum_of_products_of_x_and_y_and_weights
            - sum_of_products_of_xi_and_wi * sum_of_products_of_y_and_weights;
        let divisor = sum_of_weights * sum_of_products_of_weights_and_x_squared
            - sum_of_products_of_xi_and_wi * sum_of_products_of_xi_and_wi;
        if divisor == 0 {
            return None;
        }
        let intercept_dividend = sum_of_products_of_y_and_weights
            * sum_of_products_of_weights_and_x_squared - sum_of_products_of_xi_and_wi
            * sum_of_products_of_x_and_y_and_weights;
        let (slope_num, intercept_num, den) = if divisor < 0 {
            (-dividend, -intercept_dividend, -divisor)
        } else {
            (dividend, intercept_dividend, divisor)
        };
        let slope = Ratio::new(slope_num, den);
        let intercept = Ratio::new(intercept_num, den);
        Some(Point::new(intercept, slope))
    }
}

/// Fitting with an explicit all-ones weight vector gives the very same
/// dividend, divisor and intercept dividend as fitting with the weights an
/// estimator materializes when none are supplied: omitting the weights is
/// exactly unweighted least squares.
pub proof fn lemma_uniform_weight_equivalence(x: Seq<int>, y: Seq<int>, w: Seq<int>)
    requires
        w.len() == x.len(),
        forall|i: int| 0 <= i < w.len() ==> w[i] == 1,
    ensures
        fit_dividend(x, y, w) == fit_dividend(x, y, uniform_weights(x.len())),
        fit_divisor(x, w) == fit_divisor(x, uniform_weights(x.len())),
        fit_intercept_dividend(x, y, w) == fit_intercept_dividend(x, y, uniform_weights(x.len())),
{
    assert(w =~= uniform_weights(x.len()));
}

/// Multiplying every weight by the same positive constant changes neither
/// the fitted slope nor the fitted intercept: dividend, divisor and
/// intercept dividend all pick up the same factor `c * c`, so the fit is
/// computable for the scaled weights exactly when it is for the original
/// ones, and the resulting rational values are equal (stated as cross
/// products).
pub proof fn lemma_weight_scale_invariance(x: Seq<int>, y: Seq<int>, w: Seq<int>, c: int)
    requires
        c > 0,
        w.len() == x.len(),
        y.len() == x.len(),
    ensures
        fit_dividend(x, y, scaled(w, c)) == c * c * fit_dividend(x, y, w),
        fit_divisor(x, scaled(w, c)) == c * c * fit_divisor(x, w),
        fit_intercept_dividend(x, y, scaled(w, c)) == c * c * fit_intercept_dividend(x, y, w),
        fit_divisor(x, scaled(w, c)) == 0 <==> fit_divisor(x, w) == 0,
        fit_dividend(x, y, scaled(w, c)) * fit_divisor(x, w) == fit_dividend(x, y, w)
            * fit_divisor(x, scaled(w, c)),
        fit_intercept_dividend(x, y, scaled(w, c)) * fit_divisor(x, w) == fit_intercept_dividend(
            x,
            y,
            w,
        ) * fit_divisor(x, scaled(w, c)),
{
    let n = x.len() as int;
    lemma_sum_of_scaled(w, c, n);
    lemma_sum_of_products_scaled(x, w, c, n);
    lemma_sum_of_products_scaled(y, w, c, n);
    lemma_sum_of_triple_products_scaled(x, w, y, c, n);
    lemma_sum_of_triple_products_scaled(x, w, x, c, n);
    let sw = sum_of(w, n);
    let swx = sum_of_products(x, w, n);
    let swy = sum_of_products(y, w, n);
    let swxy = sum_of_triple_products(x, w, y, n);
    let swxx = sum_of_triple_products(x, w, x, n);
    lemma_scaled_determinant(sw, swxy, swx, swy, c);
    lemma_scaled_determinant(sw, swxx, swx, swx, c);
    lemma_scaled_determinant(swy, swxx, swx, swxy, c);
    lemma_scale_factor_facts(fit_dividend(x, y, w), fit_divisor(x, w), c);
    lemma_scale_factor_facts(fit_intercept_dividend(x, y, w), fit_divisor(x, w), c);
}

/// A common factor of two factors becomes a square factor of the product.
proof fn lemma_square_factor(a: int, b: int, c: int)
    by (nonlinear_arith)
    ensures
        (c * a) * (c * b) == (c * c) * (a * b),
{
}

/// Multiplication distributes over a difference.
proof fn lemma_mul_diff(k: int, x: int, y: int)
    by (nonlinear_arith)
    ensures
        k * x - k * y == k * (x - y),
{
}

/// Scaling each factor of a 2x2 determinant's entries by `c` scales the
/// determinant by `c * c`.
proof fn lemma_scaled_determinant(a: int, b: int, p: int, q: int, c: int)
    ensures
        (c * a) * (c * b) - (c * p) * (c * q) == c * c * (a * b - p * q),
{
    lemma_square_factor(a, b, c);
    lemma_square_factor(p, q, c);
    lemma_mul_diff(c * c, a * b, p * q);
}

/// A common positive square factor neither creates nor destroys a zero,
/// and cancels out of the cross products of the two quotients.
proof fn lemma_scale_factor_facts(num: int, den: int, c: int)
    by (nonlinear_arith)
    requires
        c > 0,
    ensures
        c * c * den == 0 <==> den == 0,
        (c * c * num) * den == num * (c * c * den),
{
}

/// Whenever the total weight `Sw` is nonzero (and the fit is computable),
/// the intercept reported by the fit, `(Swy*Swxx - Swx*Swxy) / (Sw*Swxx -
/// Swx*Swx)`, equals the textbook closed form `(Swy - slope*Swx) / Sw`,
/// stated as equality of rationals by cross products.
pub proof fn lemma_intercept_normal_equation(x: Seq<int>, y: Seq<int>, w: Seq<int>)
    requires
        sum_of(w, x.len() as int) != 0,
        fit_divisor(x, w) != 0,
    ensures
        rat_eq(
            RatioModel { num: fit_intercept_dividend(x, y, w), den: fit_divisor(x, w) },
            RatioModel {
                num: sum_of_products(y, w, x.len() as int) * fit_divisor(x, w) - fit_dividend(
                    x,
                    y,
                    w,
                ) * sum_of_products(x, w, x.len() as int),
                den: sum_of(w, x.len() as int) * fit_divisor(x, w),
            },
        ),
{
    let n = x.len() as int;
    let sw = sum_of(w, n);
    let swx = sum_of_products(x, w, n);
    let swy = sum_of_products(y, w, n);
    let swxy = sum_of_triple_products(x, w, y, n);
    let swxx = sum_of_triple_products(x, w, x, n);
    let dv = sw * swxx - swx * swx;
    assert(swy * (sw * swxx - swx * swx) - (sw * swxy - swx * swy) * swx == sw * (swy * swxx - swx
        * swxy)) by (nonlinear_arith);
    assert((swy * swxx - swx * swxy) * (sw * dv) == (sw * (swy * swxx - swx * swxy)) * dv)
        by (nonlinear_arith);
}

} // verus!
