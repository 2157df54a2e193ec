//! The weighted sums behind the closed-form WLS solution.
//!
//! The fit accumulates five scalar sums over the samples; the slope and
//! intercept are quotients of determinants built from them. These spec
//! functions are the mathematical reference the executable fit is proved
//! against, and the lemmas state how the sums respond to rescaled weights.

use vstd::prelude::*;

verus! {

/// The integer values of a vector of samples.
pub open spec fn int_seq(s: Seq<i64>) -> Seq<int> {
    s.map_values(|v: i64| v as int)
}

/// Sum of the first `n` weights: adds `w[i]`.
pub open spec fn sum_of(w: Seq<int>, n: int) -> int
    decreases n,
{
    if n <= 0 {
        0
    } else {
        sum_of(w, n - 1) + w[n - 1]
    }
}

/// Weighted sum of the first `n` samples: adds `a[i] * w[i]`.
pub open spec fn sum_of_products(a: Seq<int>, w: Seq<int>, n: int) -> int
    decreases n,
{
    if n <= 0 {
        0
    } else {
        sum_of_products(a, w, n - 1) + a[n - 1] * w[n - 1]
    }
}

/// Weighted sum of pairwise products of two sample sequences:
/// adds `a[i] * w[i] * b[i]`.
pub open spec fn sum_of_triple_products(a: Seq<int>, w: Seq<int>, b: Seq<int>, n: int) -> int
    decreases n,
{
    if n <= 0 {
        0
    } else {
        sum_of_triple_products(a, w, b, n - 1) + a[n - 1] * w[n - 1] * b[n - 1]
    }
}

/// Numerator of the fitted slope: `Sw * Swxy - Swx * Swy`.
pub open spec fn fit_dividend(x: Seq<int>, y: Seq<int>, w: Seq<int>) -> int {
    let n = x.len() as int;
    sum_of(w, n) * sum_of_triple_products(x, w, y, n) - sum_of_products(x, w, n) * sum_of_products(
        y,
        w,
        n,
    )
}

/// Shared denominator of slope and intercept: `Sw * Swxx - Swx * Swx`,
/// the determinant of the weighted normal equations. It is zero exactly
/// when the weighted data has no unique best-fit line.
pub open spec fn fit_divisor(x: Seq<int>, w: Seq<int>) -> int {
    let n = x.len() as int;
    sum_of(w, n) * sum_of_triple_products(x, w, x, n) - sum_of_products(x, w, n) * sum_of_products(
        x,
        w,
        n,
    )
}

/// Numerator of the fitted intercept: `Swy * Swxx - Swx * Swxy`.
pub open spec fn fit_intercept_dividend(x: Seq<int>, y: Seq<int>, w: Seq<int>) -> int {
    let n = x.len() as int;
    sum_of_products(y, w, n) * sum_of_triple_products(x, w, x, n) - sum_of_products(x, w, n)
        * sum_of_triple_products(x, w, y, n)
}

/// Every value of the sequence lies within the given magnitude bound.
pub open spec fn all_within_magnitude(s: Seq<int>) -> bool {
    forall|i: int|
        0 <= i < s.len() ==> -(crate::models::wls::MAX_SAMPLE_MAGNITUDE as int) <= #[trigger] s[i]
            <= crate::models::wls::MAX_SAMPLE_MAGNITUDE as int
}

/// A weight sequence of the given length with every weight equal to one:
/// the weights an estimator materializes when none are supplied.
pub open spec fn uniform_weights(n: nat) -> Seq<int> {
    Seq::new(n, |i: int| 1)
}

/// Every weight multiplied by the same constant `c`.
pub open spec fn scaled(w: Seq<int>, c: int) -> Seq<int> {
    w.map_values(|v: int| c * v)
}

/// Scaling the weights scales their sum.
pub proof fn lemma_sum_of_scaled(w: Seq<int>, c: int, n: int)
    requires
        0 <= n <= w.len(),
    ensures
        sum_of(scaled(w, c), n) == c * sum_of(w, n),
    decreases n,
{
    if n > 0 {
        lemma_sum_of_scaled(w, c, n - 1);
        assert(scaled(w, c)[n - 1] == c * w[n - 1]);
        assert(c * sum_of(w, n - 1) + c * w[n - 1] == c * (sum_of(w, n - 1) + w[n - 1]))
            by (nonlinear_arith);
    }
}

/// Scaling the weights scales the weighted sum of samples.
pub proof fn lemma_sum_of_products_scaled(a: Seq<int>, w: Seq<int>, c: int, n: int)
    requires
        0 <= n <= w.len(),
    ensures
        sum_of_products(a, scaled(w, c), n) == c * sum_of_products(a, w, n),
    decreases n,
{
    if n > 0 {
        lemma_sum_of_products_scaled(a, w, c, n - 1);
        assert(scaled(w, c)[n - 1] == c * w[n - 1]);
        assert(a[n - 1] * (c * w[n - 1]) == c * (a[n - 1] * w[n - 1])) by (nonlinear_arith);
        assert(c * sum_of_products(a, w, n - 1) + c * (a[n - 1] * w[n - 1]) == c * (sum_of_products(
            a,
            w,
            n - 1,
        ) + a[n - 1] * w[n - 1])) by (nonlinear_arith);
    }
}

/// Scaling the weights scales the weighted sum of pairwise products.
pub proof fn lemma_sum_of_triple_products_scaled(a: Seq<int>, w: Seq<int>, b: Seq<int>, c: int, n: int)
    requires
        0 <= n <= w.len(),
    ensures
        sum_of_triple_products(a, scaled(w, c), b, n) == c * sum_of_triple_products(a, w, b, n),
    decreases n,
{
    if n > 0 {
        lemma_sum_of_triple_products_scaled(a, w, b, c, n - 1);
        assert(scaled(w, c)[n - 1] == c * w[n - 1]);
        assert(a[n - 1] * (c * w[n - 1]) * b[n - 1] == c * (a[n - 1] * w[n - 1] * b[n - 1]))
            by (nonlinear_arith);
        assert(c * sum_of_triple_products(a, w, b, n - 1) + c * (a[n - 1] * w[n - 1] * b[n - 1])
            == c * (sum_of_triple_products(a, w, b, n - 1) + a[n - 1] * w[n - 1] * b[n - 1]))
            by (nonlinear_arith);
    }
}

} // verus!
