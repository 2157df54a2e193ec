//! The calculated intercept and slope from a performed linear regression.

use vstd::prelude::*;

use crate::models::rational::Ratio;
use crate::models::rational::RatioModel;

verus! {

/// The mathematical value of a [`Point`]: the two fitted coefficients.
pub ghost struct PointModel {
    pub intercept: RatioModel,
    pub slope: RatioModel,
}

/// The calculated intercept and slope from the performed linear regression.
///
/// Immutable once created; it has no identity beyond its two fields.
#[derive(Clone, Copy, Debug)]
pub struct Point {
    /// Intercept/offset of the fitted line.
    intercept: Ratio,
    /// Slope/gain of the fitted line.
    slope: Ratio,
}

impl View for Point {
    type V = PointModel;

    closed spec fn view(&self) -> PointModel {
        PointModel { intercept: self.intercept@, slope: self.slope@ }
    }
}

impl Point {
    /// Create a new linear fit.
    pub fn new(intercept: Ratio, slope: Ratio) -> (p: Point)
        ensures
            p@.intercept == intercept@,
            p@.slope == slope@,
    {
        Point { intercept, slope }
    }

    /// Get the intercept/offset of this fitted line.
    pub fn get_intercept(&self) -> (r: Ratio)
        ensures
            r@ == self@.intercept,
    {
        self.intercept
    }

    /// Get the slope/gain of this fitted line.
    pub fn get_slope(&self) -> (r: Ratio)
        ensures
            r@ == self@.slope,
    {
        self.slope
    }
}

} // verus!
