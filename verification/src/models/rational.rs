//! Exact rational numbers used to report a fitted slope and intercept.

use vstd::prelude::*;

verus! {

/// The mathematical value of a [`Ratio`]: numerator and denominator as
/// unbounded integers. The denominator is always positive.
pub ghost struct RatioModel {
    pub num: int,
    pub den: int,
}

/// Two rationals denote the same number exactly when their cross products
/// agree: a/b == c/d iff a*d == c*b.
pub open spec fn rat_eq(a: RatioModel, b: RatioModel) -> bool {
    a.num * b.den == b.num * a.den
}

/// An exact rational number with a positive denominator.
///
/// The fraction is stored as given, without reduction to lowest terms;
/// equality of values is cross-product equality, not field equality.
#[derive(Clone, Copy, Debug)]
pub struct Ratio {
    num: i128,
    den: i128,
}

impl View for Ratio {
    type V = RatioModel;

    closed spec fn view(&self) -> RatioModel {
        RatioModel { num: self.num as int, den: self.den as int }
    }
}

impl Ratio {
    #[verifier::type_invariant]
    spec fn type_inv(self) -> bool {
        self.den > 0
    }

    /// Builds the rational `num / den`; the denominator must be positive.
    pub fn new(num: i128, den: i128) -> (r: Ratio)
        requires
            den > 0,
        ensures
            r@.num == num as int,
            r@.den == den as int,
    {
        Ratio { num, den }
    }

    /// The stored numerator.
    pub fn numerator(&self) -> (n: i128)
        ensures
            n as int == self@.num,
    {
        self.num
    }

    /// The stored denominator; positive for every value of this type.
    pub fn denominator(&self) -> (d: i128)
        ensures
            d as int == self@.den,
            d > 0,
    {
        proof {
            use_type_invariant(&*self);
        }
        self.den
    }
}

} // verus!
