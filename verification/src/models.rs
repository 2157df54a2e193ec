//! The data model: exact rationals, the fitted line, and the estimator.

pub mod point;
pub mod rational;
pub mod sums;
pub mod wls;
