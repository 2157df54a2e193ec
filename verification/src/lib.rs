//! Weighted least-squares (WLS) linear regression with exact arithmetic.
//!
//! The estimator owns three index-aligned sequences (x-values, y-values,
//! per-sample weights), validates them at construction, and computes the
//! slope and intercept of the line minimizing the weighted squared
//! residuals. All arithmetic is exact: samples are integers, and the fitted
//! slope and intercept are returned as rational numbers.

pub mod asserts;
pub mod models;

pub use models::point::Point;
pub use models::point::PointModel;
pub use models::rational::Ratio;
pub use models::rational::RatioModel;
pub use models::rational::rat_eq;
pub use models::wls::MAX_SAMPLES;
pub use models::wls::MAX_SAMPLE_MAGNITUDE;
pub use models::wls::Wls;
pub use models::wls::WlsError;
pub use models::wls::WlsModel;
