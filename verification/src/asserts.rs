//! Validation helpers mirroring the estimator's construction-time checks.
//!
//! Each function states its condition as a precondition: a verified caller
//! must establish the condition before the call, so none of these can fail
//! at run time.

use vstd::prelude::*;

verus! {

/// Checks that a condition holds; callers must establish it beforehand.
pub fn assert_true(condition: bool)
    requires
        condition,
{
}

/// Checks that two sample vectors are index-aligned (same length).
pub fn assert_have_same_size(items_1: &Vec<i64>, items_2: &Vec<i64>)
    requires
        items_1@.len() == items_2@.len(),
{
}

/// Checks that a sample vector holds at least two points.
pub fn assert_have_size_greater_than_two(items: &Vec<i64>)
    requires
        items@.len() >= 2,
{
}

} // verus!
