//! What this crate relies on of `std::time::Duration`.
use std::time::Duration;
use vstd::prelude::*;

verus! {

/// The duration of `millis` milliseconds.
pub uninterp spec fn duration_of_millis(millis: u64) -> Duration;

/// Relies on `Duration::from_millis`: the interval depends on the count of
/// milliseconds alone.
pub assume_specification[ core::time::Duration::from_millis ](millis: u64) -> (r: Duration)
    ensures
        r == duration_of_millis(millis),
;

/// Relies on `Duration`'s `Clone`, which its `Copy` gives: the clone is
/// the value itself.
pub assume_specification[ <core::time::Duration as core::clone::Clone>::clone ](
    d: &Duration,
) -> (r: Duration)
    ensures
        r == *d,
;

} // verus!
