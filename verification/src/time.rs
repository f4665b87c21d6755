//! The few facts about `std::time::Duration` that the timeouts rest on.
use std::time::Duration;
use vstd::prelude::*;

verus! {

/// The length of a duration in nanoseconds, as `Duration::as_nanos` returns it.
pub uninterp spec fn duration_nanos(d: Duration) -> u128;

/// Calls `Duration::as_nanos`; trusted to return `duration_nanos(*d)`.
#[verifier::external_body]
pub(crate) fn duration_as_nanos(d: &Duration) -> (r: u128)
    ensures
        r == duration_nanos(*d),
{
    d.as_nanos()
}

/// Calls `Duration::from_nanos`, which std documents as the duration of exactly
/// `nanos` nanoseconds; trusted to give back `nanos` through `as_nanos`.
#[verifier::external_body]
pub(crate) fn duration_from_nanos(nanos: u64) -> (d: Duration)
    ensures
        duration_nanos(d) == nanos,
{
    Duration::from_nanos(nanos)
}

/// Calls `Duration::is_zero`, which std documents as "this duration spans no time";
/// trusted to be true exactly when the duration is zero nanoseconds long.
#[verifier::external_body]
pub(crate) fn duration_is_zero(d: &Duration) -> (r: bool)
    ensures
        r == (duration_nanos(*d) == 0),
{
    d.is_zero()
}

/// `Duration` is `Copy`, and its `clone` is the derived one: trusted to give back
/// the same duration.
pub assume_specification[ <Duration as Clone>::clone ](d: &Duration) -> (r: Duration)
    ensures
        r == *d,
;

} // verus!
