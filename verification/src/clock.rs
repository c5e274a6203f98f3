//! The few calls into `chrono` that the time-range logic makes.

use vstd::prelude::*;

verus! {

#[verifier::external_type_specification]
#[verifier::external_body]
pub struct ExTimeDelta(chrono::TimeDelta);

/// The span that `chrono::TimeDelta::seconds` builds from a whole number of seconds.
pub uninterp spec fn time_delta_of_seconds(seconds: i64) -> chrono::TimeDelta;

/// Calls `chrono::TimeDelta::seconds`. Its source panics outside
/// `-i64::MAX / 1000 ..= i64::MAX / 1000`, which `requires` leaves out; the
/// contract claims only that the span is the one that call builds from `seconds`.
#[verifier::external_body]
pub(crate) fn time_delta_seconds(seconds: i64) -> (d: chrono::TimeDelta)
    requires
        -9_223_372_036_854_775 <= seconds <= 9_223_372_036_854_775,
    ensures
        d == time_delta_of_seconds(seconds),
{
    chrono::TimeDelta::seconds(seconds)
}

} // verus!
