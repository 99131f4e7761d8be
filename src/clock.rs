use std::time::{Duration, Instant};
use vstd::prelude::*;

use crate::elapsed::Elapsed;

verus! {

/// A reading of std's monotonic clock, carried through unopened.
#[verifier::external_type_specification]
#[verifier::external_body]
pub struct ExInstant(Instant);

/// Relies on std::time::Instant::now: a reading of the monotonic clock.
#[verifier::external_body]
pub(crate) fn now() -> Instant {
    Instant::now()
}

/// Relies on std::time::Instant::elapsed: the time that has passed since `since`.
#[verifier::external_body]
fn elapsed_duration(since: &Instant) -> Duration {
    since.elapsed()
}

/// Relies on std::time::Duration::as_nanos: the whole nanoseconds of `d`.
#[verifier::external_body]
fn duration_nanos(d: &Duration) -> u128 {
    d.as_nanos()
}

/// The time that has passed since `since`, as read from the monotonic clock.
pub(crate) fn elapsed_since(since: &Instant) -> Elapsed {
    Elapsed::from_nanos(duration_nanos(&elapsed_duration(since)))
}

} // verus!
