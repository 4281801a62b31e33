//! The monotonic clock and durations, as the standard library provides them.

use vstd::prelude::*;

use std::time::{Duration, Instant};

verus! {

/// A point in time from the monotonic clock.
#[verifier::external_type_specification]
#[verifier::external_body]
pub struct ExInstant(Instant);

/// A `Duration` of `secs` seconds and `nanos` nanoseconds, as `Duration::new` builds it.
pub uninterp spec fn duration_of(secs: u64, nanos: u32) -> Duration;

/// Calls `Instant::now`. Nothing is stated of the result: it is the current time.
#[verifier::external_body]
pub(crate) fn instant_now() -> Instant {
    Instant::now()
}

/// Calls `Instant::elapsed` and gives the result in whole nanoseconds
/// (`Duration::as_nanos`). Nothing is stated of the result: it depends on the clock.
#[verifier::external_body]
pub(crate) fn elapsed_nanos(start: &Instant) -> u128 {
    start.elapsed().as_nanos()
}

/// Calls `Duration::new(secs, nanos)`; the result is named [duration_of]. With `nanos`
/// below one second `Duration::new` does not carry and cannot panic.
#[verifier::external_body]
pub(crate) fn duration_new(secs: u64, nanos: u32) -> (d: Duration)
    requires
        nanos < 1_000_000_000,
    ensures
        d == duration_of(secs, nanos),
{
    Duration::new(secs, nanos)
}

/// Whole milliseconds in a number of nanoseconds, truncated to 64 bits as an `as u64`
/// cast does.
pub open spec fn millis_of_nanos(nanos: u128) -> u64 {
    (nanos / 1_000_000) as u64
}

/// Nanoseconds truncated to 64 bits, as an `as u64` cast does.
pub open spec fn nanos_as_u64(nanos: u128) -> u64 {
    nanos as u64
}

/// The millisecond timestamp of an uptime of `nanos` nanoseconds.
pub fn timestamp_millis_of(nanos: u128) -> (t: u64)
    ensures
        t == millis_of_nanos(nanos),
{
    #[verifier::truncate]
    ((nanos / 1_000_000) as u64)
}

/// The nanosecond timestamp of an uptime of `nanos` nanoseconds.
pub fn timestamp_nanos_of(nanos: u128) -> (t: u64)
    ensures
        t == nanos_as_u64(nanos),
{
    #[verifier::truncate]
    (nanos as u64)
}

/// Gets a millis timestamp of the app's uptime, counted from `started_at`
///
/// Used for certain packets
pub fn get_timestamp_millis(started_at: &Instant) -> (t: u64)
    ensures
        exists|elapsed: u128| t == millis_of_nanos(elapsed),
{
    let elapsed = elapsed_nanos(started_at);
    timestamp_millis_of(elapsed)
}

/// Gets a nanos timestamp of the app's uptime, counted from `started_at`
///
/// Used for certain packets
pub fn get_timestamp_nanos(started_at: &Instant) -> (t: u64)
    ensures
        exists|elapsed: u128| t == nanos_as_u64(elapsed),
{
    let elapsed = elapsed_nanos(started_at);
    timestamp_nanos_of(elapsed)
}

/// A later uptime never gives a smaller timestamp, as long as the timestamp fits in 64
/// bits (milliseconds for some 584 million years, nanoseconds for some 584 years).
pub proof fn lemma_timestamps_monotonic(earlier: u128, later: u128)
    requires
        earlier <= later,
    ensures
        later / 1_000_000 <= u64::MAX ==> millis_of_nanos(earlier) <= millis_of_nanos(later),
        later <= u64::MAX ==> nanos_as_u64(earlier) <= nanos_as_u64(later),
{
    assert(earlier / 1_000_000 <= later / 1_000_000) by (nonlinear_arith)
        requires
            earlier <= later,
    ;
}

} // verus!
