//! Monotonic time and durations, as the controllers in this crate see them.
//!
//! Readings of the clock depend on when they are taken, so nothing is
//! promised of them; durations built from fixed amounts are described by the
//! number of nanoseconds they hold.

use std::time::Duration;
use std::time::Instant;
use vstd::prelude::*;

verus! {

#[verifier::external_type_specification]
#[verifier::external_body]
pub struct ExInstant(Instant);

/// The number of nanoseconds that `Duration::as_nanos` reports for `d`.
pub uninterp spec fn duration_nanos(d: Duration) -> u128;

/// Largest number of nanoseconds a `Duration` can hold: `u64::MAX` seconds
/// plus 999,999,999 nanoseconds.
pub open spec fn max_duration_nanos() -> int {
    18_446_744_073_709_551_615int * 1_000_000_000 + 999_999_999
}

/// Calls `Duration::as_nanos`; the result is the name `duration_nanos` of the
/// duration, which never exceeds `Duration::MAX`.
#[verifier::external_body]
pub(crate) fn duration_as_nanos(d: &Duration) -> (n: u128)
    ensures
        n == duration_nanos(*d),
        n <= max_duration_nanos(),
{
    d.as_nanos()
}

/// Calls `Duration::from_millis`: the duration holds `ms` milliseconds.
#[verifier::external_body]
pub(crate) fn duration_from_millis(ms: u64) -> (d: Duration)
    ensures
        duration_nanos(d) == ms * 1_000_000,
{
    Duration::from_millis(ms)
}

/// Calls `Duration::from_secs`: the duration holds `secs` seconds.
#[verifier::external_body]
pub(crate) fn duration_from_secs(secs: u64) -> (d: Duration)
    ensures
        duration_nanos(d) == secs * 1_000_000_000,
{
    Duration::from_secs(secs)
}

/// Calls `Instant::now`. The reading depends on the time of the call, so
/// nothing is stated of it.
#[verifier::external_body]
pub(crate) fn instant_now() -> (i: Instant) {
    Instant::now()
}

/// Calls `Instant::elapsed`. The result depends on the time of the call, so
/// nothing is stated of it.
#[verifier::external_body]
pub(crate) fn instant_elapsed(i: &Instant) -> (d: Duration) {
    i.elapsed()
}

} // verus!
