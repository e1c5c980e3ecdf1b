//! Wall-clock time, as the coordinator's timeout budget reads it.

use std::time::{Duration, Instant};

use vstd::prelude::*;

verus! {

/// `std::time::Instant`, carried opaquely: the moment a shutdown was
/// initiated or a hook run started.
#[verifier::external_type_specification]
#[verifier::external_body]
pub struct ExInstant(std::time::Instant);

/// What `Duration::from_millis(ms)` returns for `ms`.
pub uninterp spec fn duration_from_millis(ms: u64) -> Duration;

/// What `later.saturating_duration_since(earlier)` returns.
pub uninterp spec fn duration_between(later: Instant, earlier: Instant) -> Duration;

/// Whether `Duration`'s `>` holds between `a` and `b`.
pub uninterp spec fn duration_longer(a: Duration, b: Duration) -> bool;

/// Calls `Duration::from_millis`; the result depends on `ms` alone.
#[verifier::external_body]
pub(crate) fn millis(ms: u64) -> (d: Duration)
    ensures
        d == duration_from_millis(ms),
{
    Duration::from_millis(ms)
}

/// Calls `Duration`'s `>` (`PartialOrd::gt`); the result depends on
/// the two durations alone.
#[verifier::external_body]
pub(crate) fn longer(a: &Duration, b: &Duration) -> (r: bool)
    ensures
        r == duration_longer(*a, *b),
{
    a > b
}

/// Calls `Instant::now`. The result is the current time; nothing is
/// promised of it.
#[verifier::external_body]
pub(crate) fn now() -> (r: Instant) {
    Instant::now()
}

/// Calls `Instant::saturating_duration_since`: the time from `earlier`
/// to `later`, zero if `later` is not after `earlier`. The result
/// depends on the two instants alone.
#[verifier::external_body]
pub(crate) fn since(later: &Instant, earlier: &Instant) -> (r: Duration)
    ensures
        r == duration_between(*later, *earlier),
{
    later.saturating_duration_since(*earlier)
}

} // verus!
