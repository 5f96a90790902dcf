//! How long a cached value stays fresh.
//!
//! A value stamped `updated_at` with a time-to-live `ttl` turns stale at the
//! deadline `updated_at + ttl`. The functions here measure what is left until
//! that deadline, and never go below zero: a value past its deadline has
//! nothing left.

use vstd::prelude::*;
use crate::instant::Duration;
use crate::instant::Instant;

verus! {

/// Milliseconds left at `now` until a value stamped `updated_at` with a
/// time-to-live of `ttl` turns stale: the distance to the deadline while it
/// lies ahead, zero from the deadline on.
pub open spec fn remaining_at(updated_at: int, ttl: int, now: int) -> int {
    if now <= updated_at + ttl {
        updated_at + ttl - now
    } else {
        0
    }
}

/// Time left at `now` until a value stamped `updated_at` turns stale.
///
/// The result has to fit a span: `updated_at + ttl - now` may not exceed
/// `u64::MAX` milliseconds, which only a `now` far before `updated_at` can
/// cause.
pub fn time_until_stale_at(updated_at: Instant, ttl: Duration, now: Instant) -> (remaining:
    Duration)
    requires
        updated_at@ + ttl@ - now@ <= u64::MAX,
    ensures
        remaining@ == remaining_at(updated_at@ as int, ttl@ as int, now@ as int),
        now@ <= updated_at@ + ttl@ ==> remaining@ == updated_at@ + ttl@ - now@,
        now@ > updated_at@ + ttl@ ==> remaining@ == 0,
{
    let deadline: i128 = updated_at.as_millis() as i128 + ttl.as_millis() as i128;
    let left: i128 = deadline - now.as_millis() as i128;
    if left < 0 {
        Duration::from_millis(0)
    } else {
        Duration::from_millis(left as u64)
    }
}

/// Time left, by the system clock, until a value stamped `updated_at` turns
/// stale.
///
/// The clock is read once. Whatever it reads, the result is the time left at
/// that reading, so it is never more than the whole of `updated_at + ttl`,
/// which has to be a representable instant.
pub fn time_until_stale(updated_at: Instant, ttl: Duration) -> (remaining: Duration)
    requires
        updated_at@ + ttl@ <= u64::MAX,
    ensures
        exists|now: Instant|
            remaining@ == #[trigger] remaining_at(updated_at@ as int, ttl@ as int, now@ as int),
        remaining@ <= updated_at@ + ttl@,
{
    let now = Instant::now();
    time_until_stale_at(updated_at, ttl, now)
}

/// Time left at `now` until staleness, for a value that may never have been
/// stamped or may never expire: `None` unless both the stamp and the
/// time-to-live are present.
pub fn maybe_time_until_stale_at(
    updated_at: Option<Instant>,
    ttl: Option<Duration>,
    now: Instant,
) -> (remaining: Option<Duration>)
    requires
        updated_at is Some && ttl is Some ==> updated_at.unwrap()@ + ttl.unwrap()@ - now@
            <= u64::MAX,
    ensures
        remaining is Some <==> updated_at is Some && ttl is Some,
        remaining is Some ==> remaining.unwrap()@ == remaining_at(
            updated_at.unwrap()@ as int,
            ttl.unwrap()@ as int,
            now@ as int,
        ),
{
    match (updated_at, ttl) {
        (Some(stamp), Some(span)) => Some(time_until_stale_at(stamp, span, now)),
        _ => None,
    }
}

/// Time left, by the system clock, until staleness, for a value that may
/// never have been stamped or may never expire: `None` unless both the stamp
/// and the time-to-live are present. The clock is read only when they are.
pub fn maybe_time_until_stale(updated_at: Option<Instant>, ttl: Option<Duration>) -> (remaining:
    Option<Duration>)
    requires
        updated_at is Some && ttl is Some ==> updated_at.unwrap()@ + ttl.unwrap()@ <= u64::MAX,
    ensures
        remaining is Some <==> updated_at is Some && ttl is Some,
        updated_at is None ==> remaining is None,
        ttl is None ==> remaining is None,
        remaining is Some ==> exists|now: Instant|
            remaining.unwrap()@ == #[trigger] remaining_at(
                updated_at.unwrap()@ as int,
                ttl.unwrap()@ as int,
                now@ as int,
            ),
        remaining is Some ==> remaining.unwrap()@ <= updated_at.unwrap()@ + ttl.unwrap()@,
{
    match (updated_at, ttl) {
        (Some(stamp), Some(span)) => Some(time_until_stale_at(stamp, span, Instant::now())),
        _ => None,
    }
}

} // verus!
