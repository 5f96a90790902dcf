//! Millisecond timestamps and spans, and the clock that stamps them.

use vstd::prelude::*;

verus! {

/// A point in time, counted in whole milliseconds from the clock's epoch.
///
/// Instants are only meaningful relative to other instants read from the same
/// clock.
#[derive(Clone, Copy, Debug, PartialEq, Eq, Structural)]
pub struct Instant {
    millis: u64,
}

/// A non-negative span of time in whole milliseconds.
#[derive(Clone, Copy, Debug, PartialEq, Eq, Structural)]
pub struct Duration {
    millis: u64,
}

impl View for Instant {
    type V = nat;

    /// Milliseconds between the epoch and this instant.
    closed spec fn view(&self) -> nat {
        self.millis as nat
    }
}

impl View for Duration {
    type V = nat;

    /// Length of the span in milliseconds.
    closed spec fn view(&self) -> nat {
        self.millis as nat
    }
}

/// The error of `std::time::SystemTime::elapsed`, carried through unread.
#[verifier::external_type_specification]
#[verifier::external_body]
pub struct ExSystemTimeError(std::time::SystemTimeError);

/// `core::time::Duration::as_millis`: the whole milliseconds in a span of
/// std. Nothing is assumed of the number.
pub assume_specification[ core::time::Duration::as_millis ](span: &core::time::Duration) -> (millis:
    u128)
;

/// `std::time::SystemTime::elapsed` on `UNIX_EPOCH`: the time that the system
/// clock has run past the Unix epoch, or an error when the clock reads a
/// moment before it. Nothing is assumed of either outcome. That the call
/// returns is assumed: it does where std has a system clock, and on a target
/// without one, as in a browser, std panics instead.
#[verifier::external_body]
fn since_unix_epoch() -> (elapsed: Result<core::time::Duration, std::time::SystemTimeError>) {
    std::time::UNIX_EPOCH.elapsed()
}

/// The integer `millis` held to the range of `u64`.
pub open spec fn saturated(millis: int) -> int {
    if millis < 0 {
        0
    } else if millis > u64::MAX {
        u64::MAX as int
    } else {
        millis
    }
}

impl Instant {
    /// The instant `millis` milliseconds after the epoch.
    pub fn from_millis(millis: u64) -> (t: Instant)
        ensures
            t@ == millis,
    {
        Instant { millis }
    }

    /// Milliseconds between the epoch and this instant.
    pub fn as_millis(&self) -> (millis: u64)
        ensures
            millis == self@,
    {
        self.millis
    }

    /// The instant that stands for a clock reading of `millis` milliseconds
    /// past the epoch: the reading itself where it fits in 64 bits, the
    /// latest representable instant where it does not.
    pub fn from_wide_millis(millis: u128) -> (t: Instant)
        ensures
            t@ == saturated(millis as int),
    {
        if millis > u64::MAX as u128 {
            Instant { millis: u64::MAX }
        } else {
            Instant { millis: millis as u64 }
        }
    }

    /// The instant that stands for what a clock has read: the milliseconds
    /// it has run past the epoch, or `None` where it reads a moment before
    /// the epoch. Such a moment counts as the epoch itself, so that an
    /// instant is never negative.
    pub fn from_clock_reading(reading: Option<u128>) -> (t: Instant)
        ensures
            t@ == match reading {
                Some(millis) => saturated(millis as int),
                None => 0,
            },
    {
        match reading {
            Some(millis) => Instant::from_wide_millis(millis),
            None => Instant { millis: 0 },
        }
    }

    /// Reads the system clock, in milliseconds since the Unix epoch.
    ///
    /// The result is `from_clock_reading` of what the clock read. The
    /// reading depends on the machine, and any instant may come back, so
    /// nothing is promised of the result.
    ///
    /// This needs a target on which std has a system clock. Elsewhere, in a
    /// browser for one, std panics when asked for the time: a caller there
    /// reads its own clock, makes an instant of the reading with
    /// `from_millis` or `from_clock_reading`, and hands it to the functions
    /// that take `now` as an argument.
    pub fn now() -> (t: Instant) {
        let reading = match since_unix_epoch() {
            Ok(elapsed) => Some(elapsed.as_millis()),
            Err(_) => None,
        };
        Instant::from_clock_reading(reading)
    }
}

impl Duration {
    /// The span of `millis` milliseconds.
    pub fn from_millis(millis: u64) -> (d: Duration)
        ensures
            d@ == millis,
    {
        Duration { millis }
    }

    /// Length of the span in milliseconds.
    pub fn as_millis(&self) -> (millis: u64)
        ensures
            millis == self@,
    {
        self.millis
    }
}

} // verus!
