//! The time that has passed since the proxy was started.

use vstd::prelude::*;

verus! {

/// A point in time, as std holds it. Opaque here.
#[verifier::external_type_specification]
#[verifier::external_body]
pub struct ExInstant(std::time::Instant);

/// `std::time::Instant::now`: some point in time. Nothing is said of which.
pub assume_specification[ std::time::Instant::now ]() -> (r: std::time::Instant)
;

/// `std::time::Instant::elapsed`: some span of time. Nothing is said of its
/// length.
pub assume_specification[ std::time::Instant::elapsed ](
    instant: &std::time::Instant,
) -> (r: core::time::Duration)
;

/// The nanoseconds that a span of time holds.
pub uninterp spec fn nanos_in(span: core::time::Duration) -> u128;

/// `std::time::Duration::as_nanos`: the nanoseconds that the span holds. The
/// number depends on the span alone. A span of time is opaque here, so nothing
/// is said of which it is.
pub assume_specification[ core::time::Duration::as_nanos ](
    span: &core::time::Duration,
) -> (r: u128)
    ensures
        r == nanos_in(*span),
;

/// The nanoseconds in a second.
pub const NANOS_PER_SEC: u128 = 1_000_000_000;

/// The number is a span of time, counted in nanoseconds.
pub open spec fn is_reading(now: u128) -> bool {
    exists|span: core::time::Duration| now == #[trigger] nanos_in(span)
}

/// A clock that was started at some point and counts nanoseconds from there.
#[derive(Debug)]
pub struct Clock {
    origin: std::time::Instant,
}

impl Clock {
    /// Starts a clock.
    pub fn start() -> (r: Clock) {
        Clock { origin: std::time::Instant::now() }
    }

    /// The number is what this clock may read: a span of time that
    /// `Instant::elapsed` gives for the point at which the clock was started,
    /// counted in nanoseconds.
    pub closed spec fn reads(self, now: u128) -> bool {
        exists|span: core::time::Duration|
            call_ensures(std::time::Instant::elapsed, (&self.origin,), span) && now
                == #[trigger] nanos_in(span)
    }

    /// Reads the clock, in nanoseconds. Which span has passed is left open: what
    /// is done with the reading is decided by functions that take it as an
    /// argument.
    pub fn now(&self) -> (r: u128)
        ensures
            self.reads(r),
            is_reading(r),
    {
        self.origin.elapsed().as_nanos()
    }
}

/// Whatever a clock reads is a span of time, counted in nanoseconds.
pub proof fn law_clocks_read_nanoseconds(clock: Clock, now: u128)
    requires
        clock.reads(now),
    ensures
        is_reading(now),
{
}

/// The time from `since` to `now`, in nanoseconds; none if the clock went back.
pub open spec fn elapsed_nanos(since: u128, now: u128) -> nat {
    if now >= since {
        (now - since) as nat
    } else {
        0
    }
}

/// The full seconds from `since` to `now`.
pub open spec fn elapsed_secs(since: u128, now: u128) -> nat {
    elapsed_nanos(since, now) / NANOS_PER_SEC as nat
}

/// The time from `since` to `now`, in nanoseconds.
pub fn nanos_between(since: u128, now: u128) -> (r: u128)
    ensures
        r == elapsed_nanos(since, now),
{
    now.saturating_sub(since)
}

} // verus!
