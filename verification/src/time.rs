//! Spans and points of monotonic time, held as whole nanoseconds.
//!
//! `Duration` has the range of `std::time::Duration`: from zero up to
//! `u64::MAX` seconds and 999 999 999 nanoseconds. `Instant` is a point on a
//! monotonic clock, measured from an origin that the caller fixes.
use vstd::prelude::*;

verus! {

/// Nanoseconds in one second.
pub const NANOS_PER_SEC: u128 = 1_000_000_000;

/// The largest span a `Duration` holds, in nanoseconds:
/// `u64::MAX` seconds and 999 999 999 nanoseconds.
pub const MAX_NANOS: u128 = 18_446_744_073_709_551_615_999_999_999;

/// A span of time, viewed as its length in nanoseconds.
#[derive(Debug, Clone, Copy, PartialEq, Eq, Structural)]
pub struct Duration {
    nanos: u128,
}

impl View for Duration {
    type V = nat;

    closed spec fn view(&self) -> nat {
        self.nanos as nat
    }
}

impl Duration {
    #[verifier::type_invariant]
    spec fn in_range(self) -> bool {
        self.nanos <= MAX_NANOS
    }

    /// The empty span.
    pub fn zero() -> (d: Duration)
        ensures
            d@ == 0,
    {
        Duration { nanos: 0 }
    }

    /// `secs` seconds and `nanos` nanoseconds; nanoseconds past a whole
    /// second carry into the seconds. The total must fit the range.
    pub fn new(secs: u64, nanos: u32) -> (d: Duration)
        requires
            secs * NANOS_PER_SEC + nanos <= MAX_NANOS,
        ensures
            d@ == secs * NANOS_PER_SEC + nanos,
    {
        let total: u128 = (secs as u128) * NANOS_PER_SEC + (nanos as u128);
        Duration { nanos: total }
    }

    /// `millis` milliseconds.
    pub fn from_millis(millis: u64) -> (d: Duration)
        ensures
            d@ == millis * 1_000_000,
    {
        Duration { nanos: (millis as u128) * 1_000_000 }
    }

    /// The number of whole seconds.
    pub fn as_secs(&self) -> (s: u64)
        ensures
            s == self@ / (NANOS_PER_SEC as nat),
            self@ <= MAX_NANOS,
    {
        proof {
            use_type_invariant(self);
        }
        (self.nanos / NANOS_PER_SEC) as u64
    }

    /// The nanoseconds past the whole seconds, below one billion.
    pub fn subsec_nanos(&self) -> (n: u32)
        ensures
            n == self@ % (NANOS_PER_SEC as nat),
            n < NANOS_PER_SEC,
    {
        (self.nanos % NANOS_PER_SEC) as u32
    }

    /// The number of whole milliseconds.
    pub fn as_millis(&self) -> (m: u128)
        ensures
            m == self@ / 1_000_000,
    {
        self.nanos / 1_000_000
    }

    /// The number of whole microseconds.
    pub fn as_micros(&self) -> (m: u128)
        ensures
            m == self@ / 1_000,
    {
        self.nanos / 1_000
    }
}

/// A point of monotonic time, viewed as the nanoseconds since the origin.
#[derive(Debug, Clone, Copy, PartialEq, Eq, Structural)]
pub struct Instant {
    since_origin: Duration,
}

impl View for Instant {
    type V = nat;

    closed spec fn view(&self) -> nat {
        self.since_origin@
    }
}

impl Instant {
    /// The point `since` after the origin.
    pub fn from_origin(since: Duration) -> (i: Instant)
        ensures
            i@ == since@,
    {
        Instant { since_origin: since }
    }

    /// The span from the origin to this point.
    pub fn since_origin(&self) -> (d: Duration)
        ensures
            d@ == self@,
    {
        self.since_origin
    }

    /// The time from `earlier` to `self`, or `None` where `earlier` is the
    /// later of the two.
    pub fn checked_duration_since(&self, earlier: &Instant) -> (r: Option<Duration>)
        ensures
            r is Some <==> earlier@ <= self@,
            r matches Some(d) ==> d@ == self@ - earlier@,
    {
        let a: u128 = self.since_origin.nanos;
        let b: u128 = earlier.since_origin.nanos;
        if b <= a {
            proof {
                use_type_invariant(&self.since_origin);
            }
            Some(Duration { nanos: a - b })
        } else {
            None
        }
    }
}

} // verus!
