//! How long to sleep.
use vstd::prelude::*;
use crate::time::{Duration, Instant};

verus! {

/// The time left from `now` until `deadline`, in nanoseconds; none once the
/// deadline has passed.
pub open spec fn time_left(deadline: nat, now: nat) -> nat {
    if now <= deadline {
        (deadline - now) as nat
    } else {
        0
    }
}

/// How long a sleep until `deadline`, begun at `now`, lasts: the time left
/// until the deadline, or zero where it has passed.
pub fn sleep_until(deadline: &Instant, now: &Instant) -> (d: Duration)
    ensures
        d@ == time_left(deadline@, now@),
{
    match deadline.checked_duration_since(now) {
        Some(d) => d,
        None => Duration::zero(),
    }
}

/// The length of a tokio sleep for `dur`: whole microseconds, cut to 64 bits
/// (the excess over `u64::MAX` microseconds wraps).
pub fn tokio_sleep_micros(dur: &Duration) -> (micros: u64)
    ensures
        micros == (dur@ / 1_000) as u64,
{
    dur.as_micros() as u64
}

/// A sleep until a deadline ends at the deadline, or at once where it has
/// passed: `now` plus the sleep is the later of the two.
pub proof fn lemma_sleep_until_reaches_deadline(deadline: nat, now: nat)
    ensures
        now + time_left(deadline, now) == if now <= deadline { deadline } else { now },
        deadline <= now ==> time_left(deadline, now) == 0,
{
}

/// Where no microseconds are lost to the 64-bit cut, a tokio sleep is the
/// requested span rounded down to whole microseconds: short of it by less
/// than one microsecond, never longer.
pub proof fn lemma_tokio_sleep_rounds_down(nanos: nat)
    requires
        nanos / 1_000 <= u64::MAX,
    ensures
        ((nanos / 1_000) as u64) * 1_000 <= nanos < ((nanos / 1_000) as u64) * 1_000 + 1_000,
{
}

} // verus!
