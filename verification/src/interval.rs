//! Periodic timers.
use vstd::prelude::*;
use crate::time::Duration;

verus! {

/// The period of a tokio interval for `dur`: whole milliseconds, cut to 64
/// bits (the excess over `u64::MAX` milliseconds wraps).
pub fn tokio_interval_millis(dur: &Duration) -> (millis: u64)
    ensures
        millis == (dur@ / 1_000_000) as u64,
{
    dur.as_millis() as u64
}

/// Where no milliseconds are lost to the 64-bit cut, the tokio period is
/// the span rounded down to whole milliseconds; it is zero exactly when the
/// span is shorter than one millisecond.
pub proof fn lemma_tokio_period_rounds_down(nanos: nat)
    requires
        nanos / 1_000_000 <= u64::MAX,
    ensures
        ((nanos / 1_000_000) as u64) * 1_000_000 <= nanos < ((nanos / 1_000_000) as u64) * 1_000_000
            + 1_000_000,
        ((nanos / 1_000_000) as u64) == 0 <==> nanos < 1_000_000,
{
}

} // verus!
