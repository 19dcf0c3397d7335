//! Futures raced against a timer.
//!
//! A future with a timeout is raced against a timer: the future is polled
//! first, so it wins whenever it is ready. The caller runs the race; the
//! functions here turn its outcome into the result.
use vstd::prelude::*;
use crate::time::{Duration, Instant};

verus! {

/// The outcome of racing a future against its timer: the future's output,
/// or, where the timer fired first, the future that did not finish.
#[derive(Debug, PartialEq, Eq)]
pub enum Race<T, F> {
    Completed(T),
    Elapsed(F),
}

/// Why a future with a timeout gave no output: its time ran out, counted as
/// a span from its start or as a deadline.
#[derive(Debug, Clone, Copy, PartialEq, Eq, Structural)]
pub enum Error {
    Timeout(Duration),
    TimeoutAt(Instant),
}

/// The result of a race run for the span `dur`: the output, or the span and
/// the unfinished future.
pub open spec fn spec_internal_timeout<T, F>(dur: Duration, race: Race<T, F>) -> Result<T, (Duration, F)> {
    match race {
        Race::Completed(output) => Ok(output),
        Race::Elapsed(future) => Err((dur, future)),
    }
}

/// The result of a race run until `deadline`: the output, or the deadline and
/// the unfinished future.
pub open spec fn spec_internal_timeout_at<T, F>(deadline: Instant, race: Race<T, F>) -> Result<T, (Instant, F)> {
    match race {
        Race::Completed(output) => Ok(output),
        Race::Elapsed(future) => Err((deadline, future)),
    }
}

/// The result of a race run for the span `dur`, handing back the unfinished
/// future where the timer fired first.
pub fn internal_timeout<T, F>(dur: Duration, race: Race<T, F>) -> (r: Result<T, (Duration, F)>)
    ensures
        r == spec_internal_timeout(dur, race),
{
    match race {
        Race::Completed(output) => Ok(output),
        Race::Elapsed(future) => Err((dur, future)),
    }
}

/// The result of a race run for the span `dur`: the output, or
/// `Error::Timeout(dur)`.
pub fn timeout<T, F>(dur: Duration, race: Race<T, F>) -> (r: Result<T, Error>)
    ensures
        r == (match spec_internal_timeout(dur, race) {
            Ok(output) => Ok(output),
            Err((d, _)) => Err(Error::Timeout(d)),
        }),
        r is Ok <==> race is Completed,
        race matches Race::Completed(output) ==> r == Ok::<T, Error>(output),
        race is Elapsed ==> r == Err::<T, Error>(Error::Timeout(dur)),
{
    match internal_timeout(dur, race) {
        Ok(output) => Ok(output),
        Err((d, _)) => Err(Error::Timeout(d)),
    }
}

/// The result of a race run until `deadline`, handing back the unfinished
/// future where the timer fired first.
pub fn internal_timeout_at<T, F>(deadline: Instant, race: Race<T, F>) -> (r: Result<T, (Instant, F)>)
    ensures
        r == spec_internal_timeout_at(deadline, race),
{
    match race {
        Race::Completed(output) => Ok(output),
        Race::Elapsed(future) => Err((deadline, future)),
    }
}

/// The result of a race run until `deadline`: the output, or
/// `Error::TimeoutAt(deadline)`.
pub fn timeout_at<T, F>(deadline: Instant, race: Race<T, F>) -> (r: Result<T, Error>)
    ensures
        r == (match spec_internal_timeout_at(deadline, race) {
            Ok(output) => Ok(output),
            Err((i, _)) => Err(Error::TimeoutAt(i)),
        }),
        r is Ok <==> race is Completed,
        race matches Race::Completed(output) ==> r == Ok::<T, Error>(output),
        race is Elapsed ==> r == Err::<T, Error>(Error::TimeoutAt(deadline)),
{
    match internal_timeout_at(deadline, race) {
        Ok(output) => Ok(output),
        Err((i, _)) => Err(Error::TimeoutAt(i)),
    }
}

} // verus!
