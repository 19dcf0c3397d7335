//! The state of an asynchronous computation when it is polled.
use vstd::prelude::*;

verus! {

/// What one poll of a future, a reader or a timer reports: finished with a
/// value, or not yet.
#[derive(Debug, PartialEq, Eq)]
pub enum PollState<T> {
    Ready(T),
    Pending,
}

} // verus!
