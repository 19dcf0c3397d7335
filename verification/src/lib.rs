//! Timers, sleeps and timeouts for asynchronous code: the rules that decide
//! how long to sleep, when a read or write has timed out, and what a timed
//! out future yields.
pub mod time;
pub mod poll;
pub mod rw;
pub mod sleep;
pub mod timeout;
pub mod interval;

pub use sleep::sleep_until;
pub use timeout::{timeout, timeout_at, Error};
