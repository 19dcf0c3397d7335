//! Reads and writes that give up when a timer fires.
//!
//! Each poll of such an operation first polls the I/O. Only when the I/O is
//! not ready is the timer polled; if the timer has fired, the operation ends
//! with a timed-out error, else it stays pending. The caller performs the
//! polls; the functions here decide, from what a poll reported, what the
//! caller does next.
use vstd::prelude::*;
use crate::poll::PollState;

verus! {

/// Which way the bytes flow.
#[derive(Debug, Clone, Copy, PartialEq, Eq, Structural)]
pub enum Direction {
    Read,
    Write,
}

/// The error of a read or write whose timer fired first. As an I/O error
/// its kind is "timed out" and its message names the direction.
#[derive(Debug, Clone, Copy, PartialEq, Eq, Structural)]
pub struct IoTimeout {
    pub direction: Direction,
}

/// The message of the timed-out error in each direction.
pub open spec fn timeout_message(direction: Direction) -> Seq<char> {
    match direction {
        Direction::Read => "read timeout"@,
        Direction::Write => "write timeout"@,
    }
}

impl IoTimeout {
    /// The message of this error: "read timeout" or "write timeout".
    pub fn message(&self) -> (m: &'static str)
        ensures
            m@ == timeout_message(self.direction),
    {
        match self.direction {
            Direction::Read => "read timeout",
            Direction::Write => "write timeout",
        }
    }
}

/// What the caller observed: the I/O poll, or the timer poll that followed it.
#[derive(Debug, PartialEq, Eq)]
pub enum RwEvent<R> {
    IoPolled(PollState<R>),
    TimerPolled(PollState<()>),
}

/// What the caller does next: poll the timer, or end this poll with the
/// given result.
#[derive(Debug, PartialEq, Eq)]
pub enum RwAction<R> {
    PollTimer,
    Finish(PollState<Result<R, IoTimeout>>),
}

/// The rule of one step: a ready I/O result is returned as it is; pending I/O
/// sends the caller to the timer; a fired timer ends in the timed-out error;
/// a timer still running leaves the operation pending.
pub open spec fn rw_step<R>(direction: Direction, event: RwEvent<R>) -> RwAction<R> {
    match event {
        RwEvent::IoPolled(PollState::Ready(r)) => RwAction::Finish(PollState::Ready(Ok(r))),
        RwEvent::IoPolled(PollState::Pending) => RwAction::PollTimer,
        RwEvent::TimerPolled(PollState::Ready(_)) => RwAction::Finish(
            PollState::Ready(Err(IoTimeout { direction })),
        ),
        RwEvent::TimerPolled(PollState::Pending) => RwAction::Finish(PollState::Pending),
    }
}

/// What one whole poll returns when the I/O reports `io` and the timer, if
/// the caller is sent to it, reports `timer`.
pub open spec fn rw_poll<R>(direction: Direction, io: PollState<R>, timer: PollState<()>) -> PollState<
    Result<R, IoTimeout>,
> {
    match rw_step(direction, RwEvent::IoPolled(io)) {
        RwAction::Finish(p) => p,
        RwAction::PollTimer => match rw_step(direction, RwEvent::<R>::TimerPolled(timer)) {
            RwAction::Finish(p) => p,
            RwAction::PollTimer => PollState::Pending,
        },
    }
}

fn timeout_poll_step<R>(direction: Direction, event: RwEvent<R>) -> (action: RwAction<R>)
    ensures
        action == rw_step(direction, event),
{
    match event {
        RwEvent::IoPolled(PollState::Ready(r)) => RwAction::Finish(PollState::Ready(Ok(r))),
        RwEvent::IoPolled(PollState::Pending) => RwAction::PollTimer,
        RwEvent::TimerPolled(PollState::Ready(_)) => RwAction::Finish(
            PollState::Ready(Err(IoTimeout { direction })),
        ),
        RwEvent::TimerPolled(PollState::Pending) => RwAction::Finish(PollState::Pending),
    }
}

/// One step of polling a read that has a timeout.
pub fn async_read_poll<R>(event: RwEvent<R>) -> (action: RwAction<R>)
    ensures
        action == rw_step(Direction::Read, event),
{
    timeout_poll_step(Direction::Read, event)
}

/// One step of polling a write that has a timeout.
pub fn async_write_poll<R>(event: RwEvent<R>) -> (action: RwAction<R>)
    ensures
        action == rw_step(Direction::Write, event),
{
    timeout_poll_step(Direction::Write, event)
}

/// Ready I/O wins: its result is returned unchanged, whatever the timer would
/// say, and the timer is not polled.
pub proof fn lemma_ready_io_wins<R>(direction: Direction, r: R, timer: PollState<()>)
    ensures
        rw_step(direction, RwEvent::IoPolled(PollState::Ready(r))) !is PollTimer,
        rw_poll(direction, PollState::Ready(r), timer) == PollState::<Result<R, IoTimeout>>::Ready(
            Ok(r),
        ),
{
}

/// A poll ends in the timed-out error exactly when the I/O was pending and
/// the timer had fired; the error names the operation's direction.
pub proof fn lemma_timeout_exactly_when_timer_fired<R>(
    direction: Direction,
    io: PollState<R>,
    timer: PollState<()>,
)
    ensures
        (rw_poll(direction, io, timer) is Ready && rw_poll(direction, io, timer)->Ready_0 is Err)
            <==> (io is Pending && timer is Ready),
        rw_poll(direction, io, timer) matches PollState::Ready(Err(e)) ==> e.direction
            == direction,
{
}

/// A poll stays pending exactly when both the I/O and the timer are pending.
pub proof fn lemma_pending_exactly_when_both_pending<R>(
    direction: Direction,
    io: PollState<R>,
    timer: PollState<()>,
)
    ensures
        rw_poll(direction, io, timer) is Pending <==> (io is Pending && timer is Pending),
{
}

/// After the timer has been polled the caller is never sent back to it: each
/// poll takes at most two steps.
pub proof fn lemma_timer_polled_at_most_once<R>(direction: Direction, timer: PollState<()>)
    ensures
        rw_step(direction, RwEvent::<R>::TimerPolled(timer)) !is PollTimer,
{
}

} // verus!
