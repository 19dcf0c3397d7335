use async_sleep::poll::PollState;
use async_sleep::rw::{async_read_poll, async_write_poll, Direction, IoTimeout, RwAction, RwEvent};

#[test]
fn ready_read_returns_its_result() {
    let a = async_read_poll(RwEvent::IoPolled(PollState::Ready(3usize)));
    assert_eq!(a, RwAction::Finish(PollState::Ready(Ok(3))));
}

#[test]
fn ready_read_error_is_passed_through() {
    let a = async_read_poll(RwEvent::IoPolled(PollState::Ready(Err::<usize, &str>("reset"))));
    assert_eq!(a, RwAction::Finish(PollState::Ready(Ok(Err("reset")))));
}

#[test]
fn pending_read_polls_the_timer() {
    let a = async_read_poll(RwEvent::<usize>::IoPolled(PollState::Pending));
    assert_eq!(a, RwAction::PollTimer);
}

#[test]
fn fired_timer_times_the_read_out() {
    let a = async_read_poll(RwEvent::<usize>::TimerPolled(PollState::Ready(())));
    assert_eq!(
        a,
        RwAction::Finish(PollState::Ready(Err(IoTimeout { direction: Direction::Read })))
    );
    match a {
        RwAction::Finish(PollState::Ready(Err(e))) => assert_eq!(e.message(), "read timeout"),
        _ => unreachable!(),
    }
}

#[test]
fn running_timer_leaves_the_read_pending() {
    let a = async_read_poll(RwEvent::<usize>::TimerPolled(PollState::Pending));
    assert_eq!(a, RwAction::Finish(PollState::Pending));
}

#[test]
fn write_steps() {
    assert_eq!(
        async_write_poll(RwEvent::IoPolled(PollState::Ready(3usize))),
        RwAction::Finish(PollState::Ready(Ok(3)))
    );
    assert_eq!(async_write_poll(RwEvent::<usize>::IoPolled(PollState::Pending)), RwAction::PollTimer);
    let a = async_write_poll(RwEvent::<usize>::TimerPolled(PollState::Ready(())));
    match a {
        RwAction::Finish(PollState::Ready(Err(e))) => {
            assert_eq!(e.direction, Direction::Write);
            assert_eq!(e.message(), "write timeout");
        }
        _ => unreachable!(),
    }
    assert_eq!(
        async_write_poll(RwEvent::<usize>::TimerPolled(PollState::Pending)),
        RwAction::Finish(PollState::Pending)
    );
}

/// Drives one whole poll the way a caller does, the timer only on request.
fn drive(io: PollState<usize>, timer: PollState<()>, timer_polls: &mut u32) -> PollState<Result<usize, IoTimeout>> {
    match async_read_poll(RwEvent::IoPolled(io)) {
        RwAction::Finish(p) => p,
        RwAction::PollTimer => {
            *timer_polls += 1;
            match async_read_poll(RwEvent::TimerPolled(timer)) {
                RwAction::Finish(p) => p,
                RwAction::PollTimer => unreachable!(),
            }
        }
    }
}

#[test]
fn ready_io_wins_over_fired_timer() {
    let mut polls = 0;
    assert_eq!(drive(PollState::Ready(3), PollState::Ready(()), &mut polls), PollState::Ready(Ok(3)));
    assert_eq!(polls, 0);
    let r = drive(PollState::Pending, PollState::Ready(()), &mut polls);
    assert_eq!(r, PollState::Ready(Err(IoTimeout { direction: Direction::Read })));
    assert_eq!(polls, 1);
    assert_eq!(drive(PollState::Pending, PollState::Pending, &mut polls), PollState::Pending);
    assert_eq!(polls, 2);
}
