use async_sleep::interval::tokio_interval_millis;
use async_sleep::sleep::tokio_sleep_micros;
use async_sleep::sleep_until;
use async_sleep::time::{Duration, Instant};

#[test]
fn sleep_until_a_later_deadline() {
    let now = Instant::from_origin(Duration::from_millis(2_000));
    let deadline = Instant::from_origin(Duration::from_millis(2_100));
    assert_eq!(sleep_until(&deadline, &now), Duration::from_millis(100));
}

#[test]
fn sleep_until_a_passed_deadline_is_zero() {
    let now = Instant::from_origin(Duration::from_millis(2_100));
    let deadline = Instant::from_origin(Duration::from_millis(2_000));
    assert_eq!(sleep_until(&deadline, &now), Duration::zero());
    assert_eq!(sleep_until(&now, &now), Duration::zero());
}

#[test]
fn checked_duration_since() {
    let a = Instant::from_origin(Duration::new(5, 10));
    let b = Instant::from_origin(Duration::new(3, 999_999_999));
    assert_eq!(a.checked_duration_since(&b), Some(Duration::new(1, 11)));
    assert_eq!(b.checked_duration_since(&a), None);
}

#[test]
fn duration_parts() {
    let d = Duration::new(3, 1_500_000_000);
    assert_eq!(d.as_secs(), 4);
    assert_eq!(d.subsec_nanos(), 500_000_000);
    assert_eq!(d.as_millis(), 4_500);
    assert_eq!(d.as_micros(), 4_500_000);
    assert_eq!(Duration::from_millis(1_234).as_secs(), 1);
    assert_eq!(Duration::from_millis(1_234).subsec_nanos(), 234_000_000);
    let max = Duration::new(u64::MAX, 999_999_999);
    assert_eq!(max.as_secs(), u64::MAX);
    assert_eq!(max.subsec_nanos(), 999_999_999);
    assert_eq!(Instant::from_origin(d).since_origin(), d);
}

#[test]
fn tokio_sleep_is_whole_microseconds() {
    assert_eq!(tokio_sleep_micros(&Duration::from_millis(100)), 100_000);
    assert_eq!(tokio_sleep_micros(&Duration::new(0, 1_999)), 1);
    assert_eq!(tokio_sleep_micros(&Duration::new(0, 999)), 0);
}

#[test]
fn tokio_sleep_wraps_past_64_bits() {
    assert_eq!(tokio_sleep_micros(&Duration::new(18_446_744_073_709_552, 0)), 384_000);
}

#[test]
fn tokio_interval_is_whole_milliseconds() {
    assert_eq!(tokio_interval_millis(&Duration::from_millis(100)), 100);
    assert_eq!(tokio_interval_millis(&Duration::new(0, 999_999)), 0);
    assert_eq!(tokio_interval_millis(&Duration::new(1, 1)), 1_000);
    assert_eq!(tokio_interval_millis(&Duration::new(18_446_744_073_709_552, 0)), 384);
}
