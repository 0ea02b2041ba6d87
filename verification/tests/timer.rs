use dispatch::source::{timer_settings, truncated_nanos, TimerSettings};
use dispatch::time::{Deadline, FOREVER};
use dispatch::TimerNode;

#[test]
fn schedule_fails_on_null_source() {
    let err = TimerNode::schedule(0).unwrap_err();
    assert_eq!(err.message(), "Failed to create timer");
    let node = TimerNode::schedule(0x2000).unwrap();
    assert_eq!(node.timer(), Some(0x2000));
}

#[test]
fn cancel_releases_once() {
    let mut node = TimerNode::schedule(0x2000).unwrap();
    assert_eq!(node.cancel(), Some(0x2000));
    assert_eq!(node.timer(), None);
    assert_eq!(node.cancel(), None);
}

#[test]
fn settings() {
    assert_eq!(
        timer_settings((0, 10_000_000), (0, 0), None),
        TimerSettings { start: Deadline::FromNow(0), interval: 10_000_000, leeway: 0 }
    );
    assert_eq!(
        timer_settings((1, 0), (2, 3), Some((0, 500))),
        TimerSettings { start: Deadline::FromNow(2_000_000_003), interval: 1_000_000_000, leeway: 500 }
    );
    assert_eq!(timer_settings((0, 0), (u64::MAX, 0), None).start, Deadline::At(FOREVER));
}

#[test]
fn nanos_are_cut_to_64_bits() {
    assert_eq!(truncated_nanos(1, 1), 1_000_000_001);
    let full: u128 = (u64::MAX as u128) * 1_000_000_000 + 7;
    assert_eq!(truncated_nanos(u64::MAX, 7), full as u64);
}
