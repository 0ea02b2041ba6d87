use dispatch::time::{after, after_millis, wait_result, walltime_parts, Deadline, WaitTimeout, FOREVER, NOW};
use dispatch::time_after_delay;

#[test]
fn constants_are_now_and_forever() {
    assert_eq!(NOW, 0);
    assert_eq!(FOREVER, u64::MAX);
}

#[test]
fn after_counts_nanoseconds() {
    assert_eq!(after(0, 0), Deadline::FromNow(0));
    assert_eq!(after(1, 5), Deadline::FromNow(1_000_000_005));
    assert_eq!(after(2, 999_999_999), Deadline::FromNow(2_999_999_999));
}

#[test]
fn after_too_long_is_forever() {
    // exactly i64::MAX nanoseconds
    assert_eq!(after(9_223_372_036, 854_775_807), Deadline::At(FOREVER));
    // one nanosecond less
    assert_eq!(after(9_223_372_036, 854_775_806), Deadline::FromNow(i64::MAX - 1));
    // the seconds alone overflow a u64 of nanoseconds
    assert_eq!(after(u64::MAX, 0), Deadline::At(FOREVER));
    assert_eq!(after(20_000_000_000, 0), Deadline::At(FOREVER));
}

#[test]
fn time_after_delay_takes_i64_max() {
    assert_eq!(time_after_delay(9_223_372_036, 854_775_807), Deadline::FromNow(i64::MAX));
    assert_eq!(time_after_delay(9_223_372_036, 854_775_808), Deadline::At(FOREVER));
    assert_eq!(time_after_delay(u64::MAX, 999_999_999), Deadline::At(FOREVER));
    assert_eq!(time_after_delay(3, 7), Deadline::FromNow(3_000_000_007));
}

#[test]
fn after_and_time_after_delay_agree_away_from_the_edge() {
    for (s, n) in [(0u64, 0u32), (1, 1), (100, 500), (9_223_372_035, 999_999_999), (u64::MAX, 0)] {
        assert_eq!(after(s, n), time_after_delay(s, n));
    }
}

#[test]
fn after_millis_splits_milliseconds() {
    assert_eq!(after_millis(0), Deadline::FromNow(0));
    assert_eq!(after_millis(100), Deadline::FromNow(100_000_000));
    assert_eq!(after_millis(1500), Deadline::FromNow(1_500_000_000));
    assert_eq!(after_millis(5000), Deadline::FromNow(5_000_000_000));
    // a negative i32 widened to u64 is far too long
    assert_eq!(after_millis(-1i32 as u64), Deadline::At(FOREVER));
    assert_eq!(after_millis(u32::MAX as u64), Deadline::FromNow(4_294_967_295_000_000));
}

#[test]
fn walltime_keeps_the_bits() {
    assert_eq!(walltime_parts(1_700_000_000, 250), (1_700_000_000, 250));
    assert_eq!(walltime_parts(u64::MAX, 0), (-1, 0));
}

#[test]
fn wait_result_zero_is_success() {
    assert_eq!(wait_result(0), Ok(()));
    assert_eq!(wait_result(1), Err(WaitTimeout));
    assert_eq!(wait_result(-49), Err(WaitTimeout));
}

#[test]
fn wait_timeout_message() {
    assert_eq!(WaitTimeout.description(), "operation time out");
}
