//! Timer nodes: a dispatch timer source, from its scheduling to its cancellation.
use vstd::prelude::*;

use crate::time::{duration_nanos, Deadline, FOREVER};
use crate::{time_after_delay, time_after_delay_spec};

verus! {

/// The error of a timer that could not be created.
#[derive(Clone, Copy, Debug, PartialEq, Eq, Structural)]
pub struct TimerError;

impl TimerError {
    /// The message that the error carries.
    pub fn message(&self) -> (r: &'static str)
        ensures
            r@ == "Failed to create timer"@,
    {
        "Failed to create timer"
    }
}

/// The length in nanoseconds of `secs` seconds and `subsec_nanos` nanoseconds,
/// cut to its low 64 bits.
pub open spec fn truncated_nanos_spec(secs: u64, subsec_nanos: u32) -> u64 {
    duration_nanos(secs, subsec_nanos) as u64
}

/// Returns the length in nanoseconds of `secs` seconds and `subsec_nanos`
/// nanoseconds, cut to its low 64 bits.
pub fn truncated_nanos(secs: u64, subsec_nanos: u32) -> (r: u64)
    ensures
        r == truncated_nanos_spec(secs, subsec_nanos),
        r as int == (secs * 1_000_000_000 + subsec_nanos) % 0x1_0000_0000_0000_0000,
{
    proof {
        assert(secs * 1_000_000_000 <= u64::MAX * 1_000_000_000) by (nonlinear_arith);
    }
    let total: u128 = (secs as u128) * 1_000_000_000 + subsec_nanos as u128;
    proof {
        lemma_truncate_is_modulo(total);
        law_truncated_nanos_is_the_length_modulo(secs, subsec_nanos);
    }
    total as u64
}

/// Cutting a `u128` to its low 64 bits leaves it modulo `2^64`.
proof fn lemma_truncate_is_modulo(t: u128)
    ensures
        (t as u64) as int == t % 0x1_0000_0000_0000_0000,
{
    assert((t as u64) as u128 == t % 0x1_0000_0000_0000_0000u128) by (bit_vector);
}

/// The nanoseconds handed to a timer are the whole length of the duration,
/// seconds and nanoseconds both counted, modulo `2^64`.
pub proof fn law_truncated_nanos_is_the_length_modulo(secs: u64, subsec_nanos: u32)
    ensures
        truncated_nanos_spec(secs, subsec_nanos) as int == (secs * 1_000_000_000 + subsec_nanos)
            % 0x1_0000_0000_0000_0000,
{
    assert(0 <= secs * 1_000_000_000 <= u64::MAX * 1_000_000_000) by (nonlinear_arith);
    let t: u128 = (secs * 1_000_000_000 + subsec_nanos) as u128;
    assert(t as int == secs * 1_000_000_000 + subsec_nanos);
    lemma_truncate_is_modulo(t);
}

/// What a timer source is set to: when it first fires, the interval between
/// firings and the leeway, both in nanoseconds.
#[derive(Clone, Copy, Debug, PartialEq, Eq, Structural)]
pub struct TimerSettings {
    /// When the timer first fires.
    pub start: Deadline,
    /// The interval between firings, in nanoseconds.
    pub interval: u64,
    /// The leeway that the system may apply, in nanoseconds.
    pub leeway: u64,
}

/// The settings of a timer firing every `interval` after `delay`, with
/// `leeway` (none stands for zero); each duration is given as whole seconds
/// and the nanoseconds beyond them.
pub open spec fn timer_settings_spec(
    interval: (u64, u32),
    delay: (u64, u32),
    leeway: Option<(u64, u32)>,
) -> TimerSettings {
    TimerSettings {
        start: time_after_delay_spec(delay.0, delay.1),
        interval: truncated_nanos_spec(interval.0, interval.1),
        leeway: match leeway {
            Some(l) => truncated_nanos_spec(l.0, l.1),
            None => 0,
        },
    }
}

/// Returns the settings of a timer firing every `interval` after `delay`, with
/// `leeway` (none stands for zero).
pub fn timer_settings(interval: (u64, u32), delay: (u64, u32), leeway: Option<(u64, u32)>) -> (r:
    TimerSettings)
    ensures
        r == timer_settings_spec(interval, delay, leeway),
        delay.0 * 1_000_000_000 + delay.1 <= i64::MAX ==> r.start == Deadline::FromNow(
            (delay.0 * 1_000_000_000 + delay.1) as i64,
        ),
        delay.0 * 1_000_000_000 + delay.1 > i64::MAX ==> r.start == Deadline::At(FOREVER),
        r.interval as int == (interval.0 * 1_000_000_000 + interval.1) % 0x1_0000_0000_0000_0000,
        leeway is None ==> r.leeway == 0,
        leeway matches Some(l) ==> r.leeway as int == (l.0 * 1_000_000_000 + l.1)
            % 0x1_0000_0000_0000_0000,
{
    let leeway_nanos = match leeway {
        Some(l) => truncated_nanos(l.0, l.1),
        None => 0,
    };
    TimerSettings {
        start: time_after_delay(delay.0, delay.1),
        interval: truncated_nanos(interval.0, interval.1),
        leeway: leeway_nanos,
    }
}

/// A timer first fires after its delay, counted in nanoseconds in full (never
/// when that exceeds `i64::MAX`), fires again every interval, counted in
/// nanoseconds in full modulo `2^64`, and has the leeway it was given, counted
/// the same way, or none.
pub proof fn law_timer_settings_follow_the_durations(
    interval: (u64, u32),
    delay: (u64, u32),
    leeway: Option<(u64, u32)>,
)
    ensures
        delay.0 * 1_000_000_000 + delay.1 <= i64::MAX ==> timer_settings_spec(
            interval,
            delay,
            leeway,
        ).start == Deadline::FromNow((delay.0 * 1_000_000_000 + delay.1) as i64),
        delay.0 * 1_000_000_000 + delay.1 > i64::MAX ==> timer_settings_spec(
            interval,
            delay,
            leeway,
        ).start == Deadline::At(FOREVER),
        timer_settings_spec(interval, delay, leeway).interval as int == (interval.0
            * 1_000_000_000 + interval.1) % 0x1_0000_0000_0000_0000,
        leeway is None ==> timer_settings_spec(interval, delay, leeway).leeway == 0,
        leeway matches Some(l) ==> timer_settings_spec(interval, delay, leeway).leeway as int == (
        l.0 * 1_000_000_000 + l.1) % 0x1_0000_0000_0000_0000,
{
    crate::law_time_after_delay_is_the_delay_in_nanoseconds(delay.0, delay.1);
    law_truncated_nanos_is_the_length_modulo(interval.0, interval.1);
    if let Some(l) = leeway {
        law_truncated_nanos_is_the_length_modulo(l.0, l.1);
    }
}

/// What cancelling a timer node whose timer is `timer` does: the timer to
/// release, and the timer that the node keeps afterwards.
pub open spec fn cancel_spec(timer: Option<usize>) -> (Option<usize>, Option<usize>) {
    (timer, None)
}

/// A timer node: the dispatch source of a scheduled timer, held by address,
/// until the timer is cancelled.
#[derive(Debug)]
pub struct TimerNode {
    timer: Option<usize>,
}

impl View for TimerNode {
    type V = Option<usize>;

    closed spec fn view(&self) -> Option<usize> {
        self.timer
    }
}

impl TimerNode {
    /// The node of a timer source that was just created at address `timer`;
    /// a null address means that the source could not be created.
    pub fn schedule(timer: usize) -> (r: Result<Self, TimerError>)
        ensures
            r is Err <==> timer == 0,
            r matches Ok(node) ==> node@ == Some(timer),
    {
        if timer == 0 {
            Err(TimerError)
        } else {
            Ok(TimerNode { timer: Some(timer) })
        }
    }

    /// The timer that an update acts on: none once the node is cancelled.
    pub fn timer(&self) -> (r: Option<usize>)
        ensures
            r == self@,
    {
        self.timer
    }

    /// Cancels the timer: returns the timer source that must be cancelled and
    /// released, if the node still holds one, and leaves the node without it.
    pub fn cancel(&mut self) -> (r: Option<usize>)
        ensures
            (r, final(self)@) == cancel_spec(old(self)@),
    {
        let timer = self.timer;
        self.timer = None;
        timer
    }
}

/// A timer is released at most once: cancelling a node that was cancelled
/// already releases nothing, and leaves the node without a timer.
pub proof fn law_cancel_releases_once(timer: Option<usize>)
    ensures
        cancel_spec(cancel_spec(timer).1).0 is None,
        cancel_spec(cancel_spec(timer).1).1 is None,
        cancel_spec(timer).0 == timer,
{
}

} // verus!
