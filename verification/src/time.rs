//! Timeouts: how a delay becomes a dispatch time, and how a timed wait ends.
use vstd::prelude::*;

use crate::ffi::{dispatch_time_t, DISPATCH_TIME_FOREVER, DISPATCH_TIME_NOW};

verus! {

/// A `dispatch_time_t` corresponding to the current time.
pub const NOW: dispatch_time_t = DISPATCH_TIME_NOW;

/// A `dispatch_time_t` corresponding to the maximum time.
pub const FOREVER: dispatch_time_t = DISPATCH_TIME_FOREVER;

/// A type indicating whether a timed wait on a dispatch object returned due to a time out or not.
#[derive(Clone, Copy, Debug, PartialEq, Eq, Structural)]
pub struct WaitTimeout;

impl WaitTimeout {
    /// The message that the error carries.
    pub fn description(&self) -> (r: &'static str)
        ensures
            r@ == "operation time out"@,
    {
        "operation time out"
    }
}

/// What a timeout stands for: a dispatch time that is already known, or an
/// offset from the moment the system clock is read, which only the clock can
/// turn into a dispatch time.
#[derive(Clone, Copy, Debug, PartialEq, Eq, Structural)]
pub enum Deadline {
    /// This dispatch time, as it is.
    At(dispatch_time_t),
    /// This many nanoseconds after now.
    FromNow(i64),
}

/// The number of nanoseconds in a duration of `secs` seconds and `subsec_nanos` nanoseconds.
pub open spec fn duration_nanos(secs: u64, subsec_nanos: u32) -> int {
    secs * 1_000_000_000 + subsec_nanos
}

/// The deadline that a delay gives: an offset from now while its length in
/// nanoseconds stays below `i64::MAX`, else never.
pub open spec fn after_spec(secs: u64, subsec_nanos: u32) -> Deadline {
    let total = duration_nanos(secs, subsec_nanos);
    if total < i64::MAX {
        Deadline::FromNow(total as i64)
    } else {
        Deadline::At(FOREVER)
    }
}

/// Returns the deadline corresponding to a delay of `secs` seconds and
/// `subsec_nanos` nanoseconds.
pub fn after(secs: u64, subsec_nanos: u32) -> (r: Deadline)
    ensures
        r == after_spec(secs, subsec_nanos),
        secs * 1_000_000_000 + subsec_nanos < i64::MAX ==> r == Deadline::FromNow(
            (secs * 1_000_000_000 + subsec_nanos) as i64,
        ),
        secs * 1_000_000_000 + subsec_nanos >= i64::MAX ==> r == Deadline::At(FOREVER),
{
    match secs.checked_mul(1_000_000_000) {
        Some(whole) => match whole.checked_add(subsec_nanos as u64) {
            Some(total) => {
                if total < (i64::MAX as u64) {
                    Deadline::FromNow(total as i64)
                } else {
                    Deadline::At(FOREVER)
                }
            },
            None => Deadline::At(FOREVER),
        },
        None => {
            assert(secs * 1_000_000_000 > u64::MAX);
            Deadline::At(FOREVER)
        },
    }
}

/// A delay shorter than `i64::MAX` nanoseconds is an offset of exactly its
/// length in nanoseconds, seconds and nanoseconds both counted; any longer
/// delay never comes.
pub proof fn law_after_is_the_delay_in_nanoseconds(secs: u64, subsec_nanos: u32)
    ensures
        secs * 1_000_000_000 + subsec_nanos < i64::MAX ==> after_spec(secs, subsec_nanos)
            == Deadline::FromNow((secs * 1_000_000_000 + subsec_nanos) as i64),
        secs * 1_000_000_000 + subsec_nanos >= i64::MAX ==> after_spec(secs, subsec_nanos)
            == Deadline::At(FOREVER),
{
}

/// Returns the deadline corresponding to a delay of `millis` milliseconds.
pub fn after_millis(millis: u64) -> (r: Deadline)
    ensures
        r == after_spec(millis / 1000, ((millis % 1000) * 1_000_000) as u32),
        r == (if millis * 1_000_000 < i64::MAX {
            Deadline::FromNow((millis * 1_000_000) as i64)
        } else {
            Deadline::At(FOREVER)
        }),
{
    let secs = millis / 1000;
    let subsec_nanos = ((millis % 1000) * 1_000_000) as u32;
    proof {
        assert(secs * 1_000_000_000 + (millis % 1000) * 1_000_000 == millis * 1_000_000)
            by (nonlinear_arith)
            requires
                secs == millis / 1000,
        {
            assert(millis == 1000 * (millis / 1000) + millis % 1000);
        }
    }
    after(secs, subsec_nanos)
}

/// The wall-clock `timespec` (seconds and nanoseconds) for a time `secs`
/// seconds and `subsec_nanos` nanoseconds after the Unix epoch; the seconds
/// are taken as a signed `time_t`, bit for bit.
pub fn walltime_parts(secs: u64, subsec_nanos: u32) -> (r: (i64, i64))
    ensures
        r.0 == secs as i64,
        r.1 == subsec_nanos,
{
    (secs as i64, subsec_nanos as i64)
}

/// The outcome of a timed wait whose system call returned `code`: zero means
/// that the wait ended before its timeout.
pub fn wait_result(code: i64) -> (r: Result<(), WaitTimeout>)
    ensures
        r == (if code == 0 {
            Ok::<(), WaitTimeout>(())
        } else {
            Err::<(), WaitTimeout>(WaitTimeout)
        }),
{
    if code == 0 {
        Ok(())
    } else {
        Err(WaitTimeout)
    }
}

} // verus!
