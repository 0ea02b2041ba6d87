//! Decision logic of a Grand Central Dispatch wrapper, with its contracts.
//!
//! Grand Central Dispatch runs tasks on queues. This crate holds what the
//! wrapper around it decides by itself: how delays become dispatch times, how
//! results of the system calls are read, the flags of dispatch blocks, the
//! quality-of-service classes, and the state of timers and futures.
use vstd::prelude::*;

use std::time::Duration;

pub mod blk;
pub mod data;
pub mod ffi;
pub mod future;
pub mod io;
pub mod qos;
pub mod sem;
pub mod source;
pub mod time;

pub use crate::blk::{BlockFlags, DispatchBlock};
pub use crate::data::{dispatch_data_destructor_default, Data};
pub use crate::io::{Channel, ChannelType};
pub use crate::qos::QosClass;
pub use crate::sem::Semaphore;
pub use crate::source::TimerNode;
pub use crate::time::Deadline;

verus! {

/// An error indicating a wait timed out.
#[derive(Clone, Copy, Debug)]
pub struct WaitTimeout {
    duration: Duration,
}

impl WaitTimeout {
    /// The error for a wait that timed out after `duration`.
    pub fn new(duration: Duration) -> (r: Self)
        ensures
            r.duration() == duration,
    {
        WaitTimeout { duration }
    }

    /// How long the wait lasted.
    pub closed spec fn duration(self) -> Duration {
        self.duration
    }

    /// How long the wait lasted.
    pub fn waited(&self) -> (r: Duration)
        ensures
            r == self.duration(),
    {
        self.duration
    }
}

/// The deadline for a delay of `secs` seconds and `subsec_nanos` nanoseconds,
/// as timers use it: an offset from now while the delay in nanoseconds fits
/// in an `i64`, else never.
pub open spec fn time_after_delay_spec(secs: u64, subsec_nanos: u32) -> Deadline {
    let total = time::duration_nanos(secs, subsec_nanos);
    if total <= i64::MAX {
        Deadline::FromNow(total as i64)
    } else {
        Deadline::At(time::FOREVER)
    }
}

/// Returns the deadline for a delay of `secs` seconds and `subsec_nanos` nanoseconds.
pub fn time_after_delay(secs: u64, subsec_nanos: u32) -> (r: Deadline)
    ensures
        r == time_after_delay_spec(secs, subsec_nanos),
        secs * 1_000_000_000 + subsec_nanos <= i64::MAX ==> r == Deadline::FromNow(
            (secs * 1_000_000_000 + subsec_nanos) as i64,
        ),
        secs * 1_000_000_000 + subsec_nanos > i64::MAX ==> r == Deadline::At(time::FOREVER),
{
    proof {
        assert(secs * 1_000_000_000 <= u64::MAX * 1_000_000_000) by (nonlinear_arith);
    }
    let total: u128 = (secs as u128) * 1_000_000_000 + subsec_nanos as u128;
    if total <= i64::MAX as u128 {
        Deadline::FromNow(total as i64)
    } else {
        Deadline::At(time::FOREVER)
    }
}

/// For timers, a delay of at most `i64::MAX` nanoseconds is an offset of
/// exactly its length in nanoseconds, seconds and nanoseconds both counted;
/// any longer delay never comes.
pub proof fn law_time_after_delay_is_the_delay_in_nanoseconds(secs: u64, subsec_nanos: u32)
    ensures
        secs * 1_000_000_000 + subsec_nanos <= i64::MAX ==> time_after_delay_spec(
            secs,
            subsec_nanos,
        ) == Deadline::FromNow((secs * 1_000_000_000 + subsec_nanos) as i64),
        secs * 1_000_000_000 + subsec_nanos > i64::MAX ==> time_after_delay_spec(
            secs,
            subsec_nanos,
        ) == Deadline::At(time::FOREVER),
{
}

/// The two ways in which a delay becomes a deadline agree on every delay but
/// one exactly `i64::MAX` nanoseconds long, which `time::after` takes for
/// never and `time_after_delay` for an offset from now.
pub proof fn law_after_agrees_with_time_after_delay(secs: u64, subsec_nanos: u32)
    requires
        time::duration_nanos(secs, subsec_nanos) != i64::MAX,
    ensures
        time::after_spec(secs, subsec_nanos) == time_after_delay_spec(secs, subsec_nanos),
{
}

} // verus!
