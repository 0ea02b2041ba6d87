//! Dispatch I/O channels: their types, their settings, and how the outcome of
//! an operation is read.
use vstd::prelude::*;

use crate::ffi::{dispatch_io_type_t, DISPATCH_IO_RANDOM, DISPATCH_IO_STREAM};
use crate::time::duration_nanos;

verus! {

/// The type of a dispatch I/O channel.
#[derive(Clone, Copy, Debug, PartialEq, Eq, Structural)]
pub enum ChannelType {
    /// A stream of bytes, read and written in order at the current file position.
    Stream,
    /// A random access file, read and written at given offsets.
    Random,
}

impl ChannelType {
    /// The value that libdispatch uses for the channel type.
    pub open spec fn raw_spec(&self) -> dispatch_io_type_t {
        match self {
            ChannelType::Stream => DISPATCH_IO_STREAM,
            ChannelType::Random => DISPATCH_IO_RANDOM,
        }
    }

    /// Returns the value that libdispatch uses for the channel type.
    pub fn as_raw(&self) -> (r: dispatch_io_type_t)
        ensures
            r == self.raw_spec(),
    {
        match self {
            ChannelType::Stream => DISPATCH_IO_STREAM,
            ChannelType::Random => DISPATCH_IO_RANDOM,
        }
    }
}

/// A dispatch I/O channel, held by the address of its `dispatch_io_t`.
pub struct Channel {
    ptr: usize,
}

impl View for Channel {
    type V = usize;

    closed spec fn view(&self) -> usize {
        self.ptr
    }
}

impl Channel {
    /// The channel whose `dispatch_io_t` is at address `ptr`.
    pub fn from_raw(ptr: usize) -> (r: Self)
        ensures
            r@ == ptr,
    {
        Channel { ptr }
    }

    /// Extracts the raw `dispatch_io_t`.
    pub fn as_raw(&self) -> (r: usize)
        ensures
            r == self@,
    {
        self.ptr
    }

    /// The interval, in nanoseconds, that a channel is given for an interval of
    /// `secs` seconds and `subsec_nanos` nanoseconds: its length, or `u64::MAX`
    /// where the length does not fit in a `u64`.
    pub fn interval_nanos(secs: u64, subsec_nanos: u32) -> (r: u64)
        ensures
            r == (if duration_nanos(secs, subsec_nanos) <= u64::MAX {
                duration_nanos(secs, subsec_nanos)
            } else {
                u64::MAX as int
            }),
    {
        match secs.checked_mul(1_000_000_000) {
            Some(whole) => match whole.checked_add(subsec_nanos as u64) {
                Some(total) => total,
                None => u64::MAX,
            },
            None => {
                assert(secs * 1_000_000_000 > u64::MAX);
                u64::MAX
            },
        }
    }
}

/// The outcome that an I/O handler reports, for a read or write on a channel
/// or a one-shot one on a file descriptor: an error code of zero is success
/// (a handler may come several times, each with the data delivered so far),
/// any other code is the error, as on a closed channel.
pub fn io_outcome(error: i32) -> (r: Result<(), i32>)
    ensures
        r == (if error == 0 {
            Ok::<(), i32>(())
        } else {
            Err::<(), i32>(error)
        }),
{
    if error == 0 {
        Ok(())
    } else {
        Err(error)
    }
}

/// The path bytes as the C string that libdispatch opens: the bytes of the
/// path followed by a terminating zero byte.
pub fn path_with_nul(path: &[u8]) -> (r: Vec<u8>)
    ensures
        r@ == path@.push(0u8),
{
    let mut v: Vec<u8> = Vec::new();
    let mut i: usize = 0;
    while i < path.len()
        invariant
            i <= path@.len(),
            v@ == path@.subrange(0, i as int),
        decreases path@.len() - i,
    {
        v.push(path[i]);
        i = i + 1;
    }
    assert(path@.subrange(0, path@.len() as int) == path@);
    v.push(0u8);
    v
}

} // verus!
