//! Plain-value types and constants of libdispatch.
#![allow(non_camel_case_types)]

use vstd::prelude::*;

verus! {

/// A point in time as libdispatch counts it.
pub type dispatch_time_t = u64;

/// The moment of the call.
pub const DISPATCH_TIME_NOW: dispatch_time_t = 0;

/// A moment that never comes.
pub const DISPATCH_TIME_FOREVER: dispatch_time_t = 0xffff_ffff_ffff_ffff;

/// A quality-of-service class as libdispatch encodes it.
pub type dispatch_qos_class_t = u32;

pub const QOS_CLASS_USER_INTERACTIVE: dispatch_qos_class_t = 0x21;
pub const QOS_CLASS_USER_INITIATED: dispatch_qos_class_t = 0x19;
pub const QOS_CLASS_DEFAULT: dispatch_qos_class_t = 0x15;
pub const QOS_CLASS_UTILITY: dispatch_qos_class_t = 0x11;
pub const QOS_CLASS_BACKGROUND: dispatch_qos_class_t = 0x09;
pub const QOS_CLASS_UNSPECIFIED: dispatch_qos_class_t = 0x00;

/// Flags of a dispatch block, as libdispatch encodes them.
pub type dispatch_block_flags_t = u64;

pub const DISPATCH_BLOCK_BARRIER: dispatch_block_flags_t = 0x1;
pub const DISPATCH_BLOCK_DETACHED: dispatch_block_flags_t = 0x2;
pub const DISPATCH_BLOCK_ASSIGN_CURRENT: dispatch_block_flags_t = 0x4;
pub const DISPATCH_BLOCK_NO_QOS_CLASS: dispatch_block_flags_t = 0x8;
pub const DISPATCH_BLOCK_INHERIT_QOS_CLASS: dispatch_block_flags_t = 0x10;
pub const DISPATCH_BLOCK_ENFORCE_QOS_CLASS: dispatch_block_flags_t = 0x20;

/// A file descriptor as libdispatch takes it.
pub type dispatch_fd_t = u64;

/// The type of a dispatch I/O channel.
pub type dispatch_io_type_t = u64;

/// Flags for closing a dispatch I/O channel.
pub type dispatch_io_close_flags_t = u64;

/// Flags for the interval of a dispatch I/O channel.
pub type dispatch_io_interval_flags_t = u64;

pub const DISPATCH_IO_STREAM: dispatch_io_type_t = 0;
pub const DISPATCH_IO_RANDOM: dispatch_io_type_t = 1;

/// Stop outstanding operations on a channel when the channel is closed.
pub const DISPATCH_IO_STOP: dispatch_io_close_flags_t = 0x1;

/// Enqueue I/O handlers at a channel's interval setting
/// even if the amount of data ready to be delivered
/// is inferior to the low water mark (or zero).
pub const DISPATCH_IO_STRICT_INTERVAL: dispatch_io_interval_flags_t = 0x1;

} // verus!
