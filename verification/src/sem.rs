//! Counting semaphores, held by address.
use vstd::prelude::*;

verus! {

/// A counting semaphore.
///
/// Calls to `Semaphore::signal` must be balanced with calls to `Semaphore::wait`.
/// A semaphore is held here by the address of its `dispatch_semaphore_t`.
#[derive(Debug)]
pub struct Semaphore {
    ptr: usize,
}

impl View for Semaphore {
    type V = usize;

    closed spec fn view(&self) -> usize {
        self.ptr
    }
}

impl Semaphore {
    /// The value that creating a semaphore with `n` resources hands to
    /// libdispatch: `n` taken as a signed `long`, bit for bit.
    pub fn initial_value(n: u64) -> (r: i64)
        ensures
            r == n as i64,
            n <= i64::MAX ==> r == n,
    {
        n as i64
    }

    /// The semaphore whose `dispatch_semaphore_t` is at address `ptr`.
    pub fn from_raw(ptr: usize) -> (r: Self)
        ensures
            r@ == ptr,
    {
        Semaphore { ptr }
    }

    /// Extracts the raw `dispatch_semaphore_t`.
    pub fn as_raw(&self) -> (r: usize)
        ensures
            r == self@,
    {
        self.ptr
    }
}

} // verus!
