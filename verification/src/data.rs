//! Dispatch data objects, held by address.
use vstd::prelude::*;

verus! {

/// The default destructor for dispatch data objects: the null block, which
/// tells libdispatch to copy the supplied buffer into storage of its own.
pub fn dispatch_data_destructor_default() -> (r: usize)
    ensures
        r == 0,
{
    0
}

/// An immutable object representing a contiguous or sparse region of memory.
///
/// A data object is held here by the address of its `dispatch_data_t`.
#[derive(Debug)]
pub struct Data {
    ptr: usize,
}

impl View for Data {
    type V = usize;

    closed spec fn view(&self) -> usize {
        self.ptr
    }
}

impl Data {
    /// The data object at address `ptr`, as libdispatch handed it over.
    pub fn from_raw(ptr: usize) -> (r: Self)
        ensures
            r@ == ptr,
    {
        Data { ptr }
    }

    /// The data object at address `ptr`, where a null address stands for the
    /// empty data object, whose address is `empty`.
    pub fn from_raw_or_empty(ptr: usize, empty: usize) -> (r: Self)
        ensures
            r@ == (if ptr == 0 {
                empty
            } else {
                ptr
            }),
    {
        if ptr == 0 {
            Data { ptr: empty }
        } else {
            Data { ptr }
        }
    }

    /// Borrows the data object at address `ptr` (the empty data object, at
    /// `empty`, for a null address); the flag tells whether a reference to it
    /// must be retained, which is so for every object but the empty one that
    /// stands for a null address.
    pub fn borrow(ptr: usize, empty: usize) -> (r: (Self, bool))
        ensures
            r.0@ == (if ptr == 0 {
                empty
            } else {
                ptr
            }),
            r.1 == (ptr != 0),
    {
        (Self::from_raw_or_empty(ptr, empty), ptr != 0)
    }

    /// Extracts the raw `dispatch_data_t`.
    pub fn as_raw(&self) -> (r: usize)
        ensures
            r == self@,
    {
        self.ptr
    }

    /// Whether the data is empty, for an object of `len` bytes when the empty
    /// data object is at address `empty`: it is the empty object, or has no bytes.
    pub fn is_empty_given(&self, empty: usize, len: usize) -> (r: bool)
        ensures
            r == (self@ == empty || len == 0),
    {
        self.ptr == empty || len == 0
    }
}

} // verus!
