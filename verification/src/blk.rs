//! Dispatch block flags, and dispatch block handles.
use vstd::prelude::*;

use crate::ffi::{
    dispatch_block_flags_t, DISPATCH_BLOCK_ASSIGN_CURRENT, DISPATCH_BLOCK_BARRIER,
    DISPATCH_BLOCK_DETACHED, DISPATCH_BLOCK_ENFORCE_QOS_CLASS, DISPATCH_BLOCK_INHERIT_QOS_CLASS,
    DISPATCH_BLOCK_NO_QOS_CLASS,
};

verus! {

/// The bits of all the flags that `BlockFlags` knows.
pub const ALL_BLOCK_FLAGS: dispatch_block_flags_t = 0x3f;

/// Flags to pass to the `DispatchBlock::create()` functions.
#[derive(Clone, Copy, Debug, PartialEq, Eq, Hash, Structural)]
pub struct BlockFlags {
    bits: dispatch_block_flags_t,
}

impl View for BlockFlags {
    type V = dispatch_block_flags_t;

    closed spec fn view(&self) -> dispatch_block_flags_t {
        self.bits
    }
}

/// Whether every bit of `bits` is one of a known flag.
pub open spec fn known_bits(bits: dispatch_block_flags_t) -> bool {
    bits & !ALL_BLOCK_FLAGS == 0
}

/// Known flags stay known under the operations on sets of flags.
proof fn lemma_known_closed(a: u64, b: u64)
    by (bit_vector)
    requires
        a & !0x3fu64 == 0,
        b & !0x3fu64 == 0,
    ensures
        (a | b) & !0x3fu64 == 0,
        (a & b) & !0x3fu64 == 0,
        (a & !b) & !0x3fu64 == 0,
        (a ^ b) & !0x3fu64 == 0,
{
}

/// The constant flags, and any set truncated to them, are known.
proof fn lemma_known_constants(x: u64)
    by (bit_vector)
    ensures
        (x & 0x3fu64) & !0x3fu64 == 0,
        0x1u64 & !0x3fu64 == 0,
        0x2u64 & !0x3fu64 == 0,
        0x4u64 & !0x3fu64 == 0,
        0x8u64 & !0x3fu64 == 0,
        0x10u64 & !0x3fu64 == 0,
        0x20u64 & !0x3fu64 == 0,
        0x3fu64 & !0x3fu64 == 0,
        0u64 & !0x3fu64 == 0,
{
}

impl BlockFlags {
    #[verifier::type_invariant]
    closed spec fn inv(self) -> bool {
        known_bits(self.bits)
    }

    /// Flag indicating that a dispatch block object should act as a barrier block
    /// when submitted to a DISPATCH_QUEUE_CONCURRENT queue.
    pub fn barrier() -> (r: Self)
        ensures
            r@ == DISPATCH_BLOCK_BARRIER,
    {
        proof {
            lemma_known_constants(0);
        }
        BlockFlags { bits: DISPATCH_BLOCK_BARRIER }
    }

    /// Flag indicating that a dispatch block object should execute disassociated
    /// from current execution context attributes such as QOS class, os_activity_t
    /// and properties of the current IPC request (if any).
    pub fn detached() -> (r: Self)
        ensures
            r@ == DISPATCH_BLOCK_DETACHED,
    {
        proof {
            lemma_known_constants(0);
        }
        BlockFlags { bits: DISPATCH_BLOCK_DETACHED }
    }

    /// Flag indicating that a dispatch block object should be assigned the execution
    /// context attributes that are current at the time the block object is created.
    pub fn assign_current() -> (r: Self)
        ensures
            r@ == DISPATCH_BLOCK_ASSIGN_CURRENT,
    {
        proof {
            lemma_known_constants(0);
        }
        BlockFlags { bits: DISPATCH_BLOCK_ASSIGN_CURRENT }
    }

    /// Flag indicating that a dispatch block object should be not be assigned a QOS class.
    pub fn no_qos_class() -> (r: Self)
        ensures
            r@ == DISPATCH_BLOCK_NO_QOS_CLASS,
    {
        proof {
            lemma_known_constants(0);
        }
        BlockFlags { bits: DISPATCH_BLOCK_NO_QOS_CLASS }
    }

    /// Flag indicating that execution of a dispatch block object submitted to
    /// a queue should prefer the QOS class assigned to the queue over the QOS class
    /// assigned to the block (resp. associated with the block at the time of submission).
    pub fn inherit_qos_class() -> (r: Self)
        ensures
            r@ == DISPATCH_BLOCK_INHERIT_QOS_CLASS,
    {
        proof {
            lemma_known_constants(0);
        }
        BlockFlags { bits: DISPATCH_BLOCK_INHERIT_QOS_CLASS }
    }

    /// Flag indicating that execution of a dispatch block object submitted to
    /// a queue should prefer the QOS class assigned to the block (resp. associated
    /// with the block at the time of submission) over the QOS class assigned to
    /// the queue, as long as doing so will not result in a lower QOS class.
    pub fn enforce_qos_class() -> (r: Self)
        ensures
            r@ == DISPATCH_BLOCK_ENFORCE_QOS_CLASS,
    {
        proof {
            lemma_known_constants(0);
        }
        BlockFlags { bits: DISPATCH_BLOCK_ENFORCE_QOS_CLASS }
    }

    /// Returns an empty set of flags.
    pub fn empty() -> (r: Self)
        ensures
            r@ == 0,
    {
        proof {
            lemma_known_constants(0);
        }
        BlockFlags { bits: 0 }
    }

    /// Returns the set containing all flags.
    pub fn all() -> (r: Self)
        ensures
            r@ == ALL_BLOCK_FLAGS,
    {
        proof {
            lemma_known_constants(0);
        }
        BlockFlags { bits: ALL_BLOCK_FLAGS }
    }

    /// Returns the raw value of the flags currently stored.
    pub fn bits(&self) -> (r: dispatch_block_flags_t)
        ensures
            r == self@,
            known_bits(r),
    {
        proof {
            use_type_invariant(self);
        }
        self.bits
    }

    /// Convert from underlying bit representation, unless that
    /// representation contains bits that do not correspond to a flag.
    pub fn from_bits(bits: dispatch_block_flags_t) -> (r: Option<Self>)
        ensures
            r is Some <==> bits & !ALL_BLOCK_FLAGS == 0,
            r matches Some(f) ==> f@ == bits,
    {
        proof {
            lemma_known_constants(bits);
        }
        if bits & !ALL_BLOCK_FLAGS == 0 {
            Some(BlockFlags { bits })
        } else {
            None
        }
    }

    /// Convert from underlying bit representation, dropping any bits
    /// that do not correspond to flags.
    pub fn from_bits_truncate(bits: dispatch_block_flags_t) -> (r: Self)
        ensures
            r@ == bits & ALL_BLOCK_FLAGS,
    {
        proof {
            lemma_known_constants(bits);
        }
        BlockFlags { bits: bits & ALL_BLOCK_FLAGS }
    }

    /// Returns `true` if no flags are currently stored.
    pub fn is_empty(&self) -> (r: bool)
        ensures
            r == (self@ == 0),
    {
        self.bits == 0
    }

    /// Returns `true` if all flags are currently set.
    pub fn is_all(&self) -> (r: bool)
        ensures
            r == (ALL_BLOCK_FLAGS | self@ == self@),
    {
        ALL_BLOCK_FLAGS | self.bits == self.bits
    }

    /// Returns `true` if there are flags common to both `self` and `other`.
    pub fn intersects(&self, other: &Self) -> (r: bool)
        ensures
            r == (self@ & other@ != 0),
    {
        self.bits & other.bits != 0
    }

    /// Returns `true` if all of the flags in `other` are contained within `self`.
    pub fn contains(&self, other: &Self) -> (r: bool)
        ensures
            r == (self@ & other@ == other@),
    {
        self.bits & other.bits == other.bits
    }

    /// Inserts the specified flags in-place.
    pub fn insert(&mut self, other: Self)
        ensures
            final(self)@ == old(self)@ | other@,
    {
        proof {
            use_type_invariant(&*self);
            use_type_invariant(&other);
            lemma_known_closed(self.bits, other.bits);
        }
        self.bits = self.bits | other.bits;
    }

    /// Removes the specified flags in-place.
    pub fn remove(&mut self, other: Self)
        ensures
            final(self)@ == old(self)@ & !other@,
    {
        proof {
            use_type_invariant(&*self);
            use_type_invariant(&other);
            lemma_known_closed(self.bits, other.bits);
        }
        self.bits = self.bits & !other.bits;
    }

    /// Toggles the specified flags in-place.
    pub fn toggle(&mut self, other: Self)
        ensures
            final(self)@ == old(self)@ ^ other@,
    {
        proof {
            use_type_invariant(&*self);
            use_type_invariant(&other);
            lemma_known_closed(self.bits, other.bits);
        }
        self.bits = self.bits ^ other.bits;
    }

    /// Inserts or removes the specified flags depending on the passed value.
    pub fn set(&mut self, other: Self, value: bool)
        ensures
            final(self)@ == (if value {
                old(self)@ | other@
            } else {
                old(self)@ & !other@
            }),
    {
        if value {
            self.insert(other);
        } else {
            self.remove(other);
        }
    }

    /// Returns the intersection between the flags in `self` and `other`.
    pub fn intersection(self, other: Self) -> (r: Self)
        ensures
            r@ == self@ & other@,
    {
        proof {
            use_type_invariant(&self);
            use_type_invariant(&other);
            lemma_known_closed(self.bits, other.bits);
        }
        BlockFlags { bits: self.bits & other.bits }
    }

    /// Returns the union of between the flags in `self` and `other`.
    pub fn union(self, other: Self) -> (r: Self)
        ensures
            r@ == self@ | other@,
    {
        proof {
            use_type_invariant(&self);
            use_type_invariant(&other);
            lemma_known_closed(self.bits, other.bits);
        }
        BlockFlags { bits: self.bits | other.bits }
    }

    /// Returns the difference between the flags in `self` and `other`.
    pub fn difference(self, other: Self) -> (r: Self)
        ensures
            r@ == self@ & !other@,
    {
        proof {
            use_type_invariant(&self);
            use_type_invariant(&other);
            lemma_known_closed(self.bits, other.bits);
        }
        BlockFlags { bits: self.bits & !other.bits }
    }

    /// Returns the symmetric difference between the flags in `self` and `other`.
    pub fn symmetric_difference(self, other: Self) -> (r: Self)
        ensures
            r@ == self@ ^ other@,
    {
        proof {
            use_type_invariant(&self);
            use_type_invariant(&other);
            lemma_known_closed(self.bits, other.bits);
        }
        BlockFlags { bits: self.bits ^ other.bits }
    }

    /// Returns the complement of this set of flags: the known flags that `self` lacks.
    pub fn complement(self) -> (r: Self)
        ensures
            r@ == !self@ & ALL_BLOCK_FLAGS,
    {
        Self::from_bits_truncate(!self.bits)
    }
}

/// Dispatch blocks allow you to configure properties of individual units of work on a queue directly.
///
/// A block is held here by the address of its `dispatch_block_t`.
pub struct DispatchBlock {
    ptr: usize,
}

impl View for DispatchBlock {
    type V = usize;

    closed spec fn view(&self) -> usize {
        self.ptr
    }
}

impl DispatchBlock {
    /// The block whose `dispatch_block_t` is at address `ptr`.
    pub fn from_raw(ptr: usize) -> (r: Self)
        ensures
            r@ == ptr,
    {
        DispatchBlock { ptr }
    }

    /// Extracts the raw `dispatch_block_t`.
    pub fn as_raw(&self) -> (r: usize)
        ensures
            r == self@,
    {
        self.ptr
    }

    /// Consumes the `DispatchBlock`, returning the wrapped `dispatch_block_t`.
    pub fn into_raw(self) -> (r: usize)
        ensures
            r == self@,
    {
        self.ptr
    }
}

/// After `a.insert(b)`, `a.contains(b)` holds: inserted flags are contained.
pub proof fn law_insert_then_contains(a: dispatch_block_flags_t, b: dispatch_block_flags_t)
    by (bit_vector)
    ensures
        (a | b) & b == b,
{
}

/// After `a.remove(b)`, `a.intersects(b)` is false: removed flags are gone.
pub proof fn law_remove_then_disjoint(a: dispatch_block_flags_t, b: dispatch_block_flags_t)
    by (bit_vector)
    ensures
        (a & !b) & b == 0,
{
}

/// Toggling the same flags twice gives back the flags one started from.
pub proof fn law_toggle_twice(a: dispatch_block_flags_t, b: dispatch_block_flags_t)
    by (bit_vector)
    ensures
        (a ^ b) ^ b == a,
{
}

/// The complement of the complement of a set of known flags is that set.
pub proof fn law_complement_twice(a: dispatch_block_flags_t)
    by (bit_vector)
    requires
        a & !ALL_BLOCK_FLAGS == 0,
    ensures
        !(!a & ALL_BLOCK_FLAGS) & ALL_BLOCK_FLAGS == a,
{
}

/// A set of known flags is all of them exactly when it equals `all()`.
pub proof fn law_is_all_is_everything(a: dispatch_block_flags_t)
    by (bit_vector)
    requires
        a & !ALL_BLOCK_FLAGS == 0,
    ensures
        (ALL_BLOCK_FLAGS | a == a) <==> a == ALL_BLOCK_FLAGS,
{
}

/// The difference of two sets of known flags is the intersection of the first
/// with the complement of the second.
pub proof fn law_difference_is_intersection_with_complement(
    a: dispatch_block_flags_t,
    b: dispatch_block_flags_t,
)
    by (bit_vector)
    requires
        a & !ALL_BLOCK_FLAGS == 0,
    ensures
        a & !b == a & (!b & ALL_BLOCK_FLAGS),
{
}

} // verus!
