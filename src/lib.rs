//! Measuring how many bytes a value occupies, counting both its inline
//! storage and the heap memory it exclusively owns.
//!
//! The [`GetSize`] trait gives every implementer two numbers: the dynamic
//! (heap-owned) part and the total, which is always the inline size of the
//! type plus the dynamic part. The associated flag [`GetSize::USES_DYN_MEM`]
//! tells, per type, whether any value can own heap memory at all; containers
//! consult it to skip traversing elements that cannot.
use vstd::layout::size_of;
use vstd::prelude::*;

pub mod array;
pub mod heap_seq;
pub mod leaf;
pub mod sums;

verus! {

/// Provides methods to get dynamic and total size of the variable.
pub trait GetSize: Sized {
    /// Number of heap bytes exclusively owned by `self`, beyond its inline storage.
    spec fn dyn_bytes(&self) -> nat;

    /// A type that reports no use of dynamic memory has a zero dynamic part
    /// for every value: the flag never gives a false negative.
    proof fn lemma_no_dyn_mem(&self)
        requires
            !Self::USES_DYN_MEM,
        ensures
            self.dyn_bytes() == 0,
    ;

    /// Returns approximate number of bytes occupied by dynamic part of `self`.
    /// Same as `self.size_bytes() - std::mem::size_of_val(self)`.
    fn size_bytes_dyn(&self) -> (r: usize)
        requires
            self.dyn_bytes() <= usize::MAX,
        ensures
            r == self.dyn_bytes(),
    ;

    /// Returns approximate, total (including heap memory) number of bytes occupied by `self`.
    fn size_bytes(&self) -> (r: usize)
        requires
            size_of::<Self>() + self.dyn_bytes() <= usize::MAX,
        ensures
            r == size_of::<Self>() + self.dyn_bytes(),
    {
        core::mem::size_of::<Self>() + self.size_bytes_dyn()
    }

    /// `true` if and only if the variables of this type can use dynamic (heap) memory.
    const USES_DYN_MEM: bool = false;
}

/// Total footprint of a value: the inline size of its type plus its dynamic part.
pub open spec fn total_bytes<T: GetSize>(x: &T) -> nat {
    size_of::<T>() + x.dyn_bytes()
}

} // verus!
