//! Heap-backed sequences: growable vectors and owned boxed slices. Inline
//! they hold only a handle; their elements live in an owned buffer, so each
//! element counts in full, inline bytes and dynamic part alike.
//!
//! The buffer is measured by its length, not by its allocated capacity:
//! spare capacity of a vector is not counted.
use crate::sums::{lemma_sum_total_prefix, lemma_sum_total_static, lemma_sum_total_step, sum_total};
use crate::{total_bytes, GetSize};
use vstd::layout::size_of;
use vstd::prelude::*;

verus! {

broadcast use vstd::slice::group_slice_axioms;

/// Footprint of the elements of an owned buffer. Elements that cannot own
/// heap memory take their inline size each, with no traversal; otherwise each
/// element's total footprint is added.
fn buffer_bytes<T: GetSize>(s: &[T]) -> (r: usize)
    requires
        sum_total(s@) <= usize::MAX,
    ensures
        r == sum_total(s@),
        !T::USES_DYN_MEM ==> r == s@.len() * size_of::<T>(),
{
    if T::USES_DYN_MEM {
        let mut acc: usize = 0;
        let mut i: usize = 0;
        while i < s.len()
            invariant
                i <= s@.len(),
                sum_total(s@) <= usize::MAX,
                acc == sum_total(s@.take(i as int)),
            decreases s@.len() - i,
        {
            proof {
                lemma_sum_total_step(s@, i as int);
                lemma_sum_total_prefix(s@, i + 1);
            }
            acc = acc + s[i].size_bytes();
            i = i + 1;
        }
        assert(s@.take(s@.len() as int) =~= s@);
        acc
    } else {
        let width = core::mem::size_of::<T>();
        let len = s.len();
        proof {
            lemma_sum_total_static(s@);
            assert(width * len == len * width) by (nonlinear_arith);
        }
        width * len
    }
}

impl<T: GetSize> GetSize for Vec<T> {
    open spec fn dyn_bytes(&self) -> nat {
        sum_total(self@)
    }

    proof fn lemma_no_dyn_mem(&self) {
    }

    fn size_bytes_dyn(&self) -> (r: usize)
        ensures
            r == sum_total(self@),
            !T::USES_DYN_MEM ==> r == self@.len() * size_of::<T>(),
    {
        buffer_bytes(self.as_slice())
    }

    const USES_DYN_MEM: bool = true;
}

impl<T: GetSize> GetSize for Box<[T]> {
    open spec fn dyn_bytes(&self) -> nat {
        sum_total(self@)
    }

    proof fn lemma_no_dyn_mem(&self) {
    }

    fn size_bytes_dyn(&self) -> (r: usize)
        ensures
            r == sum_total(self@),
            !T::USES_DYN_MEM ==> r == self@.len() * size_of::<T>(),
    {
        buffer_bytes(&**self)
    }

    const USES_DYN_MEM: bool = true;
}

/// A vector always reports that it may use dynamic memory. Holding elements
/// that never do, its dynamic part is its length times the element size.
pub proof fn lemma_vec_static<T: GetSize>(v: &Vec<T>)
    requires
        !T::USES_DYN_MEM,
    ensures
        <Vec<T> as GetSize>::USES_DYN_MEM,
        v.dyn_bytes() == v@.len() * size_of::<T>(),
{
    lemma_sum_total_static(v@);
}

/// The dynamic part of a vector of vectors is the sum of the inner vectors'
/// total footprints: each inner handle and each inner buffer, counted once.
pub proof fn lemma_vec_nested<T: GetSize>(v: &Vec<Vec<T>>)
    ensures
        v.dyn_bytes() == sum_total(v@),
        forall|i: int|
            0 <= i < v@.len() ==> #[trigger] total_bytes(&v@[i]) == size_of::<Vec<T>>()
                + sum_total(v@[i]@),
{
}

/// A boxed slice of elements that never use dynamic memory owns exactly its
/// length times the element size, and its total adds the size of the handle.
pub proof fn lemma_boxed_slice_static<T: GetSize>(b: &Box<[T]>)
    requires
        !T::USES_DYN_MEM,
    ensures
        <Box<[T]> as GetSize>::USES_DYN_MEM,
        b.dyn_bytes() == b@.len() * size_of::<T>(),
        total_bytes(b) == b@.len() * size_of::<T>() + size_of::<Box<[T]>>(),
{
    lemma_sum_total_static(b@);
}

} // verus!
