//! Fixed-size arrays. Their elements are stored inline, so the inline size
//! of the array already counts each element's inline bytes: only the
//! elements' dynamic parts are added.
use crate::sums::{lemma_sum_dyn_prefix, lemma_sum_dyn_static, lemma_sum_dyn_step, sum_dyn};
use crate::{total_bytes, GetSize};
use vstd::layout::size_of;
use vstd::prelude::*;

verus! {

broadcast use vstd::array::group_array_axioms;

/// Relies on core::mem::size_of for arrays: an array of `N` elements
/// occupies `N` times the size of one element, with no padding between them.
#[verifier::external_body]
fn array_inline_size<T, const N: usize>() -> (r: usize)
    ensures
        r == size_of::<[T; N]>(),
        r == N * size_of::<T>(),
{
    core::mem::size_of::<[T; N]>()
}

impl<T: GetSize, const N: usize> GetSize for [T; N] {
    open spec fn dyn_bytes(&self) -> nat {
        sum_dyn(self@)
    }

    proof fn lemma_no_dyn_mem(&self) {
        lemma_sum_dyn_static(self@);
    }

    fn size_bytes_dyn(&self) -> (r: usize)
        ensures
            r == sum_dyn(self@),
            !T::USES_DYN_MEM ==> r == 0,
    {
        if T::USES_DYN_MEM {
            let mut acc: usize = 0;
            let mut i: usize = 0;
            while i < N
                invariant
                    i <= N,
                    self@.len() == N,
                    sum_dyn(self@) <= usize::MAX,
                    acc == sum_dyn(self@.take(i as int)),
                decreases N - i,
            {
                proof {
                    lemma_sum_dyn_step(self@, i as int);
                    lemma_sum_dyn_prefix(self@, i + 1);
                }
                acc = acc + self[i].size_bytes_dyn();
                i = i + 1;
            }
            assert(self@.take(N as int) =~= self@);
            acc
        } else {
            proof {
                lemma_sum_dyn_static(self@);
            }
            0
        }
    }

    fn size_bytes(&self) -> (r: usize)
        ensures
            r == N * size_of::<T>() + sum_dyn(self@),
            !T::USES_DYN_MEM ==> r == N * size_of::<T>(),
    {
        array_inline_size::<T, N>() + self.size_bytes_dyn()
    }

    const USES_DYN_MEM: bool = T::USES_DYN_MEM;
}

/// An array whose elements never use dynamic memory has no dynamic part,
/// and its total footprint is exactly its inline size.
pub proof fn lemma_array_static<T: GetSize, const N: usize>(a: &[T; N])
    requires
        !T::USES_DYN_MEM,
    ensures
        !<[T; N] as GetSize>::USES_DYN_MEM,
        a.dyn_bytes() == 0,
        total_bytes(a) == size_of::<[T; N]>(),
{
    lemma_sum_dyn_static(a@);
}

/// An array inherits its element type's flag, and its dynamic part is the sum
/// of its elements' dynamic parts, not of their totals.
pub proof fn lemma_array_dynamic<T: GetSize, const N: usize>(a: &[T; N])
    ensures
        <[T; N] as GetSize>::USES_DYN_MEM == T::USES_DYN_MEM,
        a.dyn_bytes() == sum_dyn(a@),
        total_bytes(a) == size_of::<[T; N]>() + sum_dyn(a@),
{
}

} // verus!
