//! Sums of footprints over sequences of elements, and the facts about them
//! that the container implementations rely on.
use crate::{total_bytes, GetSize};
use vstd::layout::size_of;
use vstd::prelude::*;

verus! {

/// Sum of the dynamic parts of the elements of `s`.
pub open spec fn sum_dyn<T: GetSize>(s: Seq<T>) -> nat
    decreases s.len(),
{
    if s.len() == 0 {
        0
    } else {
        sum_dyn(s.drop_last()) + s.last().dyn_bytes()
    }
}

/// Sum of the total footprints (inline plus dynamic) of the elements of `s`.
pub open spec fn sum_total<T: GetSize>(s: Seq<T>) -> nat
    decreases s.len(),
{
    if s.len() == 0 {
        0
    } else {
        sum_total(s.drop_last()) + total_bytes(&s.last())
    }
}

/// Extending a prefix by one element adds that element's dynamic part.
pub proof fn lemma_sum_dyn_step<T: GetSize>(s: Seq<T>, i: int)
    requires
        0 <= i < s.len(),
    ensures
        sum_dyn(s.take(i + 1)) == sum_dyn(s.take(i)) + s[i].dyn_bytes(),
{
    assert(s.take(i + 1).drop_last() =~= s.take(i));
}

/// The dynamic sum of a prefix never exceeds that of the whole sequence.
pub proof fn lemma_sum_dyn_prefix<T: GetSize>(s: Seq<T>, i: int)
    requires
        0 <= i <= s.len(),
    ensures
        sum_dyn(s.take(i)) <= sum_dyn(s),
    decreases s.len() - i,
{
    if i == s.len() {
        assert(s.take(i) =~= s);
    } else {
        lemma_sum_dyn_step(s, i);
        lemma_sum_dyn_prefix(s, i + 1);
    }
}

/// Elements of a type that never uses dynamic memory sum to no dynamic bytes.
pub proof fn lemma_sum_dyn_static<T: GetSize>(s: Seq<T>)
    requires
        !T::USES_DYN_MEM,
    ensures
        sum_dyn(s) == 0,
    decreases s.len(),
{
    if s.len() > 0 {
        lemma_sum_dyn_static(s.drop_last());
        s.last().lemma_no_dyn_mem();
    }
}

/// Extending a prefix by one element adds that element's total footprint.
pub proof fn lemma_sum_total_step<T: GetSize>(s: Seq<T>, i: int)
    requires
        0 <= i < s.len(),
    ensures
        sum_total(s.take(i + 1)) == sum_total(s.take(i)) + total_bytes(&s[i]),
{
    assert(s.take(i + 1).drop_last() =~= s.take(i));
}

/// The total sum of a prefix never exceeds that of the whole sequence.
pub proof fn lemma_sum_total_prefix<T: GetSize>(s: Seq<T>, i: int)
    requires
        0 <= i <= s.len(),
    ensures
        sum_total(s.take(i)) <= sum_total(s),
    decreases s.len() - i,
{
    if i == s.len() {
        assert(s.take(i) =~= s);
    } else {
        lemma_sum_total_step(s, i);
        lemma_sum_total_prefix(s, i + 1);
    }
}

/// Elements of a type that never uses dynamic memory take exactly their
/// inline size each.
pub proof fn lemma_sum_total_static<T: GetSize>(s: Seq<T>)
    requires
        !T::USES_DYN_MEM,
    ensures
        sum_total(s) == s.len() * size_of::<T>(),
    decreases s.len(),
{
    if s.len() > 0 {
        let n = s.len() - 1;
        let w = size_of::<T>();
        lemma_sum_total_static(s.drop_last());
        s.last().lemma_no_dyn_mem();
        assert(n * w + w == (n + 1) * w) by (nonlinear_arith);
    }
}

} // verus!
