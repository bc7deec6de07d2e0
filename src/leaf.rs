//! Primitive leaf types: they own no heap memory, so their dynamic part is
//! always zero and their flag is false. These end every traversal.
use crate::GetSize;
use vstd::prelude::*;

verus! {

impl GetSize for u8 {
    open spec fn dyn_bytes(&self) -> nat {
        0
    }

    proof fn lemma_no_dyn_mem(&self) {
    }

    fn size_bytes_dyn(&self) -> (r: usize)
        ensures
            r == 0,
    {
        0
    }
}

impl GetSize for u16 {
    open spec fn dyn_bytes(&self) -> nat {
        0
    }

    proof fn lemma_no_dyn_mem(&self) {
    }

    fn size_bytes_dyn(&self) -> (r: usize)
        ensures
            r == 0,
    {
        0
    }
}

impl GetSize for u32 {
    open spec fn dyn_bytes(&self) -> nat {
        0
    }

    proof fn lemma_no_dyn_mem(&self) {
    }

    fn size_bytes_dyn(&self) -> (r: usize)
        ensures
            r == 0,
    {
        0
    }
}

impl GetSize for u64 {
    open spec fn dyn_bytes(&self) -> nat {
        0
    }

    proof fn lemma_no_dyn_mem(&self) {
    }

    fn size_bytes_dyn(&self) -> (r: usize)
        ensures
            r == 0,
    {
        0
    }
}

impl GetSize for u128 {
    open spec fn dyn_bytes(&self) -> nat {
        0
    }

    proof fn lemma_no_dyn_mem(&self) {
    }

    fn size_bytes_dyn(&self) -> (r: usize)
        ensures
            r == 0,
    {
        0
    }
}

impl GetSize for i8 {
    open spec fn dyn_bytes(&self) -> nat {
        0
    }

    proof fn lemma_no_dyn_mem(&self) {
    }

    fn size_bytes_dyn(&self) -> (r: usize)
        ensures
            r == 0,
    {
        0
    }
}

impl GetSize for i16 {
    open spec fn dyn_bytes(&self) -> nat {
        0
    }

    proof fn lemma_no_dyn_mem(&self) {
    }

    fn size_bytes_dyn(&self) -> (r: usize)
        ensures
            r == 0,
    {
        0
    }
}

impl GetSize for i32 {
    open spec fn dyn_bytes(&self) -> nat {
        0
    }

    proof fn lemma_no_dyn_mem(&self) {
    }

    fn size_bytes_dyn(&self) -> (r: usize)
        ensures
            r == 0,
    {
        0
    }
}

impl GetSize for i64 {
    open spec fn dyn_bytes(&self) -> nat {
        0
    }

    proof fn lemma_no_dyn_mem(&self) {
    }

    fn size_bytes_dyn(&self) -> (r: usize)
        ensures
            r == 0,
    {
        0
    }
}

impl GetSize for i128 {
    open spec fn dyn_bytes(&self) -> nat {
        0
    }

    proof fn lemma_no_dyn_mem(&self) {
    }

    fn size_bytes_dyn(&self) -> (r: usize)
        ensures
            r == 0,
    {
        0
    }
}

impl GetSize for char {
    open spec fn dyn_bytes(&self) -> nat {
        0
    }

    proof fn lemma_no_dyn_mem(&self) {
    }

    fn size_bytes_dyn(&self) -> (r: usize)
        ensures
            r == 0,
    {
        0
    }
}

impl GetSize for () {
    open spec fn dyn_bytes(&self) -> nat {
        0
    }

    proof fn lemma_no_dyn_mem(&self) {
    }

    fn size_bytes_dyn(&self) -> (r: usize)
        ensures
            r == 0,
    {
        0
    }
}

/// Every primitive leaf type reports no use of dynamic memory, and every
/// value of it has a zero dynamic part.
pub proof fn lemma_leaf_types()
    ensures
        !<u8 as GetSize>::USES_DYN_MEM && forall|x: u8| #[trigger] x.dyn_bytes() == 0,
        !<u16 as GetSize>::USES_DYN_MEM && forall|x: u16| #[trigger] x.dyn_bytes() == 0,
        !<u32 as GetSize>::USES_DYN_MEM && forall|x: u32| #[trigger] x.dyn_bytes() == 0,
        !<u64 as GetSize>::USES_DYN_MEM && forall|x: u64| #[trigger] x.dyn_bytes() == 0,
        !<u128 as GetSize>::USES_DYN_MEM && forall|x: u128| #[trigger] x.dyn_bytes() == 0,
        !<i8 as GetSize>::USES_DYN_MEM && forall|x: i8| #[trigger] x.dyn_bytes() == 0,
        !<i16 as GetSize>::USES_DYN_MEM && forall|x: i16| #[trigger] x.dyn_bytes() == 0,
        !<i32 as GetSize>::USES_DYN_MEM && forall|x: i32| #[trigger] x.dyn_bytes() == 0,
        !<i64 as GetSize>::USES_DYN_MEM && forall|x: i64| #[trigger] x.dyn_bytes() == 0,
        !<i128 as GetSize>::USES_DYN_MEM && forall|x: i128| #[trigger] x.dyn_bytes() == 0,
        !<char as GetSize>::USES_DYN_MEM && forall|x: char| #[trigger] x.dyn_bytes() == 0,
        !<() as GetSize>::USES_DYN_MEM && forall|x: ()| #[trigger] GetSize::dyn_bytes(&x) == 0,
{
}

} // verus!
