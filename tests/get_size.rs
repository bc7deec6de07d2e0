use dyn_size_of::GetSize;

fn test_primitive<T: GetSize>(v: T) {
    assert_eq!(v.size_bytes_dyn(), 0);
    assert_eq!(v.size_bytes(), std::mem::size_of_val(&v));
    assert!(!T::USES_DYN_MEM);
}

fn check_identity<T: GetSize>(v: &T) {
    assert_eq!(v.size_bytes(), std::mem::size_of_val(v) + v.size_bytes_dyn());
}

#[test]
fn test_primitives() {
    test_primitive(1u32);
}

#[test]
fn test_array() {
    assert_eq!([1u32, 2u32, 3u32].size_bytes(), 3*4);
    assert_eq!([[1u32, 2u32], [3u32, 4u32]].size_bytes(), 4*4);
    assert_eq!([vec![1u32, 2u32], vec![3u32, 4u32]].size_bytes_dyn(), 4*4);
}

#[test]
fn test_vec() {
    assert_eq!(vec![1u32, 2u32, 3u32].size_bytes_dyn(), 3*4);
    assert_eq!(vec![[1u32, 2u32], [3u32, 4u32]].size_bytes_dyn(), 4*4);
    let v = vec![1u32, 2u32];
    assert_eq!(vec![v.clone(), v.clone()].size_bytes_dyn(), 2*v.size_bytes());
}

#[test]
fn test_boxed_slice() {
    let bs = vec![1u32, 2u32, 3u32].into_boxed_slice();
    assert_eq!(bs.size_bytes_dyn(), 3*4);
    assert_eq!(bs.size_bytes(), 3*4 + std::mem::size_of_val(&bs));
}

#[test]
fn all_leaf_types_own_nothing() {
    test_primitive(7u8);
    test_primitive(7u16);
    test_primitive(7u64);
    test_primitive(7u128);
    test_primitive(-7i8);
    test_primitive(-7i16);
    test_primitive(-7i32);
    test_primitive(-7i64);
    test_primitive(-7i128);
    test_primitive('x');
    test_primitive(());
    assert_eq!(1u128.size_bytes(), 16);
    assert_eq!('x'.size_bytes(), 4);
    assert_eq!(().size_bytes(), 0);
}

#[test]
fn total_is_inline_plus_dynamic() {
    check_identity(&5u16);
    check_identity(&[1u8, 2u8, 3u8]);
    check_identity(&vec![1u64, 2u64]);
    check_identity(&vec![vec![1u8], vec![2u8, 3u8]]);
    check_identity(&[vec![1u32], vec![]]);
    check_identity(&vec![9i16; 4].into_boxed_slice());
}

#[test]
fn static_array_counts_only_inline_bytes() {
    let a = [7u64, 8u64, 9u64, 10u64];
    assert!(!<[u64; 4]>::USES_DYN_MEM);
    assert_eq!(a.size_bytes_dyn(), 0);
    assert_eq!(a.size_bytes(), 32);
    let empty: [u32; 0] = [];
    assert_eq!(empty.size_bytes(), 0);
    assert_eq!([[1i16; 3]; 2].size_bytes(), 12);
}

#[test]
fn array_of_vectors_adds_their_dynamic_parts() {
    assert!(<[Vec<u8>; 2]>::USES_DYN_MEM);
    let v1 = vec![1u8, 2u8, 3u8];
    let v2 = vec![4u8];
    let expected = v1.size_bytes_dyn() + v2.size_bytes_dyn();
    let a = [v1, v2];
    assert_eq!(a.size_bytes_dyn(), expected);
    assert_eq!(a.size_bytes_dyn(), 4);
    assert_eq!(a.size_bytes(), 2 * std::mem::size_of::<Vec<u8>>() + 4);
}

#[test]
fn array_of_two_vectors_of_two_integers() {
    let v1 = vec![1u32, 2u32];
    let v2 = vec![3u32, 4u32];
    let expected = v1.size_bytes_dyn() + v2.size_bytes_dyn();
    let a = [v1, v2];
    assert_eq!(a.size_bytes_dyn(), expected);
    assert_eq!(a.size_bytes_dyn(), 16);
}

#[test]
fn vector_counts_length_times_element_size() {
    assert!(<Vec<u8>>::USES_DYN_MEM);
    assert!(<Vec<u32>>::USES_DYN_MEM);
    let empty: Vec<u32> = Vec::new();
    assert_eq!(empty.size_bytes_dyn(), 0);
    let reserved: Vec<u32> = Vec::with_capacity(16);
    assert_eq!(reserved.size_bytes_dyn(), 0);
    assert_eq!(vec![1u16, 2u16, 3u16, 4u16, 5u16].size_bytes_dyn(), 10);
    assert_eq!(vec![1u32, 2u32, 3u32].size_bytes_dyn(), 12);
}

#[test]
fn nested_vectors_count_inner_totals() {
    let handle = std::mem::size_of::<Vec<u32>>();
    let outer = vec![vec![1u32, 2u32], vec![1u32, 2u32]];
    assert_eq!(outer.size_bytes_dyn(), 2 * (handle + 8));
    assert_eq!(outer.size_bytes_dyn(), outer[0].size_bytes() + outer[1].size_bytes());
    let deep = vec![vec![vec![1u8]]];
    assert_eq!(deep.size_bytes_dyn(), 2 * std::mem::size_of::<Vec<u8>>() + 1);
}

#[test]
fn boxed_slice_counts_handle_and_elements() {
    let handle = std::mem::size_of::<Box<[u32]>>();
    assert!(<Box<[u32]>>::USES_DYN_MEM);
    let bs = vec![1u32, 2u32, 3u32].into_boxed_slice();
    assert_eq!(bs.size_bytes_dyn(), 12);
    assert_eq!(bs.size_bytes(), 12 + handle);
    let empty: Box<[u64]> = Vec::new().into_boxed_slice();
    assert_eq!(empty.size_bytes_dyn(), 0);
    let nested = vec![vec![5u8, 6u8], vec![]].into_boxed_slice();
    assert_eq!(nested.size_bytes_dyn(), 2 * std::mem::size_of::<Vec<u8>>() + 2);
}
