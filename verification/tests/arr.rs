use generic_array::GenericArray;

#[test]
fn empty_without_trailing_comma() {
    let ar: GenericArray<u8, 0> = GenericArray::from_array([]);
    assert_eq!(ar.lower_hex(), "");
}

#[test]
fn empty_with_trailing_comma() {
    let ar: GenericArray<u8, 0> = GenericArray::from_vec(Vec::new());
    assert_eq!(ar.lower_hex(), "");
}

#[test]
fn without_trailing_comma() {
    let ar = GenericArray::<u8, 3>::from_array([10, 20, 30]);
    assert_eq!(ar.lower_hex(), "0a141e");
}

#[test]
fn with_trailing_comma() {
    let ar = GenericArray::<u8, 3>::from_array([10u8, 20, 30]);
    assert_eq!(ar.lower_hex(), "0a141e");
}

#[test]
fn repeat_expression() {
    let ar = GenericArray::<u8, 4>::from_array([0xc0u8; 4]);
    assert_eq!(ar.lower_hex(), "c0c0c0c0");

    let _ = GenericArray::<i32, 12>::from_array([0; 12]);
    let _ = GenericArray::<i32, { 't' as usize }>::from_array([1; 't' as usize]);
}

#[test]
fn alloc_arr() {
    let ar = GenericArray::<u8, 4>::try_from_vec(vec![0xc0u8; 4]).unwrap();
    assert_eq!(ar.lower_hex(), "c0c0c0c0");

    let _ = GenericArray::<i32, 12>::try_from_vec(vec![0; 12]).unwrap();
    let _ = GenericArray::<i32, { 't' as usize }>::try_from_vec(vec![1; 't' as usize]).unwrap();

    // zero-sized element types
    let _ = (*GenericArray::<f32, 0>::try_from_vec(vec![0f32; 0]).unwrap()).into_boxed_slice();
    let z = (*GenericArray::<(), 5>::try_from_vec(vec![(); 5]).unwrap()).into_boxed_slice();

    #[allow(clippy::let_unit_value)]
    let _ = z[0];
}
