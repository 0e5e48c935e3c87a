use generic_array::{GenericArray, LengthError};

#[test]
fn array_round_trip() {
    let original = [5u16, 6, 7, 8];
    let ga = GenericArray::from(original);
    let back: [u16; 4] = ga.into();
    assert_eq!(back, original);
}

#[test]
fn try_from_slice_rejects_mismatch() {
    let short = [1u8, 2, 3];
    let long = [1u8, 2, 3, 4, 5];
    let exact = [1u8, 2, 3, 4];

    assert_eq!(
        GenericArray::<u8, 4>::try_from_slice(&short),
        Err(LengthError)
    );
    assert_eq!(
        GenericArray::<u8, 4>::try_from_slice(&long),
        Err(LengthError)
    );
    let ok = GenericArray::<u8, 4>::try_from_slice(&exact).unwrap();
    assert_eq!(ok.as_slice(), &exact);
}

#[test]
fn try_from_iter_rejects_mismatch() {
    assert!(GenericArray::<i32, 4>::try_from_iter(0..3).is_err());
    assert!(GenericArray::<i32, 4>::try_from_iter(0..5).is_err());
    let ok = GenericArray::<i32, 4>::try_from_iter(0..4).unwrap();
    assert_eq!(ok, GenericArray::from_array([0, 1, 2, 3]));
}

#[test]
fn try_from_vec_rejects_mismatch() {
    assert!(GenericArray::<i32, 2>::try_from_vec(vec![1]).is_err());
    assert!(GenericArray::<i32, 2>::try_from_vec(vec![1, 2, 3]).is_err());
    let ok = GenericArray::<i32, 2>::try_from_vec(vec![1, 2]).unwrap();
    assert_eq!(*ok, GenericArray::from_array([1, 2]));
}

#[test]
fn try_from_mut_slice_leaves_slice_unchanged() {
    let mut data = [9u8, 8, 7];
    let ga = GenericArray::<u8, 3>::try_from_mut_slice(&mut data).unwrap();
    assert_eq!(ga.as_slice(), &[9, 8, 7]);
    assert_eq!(data, [9, 8, 7]);
    let mut short = [1u8];
    assert_eq!(
        GenericArray::<u8, 3>::try_from_mut_slice(&mut short),
        Err(LengthError)
    );
}

#[test]
fn vec_round_trip() {
    let ga = GenericArray::<i64, 3>::from_vec(vec![-1, 0, 1]);
    assert_eq!(ga.as_slice(), &[-1, 0, 1]);
    let v = ga.into_vec();
    assert_eq!(v, vec![-1, 0, 1]);
}

#[test]
fn boxed_conversions() {
    let b = GenericArray::<u8, 3>::try_from_vec(vec![1, 2, 3]).unwrap();
    let slice: Box<[u8]> = (*b).into_boxed_slice();
    assert_eq!(&slice[..], &[1, 2, 3]);

    let back = GenericArray::<u8, 3>::try_from_boxed_slice(slice).unwrap();
    assert_eq!(back.as_slice(), &[1, 2, 3]);

    let wrong: Box<[u8]> = vec![1, 2].into_boxed_slice();
    assert!(GenericArray::<u8, 3>::try_from_boxed_slice(wrong).is_err());
}

#[test]
fn default_boxed_matches_default() {
    let b = GenericArray::<u32, 6>::default_boxed();
    assert_eq!(*b, GenericArray::<u32, 6>::default());
}

#[test]
fn try_boxed_from_iter_checks_length() {
    assert!(GenericArray::<i32, 3>::try_boxed_from_iter(0..2).is_err());
    assert!(GenericArray::<i32, 3>::try_boxed_from_iter(0..4).is_err());
    let ok = GenericArray::<i32, 3>::try_boxed_from_iter(0..3).unwrap();
    assert_eq!(*ok, GenericArray::from_array([0, 1, 2]));
}

#[test]
fn const_default_matches_default() {
    let a = GenericArray::<u8, 4>::const_default();
    assert_eq!(a, GenericArray::<u8, 4>::default());
    assert_eq!(a.as_slice(), &[0, 0, 0, 0]);
}

#[test]
fn new_list_clones_elements() {
    let l: GenericArray<i32, 4> = GenericArray::new_list(&[1, 2, 3, 4]);
    assert_eq!(l.as_slice(), &[1, 2, 3, 4]);
}

#[test]
fn len_is_compile_time_length() {
    assert_eq!(GenericArray::<u8, 0>::len(), 0);
    assert_eq!(GenericArray::<u8, 97>::len(), 97);
}

#[test]
fn replace_swaps_one_element() {
    let mut a = GenericArray::<i32, 3>::from_array([1, 2, 3]);
    let old = a.replace(1, 9);
    assert_eq!(old, 2);
    assert_eq!(a.as_slice(), &[1, 9, 3]);
}
