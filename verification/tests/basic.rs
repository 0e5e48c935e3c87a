use core::cell::Cell;
use core::cmp::Ordering;
use generic_array::GenericArray;

#[test]
fn test() {
    let mut list97 = [0; 97];
    for i in 0..97 {
        list97[i] = i as i32;
    }
    let l: GenericArray<i32, 97> = GenericArray::clone_from_slice(&list97);
    assert_eq!(l.as_slice()[0], 0);
    assert_eq!(l.as_slice()[1], 1);
    assert_eq!(l.as_slice()[32], 32);
    assert_eq!(l.as_slice()[56], 56);
}

#[test]
fn test_drop() {
    #[derive(Clone)]
    struct TestDrop<'a>(&'a Cell<u32>);

    impl<'a> Drop for TestDrop<'a> {
        fn drop(&mut self) {
            self.0.set(self.0.get() + 1);
        }
    }

    let drop_counter = Cell::new(0);
    {
        let _: GenericArray<TestDrop, 3> = GenericArray::from_array([
            TestDrop(&drop_counter),
            TestDrop(&drop_counter),
            TestDrop(&drop_counter),
        ]);
    }
    assert_eq!(drop_counter.get(), 3);
}

#[test]
fn test_arr() {
    let test: GenericArray<u32, 3> = GenericArray::from_array([1, 2, 3]);
    assert_eq!(test.as_slice()[1], 2);
}

#[test]
fn test_iter_flat_map() {
    assert!((0..5)
        .flat_map(|i| GenericArray::from_array([2 * i, 2 * i + 1]).into_vec())
        .eq(0..10));
}

#[test]
fn test_default() {
    let arr = GenericArray::<u8, 1>::default();
    assert_eq!(arr.as_slice()[0], 0);
}

#[test]
fn test_from() {
    let data = [(1, 2, 3), (4, 5, 6), (7, 8, 9)];
    let garray: GenericArray<(usize, usize, usize), 3> = data.into();
    assert_eq!(&data[..], garray.as_slice());
}

#[test]
fn test_unit_macro() {
    let arr = GenericArray::<f32, 1>::from_array([3.14]);
    assert_eq!(arr.as_slice()[0], 3.14);
}

#[test]
fn test_empty_macro() {
    let _arr = GenericArray::<f32, 0>::from_array([]);
}

#[test]
fn test_cmp() {
    assert_eq!(
        GenericArray::<u8, 1>::from_array([0x00]).cmp(&GenericArray::from_array([0x00])),
        Ordering::Equal
    );
}

#[test]
fn test_from_inference() {
    let a = GenericArray::from_array([1, 2, 3, 4]);
    let _: [i8; 4] = a.into();
}

#[test]
fn test_assembly() {
    let a = GenericArray::from_array([1, 3, 5, 7]);
    let b = GenericArray::from_array([2, 4, 6, 8]);

    let c = a.clone().zip(b, |l, r| l + r);

    let d = a.fold(0, |acc, x| acc + x);

    assert_eq!(c, GenericArray::from_array([3, 7, 11, 15]));

    assert_eq!(d, 16);
}

#[test]
fn stress_miri() {
    let _ = GenericArray::<(), 1073741824>::from_array([(); 1073741824]);
}
