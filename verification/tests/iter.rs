use std::cell::Cell;
use std::ops::Drop;

use generic_array::GenericArray;

#[test]
fn test_from_iterator() {
    struct BadExact(usize);

    impl Iterator for BadExact {
        type Item = usize;
        fn next(&mut self) -> Option<usize> {
            if self.0 == 1 {
                return None;
            }
            self.0 -= 1;
            Some(self.0)
        }
    }
    impl ExactSizeIterator for BadExact {
        fn len(&self) -> usize {
            self.0
        }
    }
    assert!(GenericArray::<usize, 5>::try_from_iter(BadExact(5)).is_err());
}

#[test]
fn test_into_iter_as_slice() {
    let array = GenericArray::from_array(['a', 'b', 'c']);
    let mut into_iter = array.into_iter();
    assert_eq!(into_iter.as_slice(), &['a', 'b', 'c']);
    let _ = into_iter.next().unwrap();
    assert_eq!(into_iter.as_slice(), &['b', 'c']);
    let _ = into_iter.next().unwrap();
    let _ = into_iter.next().unwrap();
    assert_eq!(into_iter.as_slice(), &[] as &[char]);
}

#[test]
fn test_into_iter_nth() {
    let v = GenericArray::from_array([0, 1, 2, 3, 4]);
    for i in 0..v.as_slice().len() {
        assert_eq!(v.clone().into_iter().nth(i).unwrap(), v.as_slice()[i]);
    }
    assert_eq!(v.clone().into_iter().nth(v.as_slice().len()), None);

    let mut iter = v.clone().into_iter();
    assert_eq!(iter.nth(2).unwrap(), v.as_slice()[2]);
    assert_eq!(iter.nth(1).unwrap(), v.as_slice()[4]);
}

#[test]
fn test_into_iter_nth_back() {
    let v = GenericArray::from_array([0, 1, 2, 3, 4]);

    for i in 0..v.as_slice().len() {
        assert_eq!(
            v.clone().into_iter().nth_back(i).unwrap(),
            v.as_slice()[v.as_slice().len() - i - 1]
        );
    }
    assert_eq!(v.clone().into_iter().nth_back(v.as_slice().len()), None);

    let mut iter = v.clone().into_iter();
    assert_eq!(iter.nth_back(2).unwrap(), v.as_slice()[2]);
    assert_eq!(iter.nth_back(1).unwrap(), v.as_slice()[0]);
}

#[test]
fn test_into_iter_last() {
    let v = GenericArray::from_array([0, 1, 2, 3, 4]);
    assert_eq!(v.into_iter().last().unwrap(), 4);
    assert_eq!(GenericArray::from_array([0]).into_iter().last().unwrap(), 0);
}

#[test]
fn test_into_iter_count() {
    let v = GenericArray::from_array([0, 1, 2, 3, 4]);
    assert_eq!(v.clone().into_iter().count(), 5);

    let mut iter2 = v.into_iter();
    iter2.next();
    iter2.next();
    assert_eq!(iter2.count(), 3);
}

#[test]
fn test_into_iter_flat_map() {
    assert!((0..5)
        .flat_map(|i| GenericArray::from_array([2 * i, 2 * i + 1]).into_vec())
        .eq(0..10));
}

#[test]
fn test_into_iter_fold() {
    assert_eq!(
        GenericArray::from_array([1, 2, 3, 4])
            .into_iter()
            .fold(0, |sum, x| sum + x),
        10
    );

    let mut iter = GenericArray::from_array([0, 1, 2, 3, 4, 5]).into_iter();

    iter.next();
    iter.next_back();

    assert_eq!(iter.clone().fold(0, |sum, x| sum + x), 10);

    assert_eq!(iter.rfold(0, |sum, x| sum + x), 10);
}

#[test]
fn test_into_iter_drops() {
    struct R<'a> {
        i: &'a Cell<usize>,
    }

    impl<'a> Drop for R<'a> {
        fn drop(&mut self) {
            self.i.set(self.i.get() + 1);
        }
    }

    fn r(i: &'_ Cell<usize>) -> R<'_> {
        R { i }
    }

    fn v(i: &'_ Cell<usize>) -> GenericArray<R<'_>, 5> {
        GenericArray::from_array([r(i), r(i), r(i), r(i), r(i)])
    }

    let i = Cell::new(0);
    {
        v(&i).into_iter();
    }
    assert_eq!(i.get(), 5);

    let i = Cell::new(0);
    {
        let mut iter = v(&i).into_iter();
        let _x = iter.next();
        assert_eq!(i.get(), 0);
        assert_eq!(iter.count(), 4);
        assert_eq!(i.get(), 4);
    }
    assert_eq!(i.get(), 5);

    let i = Cell::new(0);
    {
        let mut iter = v(&i).into_iter();
        let _x = iter.nth(2);
        assert_eq!(i.get(), 2);
        let _y = iter.last();
        assert_eq!(i.get(), 3);
    }
    assert_eq!(i.get(), 5);

    let i = Cell::new(0);
    {
        let mut iter = v(&i).into_iter();
        let _x = iter.nth_back(2);
        assert_eq!(i.get(), 2);
        let _y = iter.last();
        assert_eq!(i.get(), 3);
    }
    assert_eq!(i.get(), 5);

    let i = Cell::new(0);
    {
        let mut iter = v(&i).into_iter();
        let mut index = 0;
        while let Some(_x) = iter.next() {
            assert_eq!(i.get(), index);
            index += 1;
        }
        assert_eq!(index, 5);
    }
    assert_eq!(i.get(), 5);

    let i = Cell::new(0);
    {
        let mut iter = v(&i).into_iter();
        let mut index = 0;
        while let Some(_x) = iter.next_back() {
            assert_eq!(i.get(), index);
            index += 1;
        }
        assert_eq!(index, 5);
    }
    assert_eq!(i.get(), 5);
}

#[test]
fn test_send_iter() {
    fn send<I: Send>(_iter: I) {}

    send(GenericArray::from([1, 2, 3, 4]).into_iter());
}

#[test]
fn interleaved_exhaustion() {
    let v = GenericArray::from_array([10, 11, 12, 13, 14]);
    let mut iter = v.into_iter();
    assert_eq!(iter.as_slice(), &[10, 11, 12, 13, 14]);
    assert_eq!(iter.next(), Some(10));
    assert_eq!(iter.as_slice(), &[11, 12, 13, 14]);
    assert_eq!(iter.next_back(), Some(14));
    assert_eq!(iter.as_slice(), &[11, 12, 13]);
    assert_eq!(iter.next_back(), Some(13));
    assert_eq!(iter.next(), Some(11));
    assert_eq!(iter.as_slice(), &[12]);
    assert_eq!(iter.next(), Some(12));
    assert_eq!(iter.as_slice(), &[] as &[i32]);
    assert_eq!(iter.next(), None);
    assert_eq!(iter.next_back(), None);
    assert_eq!(iter.len(), 0);
}

#[test]
fn iter_clone_pending_only() {
    let v = GenericArray::from_array([1, 2, 3, 4]);
    let mut iter = v.into_iter();
    iter.next();
    iter.next_back();
    let copy = iter.clone();
    assert_eq!(copy.as_slice(), &[2, 3]);
    assert_eq!(iter.as_slice(), &[2, 3]);
}
