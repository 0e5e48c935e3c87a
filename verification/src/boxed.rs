//! Conversions between `GenericArray` and the heap-owned `Vec<T>`,
//! `Box<[T]>` and `Box<GenericArray<T, N>>` forms.
//!
//! Every fallible conversion succeeds exactly when the input holds `N`
//! elements, and returns a length-mismatch error otherwise.

use vstd::prelude::*;
use vstd::std_specs::iter::IteratorSpec;

use crate::{GenericArray, LengthError};

verus! {

/// Relies on `Vec::into_boxed_slice` of std: the boxed slice holds the
/// vector's elements in order.
#[verifier::external_body]
fn vec_into_boxed_slice<T>(v: Vec<T>) -> (r: Box<[T]>)
    ensures
        r@ == v@,
{
    v.into_boxed_slice()
}

impl<T, const N: usize> GenericArray<T, N> {
    /// Converts the array into a boxed slice holding the same elements in
    /// order.
    pub fn into_boxed_slice(self) -> (r: Box<[T]>)
        ensures
            r@ == self@,
            r@.len() == N,
    {
        vec_into_boxed_slice(self.into_vec())
    }

    /// Converts a boxed slice into a boxed array, or reports a length
    /// mismatch: the conversion succeeds exactly when the slice holds `N`
    /// elements.
    pub fn try_from_boxed_slice(slice: Box<[T]>) -> (r: Result<Box<Self>, LengthError>)
        ensures
            slice@.len() == N ==> (r matches Ok(b) && b@ == slice@),
            slice@.len() != N ==> r is Err,
    {
        let data = slice.into_vec();
        if data.len() == N {
            Ok(Box::new(GenericArray::from_vec(data)))
        } else {
            Err(LengthError)
        }
    }

    /// Converts a vector into a boxed array, or reports a length mismatch:
    /// the conversion succeeds exactly when the vector holds `N` elements.
    pub fn try_from_vec(vec: Vec<T>) -> (r: Result<Box<Self>, LengthError>)
        ensures
            vec@.len() == N ==> (r matches Ok(b) && b@ == vec@),
            vec@.len() != N ==> r is Err,
    {
        if vec.len() == N {
            Ok(Box::new(GenericArray::from_vec(vec)))
        } else {
            Err(LengthError)
        }
    }

    /// Builds a boxed array whose every element is a result of
    /// `T::default()`.
    pub fn default_boxed() -> (r: Box<Self>)
        where T: Default
        ensures
            r@.len() == N,
            forall|i: int| 0 <= i < N ==> call_ensures(T::default, (), #[trigger] r@[i]),
    {
        Box::new(Self::const_default())
    }

    /// Like [`GenericArray::try_from_iter`] but returns a boxed array: the
    /// conversion succeeds exactly when the iterator yields `N` elements.
    pub fn try_boxed_from_iter<I: Iterator<Item = T>>(iter: I) -> (r: Result<Box<Self>, LengthError>)
        ensures
            r matches Ok(b) ==> b@.len() == N,
            <I as IteratorSpec>::obeys_prophetic_iter_laws(&iter) ==> {
                let src = <I as IteratorSpec>::remaining(&iter);
                &&& src.len() == N ==> (r matches Ok(b) && b@ == src)
                &&& src.len() != N ==> r is Err
            },
    {
        match Self::try_from_iter(iter) {
            Ok(array) => Ok(Box::new(array)),
            Err(e) => Err(e),
        }
    }
}

} // verus!
