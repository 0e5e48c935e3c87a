//! A fixed-length, contiguous sequence container whose length is a
//! compile-time constant, together with verified primitives that construct,
//! transform and consume such containers element by element.
//!
//! The container behaves like a native array `[T; N]`: it always holds
//! exactly `N` elements, conversions with slices and native arrays are
//! length-checked, and every operation states in its contract exactly which
//! elements the result holds.

use vstd::prelude::*;
use vstd::slice::slice_to_vec;
use vstd::std_specs::iter::IteratorSpec;

pub mod boxed;
pub mod builder;
pub mod functional;
pub mod hex;
pub mod iter;
pub mod peano;
pub mod sequence;

verus! {

/// Error returned by fallible conversions whose input length does not match
/// the compile-time length `N`.
#[derive(Debug, Clone, Copy, PartialEq, Eq)]
pub struct LengthError;

/// A sequence container holding exactly `N` elements of type `T`.
///
/// The view of a `GenericArray<T, N>` is a `Seq<T>` of length `N`.
#[derive(Debug, PartialEq, Eq, PartialOrd, Ord, Hash)]
pub struct GenericArray<T, const N: usize> {
    data: Vec<T>,
}

impl<T: Clone, const N: usize> Clone for GenericArray<T, N> {
    /// Clones the array element by element, in index order.
    fn clone(&self) -> (r: Self)
        ensures
            r@.len() == N,
            forall|i: int|
                0 <= i < N ==> vstd::pervasive::cloned::<T>(self@[i], #[trigger] r@[i]),
    {
        GenericArray::clone_from_slice(self.as_slice())
    }
}

impl<T, const N: usize> GenericArray<T, N> {
    #[verifier::type_invariant]
    spec fn length_invariant(self) -> bool {
        self.data@.len() == N
    }
}

impl<T, const N: usize> View for GenericArray<T, N> {
    type V = Seq<T>;

    closed spec fn view(&self) -> Seq<T> {
        self.data@
    }
}

/// Relies on `<[T; N] as Into<Vec<T>>>` of std: the vector holds the array's
/// elements in order.
#[verifier::external_body]
fn array_into_vec<T, const N: usize>(value: [T; N]) -> (r: Vec<T>)
    ensures
        r@ == value@,
{
    value.into()
}

/// Relies on `<[T; N] as TryFrom<Vec<T>>>` of std: a vector of length `N`
/// converts into the array of its elements in order.
#[verifier::external_body]
fn vec_into_array<T, const N: usize>(value: Vec<T>) -> (r: [T; N])
    requires
        value@.len() == N,
    ensures
        r@ == value@,
{
    value.try_into().ok().unwrap()
}

/// Relies on `core::mem::replace` of std: the new value takes the place of
/// the element at index `i`, and the previous element is handed back. No
/// element is dropped, so the call cannot unwind.
#[verifier::external_body]
fn vec_replace<T>(v: &mut Vec<T>, i: usize, value: T) -> (r: T)
    requires
        i < old(v)@.len(),
    ensures
        (*final(v))@ == old(v)@.update(i as int, value),
        r == old(v)@[i as int],
    no_unwind
{
    core::mem::replace(&mut v[i], value)
}

impl<T, const N: usize> GenericArray<T, N> {
    /// Returns the number of elements in the array, which is always `N`.
    pub fn len() -> (r: usize)
        ensures
            r == N,
    {
        N
    }

    /// Extracts a slice containing the entire array.
    pub fn as_slice(&self) -> (r: &[T])
        ensures
            r@ == self@,
            r@.len() == N,
    {
        proof {
            use_type_invariant(self);
        }
        self.data.as_slice()
    }

    /// Returns a reference to the element at index `i`.
    pub fn get(&self, i: usize) -> (r: &T)
        requires
            i < N,
        ensures
            *r == self@[i as int],
    {
        proof {
            use_type_invariant(self);
        }
        &self.data[i]
    }

    /// Replaces the element at index `i` with `value`, returning the
    /// element that stood there before; every other element is unchanged.
    pub fn replace(&mut self, i: usize, value: T) -> (r: T)
        requires
            i < N,
        ensures
            (*final(self))@ == old(self)@.update(i as int, value),
            r == old(self)@[i as int],
    {
        proof {
            use_type_invariant(&*self);
        }
        vec_replace(&mut self.data, i, value)
    }

    /// Converts a native array into a `GenericArray` of the same length,
    /// preserving every element.
    pub fn from_array(value: [T; N]) -> (r: Self)
        ensures
            r@ == value@,
            r@.len() == N,
    {
        GenericArray { data: array_into_vec(value) }
    }

    /// Converts the `GenericArray` into a native array of the same length,
    /// preserving every element.
    pub fn into_array(self) -> (r: [T; N])
        ensures
            r@ == self@,
    {
        proof {
            use_type_invariant(&self);
        }
        let GenericArray { data } = self;
        vec_into_array(data)
    }

    /// Builds a `GenericArray` by moving the elements out of a vector whose
    /// length equals `N`.
    pub fn from_vec(data: Vec<T>) -> (r: Self)
        requires
            data@.len() == N,
        ensures
            r@ == data@,
    {
        GenericArray { data }
    }

    /// Moves the elements of the array into a vector, in order.
    pub fn into_vec(self) -> (r: Vec<T>)
        ensures
            r@ == self@,
            r@.len() == N,
    {
        proof {
            use_type_invariant(&self);
        }
        let GenericArray { data } = self;
        data
    }

    /// Copies a slice whose length equals `N` into a new `GenericArray`.
    pub fn from_slice(slice: &[T]) -> (r: Self)
        where T: Copy
        requires
            slice@.len() == N,
        ensures
            r@ == slice@,
    {
        GenericArray { data: slice_to_vec(slice) }
    }

    /// Copies a slice into a new `GenericArray`, or reports a length
    /// mismatch: the conversion succeeds exactly when the slice holds `N`
    /// elements.
    pub fn try_from_slice(slice: &[T]) -> (r: Result<Self, LengthError>)
        where T: Copy
        ensures
            slice@.len() == N ==> (r matches Ok(a) && a@ == slice@),
            slice@.len() != N ==> r == Err::<Self, LengthError>(LengthError),
    {
        if slice.len() == N {
            Ok(GenericArray { data: slice_to_vec(slice) })
        } else {
            Err(LengthError)
        }
    }

    /// Copies a mutable slice whose length equals `N` into a new
    /// `GenericArray`; the slice itself is left unchanged.
    pub fn from_mut_slice(slice: &mut [T]) -> (r: Self)
        where T: Copy
        requires
            old(slice)@.len() == N,
        ensures
            (*final(slice))@ == old(slice)@,
            r@ == old(slice)@,
    {
        GenericArray { data: slice_to_vec(slice) }
    }

    /// Copies a mutable slice into a new `GenericArray`, or reports a length
    /// mismatch; the slice itself is left unchanged.
    pub fn try_from_mut_slice(slice: &mut [T]) -> (r: Result<Self, LengthError>)
        where T: Copy
        ensures
            (*final(slice))@ == old(slice)@,
            old(slice)@.len() == N ==> (r matches Ok(a) && a@ == old(slice)@),
            old(slice)@.len() != N ==> r == Err::<Self, LengthError>(LengthError),
    {
        if slice.len() == N {
            Ok(GenericArray { data: slice_to_vec(slice) })
        } else {
            Err(LengthError)
        }
    }

    /// Clones a slice whose length equals `N` into a new `GenericArray`.
    ///
    /// Each element of the result is a clone of the element at the same
    /// index of the slice.
    pub fn clone_from_slice(slice: &[T]) -> (r: Self)
        where T: Clone
        requires
            slice@.len() == N,
        ensures
            r@.len() == N,
            forall|i: int| 0 <= i < N ==> vstd::pervasive::cloned::<T>(slice@[i], #[trigger] r@[i]),
    {
        let mut data: Vec<T> = Vec::new();
        for i in 0..N
            invariant
                slice@.len() == N,
                data@.len() == i,
                forall|j: int| 0 <= j < i ==> vstd::pervasive::cloned::<T>(slice@[j], #[trigger] data@[j]),
            decreases N - i,
        {
            data.push(slice[i].clone());
        }
        GenericArray { data }
    }

    /// Clones a slice whose length equals `N` into a new `GenericArray`,
    /// element by element in index order.
    pub fn new_list(list: &[T]) -> (r: Self)
        where T: Clone
        requires
            list@.len() == N,
        ensures
            r@.len() == N,
            forall|i: int| 0 <= i < N ==> vstd::pervasive::cloned::<T>(list@[i], #[trigger] r@[i]),
    {
        Self::clone_from_slice(list)
    }

    /// Builds an array from an iterator, or reports a length mismatch: the
    /// conversion succeeds exactly when the iterator yields `N` elements,
    /// and the array then holds those elements in order. No partial array
    /// is ever handed out.
    pub fn try_from_iter<I: Iterator<Item = T>>(iter: I) -> (r: Result<Self, LengthError>)
        ensures
            r matches Ok(a) ==> a@.len() == N,
            <I as IteratorSpec>::obeys_prophetic_iter_laws(&iter) ==> {
                let src = <I as IteratorSpec>::remaining(&iter);
                &&& src.len() == N ==> (r matches Ok(a) && a@ == src)
                &&& src.len() != N ==> r == Err::<Self, LengthError>(LengthError)
            },
    {
        broadcast use lemma_empty_add_take;

        let mut it = iter;
        let mut builder = crate::builder::ArrayBuilder::<T, N>::new();
        builder.extend(&mut it);
        if !builder.is_full() {
            return Err(LengthError);
        }
        match I::next(&mut it) {
            Some(_) => Err(LengthError),
            None => Ok(builder.assume_init()),
        }
    }
}

impl<T: Copy, const N: usize> GenericArray<T, N> {
    /// Copies a slice into as many `N`-element chunks as fit, in order,
    /// returning the chunks and the elements left over after the last full
    /// chunk. A zero-length chunk can only partition the empty slice.
    pub fn chunks_from_slice(slice: &[T]) -> (r: (Vec<GenericArray<T, N>>, Vec<T>))
        requires
            N > 0 || slice@.len() == 0,
        ensures
            N > 0 ==> {
                &&& r.0@.len() * N <= slice@.len() < (r.0@.len() + 1) * N
                &&& forall|k: int|
                    0 <= k < r.0@.len() ==> (#[trigger] r.0@[k])@ == slice@.subrange(
                        k * N,
                        k * N + N,
                    )
                &&& r.1@ == slice@.skip(r.0@.len() * N)
            },
            N == 0 ==> r.0@.len() == 0 && r.1@.len() == 0,
    {
        if N == 0 {
            return (Vec::new(), Vec::new());
        }
        let mut chunks: Vec<GenericArray<T, N>> = Vec::new();
        let mut start: usize = 0;
        proof {
            assert(chunks@.len() * N == 0) by (nonlinear_arith)
                requires chunks@.len() == 0;
        }
        while N <= slice.len() && start <= slice.len() - N
            invariant
                N > 0,
                start == chunks@.len() * N,
                start <= slice@.len(),
                forall|k: int|
                    0 <= k < chunks@.len() ==> (#[trigger] chunks@[k])@ == slice@.subrange(
                        k * N,
                        k * N + N,
                    ),
            decreases slice@.len() - start,
        {
            proof {
                assert((chunks@.len() + 1) * N == chunks@.len() * N + N) by (nonlinear_arith);
            }
            let chunk = GenericArray::<T, N>::from_slice(
                vstd::slice::slice_subrange(slice, start, start + N),
            );
            chunks.push(chunk);
            start = start + N;
        }
        proof {
            assert((chunks@.len() + 1) * N == chunks@.len() * N + N) by (nonlinear_arith);
        }
        let rest = slice_to_vec(vstd::slice::slice_subrange(slice, start, slice.len()));
        proof {
            assert(rest@ =~= slice@.skip(chunks@.len() * N));
        }
        (chunks, rest)
    }

    /// Flattens a vector of `N`-element chunks into one vector holding the
    /// chunks' elements end to end, in order.
    pub fn slice_from_chunks(chunks: &Vec<GenericArray<T, N>>) -> (r: Vec<T>)
        requires
            chunks@.len() * N <= usize::MAX,
        ensures
            r@.len() == chunks@.len() * N,
            forall|k: int|
                0 <= k < chunks@.len() ==> r@.subrange(k * N, k * N + N) == (
                #[trigger] chunks@[k])@,
    {
        let mut out: Vec<T> = Vec::new();
        let n = chunks.len();
        proof {
            assert(out@.len() == 0 * N) by (nonlinear_arith)
                requires out@.len() == 0;
        }
        for k in 0..n
            invariant
                n == chunks@.len(),
                n * N <= usize::MAX,
                out@.len() == k * N,
                forall|j: int|
                    0 <= j < k ==> out@.subrange(j * N, j * N + N) == (#[trigger] chunks@[j])@,
            decreases n - k,
        {
            proof {
                assert((k + 1) * N == k * N + N) by (nonlinear_arith);
                assert(k * N + N <= n * N) by (nonlinear_arith)
                    requires k + 1 <= n, N >= 0, k >= 0;
            }
            let ghost base = out@;
            let chunk_slice = chunks[k].as_slice();
            for j in 0..N
                invariant
                    chunk_slice@.len() == N,
                    base.len() + N <= usize::MAX,
                    out@ == base + chunk_slice@.take(j as int),
                decreases N - j,
            {
                out.push(chunk_slice[j]);
                proof {
                    assert(out@ =~= base + chunk_slice@.take(j as int + 1));
                }
            }
            proof {
                assert(out@ =~= base + chunk_slice@);
                assert(out@.subrange(k * N, k * N + N) =~= (chunks@[k as int])@);
                assert forall|j: int| 0 <= j < k implies out@.subrange(j * N, j * N + N) == (
                #[trigger] chunks@[j])@ by {
                    assert(j * N + N <= k * N) by (nonlinear_arith)
                        requires j + 1 <= k, N >= 0, j >= 0;
                    assert(out@.subrange(j * N, j * N + N) =~= base.subrange(j * N, j * N + N));
                }
            }
        }
        out
    }
}

impl<T, const N: usize> From<[T; N]> for GenericArray<T, N> {
    /// Converts a native array, preserving every element in order.
    fn from(value: [T; N]) -> (r: Self)
        ensures
            r@ == value@,
    {
        GenericArray::from_array(value)
    }
}

impl<T, const N: usize> vstd::std_specs::convert::FromSpecImpl<[T; N]> for GenericArray<T, N> {
    open spec fn obeys_from_spec() -> bool {
        false
    }

    open spec fn from_spec(value: [T; N]) -> Self {
        vstd::pervasive::arbitrary()
    }
}

impl<T, const N: usize> From<GenericArray<T, N>> for [T; N] {
    /// Converts back into a native array, preserving every element in
    /// order.
    fn from(value: GenericArray<T, N>) -> (r: Self)
        ensures
            r@ == value@,
    {
        value.into_array()
    }
}

impl<T, const N: usize> vstd::std_specs::convert::FromSpecImpl<GenericArray<T, N>> for [T; N] {
    open spec fn obeys_from_spec() -> bool {
        false
    }

    open spec fn from_spec(value: GenericArray<T, N>) -> Self {
        vstd::pervasive::arbitrary()
    }
}

/// Prepending the empty sequence to a prefix leaves the prefix itself, and
/// the prefix of the whole length is the whole sequence.
broadcast proof fn lemma_empty_add_take<T>(s: Seq<T>, n: int)
    requires
        0 <= n <= s.len(),
    ensures
        #[trigger] (Seq::<T>::empty() + s.take(n)) == s.take(n),
        n == s.len() ==> s.take(n) == s,
{
    assert(Seq::<T>::empty() + s.take(n) =~= s.take(n));
    if n == s.len() {
        assert(s.take(n) =~= s);
    }
}

/// The round trip through a native array: converting an array into a
/// `GenericArray` and back reproduces the original array exactly, element
/// for element.
pub proof fn lemma_array_round_trip<T, const N: usize>(
    value: [T; N],
    mid: GenericArray<T, N>,
    back: [T; N],
)
    requires
        mid@ == value@,
        back@ == mid@,
    ensures
        back@ == value@,
        forall|i: int| 0 <= i < N ==> back@[i] == value@[i],
{
}

} // verus!

