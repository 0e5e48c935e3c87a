//! Cursor-tracked helpers for building a `GenericArray` one element at a
//! time and for consuming one by moving its elements out one at a time.
//!
//! A builder owns the prefix of elements written so far; dropping a builder
//! before it is full drops exactly that prefix. A consumer owns the suffix
//! of elements not yet taken; dropping a consumer early drops exactly that
//! suffix. Finishing a builder is only allowed once all `N` elements have
//! been written, which its `requires` clause enforces.

use vstd::prelude::*;
use vstd::std_specs::iter::IteratorSpec;

use crate::GenericArray;

verus! {

/// An owning builder: elements are written one at a time, and the finished
/// array is taken out of the builder itself.
///
/// The view of a builder is the sequence of elements written so far.
pub struct ArrayBuilder<T, const N: usize> {
    data: Vec<T>,
}

impl<T, const N: usize> ArrayBuilder<T, N> {
    #[verifier::type_invariant]
    spec fn cursor_invariant(self) -> bool {
        self.data@.len() <= N
    }
}

impl<T, const N: usize> View for ArrayBuilder<T, N> {
    type V = Seq<T>;

    closed spec fn view(&self) -> Seq<T> {
        self.data@
    }
}

impl<T, const N: usize> ArrayBuilder<T, N> {
    /// Begin building an array: no element has been written yet.
    pub fn new() -> (r: Self)
        ensures
            r@ == Seq::<T>::empty(),
    {
        ArrayBuilder { data: Vec::new() }
    }

    /// Writes the next element, advancing the cursor by one.
    pub fn push(&mut self, value: T)
        requires
            old(self)@.len() < N,
        ensures
            final(self)@ == old(self)@.push(value),
    {
        proof {
            use_type_invariant(&*self);
        }
        let mut data: Vec<T> = Vec::new();
        core::mem::swap(&mut data, &mut self.data);
        data.push(value);
        self.data = data;
    }

    /// Returns true when the write cursor equals the array size.
    pub fn is_full(&self) -> (r: bool)
        ensures
            r == (self@.len() == N),
    {
        proof {
            use_type_invariant(self);
        }
        self.data.len() == N
    }

    /// Consumes elements from `source` until the builder is full or the
    /// iterator is exhausted, whichever comes first.
    pub fn extend<I: Iterator<Item = T>>(&mut self, source: &mut I)
        ensures
            old(self)@.len() <= final(self)@.len() <= N,
            old(self)@.is_prefix_of(final(self)@),
            <I as IteratorSpec>::obeys_prophetic_iter_laws(final(source))
                == <I as IteratorSpec>::obeys_prophetic_iter_laws(old(source)),
            <I as IteratorSpec>::obeys_prophetic_iter_laws(old(source)) ==> {
                let k = vstd::math::min(
                    N - old(self)@.len(),
                    <I as IteratorSpec>::remaining(old(source)).len() as int,
                );
                &&& final(self)@ == old(self)@ + <I as IteratorSpec>::remaining(old(source)).take(k)
                &&& <I as IteratorSpec>::remaining(final(source))
                    == <I as IteratorSpec>::remaining(old(source)).skip(k)
                &&& final(self)@.len() < N
                    ==> <I as IteratorSpec>::remaining(final(source)).len() == 0
            },
    {
        proof {
            use_type_invariant(&*self);
        }
        let ghost base = self@;
        loop
            invariant
                base == old(self)@,
                base.len() <= self@.len() <= N,
                base.is_prefix_of(self@),
                <I as IteratorSpec>::obeys_prophetic_iter_laws(source)
                    == <I as IteratorSpec>::obeys_prophetic_iter_laws(old(source)),
                <I as IteratorSpec>::obeys_prophetic_iter_laws(old(source)) ==> {
                    let taken = self@.len() - base.len();
                    let rem0 = <I as IteratorSpec>::remaining(old(source));
                    &&& <I as IteratorSpec>::obeys_prophetic_iter_laws(source)
                    &&& taken <= rem0.len()
                    &&& self@ == base + rem0.take(taken)
                    &&& <I as IteratorSpec>::remaining(source) == rem0.skip(taken)
                },
            ensures
                self@.len() == N || (<I as IteratorSpec>::obeys_prophetic_iter_laws(old(source))
                    ==> <I as IteratorSpec>::remaining(source).len() == 0),
            decreases N - self@.len(),
        {
            if self.data.len() == N {
                break;
            }
            let ghost taken_before: int = self@.len() - base.len();
            match I::next(source) {
                Some(value) => {
                    let mut data: Vec<T> = Vec::new();
                    core::mem::swap(&mut data, &mut self.data);
                    data.push(value);
                    self.data = data;
                    proof {
                        if <I as IteratorSpec>::obeys_prophetic_iter_laws(old(source)) {
                            let rem0 = <I as IteratorSpec>::remaining(old(source));
                            assert(rem0.skip(taken_before)[0] == rem0[taken_before]);
                            assert(self@ =~= base + rem0.take(taken_before + 1));
                            assert(<I as IteratorSpec>::remaining(source)
                                =~= rem0.skip(taken_before + 1));
                        }
                    }
                },
                None => {
                    break;
                },
            }
        }
        proof {
            if <I as IteratorSpec>::obeys_prophetic_iter_laws(old(source)) {
                let rem0 = <I as IteratorSpec>::remaining(old(source));
                let taken = self@.len() - base.len();
                let k = vstd::math::min(N - base.len(), rem0.len() as int);
                if self@.len() == N {
                    assert(taken == k);
                } else {
                    assert(rem0.skip(taken).len() == 0);
                    assert(taken == k);
                }
                assert(self@ == base + rem0.take(k));
            }
        }
    }

    /// When all `N` elements have been written, returns the finished array.
    pub fn assume_init(self) -> (r: GenericArray<T, N>)
        requires
            self@.len() == N,
        ensures
            r@ == self@,
    {
        let ArrayBuilder { data } = self;
        GenericArray::from_vec(data)
    }
}

/// A staged builder over storage reserved up front: elements are written one
/// at a time, `finish` checks the cursor and hands the storage back as the
/// finished array.
///
/// The view of the builder is the sequence of elements written so far.
pub struct IntrusiveArrayBuilder<T, const N: usize> {
    inner: ArrayBuilder<T, N>,
}

impl<T, const N: usize> View for IntrusiveArrayBuilder<T, N> {
    type V = Seq<T>;

    closed spec fn view(&self) -> Seq<T> {
        self.inner@
    }
}

impl<T, const N: usize> IntrusiveArrayBuilder<T, N> {
    /// Begin building an array: no element has been written yet.
    pub fn new() -> (r: Self)
        ensures
            r@ == Seq::<T>::empty(),
    {
        IntrusiveArrayBuilder { inner: ArrayBuilder::new() }
    }

    /// Writes the next element, advancing the cursor by one.
    pub fn push(&mut self, value: T)
        requires
            old(self)@.len() < N,
        ensures
            final(self)@ == old(self)@.push(value),
    {
        self.inner.push(value);
    }

    /// Returns true when the write cursor equals the array size.
    pub fn is_full(&self) -> (r: bool)
        ensures
            r == (self@.len() == N),
    {
        self.inner.is_full()
    }

    /// Consumes elements from `source` until the builder is full or the
    /// iterator is exhausted, whichever comes first.
    pub fn extend<I: Iterator<Item = T>>(&mut self, source: &mut I)
        ensures
            old(self)@.len() <= final(self)@.len() <= N,
            old(self)@.is_prefix_of(final(self)@),
            <I as IteratorSpec>::obeys_prophetic_iter_laws(final(source))
                == <I as IteratorSpec>::obeys_prophetic_iter_laws(old(source)),
            <I as IteratorSpec>::obeys_prophetic_iter_laws(old(source)) ==> {
                let k = vstd::math::min(
                    N - old(self)@.len(),
                    <I as IteratorSpec>::remaining(old(source)).len() as int,
                );
                &&& final(self)@ == old(self)@ + <I as IteratorSpec>::remaining(old(source)).take(k)
                &&& <I as IteratorSpec>::remaining(final(source))
                    == <I as IteratorSpec>::remaining(old(source)).skip(k)
                &&& final(self)@.len() < N
                    ==> <I as IteratorSpec>::remaining(final(source)).len() == 0
            },
    {
        self.inner.extend(source);
    }

    /// When all `N` elements have been written, returns the finished array.
    pub fn finish(self) -> (r: GenericArray<T, N>)
        requires
            self@.len() == N,
        ensures
            r@ == self@,
    {
        let IntrusiveArrayBuilder { inner } = self;
        inner.assume_init()
    }
}

/// Consumes a `GenericArray` one element at a time, by move, front to back.
///
/// The view of a consumer is the suffix of elements not yet taken.
pub struct ArrayConsumer<T, const N: usize> {
    remaining: Vec<T>,
}

impl<T, const N: usize> ArrayConsumer<T, N> {
    #[verifier::type_invariant]
    spec fn cursor_invariant(self) -> bool {
        self.remaining@.len() <= N
    }
}

impl<T, const N: usize> View for ArrayConsumer<T, N> {
    type V = Seq<T>;

    closed spec fn view(&self) -> Seq<T> {
        self.remaining@
    }
}

impl<T, const N: usize> ArrayConsumer<T, N> {
    /// Takes ownership of the array; every element is still to be handed
    /// out.
    pub fn new(array: GenericArray<T, N>) -> (r: Self)
        ensures
            r@ == array@,
    {
        proof {
            use_type_invariant(&array);
        }
        ArrayConsumer { remaining: array.into_vec() }
    }

    /// Moves the next element out, or returns `None` when every element has
    /// been handed out.
    pub fn next(&mut self) -> (r: Option<T>)
        ensures
            old(self)@.len() > 0 ==> {
                &&& r == Some(old(self)@[0])
                &&& final(self)@ == old(self)@.drop_first()
            },
            old(self)@.len() == 0 ==> {
                &&& r is None
                &&& final(self)@ == old(self)@
            },
    {
        proof {
            use_type_invariant(&*self);
        }
        if self.remaining.len() > 0 {
            let mut data: Vec<T> = Vec::new();
            core::mem::swap(&mut data, &mut self.remaining);
            let value = data.remove(0);
            self.remaining = data;
            proof {
                assert(self.remaining@ =~= old(self)@.drop_first());
            }
            Some(value)
        } else {
            None
        }
    }
}

/// A builder variant whose write cursor advances by consuming and returning
/// the builder itself, so that a full array is assembled as one chain of
/// calls.
///
/// The view of the builder is the sequence of elements written so far.
pub struct RecursiveArrayBuilder<T, const N: usize> {
    inner: ArrayBuilder<T, N>,
}

impl<T, const N: usize> View for RecursiveArrayBuilder<T, N> {
    type V = Seq<T>;

    closed spec fn view(&self) -> Seq<T> {
        self.inner@
    }
}

impl<T, const N: usize> RecursiveArrayBuilder<T, N> {
    /// Creates a new builder that starts at the first element.
    pub fn new() -> (r: Self)
        ensures
            r@ == Seq::<T>::empty(),
    {
        RecursiveArrayBuilder { inner: ArrayBuilder::new() }
    }

    /// Applies the generator function for the current element and returns a
    /// builder for the next element.
    pub fn next<F: Fn() -> T>(self, f: F) -> (r: Self)
        requires
            self@.len() < N,
            call_requires(f, ()),
        ensures
            r@.len() == self@.len() + 1,
            r@.drop_last() == self@,
            call_ensures(f, (), r@.last()),
    {
        let RecursiveArrayBuilder { inner } = self;
        let mut inner = inner;
        let value = f();
        inner.push(value);
        proof {
            assert(inner@.drop_last() =~= self@);
        }
        RecursiveArrayBuilder { inner }
    }

    /// Returns the finished array; every element must have been written.
    pub fn finish(self) -> (r: GenericArray<T, N>)
        requires
            self@.len() == N,
        ensures
            r@ == self@,
    {
        let RecursiveArrayBuilder { inner } = self;
        inner.assume_init()
    }

    /// Maps an array by reference into a new array: the element at each
    /// index of the result is a result of `f` applied to a reference to the
    /// element at the same index of the source.
    pub fn map_ref<U, F: Fn(&U) -> T>(source: &GenericArray<U, N>, f: F) -> (r: GenericArray<T, N>)
        requires
            forall|i: int| 0 <= i < N ==> #[trigger] call_requires(f, (&source@[i],)),
        ensures
            r@.len() == N,
            forall|i: int| 0 <= i < N ==> call_ensures(f, (&source@[i],), #[trigger] r@[i]),
    {
        let slice = source.as_slice();
        let mut inner = ArrayBuilder::<T, N>::new();
        for i in 0..N
            invariant
                slice@ == source@,
                slice@.len() == N,
                inner@.len() == i,
                forall|j: int| 0 <= j < N ==> #[trigger] call_requires(f, (&source@[j],)),
                forall|j: int| 0 <= j < i ==> call_ensures(f, (&source@[j],), #[trigger] inner@[j]),
            decreases N - i,
        {
            let value = f(&slice[i]);
            inner.push(value);
        }
        inner.assume_init()
    }

    /// Combines two arrays by reference into a new array: the element at
    /// each index of the result is a result of `f` applied to references to
    /// the two elements at that index.
    pub fn zip_ref<A, B, F: Fn(&A, &B) -> T>(
        lhs: &GenericArray<A, N>,
        rhs: &GenericArray<B, N>,
        f: F,
    ) -> (r: GenericArray<T, N>)
        requires
            forall|i: int| 0 <= i < N ==> #[trigger] call_requires(f, (&lhs@[i], &rhs@[i])),
        ensures
            r@.len() == N,
            forall|i: int| 0 <= i < N ==> call_ensures(f, (&lhs@[i], &rhs@[i]), #[trigger] r@[i]),
    {
        let lhs_slice = lhs.as_slice();
        let rhs_slice = rhs.as_slice();
        let mut inner = ArrayBuilder::<T, N>::new();
        for i in 0..N
            invariant
                lhs_slice@ == lhs@,
                rhs_slice@ == rhs@,
                lhs_slice@.len() == N,
                rhs_slice@.len() == N,
                inner@.len() == i,
                forall|j: int| 0 <= j < N ==> #[trigger] call_requires(f, (&lhs@[j], &rhs@[j])),
                forall|j: int|
                    0 <= j < i ==> call_ensures(f, (&lhs@[j], &rhs@[j]), #[trigger] inner@[j]),
            decreases N - i,
        {
            let value = f(&lhs_slice[i], &rhs_slice[i]);
            inner.push(value);
        }
        inner.assume_init()
    }
}

} // verus!
