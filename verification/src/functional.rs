//! Element-wise construction and traversal of `GenericArray`: `generate`,
//! `map`, `zip` and `fold`.
//!
//! These four operations are the sanctioned ways to produce or traverse an
//! array generically over its length; the higher-level conveniences (such as
//! `Default`) are defined in terms of them. Each is implemented with the
//! cursor-tracked builders and consumers, so that at every instant the
//! positions of source and destination agree.

use vstd::prelude::*;

use crate::GenericArray;
use crate::builder::{ArrayBuilder, ArrayConsumer};

verus! {

/// Holds when `accs` is the chain of accumulator values of a fold of `f`
/// over `elems` starting from `init` and ending in `r`: `accs` starts at
/// `init`, each step is a possible result of `f` applied to the previous
/// accumulator and the next element, and `r` is the final accumulator.
pub open spec fn is_fold_chain<T, U, F: Fn(U, T) -> U>(
    f: F,
    elems: Seq<T>,
    init: U,
    accs: Seq<U>,
    r: U,
) -> bool {
    &&& accs.len() == elems.len() + 1
    &&& accs[0] == init
    &&& r == accs[elems.len() as int]
    &&& forall|i: int|
        0 <= i < elems.len() ==> call_ensures(f, (#[trigger] accs[i], elems[i]), accs[i + 1])
}

impl<T, const N: usize> GenericArray<T, N> {
    /// Builds an array by calling `f(index)` for each index `0..N` in
    /// order, writing each element into the array as it is produced.
    pub fn generate<F: Fn(usize) -> T>(f: F) -> (r: Self)
        requires
            forall|i: usize| i < N ==> call_requires(f, (i,)),
        ensures
            r@.len() == N,
            forall|i: int| 0 <= i < N ==> call_ensures(f, (i as usize,), #[trigger] r@[i]),
    {
        let mut builder = ArrayBuilder::<T, N>::new();
        for i in 0..N
            invariant
                builder@.len() == i,
                forall|j: usize| j < N ==> call_requires(f, (j,)),
                forall|j: int| 0 <= j < i ==> call_ensures(f, (j as usize,), #[trigger] builder@[j]),
            decreases N - i,
        {
            let value = f(i);
            builder.push(value);
        }
        builder.assume_init()
    }

    /// Maps the array element by element into a new array: the element at
    /// each index of the result is a result of `f` applied to the element
    /// at the same index of the source.
    pub fn map<U, F: Fn(T) -> U>(self, f: F) -> (r: GenericArray<U, N>)
        requires
            forall|i: int| 0 <= i < self@.len() ==> call_requires(f, (#[trigger] self@[i],)),
        ensures
            r@.len() == N,
            forall|i: int| 0 <= i < N ==> call_ensures(f, (self@[i],), #[trigger] r@[i]),
    {
        proof {
            use_type_invariant(&self);
        }
        let ghost orig = self@;
        let mut source = ArrayConsumer::new(self);
        let mut builder = ArrayBuilder::<U, N>::new();
        for i in 0..N
            invariant
                orig == self@,
                orig.len() == N,
                source@ == orig.skip(i as int),
                builder@.len() == i,
                forall|j: int| 0 <= j < N ==> call_requires(f, (#[trigger] orig[j],)),
                forall|j: int| 0 <= j < i ==> call_ensures(f, (orig[j],), #[trigger] builder@[j]),
            decreases N - i,
        {
            proof {
                assert(orig.skip(i as int)[0] == orig[i as int]);
            }
            let value = source.next().unwrap();
            let mapped = f(value);
            builder.push(mapped);
            proof {
                assert(source@ =~= orig.skip(i as int + 1));
            }
        }
        builder.assume_init()
    }

    /// Combines two arrays of the same length element by element: the
    /// element at each index of the result is a result of `f` applied to
    /// the two elements at that index.
    pub fn zip<B, U, F: Fn(T, B) -> U>(self, rhs: GenericArray<B, N>, f: F) -> (r: GenericArray<
        U,
        N,
    >)
        requires
            forall|i: int| 0 <= i < N ==> call_requires(f, (#[trigger] self@[i], rhs@[i])),
        ensures
            r@.len() == N,
            forall|i: int| 0 <= i < N ==> call_ensures(f, (self@[i], rhs@[i]), #[trigger] r@[i]),
    {
        proof {
            use_type_invariant(&self);
            use_type_invariant(&rhs);
        }
        let ghost lhs_elems = self@;
        let ghost rhs_elems = rhs@;
        let mut left = ArrayConsumer::new(self);
        let mut right = ArrayConsumer::new(rhs);
        let mut builder = ArrayBuilder::<U, N>::new();
        for i in 0..N
            invariant
                lhs_elems == self@,
                rhs_elems == rhs@,
                lhs_elems.len() == N,
                rhs_elems.len() == N,
                left@ == lhs_elems.skip(i as int),
                right@ == rhs_elems.skip(i as int),
                builder@.len() == i,
                forall|j: int| 0 <= j < N ==> call_requires(f, (#[trigger] lhs_elems[j], rhs_elems[j])),
                forall|j: int|
                    0 <= j < i ==> call_ensures(
                        f,
                        (lhs_elems[j], rhs_elems[j]),
                        #[trigger] builder@[j],
                    ),
            decreases N - i,
        {
            proof {
                assert(lhs_elems.skip(i as int)[0] == lhs_elems[i as int]);
                assert(rhs_elems.skip(i as int)[0] == rhs_elems[i as int]);
            }
            let left_value = left.next().unwrap();
            let right_value = right.next().unwrap();
            let combined = f(left_value, right_value);
            builder.push(combined);
            proof {
                assert(left@ =~= lhs_elems.skip(i as int + 1));
                assert(right@ =~= rhs_elems.skip(i as int + 1));
            }
        }
        builder.assume_init()
    }

    /// Folds the array into a single value, consuming the elements front to
    /// back: there is a chain of accumulator values that starts at `init`,
    /// steps through `f` once per element in order, and ends in the result.
    pub fn fold<U, F: Fn(U, T) -> U>(self, init: U, f: F) -> (r: U)
        requires
            forall|acc: U, i: int| 0 <= i < self@.len() ==> #[trigger] call_requires(f, (acc, self@[i])),
        ensures
            exists|accs: Seq<U>| #[trigger] is_fold_chain(f, self@, init, accs, r),
    {
        proof {
            use_type_invariant(&self);
        }
        let ghost orig = self@;
        let mut source = ArrayConsumer::new(self);
        let mut acc = init;
        let ghost mut accs: Seq<U> = seq![init];
        for i in 0..N
            invariant
                orig == self@,
                orig.len() == N,
                source@ == orig.skip(i as int),
                accs.len() == i + 1,
                accs[0] == init,
                acc == accs[i as int],
                forall|u: U, j: int| 0 <= j < N ==> #[trigger] call_requires(f, (u, orig[j])),
                forall|j: int|
                    0 <= j < i ==> call_ensures(f, (#[trigger] accs[j], orig[j]), accs[j + 1]),
            decreases N - i,
        {
            proof {
                assert(orig.skip(i as int)[0] == orig[i as int]);
            }
            let value = source.next().unwrap();
            acc = f(acc, value);
            proof {
                accs = accs.push(acc);
                assert(source@ =~= orig.skip(i as int + 1));
            }
        }
        proof {
            assert(is_fold_chain(f, orig, init, accs, acc));
        }
        acc
    }
}

impl<T: Default, const N: usize> Default for GenericArray<T, N> {
    /// Builds an array whose every element is a result of `T::default()`.
    fn default() -> (r: Self)
        ensures
            r@.len() == N,
            forall|i: int| 0 <= i < N ==> call_ensures(T::default, (), #[trigger] r@[i]),
    {
        let mut builder = ArrayBuilder::<T, N>::new();
        for i in 0..N
            invariant
                builder@.len() == i,
                forall|j: int| 0 <= j < i ==> call_ensures(T::default, (), #[trigger] builder@[j]),
            decreases N - i,
        {
            let value = T::default();
            builder.push(value);
        }
        builder.assume_init()
    }
}

impl<T: Default, const N: usize> GenericArray<T, N> {
    /// Builds the array of default values without going through the
    /// `Default` trait, for use where only the type alias is at hand.
    pub fn const_default() -> (r: Self)
        ensures
            r@.len() == N,
            forall|i: int| 0 <= i < N ==> call_ensures(T::default, (), #[trigger] r@[i]),
    {
        <Self as Default>::default()
    }
}

} // verus!
