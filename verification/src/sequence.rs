//! Structural operations on `GenericArray`: growing or shrinking by one
//! element, splitting at a pivot, joining end to end, and deleting one
//! element.
//!
//! Every operation relates the lengths of its operands in its `requires`
//! clause, so the compile-time lengths of argument and result always agree,
//! and states in its `ensures` clause exactly which elements the result
//! holds and in which order.

use vstd::prelude::*;

use crate::GenericArray;

verus! {

impl<T, const N: usize> GenericArray<T, N> {
    /// Returns a new array, one element longer, with `last` appended to the
    /// end.
    pub fn append<const M: usize>(self, last: T) -> (r: GenericArray<T, M>)
        requires
            M == N + 1,
        ensures
            r@ == self@.push(last),
    {
        proof {
            use_type_invariant(&self);
        }
        let GenericArray { data } = self;
        let mut data = data;
        data.push(last);
        GenericArray::<T, M>::from_vec(data)
    }

    /// Returns a new array, one element longer, with `first` prepended to
    /// the front.
    pub fn prepend<const M: usize>(self, first: T) -> (r: GenericArray<T, M>)
        requires
            M == N + 1,
        ensures
            r@ == self@.insert(0, first),
    {
        proof {
            use_type_invariant(&self);
        }
        let GenericArray { data } = self;
        let mut data = data;
        data.insert(0, first);
        GenericArray::<T, M>::from_vec(data)
    }

    /// Returns the array without its last element, together with that last
    /// element.
    pub fn pop_back<const M: usize>(self) -> (r: (GenericArray<T, M>, T))
        requires
            N == M + 1,
        ensures
            r.0@ == self@.drop_last(),
            r.1 == self@.last(),
    {
        proof {
            use_type_invariant(&self);
        }
        let GenericArray { data } = self;
        let mut data = data;
        let last = data.pop().unwrap();
        (GenericArray::<T, M>::from_vec(data), last)
    }

    /// Returns the first element, together with the array without it.
    pub fn pop_front<const M: usize>(self) -> (r: (T, GenericArray<T, M>))
        requires
            N == M + 1,
        ensures
            r.0 == self@[0],
            r.1@ == self@.drop_first(),
    {
        proof {
            use_type_invariant(&self);
        }
        let GenericArray { data } = self;
        let mut data = data;
        let first = data.remove(0);
        proof {
            assert(data@ =~= self@.drop_first());
        }
        (first, GenericArray::<T, M>::from_vec(data))
    }

    /// Splits the array at the pivot `K`, returning the first `K` elements
    /// and the remaining `M` elements as two separate arrays.
    pub fn split<const K: usize, const M: usize>(self) -> (r: (GenericArray<T, K>, GenericArray<T, M>))
        requires
            K + M == N,
        ensures
            r.0@ == self@.take(K as int),
            r.1@ == self@.skip(K as int),
    {
        proof {
            use_type_invariant(&self);
        }
        let GenericArray { data } = self;
        let mut data = data;
        let tail = data.split_off(K);
        proof {
            assert(data@ =~= self@.take(K as int));
            assert(tail@ =~= self@.skip(K as int));
        }
        (GenericArray::<T, K>::from_vec(data), GenericArray::<T, M>::from_vec(tail))
    }

    /// Joins two arrays end to end, producing an array holding the elements
    /// of `self` followed by the elements of `rest`.
    pub fn concat<const M: usize, const S: usize>(self, rest: GenericArray<T, M>) -> (r: GenericArray<T, S>)
        requires
            N + M == S,
        ensures
            r@ == self@ + rest@,
    {
        proof {
            use_type_invariant(&self);
            use_type_invariant(&rest);
        }
        let GenericArray { data } = self;
        let GenericArray { data: rest_data } = rest;
        let mut data = data;
        let mut rest_data = rest_data;
        data.append(&mut rest_data);
        GenericArray::<T, S>::from_vec(data)
    }

    /// Removes the element at `idx`, shifting every later element one place
    /// to the left. Returns the removed element and the shortened array,
    /// which holds the remaining elements in their original relative order.
    pub fn remove<const M: usize>(self, idx: usize) -> (r: (T, GenericArray<T, M>))
        requires
            idx < N,
            N == M + 1,
        ensures
            r.0 == self@[idx as int],
            r.1@ == self@.remove(idx as int),
    {
        proof {
            use_type_invariant(&self);
        }
        let GenericArray { data } = self;
        let mut data = data;
        let removed = data.remove(idx);
        (removed, GenericArray::<T, M>::from_vec(data))
    }

    /// Removes the element at `idx` by swapping it with the last element.
    /// Returns the removed element and the shortened array, in which the
    /// former last element now stands at `idx`.
    pub fn swap_remove<const M: usize>(self, idx: usize) -> (r: (T, GenericArray<T, M>))
        requires
            idx < N,
            N == M + 1,
        ensures
            r.0 == self@[idx as int],
            r.1@ == self@.update(idx as int, self@.last()).drop_last(),
    {
        proof {
            use_type_invariant(&self);
        }
        let GenericArray { data } = self;
        let mut data = data;
        let removed = data.swap_remove(idx);
        proof {
            assert(data@ =~= self@.update(idx as int, self@.last()).drop_last());
        }
        (removed, GenericArray::<T, M>::from_vec(data))
    }
}

/// Splitting an array at a pivot and joining the two parts again reproduces
/// the original array exactly.
pub proof fn lemma_split_concat_round_trip<T, const N: usize, const K: usize, const M: usize>(
    whole: GenericArray<T, N>,
    head: GenericArray<T, K>,
    tail: GenericArray<T, M>,
    rejoined: GenericArray<T, N>,
)
    requires
        K + M == N,
        whole@.len() == N,
        head@ == whole@.take(K as int),
        tail@ == whole@.skip(K as int),
        rejoined@ == head@ + tail@,
    ensures
        rejoined@ == whole@,
{
    assert(head@ + tail@ =~= whole@);
}

} // verus!
