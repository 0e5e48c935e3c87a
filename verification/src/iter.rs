//! A double-ended, by-value iterator over a `GenericArray`.
//!
//! The iterator keeps two cursors over its original elements: the half-open
//! range `[front, back)` denotes the elements not yet yielded. `next` yields
//! and advances the front cursor, `next_back` yields and retreats the back
//! cursor, and at all times the pending elements equal exactly the original
//! elements between the two cursors — so interleaving the two in any order
//! yields every element exactly once, each matching its original index.

use vstd::prelude::*;

use crate::GenericArray;
use crate::functional::is_fold_chain;

verus! {

/// An iterator that moves the elements out of a [`GenericArray`].
///
/// The view of the iterator is the sequence of elements still pending.
pub struct GenericArrayIter<T, const N: usize> {
    remaining: Vec<T>,
    index: usize,
    elems: Ghost<Seq<T>>,
}

impl<T, const N: usize> GenericArrayIter<T, N> {
    #[verifier::type_invariant]
    spec fn cursor_invariant(self) -> bool {
        &&& self.elems@.len() <= N
        &&& self.index + self.remaining@.len() <= self.elems@.len()
        &&& self.remaining@ == self.elems@.subrange(
            self.index as int,
            self.index + self.remaining@.len(),
        )
    }

    /// The elements the iterator was created over.
    pub closed spec fn elems(&self) -> Seq<T> {
        self.elems@
    }

    /// The front cursor: elements before it have been yielded by `next`.
    pub closed spec fn front(&self) -> int {
        self.index as int
    }

    /// The back cursor: elements at or after it have been yielded by
    /// `next_back`.
    pub closed spec fn back(&self) -> int {
        self.index + self.remaining@.len()
    }
}

impl<T, const N: usize> View for GenericArrayIter<T, N> {
    type V = Seq<T>;

    closed spec fn view(&self) -> Seq<T> {
        self.remaining@
    }
}

impl<T, const N: usize> GenericArray<T, N> {
    /// Turns the array into a by-value iterator over its elements; every
    /// element is pending and the cursors stand at the two ends.
    pub fn into_iter(self) -> (r: GenericArrayIter<T, N>)
        ensures
            r.elems() == self@,
            r.elems().len() == N,
            r.front() == 0,
            r.back() == N,
            r@ == self@,
    {
        proof {
            use_type_invariant(&self);
        }
        let ghost elems = self@;
        let remaining = self.into_vec();
        proof {
            assert(remaining@ =~= elems.subrange(0, remaining@.len() as int));
        }
        GenericArrayIter { remaining, index: 0, elems: Ghost(elems) }
    }
}

impl<T, const N: usize> GenericArrayIter<T, N> {
    /// The number of elements still pending, `back - front`.
    pub fn len(&self) -> (r: usize)
        ensures
            r == self@.len(),
            r == self.back() - self.front(),
    {
        proof {
            use_type_invariant(self);
        }
        self.remaining.len()
    }

    /// The pending elements, as a slice: always exactly the original
    /// elements between the two cursors.
    pub fn as_slice(&self) -> (r: &[T])
        ensures
            r@ == self@,
            self@ == self.elems().subrange(self.front(), self.back()),
            0 <= self.front() <= self.back() <= self.elems().len() <= N,
    {
        proof {
            use_type_invariant(self);
        }
        self.remaining.as_slice()
    }

    /// Yields the pending element at the front cursor and advances it, or
    /// returns `None` when the cursors have met.
    pub fn next(&mut self) -> (r: Option<T>)
        ensures
            (*final(self)).elems() == old(self).elems(),
            old(self).front() < old(self).back() ==> {
                &&& r == Some(old(self).elems()[old(self).front()])
                &&& (*final(self)).front() == old(self).front() + 1
                &&& (*final(self)).back() == old(self).back()
            },
            old(self).front() == old(self).back() ==> {
                &&& r is None
                &&& (*final(self)).front() == old(self).front()
                &&& (*final(self)).back() == old(self).back()
            },
    {
        proof {
            use_type_invariant(&*self);
        }
        if self.remaining.len() == 0 {
            None
        } else {
            proof {
                assert(Seq::<T>::empty() =~= self.elems@.subrange(
                    self.index as int,
                    self.index as int,
                ));
                assert(Seq::<T>::empty() =~= self.elems@.subrange(
                    self.index + 1,
                    self.index + 1,
                ));
            }
            let mut data: Vec<T> = Vec::new();
            core::mem::swap(&mut data, &mut self.remaining);
            self.index = self.index + 1;
            let value = data.remove(0);
            proof {
                assert(data@ =~= self.elems@.subrange(
                    self.index as int,
                    self.index + data@.len(),
                ));
            }
            self.remaining = data;
            Some(value)
        }
    }

    /// Yields the pending element just before the back cursor and retreats
    /// it, or returns `None` when the cursors have met.
    pub fn next_back(&mut self) -> (r: Option<T>)
        ensures
            (*final(self)).elems() == old(self).elems(),
            old(self).front() < old(self).back() ==> {
                &&& r == Some(old(self).elems()[old(self).back() - 1])
                &&& (*final(self)).front() == old(self).front()
                &&& (*final(self)).back() == old(self).back() - 1
            },
            old(self).front() == old(self).back() ==> {
                &&& r is None
                &&& (*final(self)).front() == old(self).front()
                &&& (*final(self)).back() == old(self).back()
            },
    {
        proof {
            use_type_invariant(&*self);
        }
        if self.remaining.len() == 0 {
            None
        } else {
            proof {
                assert(Seq::<T>::empty() =~= self.elems@.subrange(
                    self.index as int,
                    self.index as int,
                ));
            }
            let mut data: Vec<T> = Vec::new();
            core::mem::swap(&mut data, &mut self.remaining);
            let value = data.pop().unwrap();
            proof {
                assert(data@ =~= self.elems@.subrange(
                    self.index as int,
                    self.index + data@.len(),
                ));
            }
            self.remaining = data;
            Some(value)
        }
    }

    /// Consumes the iterator and returns how many elements were pending.
    pub fn count(self) -> (r: usize)
        ensures
            r == self@.len(),
    {
        proof {
            use_type_invariant(&self);
        }
        self.remaining.len()
    }

    /// Yields the element just before the back cursor, dropping the rest.
    pub fn last(self) -> (r: Option<T>)
        ensures
            self@.len() > 0 ==> r == Some(self@.last()),
            self@.len() == 0 ==> r is None,
    {
        proof {
            use_type_invariant(&self);
        }
        let ghost pending = self@;
        let ghost high = self.back();
        let mut it = self;
        let r = it.next_back();
        proof {
            if pending.len() > 0 {
                assert(pending.last() == self.elems()[high - 1]);
            }
        }
        r
    }

    /// Skips the next `n` pending elements, dropping them, then yields the
    /// one after: the pending element at offset `n` from the front, if any.
    pub fn nth(&mut self, n: usize) -> (r: Option<T>)
        ensures
            (*final(self)).elems() == old(self).elems(),
            (*final(self)).back() == old(self).back(),
            n < old(self)@.len() ==> {
                &&& r == Some(old(self)@[n as int])
                &&& (*final(self)).front() == old(self).front() + n + 1
            },
            n >= old(self)@.len() ==> {
                &&& r is None
                &&& (*final(self)).front() == old(self).back()
            },
    {
        proof {
            use_type_invariant(&*self);
        }
        let ghost pending = old(self)@;
        let ghost elems0 = old(self).elems();
        let ghost front0 = old(self).front();
        let ghost back0 = old(self).back();
        let mut skipped: usize = 0;
        while skipped < n && self.len() > 0
            invariant
                skipped <= n,
                skipped <= pending.len(),
                self.elems() == elems0,
                self.back() == back0,
                self.front() == front0 + skipped,
                0 <= front0 <= back0 <= elems0.len(),
                pending == elems0.subrange(front0, back0),
            decreases n - skipped,
        {
            let _ = self.next();
            skipped = skipped + 1;
        }
        proof {
            use_type_invariant(&*self);
            if n < pending.len() {
                assert(pending[n as int] == elems0[front0 + n]);
            }
        }
        self.next()
    }

    /// Skips the `n` pending elements nearest the back, dropping them, then
    /// yields the one before: the pending element at offset `n` from the
    /// back, if any.
    pub fn nth_back(&mut self, n: usize) -> (r: Option<T>)
        ensures
            (*final(self)).elems() == old(self).elems(),
            (*final(self)).front() == old(self).front(),
            n < old(self)@.len() ==> {
                &&& r == Some(old(self)@[old(self)@.len() - 1 - n])
                &&& (*final(self)).back() == old(self).back() - n - 1
            },
            n >= old(self)@.len() ==> {
                &&& r is None
                &&& (*final(self)).back() == old(self).front()
            },
    {
        proof {
            use_type_invariant(&*self);
        }
        let ghost pending = old(self)@;
        let ghost elems0 = old(self).elems();
        let ghost front0 = old(self).front();
        let ghost back0 = old(self).back();
        let mut skipped: usize = 0;
        while skipped < n && self.len() > 0
            invariant
                skipped <= n,
                skipped <= pending.len(),
                self.elems() == elems0,
                self.front() == front0,
                self.back() == back0 - skipped,
                0 <= front0 <= back0 <= elems0.len(),
                pending == elems0.subrange(front0, back0),
            decreases n - skipped,
        {
            let _ = self.next_back();
            skipped = skipped + 1;
        }
        proof {
            use_type_invariant(&*self);
            if n < pending.len() {
                assert(pending[pending.len() - 1 - n] == elems0[back0 - n - 1]);
            }
        }
        self.next_back()
    }

    /// Folds the pending elements front to back into a single value: there
    /// is a chain of accumulator values starting at `init`, stepping
    /// through `f` once per pending element in order, ending in the result.
    pub fn fold<U, F: Fn(U, T) -> U>(self, init: U, f: F) -> (r: U)
        requires
            forall|acc: U, i: int| 0 <= i < self@.len() ==> #[trigger] call_requires(f, (acc, self@[i])),
        ensures
            exists|accs: Seq<U>| #[trigger] is_fold_chain(f, self@, init, accs, r),
    {
        proof {
            use_type_invariant(&self);
        }
        let ghost orig = self@;
        let ghost elems0 = self.elems();
        let ghost front0 = self.front();
        let ghost back0 = self.back();
        let mut it = self;
        let mut acc = init;
        let ghost mut accs: Seq<U> = seq![init];
        let n = it.len();
        for i in 0..n
            invariant
                n == orig.len(),
                0 <= front0 <= back0 <= elems0.len(),
                orig == elems0.subrange(front0, back0),
                it.elems() == elems0,
                it.back() == back0,
                it.front() == front0 + i,
                it@ == orig.skip(i as int),
                accs.len() == i + 1,
                accs[0] == init,
                acc == accs[i as int],
                forall|u: U, j: int| 0 <= j < n ==> #[trigger] call_requires(f, (u, orig[j])),
                forall|j: int|
                    0 <= j < i ==> call_ensures(f, (#[trigger] accs[j], orig[j]), accs[j + 1]),
            decreases n - i,
        {
            proof {
                use_type_invariant(&it);
                assert(orig.skip(i as int)[0] == orig[i as int]);
            }
            let value = it.next().unwrap();
            acc = f(acc, value);
            proof {
                use_type_invariant(&it);
                accs = accs.push(acc);
                assert(it@ =~= orig.skip(i as int + 1));
            }
        }
        proof {
            assert(is_fold_chain(f, orig, init, accs, acc));
        }
        acc
    }

    /// Folds the pending elements back to front into a single value: the
    /// chain of accumulator values steps through the pending elements in
    /// reverse order.
    pub fn rfold<U, F: Fn(U, T) -> U>(self, init: U, f: F) -> (r: U)
        requires
            forall|acc: U, i: int| 0 <= i < self@.len() ==> #[trigger] call_requires(f, (acc, self@[i])),
        ensures
            exists|accs: Seq<U>| #[trigger] is_fold_chain(f, self@.reverse(), init, accs, r),
    {
        proof {
            use_type_invariant(&self);
        }
        let ghost orig = self@;
        let ghost elems0 = self.elems();
        let ghost front0 = self.front();
        let ghost back0 = self.back();
        let mut it = self;
        let mut acc = init;
        let ghost mut accs: Seq<U> = seq![init];
        let n = it.len();
        for i in 0..n
            invariant
                n == orig.len(),
                0 <= front0 <= back0 <= elems0.len(),
                orig == elems0.subrange(front0, back0),
                it.elems() == elems0,
                it.front() == front0,
                it.back() == back0 - i,
                it@ == orig.take(n - i),
                accs.len() == i + 1,
                accs[0] == init,
                acc == accs[i as int],
                forall|u: U, j: int| 0 <= j < n ==> #[trigger] call_requires(f, (u, orig[j])),
                forall|j: int|
                    0 <= j < i ==> call_ensures(
                        f,
                        (#[trigger] accs[j], orig.reverse()[j]),
                        accs[j + 1],
                    ),
            decreases n - i,
        {
            proof {
                use_type_invariant(&it);
                assert(orig[n - i - 1] == elems0[back0 - i - 1]);
                assert(orig.reverse()[i as int] == orig[n - i - 1]);
            }
            let value = it.next_back().unwrap();
            acc = f(acc, value);
            proof {
                use_type_invariant(&it);
                accs = accs.push(acc);
                assert(it@ =~= orig.take(n - i - 1));
            }
        }
        proof {
            assert(is_fold_chain(f, orig.reverse(), init, accs, acc));
        }
        acc
    }
}

/// Bidirectional exhaustion: the two cursors partition the original
/// indices, so every index lies in exactly one of the three ranges —
/// already yielded from the front, still pending, or already yielded from
/// the back. Since `next` yields the element at the front cursor and
/// `next_back` the element just before the back cursor, an interleaving of
/// the two in any order yields every element exactly once, each matching
/// its original index.
pub proof fn lemma_cursor_partition(front: int, back: int, len: int, i: int)
    requires
        0 <= front <= back <= len,
        0 <= i < len,
    ensures
        i < front || front <= i < back || back <= i,
        !(i < front && front <= i < back),
        !(i < front && back <= i),
        !(front <= i < back && back <= i),
{
}

impl<T: Clone, const N: usize> Clone for GenericArrayIter<T, N> {
    /// Clones only the pending range, re-materialized as a fresh iterator
    /// whose cursors stand at the two ends of that range.
    fn clone(&self) -> (r: Self)
        ensures
            r@.len() == self@.len(),
            forall|i: int|
                0 <= i < self@.len() ==> vstd::pervasive::cloned::<T>(self@[i], #[trigger] r@[i]),
    {
        proof {
            use_type_invariant(self);
        }
        let slice = self.as_slice();
        let n = slice.len();
        let mut data: Vec<T> = Vec::new();
        for i in 0..n
            invariant
                n == slice@.len(),
                n <= N,
                data@.len() == i,
                forall|j: int|
                    0 <= j < i ==> vstd::pervasive::cloned::<T>(slice@[j], #[trigger] data@[j]),
            decreases n - i,
        {
            data.push(slice[i].clone());
        }
        let ghost elems = data@;
        proof {
            assert(data@ =~= elems.subrange(0, data@.len() as int));
        }
        GenericArrayIter { remaining: data, index: 0, elems: Ghost(elems) }
    }
}

} // verus!
