//! Unary compile-time naturals: zero and successor.
//!
//! Each number is a type, and [`ToInt`] maps the type back to its value as
//! a runtime-inspectable integer.

use core::marker::PhantomData;
use vstd::prelude::*;

verus! {

/// The natural number zero, as a type.
pub struct Zero;

/// For any natural number `P`, its successor `Succ<P>`.
pub struct Succ<P: Peano> {
    _marker: PhantomData<P>,
}

/// Marker trait for the unary compile-time naturals.
pub trait Peano {

}

impl Peano for Zero {

}

impl<P: Peano> Peano for Succ<P> {

}

/// Maps a compile-time natural to its runtime value.
pub trait ToInt: Peano {
    /// The value of this number.
    spec fn value() -> nat;

    /// Returns the value of this number as a runtime integer.
    fn to_int() -> (r: i32)
        requires
            Self::value() <= 0x7fff_ffff,
        ensures
            r == Self::value(),
    ;
}

impl ToInt for Zero {
    open spec fn value() -> nat {
        0
    }

    fn to_int() -> (r: i32) {
        0
    }
}

impl<P: Peano + ToInt> ToInt for Succ<P> {
    open spec fn value() -> nat {
        P::value() + 1
    }

    fn to_int() -> (r: i32) {
        1 + P::to_int()
    }
}

} // verus!
