//! The same encoding once more, complete in one file: the two traits and
//! the optional value as their instance, with the contract of the instance
//! written on the instance itself.

use vstd::prelude::*;
use crate::mapping::{accepts_each, maps_each};
use crate::optional::{held, transforms};

verus! {

/// A container type seen as a type constructor applied to an element type,
/// together with the rule for applying the same constructor to `U`.
pub trait HKT<U> {
    /// The element type that the constructor is applied to now.
    type C;
    /// The constructor applied to `U`.
    type T;
}

impl<T, U> HKT<U> for Option<T> {
    type C = T;
    type T = Option<U>;
}

/// A container whose elements can be transformed, one by one, into elements
/// of type `U`, giving a container of the same shape. The method is named
/// `fmap` so that it does not collide with the `map` that std's containers
/// have.
pub trait Functor<U>: HKT<U> {
    /// The elements that the container holds, in order.
    spec fn items(&self) -> Seq<Self::C>;

    /// The elements that a transformed container holds, in order.
    spec fn applied_items(t: &Self::T) -> Seq<U>;

    /// Applies `f` to each element and returns the container of the results:
    /// as many as there were elements, each a result of `f` on the element in
    /// its place.
    fn fmap<F>(&self, f: F) -> (r: Self::T)
        where F: Fn(&Self::C) -> U
        requires
            accepts_each(self.items(), f),
        ensures
            maps_each(self.items(), f, Self::applied_items(&r)),
    ;
}

impl<T, U> Functor<U> for Option<T> {
    open spec fn items(&self) -> Seq<T> {
        held(*self)
    }

    open spec fn applied_items(t: &Option<U>) -> Seq<U> {
        held(*t)
    }

    /// Absent stays absent, and `f` is not called. A present value becomes
    /// the present result of `f` on it.
    fn fmap<F>(&self, f: F) -> (r: Option<U>)
        where F: Fn(&T) -> U
        ensures
            transforms(*self, f, r),
            r.is_some() == self.is_some(),
    {
        match *self {
            Some(ref value) => {
                assert(held(*self)[0] == *value);
                Some(f(value))
            },
            None => None,
        }
    }
}

} // verus!
