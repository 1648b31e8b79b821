//! The encoding of a type constructor by two associated types, and the
//! mappable capability on top of it. The optional value is their instance;
//! its impls stand in `optional`.
//!
//! `Functor::fmap` returns `Self::T`, and nothing in the declaration of
//! `Functor` says that `Self::T` is a functor again. A generic function can
//! therefore transform once, as `double_in_context` does, but cannot
//! transform the result a second time: the compiler rejects the second call,
//! although every instance would allow it. `Functor2` asks of `Self::T` that
//! the constructor can be applied once more, to a further type `B`; how the
//! capability itself should pass to the result is left open.

use vstd::prelude::*;
use crate::mapping::{accepts_each, maps_each};

verus! {

/// A container type seen as a type constructor applied to an element type,
/// together with the rule for applying the same constructor to `U`.
pub trait HKT<U> {
    /// The element type that the constructor is applied to now.
    type C;
    /// The constructor applied to `U`.
    type T;
}

/// A container whose elements can be transformed, one by one, into elements
/// of type `U`, giving a container of the same shape.
pub trait Functor<U>: HKT<U> {
    /// The elements that the container holds, in order.
    spec fn items(&self) -> Seq<Self::C>;

    /// The elements that a transformed container holds, in order.
    spec fn applied_items(t: &Self::T) -> Seq<U>;

    /// Applies `f` to each element and returns the container of the results:
    /// as many as there were elements, each a result of `f` on the element in
    /// its place.
    fn fmap<F>(&self, f: F) -> (r: Self::T)
        where F: Fn(&Self::C) -> U
        requires
            accepts_each(self.items(), f),
        ensures
            maps_each(self.items(), f, Self::applied_items(&r)),
    ;
}

/// A functor whose transformed container can itself be applied to a further
/// element type `B`.
pub trait Functor2<U, B>: HKT<U> where Self::T: HKT<B> {
    /// The elements that the container holds, in order.
    spec fn items(&self) -> Seq<Self::C>;

    /// The elements that a transformed container holds, in order.
    spec fn applied_items(t: &Self::T) -> Seq<U>;

    /// Applies `f` to each element and returns the container of the results:
    /// as many as there were elements, each a result of `f` on the element in
    /// its place.
    fn fmap<F>(&self, f: F) -> (r: Self::T)
        where F: Fn(&Self::C) -> U
        requires
            accepts_each(self.items(), f),
        ensures
            maps_each(self.items(), f, Self::applied_items(&r)),
    ;
}

/// Doubles every element of any functor over `i32`, knowing nothing of the
/// container but its `Functor` capability.
pub fn double_in_context<F>(f: F) -> (r: F::T)
    where F: Functor<i32, C = i32>
    requires
        forall|i: int| 0 <= i < f.items().len() ==> i32::MIN <= 2 * #[trigger] f.items()[i] <= i32::MAX,
    ensures
        F::applied_items(&r).len() == f.items().len(),
        forall|i: int| 0 <= i < f.items().len() ==> #[trigger] F::applied_items(&r)[i] == 2 * f.items()[i],
{
    f.fmap(|i: &i32| -> (d: i32)
        requires
            i32::MIN <= 2 * *i <= i32::MAX,
        ensures
            d == 2 * *i,
        { *i * 2 })
}

/// Transforms a present and an absent value through `Functor2`, with a
/// function that doubles. That the outcomes are the doubled value and absent
/// is established statically.
pub fn functor_2_test() {
    let present: Option<u8> = Some(1);
    let absent: Option<u8> = None;
    let double = |i: &u8| -> (d: u8)
        requires
            *i < 128,
        ensures
            d == 2 * *i,
        { *i * 2 };
    let doubled = Functor2::<u8, u8>::fmap(&present, double);
    let still_absent = Functor2::<u8, u8>::fmap(&absent, double);
    assert(doubled == Some(2u8));
    assert(still_absent.is_none());
}

} // verus!
