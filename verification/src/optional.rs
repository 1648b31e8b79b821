//! The optional value as a container of at most one element: its model, its
//! instances of the traits of `part2`, and the functor laws for it.

use vstd::prelude::*;
use crate::mapping::{compose, computes, identity, lemma_maps_each_composition, lemma_maps_each_identity, maps_each};
use crate::part2::HKT;

verus! {

/// What an optional value holds, in order: one element or none.
pub open spec fn held<A>(x: Option<A>) -> Seq<A> {
    match x {
        Some(a) => seq![a],
        None => Seq::empty(),
    }
}

/// `r` is a possible outcome of transforming `x` with `f`: absent stays
/// absent, and a present value becomes a present value that `f` may return
/// for it.
pub open spec fn transforms<A, B, F: Fn(&A) -> B>(x: Option<A>, f: F, r: Option<B>) -> bool {
    match x {
        Some(a) => r matches Some(b) && call_ensures(f, (&a,), b),
        None => r is None,
    }
}

/// The optional value that holds `g` of what `x` holds.
pub open spec fn lifted<A, B>(x: Option<A>, g: spec_fn(A) -> B) -> Option<B> {
    match x {
        Some(a) => Some(g(a)),
        None => None,
    }
}

impl<T, U> HKT<U> for Option<T> {
    type C = T;
    type T = Option<U>;
}

// The two functor traits are named by path and not imported: with both in
// scope, `fmap` on an optional value would be ambiguous.
impl<T, U> crate::part2::Functor<U> for Option<T> {
    open spec fn items(&self) -> Seq<T> {
        held(*self)
    }

    open spec fn applied_items(t: &Option<U>) -> Seq<U> {
        held(*t)
    }

    /// Absent stays absent, and `f` is not called. A present value becomes
    /// the present result of `f` on it.
    fn fmap<F>(&self, f: F) -> (r: Option<U>)
        where F: Fn(&T) -> U
        ensures
            transforms(*self, f, r),
            r.is_some() == self.is_some(),
    {
        match *self {
            Some(ref value) => {
                assert(held(*self)[0] == *value);
                Some(f(value))
            },
            None => None,
        }
    }
}

impl<T, U, B> crate::part2::Functor2<U, B> for Option<T> where Self::T: crate::part2::Functor<B> {
    open spec fn items(&self) -> Seq<T> {
        held(*self)
    }

    open spec fn applied_items(t: &Option<U>) -> Seq<U> {
        held(*t)
    }

    fn fmap<F>(&self, f: F) -> (r: Option<U>)
        where F: Fn(&T) -> U
        ensures
            transforms(*self, f, r),
            r.is_some() == self.is_some(),
    {
        match *self {
            Some(ref value) => {
                assert(held(*self)[0] == *value);
                Some(f(value))
            },
            None => None,
        }
    }
}

/// Two optional values that hold the same are equal.
pub proof fn lemma_held_injective<A>(x: Option<A>, y: Option<A>)
    requires
        held(x) == held(y),
    ensures
        x == y,
{
    match (x, y) {
        (Some(a), Some(b)) => {
            assert(held(x)[0] == a);
            assert(held(y)[0] == b);
        },
        (Some(a), None) => {
            assert(held(x).len() == 1);
            assert(held(y).len() == 0);
        },
        (None, Some(b)) => {
            assert(held(x).len() == 0);
            assert(held(y).len() == 1);
        },
        (None, None) => {},
    }
}

/// On optional values, the element-wise contract of a transformation says
/// exactly `transforms`.
pub proof fn lemma_outcome<A, B, F: Fn(&A) -> B>(x: Option<A>, f: F, r: Option<B>)
    ensures
        maps_each(held(x), f, held(r)) <==> transforms(x, f, r),
{
    if maps_each(held(x), f, held(r)) && x is Some {
        assert(call_ensures(f, (&held(x)[0],), held(r)[0]));
    }
}

/// Shape preservation: a transformation of a present value never yields
/// absent, and one of absent never yields a present value, whatever the
/// function is.
pub proof fn lemma_shape<A, B, F: Fn(&A) -> B>(x: Option<A>, f: F, r: Option<B>)
    requires
        transforms(x, f, r),
    ensures
        r.is_some() == x.is_some(),
{
}

/// Transforming with a function whose meaning is `g` has exactly one
/// outcome: `g` lifted to the optional value.
pub proof fn lemma_lifted<A, B, F: Fn(&A) -> B>(x: Option<A>, f: F, g: spec_fn(A) -> B, r: Option<B>)
    requires
        computes(f, g),
        transforms(x, f, r),
    ensures
        r == lifted(x, g),
{
}

/// Identity law: transforming with a function that returns its argument
/// yields the input, present or absent.
pub proof fn lemma_identity<A, F: Fn(&A) -> A>(x: Option<A>, f: F, r: Option<A>)
    requires
        computes(f, identity::<A>()),
        transforms(x, f, r),
    ensures
        r == x,
{
    lemma_outcome(x, f, r);
    lemma_maps_each_identity(held(x), f, held(r));
    lemma_held_injective(x, r);
}

/// Composition law: transforming with `f` and then with `g` yields what one
/// transformation with their composition `h` yields, present or absent.
pub proof fn lemma_composition<A, B, C, F: Fn(&A) -> B, G: Fn(&B) -> C, H: Fn(&A) -> C>(
    x: Option<A>,
    f: F,
    g: G,
    h: H,
    sf: spec_fn(A) -> B,
    sg: spec_fn(B) -> C,
    y: Option<B>,
    z: Option<C>,
    w: Option<C>,
)
    requires
        computes(f, sf),
        computes(g, sg),
        computes(h, compose(sg, sf)),
        transforms(x, f, y),
        transforms(y, g, z),
        transforms(x, h, w),
    ensures
        z == w,
{
    lemma_outcome(x, f, y);
    lemma_outcome(y, g, z);
    lemma_outcome(x, h, w);
    lemma_maps_each_composition(held(x), f, g, h, sf, sg, held(y), held(z), held(w));
    lemma_held_injective(z, w);
}

/// The two laws on the model alone: lifting the identity changes nothing,
/// and lifting twice is lifting the composition.
pub proof fn lemma_lifted_laws<A, B, C>(x: Option<A>, sf: spec_fn(A) -> B, sg: spec_fn(B) -> C)
    ensures
        lifted(x, identity::<A>()) == x,
        lifted(lifted(x, sf), sg) == lifted(x, compose(sg, sf)),
{
}

} // verus!
