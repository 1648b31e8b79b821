//! The model of a transformation: a container is the sequence of its
//! elements, and transforming it applies a function to each of them in
//! place.

use vstd::prelude::*;

verus! {

/// `f` may be called on every element of `xs`.
pub open spec fn accepts_each<A, B, F: Fn(&A) -> B>(xs: Seq<A>, f: F) -> bool {
    forall|i: int| 0 <= i < xs.len() ==> call_requires(f, (&#[trigger] xs[i],))
}

/// `ys` is a possible outcome of applying `f` to each element of `xs`: it
/// has as many elements, and each is a result of `f` on the element in its
/// place.
pub open spec fn maps_each<A, B, F: Fn(&A) -> B>(xs: Seq<A>, f: F, ys: Seq<B>) -> bool {
    &&& ys.len() == xs.len()
    &&& forall|i: int| 0 <= i < xs.len() ==> call_ensures(f, (&xs[i],), #[trigger] ys[i])
}

/// The executable function `f` has `g` as its meaning: whenever it returns
/// from a call on `a`, it returns `g(a)`.
pub open spec fn computes<A, B, F: Fn(&A) -> B>(f: F, g: spec_fn(A) -> B) -> bool {
    forall|a: A, b: B| call_ensures(f, (&a,), b) ==> b == g(a)
}

/// The identity function on `A`.
pub open spec fn identity<A>() -> spec_fn(A) -> A {
    |a: A| a
}

/// The function that applies `f` first and `g` to its result.
pub open spec fn compose<A, B, C>(g: spec_fn(B) -> C, f: spec_fn(A) -> B) -> spec_fn(A) -> C {
    |a: A| g(f(a))
}

/// Applying a function whose meaning is `g` to each element has exactly one
/// outcome: the sequence of `g` of each element.
pub proof fn lemma_maps_each_computed<A, B, F: Fn(&A) -> B>(
    xs: Seq<A>,
    f: F,
    g: spec_fn(A) -> B,
    ys: Seq<B>,
)
    requires
        computes(f, g),
        maps_each(xs, f, ys),
    ensures
        ys == xs.map_values(g),
{
    assert(ys =~= xs.map_values(g));
}

/// Identity law: applying a function that returns its argument to each
/// element yields the same sequence.
pub proof fn lemma_maps_each_identity<A, F: Fn(&A) -> A>(xs: Seq<A>, f: F, ys: Seq<A>)
    requires
        computes(f, identity::<A>()),
        maps_each(xs, f, ys),
    ensures
        ys == xs,
{
    assert(ys =~= xs);
}

/// Composition law: applying `f` to each element and then `g` to each result
/// yields what applying their composition `h` to each element yields.
pub proof fn lemma_maps_each_composition<A, B, C, F: Fn(&A) -> B, G: Fn(&B) -> C, H: Fn(&A) -> C>(
    xs: Seq<A>,
    f: F,
    g: G,
    h: H,
    sf: spec_fn(A) -> B,
    sg: spec_fn(B) -> C,
    ys: Seq<B>,
    zs: Seq<C>,
    ws: Seq<C>,
)
    requires
        computes(f, sf),
        computes(g, sg),
        computes(h, compose(sg, sf)),
        maps_each(xs, f, ys),
        maps_each(ys, g, zs),
        maps_each(xs, h, ws),
    ensures
        zs == ws,
{
    lemma_maps_each_computed(xs, f, sf, ys);
    lemma_maps_each_computed(ys, g, sg, zs);
    lemma_maps_each_computed(xs, h, compose(sg, sf), ws);
    assert(zs =~= ws);
}

} // verus!
