//! An encoding of type constructors through associated types, with a verified
//! mappable capability built on it and one instance: the optional value.
//!
//! Rust has no way to take a type constructor such as `Option` as a generic
//! parameter. The encoding here lets a container state, for every target
//! element type `U`, which element type it holds now and which type it
//! becomes when it holds `U` instead. Generic code is then written against
//! that relation.
//!
//! `mapping` holds the model that the contracts are stated over and the
//! functor laws on it. `part2` holds the traits, and `optional` the optional
//! value as their instance, with the laws for it. `part2_alternate` holds
//! the encoding a second time, traits and instance in one file.

pub mod mapping;
pub mod optional;
pub mod part2;
pub mod part2_alternate;

