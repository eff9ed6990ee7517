//! Marker traits that define which messages are accepted.
use std::any::TypeId;
use vstd::prelude::*;

pub mod marker;

verus! {

/// Marker trait that defines which messages are dynamically accepted by a protocol.
pub trait Accepts<M> {}

/// Trait that specifies the list of messages accepted by a protocol.
pub trait AcceptsAll {
    /// The identifiers of the accepted message types, in the order in which they are named.
    fn accepts_all() -> Vec<TypeId>;
}

/// Marker trait that indicates that every message accepted here is accepted by `T`.
pub trait AcceptsSubsetOf<T: ?Sized> {}

} // verus!
