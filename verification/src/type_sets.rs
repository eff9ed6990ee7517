//! Sets of types, checked at compile time.
//!
//! A set is written as [`TypeSet<dyn sets::Two<A, B>>`](TypeSet), and similarly for other sizes.
//! Membership and subset relations between sets are decided by the trait solver, and
//! [`Members`] lists the identifiers of the member types at runtime.
use std::any::TypeId;
use std::marker::PhantomData;
use vstd::prelude::*;

pub mod sets;

verus! {

/// The set contains the type `E`.
pub trait Contains<E> {}

/// The set lists its members at runtime.
pub trait Members {
    /// The identifiers of the member types, in the order in which the set names them.
    fn members() -> Vec<TypeId>;
}

/// Every member of this set is a member of `S`.
pub trait SubsetOf<S> {}

/// Every member of `S` is a member of this set.
pub trait SupersetOf<S> {}

impl<T, S> SupersetOf<S> for T where S: SubsetOf<T> {}

/// A type that stands for a set of types, such as a protocol that accepts some messages.
pub trait AsSet {
    /// The set that this type stands for.
    type Set;
}

impl<T, S> SubsetOf<S> for T where T::Set: SubsetOf<S>, T: AsSet {}

impl<T, E> Contains<E> for T where T::Set: Contains<E>, T: AsSet {}

impl<T> Members for T where T::Set: Members, T: AsSet {
    /// The members of the set that `T` stands for.
    fn members() -> (r: Vec<TypeId>)
        ensures
            call_ensures(<T::Set as Members>::members, (), r),
    {
        <T::Set as Members>::members()
    }
}

/// A set of types, where `T` is one of the traits in [`sets`], such as `dyn sets::Two<A, B>`.
pub struct TypeSet<T: ?Sized>(PhantomData<T>);

impl<T: ?Sized, E> Contains<E> for TypeSet<T> where T: Contains<E> {}

/// The identifier of the type `T`.
#[verifier::external_body]
pub(crate) fn type_id_of<T: ?Sized + 'static>() -> TypeId {
    TypeId::of::<T>()
}

/// `id` is an identifier that `TypeId::of::<T>()` gives.
pub closed spec fn is_type_id<T: ?Sized + 'static>(id: TypeId) -> bool {
    call_ensures(type_id_of::<T>, (), id)
}

/// An identifier that [`type_id_of`] returned is one that `TypeId::of::<T>()` gives.
pub(crate) proof fn lemma_is_type_id<T: ?Sized + 'static>(id: TypeId)
    requires
        call_ensures(type_id_of::<T>, (), id),
    ensures
        is_type_id::<T>(id),
{
}

/// The declaration of [`TypeId`], an identifier that is unique to each type.
#[verifier::external_type_specification]
#[verifier::external_body]
pub struct ExTypeId(TypeId);

/// Compares two type identifiers with `TypeId`'s `==`.
///
/// Claimed: the identifiers compare equal exactly when they are the same value, as a `TypeId`
/// is a globally unique identifier of its type.
#[verifier::external_body]
pub(crate) fn type_ids_equal(a: &TypeId, b: &TypeId) -> (r: bool)
    ensures
        r == (*a == *b),
{
    *a == *b
}

} // verus!
