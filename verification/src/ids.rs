//! Runtime type identifiers.
//!
//! A concrete `'static` type is identified by an opaque [`TypeId`]; a
//! [`Tag<T>`] is an identifier that also records, in its type, which type it
//! identifies. Tags can only be obtained from [`Tag::of`], so every
//! `Tag<T>` value carries the identifier of `T` itself: tags of the same type
//! are equal, tags of distinct types are distinct.

use vstd::prelude::*;

verus! {

/// Declares `core::any::TypeId` so identifier values can be stored and
/// compared. The type is opaque; the items below are its whole interface.
#[verifier::external_type_specification]
#[verifier::external_body]
pub struct ExTypeId(core::any::TypeId);

/// Relies on the derived `PartialEq` of `core::any::TypeId`: it compares the
/// identifier values themselves, so it returns `true` exactly on equal values.
#[verifier::external_body]
pub(crate) fn id_eq(a: &core::any::TypeId, b: &core::any::TypeId) -> (r: bool)
    ensures
        r == (*a == *b),
{
    a == b
}

/// Relies on `core::any::TypeId` being `Copy`: the copy is the same value.
#[verifier::external_body]
pub(crate) fn id_dup(a: &core::any::TypeId) -> (r: core::any::TypeId)
    ensures
        r == *a,
{
    *a
}

/// An opaque identifier for a concrete type, stable for the whole run of the
/// program and comparable for equality. Two identifiers are equal exactly
/// when they identify the same concrete type.
pub struct TypeId {
    pub(crate) id: core::any::TypeId,
}

impl TypeId {
    /// The identifier value itself, for use in contracts.
    pub closed spec fn key(&self) -> core::any::TypeId {
        self.id
    }
}

impl PartialEq for TypeId {
    fn eq(&self, other: &TypeId) -> (r: bool) {
        id_eq(&self.id, &other.id)
    }
}

impl Eq for TypeId {

}

impl vstd::std_specs::cmp::PartialEqSpecImpl for TypeId {
    open spec fn obeys_eq_spec() -> bool {
        true
    }

    open spec fn eq_spec(&self, other: &TypeId) -> bool {
        self.key() == other.key()
    }
}

/// The identifier of the concrete type `T`, bound to `T` itself.
///
/// The identifier field is private and [`Tag::of`] is the only way to make a
/// tag, so a `Tag<T>` always holds the identifier of `T` and of no other
/// type. Contracts in this crate depend on that: do not add another
/// constructor.
#[verifier::reject_recursive_types(T)]
pub struct Tag<T> {
    id: core::any::TypeId,
    ty: core::marker::PhantomData<T>,
}

impl<T: 'static> Tag<T> {
    /// Relies on `core::any::TypeId::of::<T>()`: the returned identifier is
    /// determined by `T` alone, is the same on every call, and differs from
    /// the identifier of every other concrete type.
    #[verifier::external_body]
    pub fn of() -> (t: Tag<T>) {
        Tag { id: core::any::TypeId::of::<T>(), ty: core::marker::PhantomData }
    }
}

impl<T> Tag<T> {
    /// The identifier this tag carries, for use in contracts.
    pub closed spec fn key(&self) -> core::any::TypeId {
        self.id
    }

    /// The identifier this tag carries, without its binding to `T`.
    pub fn to_type_id(&self) -> (t: TypeId)
        ensures
            t.key() == self.key(),
    {
        TypeId { id: id_dup(&self.id) }
    }

    /// Whether this tag carries the identifier `t`.
    pub fn matches(&self, t: &TypeId) -> (r: bool)
        ensures
            r == (self.key() == t.key()),
    {
        id_eq(&self.id, &t.id)
    }
}

} // verus!
