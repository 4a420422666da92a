//! Trusted storage for one value of an unknown concrete type.
//!
//! The value sits behind a `Box<dyn core::any::Any>`. Verus cannot declare a
//! `dyn` type, so the box is hidden inside [`Erased`], and the functions here
//! are its only interface. Their contracts are stated over [`held_id`], the
//! identifier of the concrete type of the held value, and over the keys of
//! [`Tag`] values; they are justified by two facts: `core::any` keeps one
//! process-wide identifier per concrete type, and a `Tag<T>` always carries
//! the identifier of `T` (see [`Tag::of`]).

use vstd::prelude::*;

use crate::ids::Tag;
use crate::ids::TypeId;

verus! {

/// One value of some concrete `'static` type, with the type erased.
#[verifier::external_body]
pub struct Erased {
    inner: Box<dyn core::any::Any>,
}

/// The identifier of the concrete type of the value held in `e`. This is a
/// fixed function of the held value; the contracts below say how each
/// operation relates to it.
pub uninterp spec fn held_id(e: Erased) -> core::any::TypeId;

/// Erases `value`. Relies on `Box::new` and the coercion to
/// `dyn core::any::Any`: the box holds exactly `value`, whose concrete type
/// is `T`, the type that `tag` identifies.
#[verifier::external_body]
pub(crate) fn erase<T: 'static>(value: T, tag: &Tag<T>) -> (e: Erased)
    ensures
        held_id(e) == tag.key(),
{
    Erased { inner: Box::new(value) }
}

/// Relies on `<dyn core::any::Any>::type_id`: it returns the identifier of
/// the held value's concrete type.
#[verifier::external_body]
pub(crate) fn held_type_id(e: &Erased) -> (t: TypeId)
    ensures
        t.key() == held_id(*e),
{
    TypeId { id: e.inner.as_ref().type_id() }
}

/// Relies on `<dyn core::any::Any>::downcast_ref`: it returns a reference to
/// the held value exactly when the held concrete type is `T` — the type whose
/// identifier `tag` carries.
#[verifier::external_body]
pub(crate) fn try_ref<'a, T: 'static>(e: &'a Erased, tag: &Tag<T>) -> (r: Option<&'a T>)
    ensures
        (r is Some) <==> held_id(*e) == tag.key(),
{
    e.inner.downcast_ref::<T>()
}

/// Relies on `<dyn core::any::Any>::downcast_mut`: it returns a mutable
/// reference to the held value exactly when the held concrete type is `T`.
/// Writes through the reference replace the held value with another value of
/// the same type, so the held identifier does not change; on `None` nothing
/// is touched at all.
#[verifier::external_body]
pub(crate) fn try_mut<'a, T: 'static>(e: &'a mut Erased, tag: &Tag<T>) -> (r: Option<&'a mut T>)
    ensures
        (r is Some) <==> held_id(*old(e)) == tag.key(),
        held_id(*final(e)) == held_id(*old(e)),
        (r is None) ==> *final(e) == *old(e),
{
    e.inner.downcast_mut::<T>()
}

/// Relies on `Box::<dyn core::any::Any>::downcast`: on a match it returns
/// ownership of the held value, retyped; on a mismatch it returns ownership
/// of the original box, untouched.
#[verifier::external_body]
pub(crate) fn try_unbox<T: 'static>(e: Erased, tag: &Tag<T>) -> (r: Result<Box<T>, Erased>)
    ensures
        (r is Ok) <==> held_id(e) == tag.key(),
        (r is Err) ==> r->Err_0 == e,
{
    match e.inner.downcast::<T>() {
        Ok(b) => Ok(b),
        Err(inner) => Err(Erased { inner }),
    }
}

} // verus!
