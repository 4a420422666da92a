//! A container for one value of an erased concrete type, with a verified
//! type-check predicate and checked and unchecked downcasts.
//!
//! An [`AnyBox`] owns one value of some `'static` type. Its model is
//! [`AnyBox::kind`], the identifier of that type. The checked operations
//! decide by that identifier: `is` tells whether the held type matches a
//! [`Tag`], `downcast_ref` / `downcast_mut` return a typed borrow exactly on
//! a match, and `downcast` returns ownership retyped on a match and the
//! original box untouched on a mismatch. The unchecked variants demand the
//! match as a precondition instead of testing it.

use vstd::pervasive::unreached;
use vstd::prelude::*;

use crate::erased::Erased;
use crate::erased::erase;
use crate::erased::held_id;
use crate::erased::held_type_id;
use crate::erased::try_mut;
use crate::erased::try_ref;
use crate::erased::try_unbox;
use crate::ids::Tag;
use crate::ids::TypeId;

verus! {

/// The capability a type needs for its values to be stored in an [`AnyBox`]
/// and recovered from one: access to the type's own identifier. Every
/// `'static` type can implement it with an empty `impl` block; the provided
/// methods answer with the identifier that [`Tag::of`] assigns to the type.
pub trait Any: Sized + 'static {
    /// The tag of this type.
    fn type_tag() -> Tag<Self> {
        Tag::<Self>::of()
    }

    /// The identifier of the concrete type of `self`. It depends on that
    /// type alone, never on the value or on how the value is reached.
    fn get_type_id(&self) -> TypeId {
        Self::type_tag().to_type_id()
    }
}

/// An owning handle to one value of some erased concrete `'static` type.
#[verifier::ext_equal]
pub struct AnyBox {
    payload: Erased,
}

impl AnyBox {
    /// The identifier of the concrete type of the stored value.
    pub closed spec fn kind(self) -> core::any::TypeId {
        held_id(self.payload)
    }

    /// Stores `value`, whose type is the one `tag` identifies.
    pub fn new<T: 'static>(value: T, tag: &Tag<T>) -> (b: AnyBox)
        ensures
            b.kind() == tag.key(),
    {
        AnyBox { payload: erase(value, tag) }
    }

    /// Stores `value`, pairing the box with the tag of the value's type.
    pub fn from_any<T: Any>(value: T) -> (r: (AnyBox, Tag<T>))
        ensures
            r.0.kind() == r.1.key(),
    {
        let tag = T::type_tag();
        let b = AnyBox::new(value, &tag);
        (b, tag)
    }

    /// The identifier of the stored value's concrete type. It is the
    /// identifier of that original type, never of the handle the value is
    /// seen through, and it is the same on every call.
    pub fn get_type_id(&self) -> (t: TypeId)
        ensures
            t.key() == self.kind(),
    {
        held_type_id(&self.payload)
    }

    /// Whether the stored value's type is the one `tag` identifies.
    pub fn is<T: 'static>(&self, tag: &Tag<T>) -> (r: bool)
        ensures
            r == (self.kind() == tag.key()),
    {
        try_ref::<T>(&self.payload, tag).is_some()
    }

    /// A borrow of the stored value at its concrete type, exactly when that
    /// type is the one `tag` identifies.
    pub fn downcast_ref<'a, T: 'static>(&'a self, tag: &Tag<T>) -> (r: Option<&'a T>)
        ensures
            (r is Some) <==> self.kind() == tag.key(),
    {
        try_ref(&self.payload, tag)
    }

    /// A borrow of the stored value at its concrete type, with the match a
    /// precondition instead of a runtime test.
    pub fn downcast_ref_unchecked<'a, T: 'static>(&'a self, tag: &Tag<T>) -> (r: &'a T)
        requires
            self.kind() == tag.key(),
    {
        match self.downcast_ref(tag) {
            Some(r) => r,
            None => unreached(),
        }
    }

    /// A mutable borrow of the stored value at its concrete type, exactly
    /// when that type is the one `tag` identifies. Writes through the borrow
    /// keep the stored type; on a mismatch the box is untouched.
    pub fn downcast_mut<'a, T: 'static>(&'a mut self, tag: &Tag<T>) -> (r: Option<&'a mut T>)
        ensures
            (r is Some) <==> old(self).kind() == tag.key(),
            final (self).kind() == old(self).kind(),
            (r is None) ==> *final (self) == *old(self),
    {
        try_mut(&mut self.payload, tag)
    }

    /// A mutable borrow of the stored value at its concrete type, with the
    /// match a precondition instead of a runtime test.
    pub fn downcast_mut_unchecked<'a, T: 'static>(&'a mut self, tag: &Tag<T>) -> (r: &'a mut T)
        requires
            old(self).kind() == tag.key(),
        ensures
            final (self).kind() == old(self).kind(),
    {
        match self.downcast_mut(tag) {
            Some(r) => r,
            None => unreached(),
        }
    }

    /// Ownership of the stored value, retyped, exactly when its type is the
    /// one `tag` identifies; on a mismatch, the original box itself, with
    /// nothing about it changed.
    pub fn downcast<T: 'static>(self, tag: &Tag<T>) -> (r: Result<Box<T>, AnyBox>)
        ensures
            (r is Ok) <==> self.kind() == tag.key(),
            (r is Err) ==> r->Err_0 == self,
    {
        match try_unbox(self.payload, tag) {
            Ok(b) => Ok(b),
            Err(payload) => Err(AnyBox { payload }),
        }
    }

    /// Ownership of the stored value, retyped, with the match a precondition
    /// instead of a runtime test.
    pub fn downcast_unchecked<T: 'static>(self, tag: &Tag<T>) -> (r: Box<T>)
        requires
            self.kind() == tag.key(),
    {
        match self.downcast(tag) {
            Ok(b) => b,
            Err(_) => unreached(),
        }
    }
}

/// Law: a stored value has one type. If the box matches `t1`, it does not
/// match any tag carrying a different identifier.
pub proof fn law_single_type<T1, T2>(b: AnyBox, t1: Tag<T1>, t2: Tag<T2>)
    requires
        b.kind() == t1.key(),
        t1.key() != t2.key(),
    ensures
        b.kind() != t2.key(),
{
}

/// Law: the checked reference downcast succeeds exactly when the type test
/// does. Any `is` result and any `downcast_ref` result for the same box and
/// the same tag agree.
pub proof fn law_ref_agrees_with_is<T>(b: AnyBox, t: Tag<T>, is_r: bool, ref_some: bool)
    requires
        is_r == (b.kind() == t.key()),
        ref_some == (b.kind() == t.key()),
    ensures
        is_r == ref_some,
{
}

/// Law: the type test is a pure function of the type identifier. An `is`
/// result for a tag agrees with comparing the tag against what `get_type_id`
/// returned for the same box.
pub proof fn law_is_decided_by_type_id<T>(b: AnyBox, t: Tag<T>, id: TypeId, is_r: bool)
    requires
        id.key() == b.kind(),
        is_r == (b.kind() == t.key()),
    ensures
        is_r == (t.key() == id.key()),
{
}

/// Law: type tests are stable. Two results of `is` for the same box and the
/// same tag are equal, however often the call is repeated.
pub proof fn law_is_stable<T>(b: AnyBox, t: Tag<T>, r1: bool, r2: bool)
    requires
        r1 == (b.kind() == t.key()),
        r2 == (b.kind() == t.key()),
    ensures
        r1 == r2,
{
}

/// Law: a failed owned downcast is a round trip. The box that comes back is
/// the box that went in, so everything that holds of the original — its
/// identifier, every later test and downcast — holds of the returned box.
pub proof fn law_failed_downcast_returns_original<T>(b: AnyBox, t: Tag<T>, r: Result<
    Box<T>,
    AnyBox,
>)
    requires
        (r is Ok) <==> b.kind() == t.key(),
        (r is Err) ==> r->Err_0 == b,
        r is Err,
    ensures
        r->Err_0 == b,
        r->Err_0.kind() == b.kind(),
        b.kind() != t.key(),
{
}

} // verus!
