//! Runtime type identification and safe downcasting for values whose concrete
//! type has been erased, together with a model of the code-generation step
//! that attaches the downcasting methods to a user-declared trait.
//!
//! A concrete type is identified at runtime by an opaque [`TypeId`]; a
//! [`Tag`] binds such an identifier to the type it identifies. A value of any
//! `'static` type can be stored in an [`AnyBox`], which supports a type-check
//! predicate and checked and unchecked downcasts back to the original type.
//! The [`Any`] trait gives a type access to its own tag and identifier, and
//! [`expand`] models the generation of the downcasting methods for a
//! described trait.

pub mod dynamic;
pub mod erased;
pub mod expand;
pub mod ids;

pub use dynamic::Any;
pub use dynamic::AnyBox;
pub use ids::Tag;
pub use ids::TypeId;
