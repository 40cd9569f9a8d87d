//! The model of target-language type expressions.
//!
//! A resolved base type is carried by name; around it the synthesizer layers
//! three wrappers: an absence wrapper ("a value, or nothing"), a lazy-sequence
//! wrapper (set-returning functions yield zero or more values), and a fallible
//! wrapper (every synthesized return type has an error channel whose error is
//! an opaque, thread-safe value).

use vstd::prelude::*;

verus! {

/// An opaque handle naming a type known to the host database engine.
#[derive(Clone, Copy, Debug, PartialEq, Eq, Hash, Structural)]
pub struct TypeId(pub u32);

/// A type expression of the target language, as the synthesizer sees it:
/// a resolved base type, or one of the three wrapping layers around another
/// type expression.
#[derive(Debug, PartialEq, Eq)]
pub enum TypeExpr {
    /// A base type expression produced by the type resolver, carried by name.
    Base(String),
    /// The absence wrapper: a value of the inner type, or nothing.
    Nullable(Box<TypeExpr>),
    /// The lazy-sequence wrapper: a lazy, finite, non-restartable sequence of
    /// values of the inner type, valid for the surrounding invocation.
    SetOf(Box<TypeExpr>),
    /// The fallible wrapper: the inner type on success, or an opaque,
    /// dynamically-typed, thread-safe error.
    Fallible(Box<TypeExpr>),
}

impl TypeExpr {
    /// How many absence wrappers the expression contains, at any depth.
    pub open spec fn nullable_count(self) -> nat
        decreases self,
    {
        match self {
            TypeExpr::Base(_) => 0,
            TypeExpr::Nullable(inner) => 1 + inner.nullable_count(),
            TypeExpr::SetOf(inner) => inner.nullable_count(),
            TypeExpr::Fallible(inner) => inner.nullable_count(),
        }
    }

    /// How many lazy-sequence wrappers the expression contains, at any depth.
    pub open spec fn set_of_count(self) -> nat
        decreases self,
    {
        match self {
            TypeExpr::Base(_) => 0,
            TypeExpr::Nullable(inner) => inner.set_of_count(),
            TypeExpr::SetOf(inner) => 1 + inner.set_of_count(),
            TypeExpr::Fallible(inner) => inner.set_of_count(),
        }
    }

    /// How many fallible wrappers the expression contains, at any depth.
    pub open spec fn fallible_count(self) -> nat
        decreases self,
    {
        match self {
            TypeExpr::Base(_) => 0,
            TypeExpr::Nullable(inner) => inner.fallible_count(),
            TypeExpr::SetOf(inner) => inner.fallible_count(),
            TypeExpr::Fallible(inner) => 1 + inner.fallible_count(),
        }
    }

    /// A structural copy of the expression, equal to the original.
    pub fn deep_clone(&self) -> (r: TypeExpr)
        ensures
            r == *self,
        decreases *self,
    {
        match self {
            TypeExpr::Base(name) => TypeExpr::Base(name.clone()),
            TypeExpr::Nullable(inner) => TypeExpr::Nullable(Box::new(inner.deep_clone())),
            TypeExpr::SetOf(inner) => TypeExpr::SetOf(Box::new(inner.deep_clone())),
            TypeExpr::Fallible(inner) => TypeExpr::Fallible(Box::new(inner.deep_clone())),
        }
    }
}

impl Clone for TypeExpr {
    /// Cloning a type expression yields an equal expression.
    fn clone(&self) -> (r: TypeExpr)
        ensures
            r == *self,
    {
        self.deep_clone()
    }
}

} // verus!
