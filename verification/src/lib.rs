//! Signature synthesis for database-defined functions.
//!
//! Given a function's declared parameter types, return type, strictness and
//! set-returning flag, this library produces a precise, fully wrapped
//! signature description: each parameter paired with its (possibly
//! absence-wrapped) type, and a return type carrying an error channel, a
//! nullability layer and, for set-returning functions, a lazy-sequence layer.

pub mod types;
pub mod resolver;
pub mod signature;
