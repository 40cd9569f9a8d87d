//! The signature synthesizer.
//!
//! Given a function's declared shape — an ordered list of (type identifier,
//! binding name) pairs, a return type identifier, a set-returning flag and a
//! strictness flag — synthesis resolves every type through a
//! [`TypeResolver`](crate::resolver::TypeResolver) and applies the wrapping
//! rules in a fixed order: non-strict parameters are absence-wrapped, the
//! return type is absence-wrapped unconditionally, set-returning functions add
//! a lazy-sequence layer, and the whole return type carries the fallible
//! wrapper. Trigger synthesis needs no resolution at all and cannot fail.

use vstd::prelude::*;
use crate::types::{TypeId, TypeExpr};
use crate::resolver::TypeResolver;

verus! {

/// Which slot of the declared shape a failure concerns: a parameter, by its
/// zero-based position, or the return type.
#[derive(Clone, Copy, Debug, PartialEq, Eq, Structural)]
pub enum ErrorSlot {
    Argument(usize),
    ReturnValue,
}

/// Why synthesis failed. Both failures are non-retryable and abort synthesis
/// for the whole function definition: no partial signature is ever produced.
#[derive(Clone, Copy, Debug, PartialEq, Eq, Structural)]
pub enum SignatureError {
    /// The type identifier in the named slot has no known mapping.
    Unresolvable(ErrorSlot),
    /// The binding name of the parameter at the given position is not a valid
    /// binding identifier in the target language.
    InvalidBinding(usize),
}

/// A synthesized parameter declaration: a binding name paired with its fully
/// wrapped type.
#[derive(Clone, Debug, PartialEq, Eq)]
pub struct Parameter {
    pub name: String,
    pub ty: TypeExpr,
}

/// A synthesized signature: either a scalar/set-returning function signature,
/// or the fixed trigger marker. The two variants share no fields; the trigger
/// signature is fixed by the host engine's invocation convention and carries
/// no parameter or return information.
#[must_use]
#[derive(Clone, Debug, PartialEq, Eq)]
pub enum CrateVariant {
    Function {
        arguments: Vec<Parameter>,
        return_type: TypeExpr,
        return_type_id: TypeId,
        return_set: bool,
        is_strict: bool,
    },
    Trigger,
}

/// Whether `c` may begin a binding identifier: an ASCII letter or underscore.
pub open spec fn is_ident_start_char(c: char) -> bool {
    ||| ('a' as u32) <= (c as u32) && (c as u32) <= ('z' as u32)
    ||| ('A' as u32) <= (c as u32) && (c as u32) <= ('Z' as u32)
    ||| (c as u32) == ('_' as u32)
}

/// Whether `c` may continue a binding identifier: an ASCII letter, digit or
/// underscore.
pub open spec fn is_ident_continue_char(c: char) -> bool {
    ||| is_ident_start_char(c)
    ||| ('0' as u32) <= (c as u32) && (c as u32) <= ('9' as u32)
}

/// Whether `s` is a valid binding identifier of the target language: nonempty,
/// beginning with a letter or underscore, continuing with letters, digits or
/// underscores, and not the reserved wildcard that a lone underscore names.
pub open spec fn is_valid_binding_name(s: Seq<char>) -> bool {
    &&& s.len() > 0
    &&& is_ident_start_char(s[0])
    &&& forall|i: int| 1 <= i < s.len() ==> is_ident_continue_char(#[trigger] s[i])
    &&& !(s.len() == 1 && (s[0] as u32) == ('_' as u32))
}

/// Decide whether `name` is a valid binding identifier.
pub fn check_binding_name(name: &str) -> (r: bool)
    ensures
        r == is_valid_binding_name(name@),
{
    let n = name.unicode_len();
    if n == 0 {
        return false;
    }
    let c0 = name.get_char(0);
    let start_ok = (('a' as u32) <= (c0 as u32) && (c0 as u32) <= ('z' as u32))
        || (('A' as u32) <= (c0 as u32) && (c0 as u32) <= ('Z' as u32))
        || ((c0 as u32) == ('_' as u32));
    if !start_ok {
        return false;
    }
    if n == 1 && (c0 as u32) == ('_' as u32) {
        return false;
    }
    let mut i: usize = 1;
    while i < n
        invariant
            1 <= i <= n,
            n == name@.len(),
            forall|k: int| 1 <= k < i ==> is_ident_continue_char(#[trigger] name@[k]),
        decreases n - i,
    {
        let c = name.get_char(i);
        let cont_ok = (('a' as u32) <= (c as u32) && (c as u32) <= ('z' as u32))
            || (('A' as u32) <= (c as u32) && (c as u32) <= ('Z' as u32))
            || ((c as u32) == ('_' as u32))
            || (('0' as u32) <= (c as u32) && (c as u32) <= ('9' as u32));
        if !cont_ok {
            return false;
        }
        i += 1;
    }
    true
}

/// The type of a synthesized parameter: the resolved base type, absence-wrapped
/// exactly when the function is not strict. Strictness is applied uniformly,
/// never per parameter.
pub open spec fn wrapped_param_type(base: TypeExpr, is_strict: bool) -> TypeExpr {
    if is_strict {
        base
    } else {
        TypeExpr::Nullable(Box::new(base))
    }
}

/// The synthesized return type: the resolved base type absence-wrapped
/// unconditionally (strictness governs inputs, not outputs), under a
/// lazy-sequence layer and a second absence wrapper when the function returns
/// a set, and under the fallible wrapper in every case.
pub open spec fn wrapped_return_type(base: TypeExpr, return_set: bool) -> TypeExpr {
    let nullable = TypeExpr::Nullable(Box::new(base));
    if return_set {
        TypeExpr::Fallible(
            Box::new(TypeExpr::Nullable(Box::new(TypeExpr::SetOf(Box::new(nullable))))),
        )
    } else {
        TypeExpr::Fallible(Box::new(nullable))
    }
}

/// Whether a declared parameter can be synthesized: its type identifier
/// resolves in argument position and its binding name is valid.
pub open spec fn param_ok<R: TypeResolver>(resolver: &R, p: (TypeId, String)) -> bool {
    &&& resolver.base_type(p.0, false) is Some
    &&& is_valid_binding_name(p.1@)
}

/// Whether `out` is the parameter declaration synthesized from the declared
/// pair `p`: the same binding name, paired with the resolved base type in
/// argument position, absence-wrapped exactly when the function is not strict.
pub open spec fn param_synthesized<R: TypeResolver>(
    resolver: &R,
    p: (TypeId, String),
    is_strict: bool,
    out: Parameter,
) -> bool {
    &&& out.name@ == p.1@
    &&& resolver.base_type(p.0, false) matches Some(base) && out.ty == wrapped_param_type(
        base,
        is_strict,
    )
}

/// Which failure synthesis reports for a declared shape: always the first
/// failing slot in declaration order, parameters before the return type, and
/// within a parameter resolution before the binding-name check.
pub open spec fn error_explained<R: TypeResolver>(
    resolver: &R,
    params: Seq<(TypeId, String)>,
    return_type_id: TypeId,
    e: SignatureError,
) -> bool {
    match e {
        SignatureError::Unresolvable(slot) => match slot {
            ErrorSlot::Argument(i) => {
                &&& i < params.len()
                &&& resolver.base_type(params[i as int].0, false) is None
                &&& forall|k: int| 0 <= k < i ==> param_ok(resolver, #[trigger] params[k])
            },
            ErrorSlot::ReturnValue => {
                &&& forall|k: int|
                    0 <= k < params.len() ==> param_ok(resolver, #[trigger] params[k])
                &&& resolver.base_type(return_type_id, true) is None
            },
        },
        SignatureError::InvalidBinding(i) => {
            &&& i < params.len()
            &&& resolver.base_type(params[i as int].0, false) is Some
            &&& !is_valid_binding_name(params[i as int].1@)
            &&& forall|k: int| 0 <= k < i ==> param_ok(resolver, #[trigger] params[k])
        },
    }
}

impl CrateVariant {
    /// Synthesize a scalar or set-returning function signature from the
    /// declared shape, resolving every type through `resolver`.
    ///
    /// Succeeds exactly when every parameter resolves in argument position
    /// under a valid binding name and the return type resolves in return
    /// position; otherwise reports the first failing slot in declaration
    /// order and produces no partial signature.
    pub fn function<R: TypeResolver>(
        argument_type_ids_and_names: Vec<(TypeId, String)>,
        return_type_id: TypeId,
        return_set: bool,
        is_strict: bool,
        resolver: &R,
    ) -> (r: Result<CrateVariant, SignatureError>)
        ensures
            (r is Ok <==> {
                &&& forall|k: int|
                    0 <= k < argument_type_ids_and_names@.len() ==> param_ok(
                        resolver,
                        #[trigger] argument_type_ids_and_names@[k],
                    )
                &&& resolver.base_type(return_type_id, true) is Some
            }),
            r matches Ok(v) ==> {
                &&& v matches CrateVariant::Function {
                    arguments,
                    return_type,
                    return_type_id: rid,
                    return_set: rset,
                    is_strict: strict,
                }
                &&& arguments@.len() == argument_type_ids_and_names@.len()
                &&& forall|k: int|
                    0 <= k < arguments@.len() ==> param_synthesized(
                        resolver,
                        argument_type_ids_and_names@[k],
                        is_strict,
                        #[trigger] arguments@[k],
                    )
                &&& resolver.base_type(return_type_id, true) matches Some(base) && return_type
                    == wrapped_return_type(base, return_set)
                &&& rid == return_type_id
                &&& rset == return_set
                &&& strict == is_strict
            },
            r matches Err(e) ==> error_explained(
                resolver,
                argument_type_ids_and_names@,
                return_type_id,
                e,
            ),
    {
        let n = argument_type_ids_and_names.len();
        let mut arguments: Vec<Parameter> = Vec::new();
        let mut i: usize = 0;
        while i < n
            invariant
                i <= n,
                n == argument_type_ids_and_names@.len(),
                arguments@.len() == i,
                forall|k: int|
                    0 <= k < i ==> param_ok(resolver, #[trigger] argument_type_ids_and_names@[k]),
                forall|k: int|
                    0 <= k < i ==> param_synthesized(
                        resolver,
                        argument_type_ids_and_names@[k],
                        is_strict,
                        #[trigger] arguments@[k],
                    ),
            decreases n - i,
        {
            let pair = &argument_type_ids_and_names[i];
            match resolver.resolve(pair.0, false) {
                None => {
                    return Err(SignatureError::Unresolvable(ErrorSlot::Argument(i)));
                },
                Some(base) => {
                    if !check_binding_name(pair.1.as_str()) {
                        return Err(SignatureError::InvalidBinding(i));
                    }
                    let ty = if is_strict {
                        base
                    } else {
                        TypeExpr::Nullable(Box::new(base))
                    };
                    let name = pair.1.clone();
                    arguments.push(Parameter { name, ty });
                },
            }
            i += 1;
        }
        match resolver.resolve(return_type_id, true) {
            None => Err(SignatureError::Unresolvable(ErrorSlot::ReturnValue)),
            Some(base) => {
                let nullable = TypeExpr::Nullable(Box::new(base));
                let inner = if return_set {
                    TypeExpr::Nullable(Box::new(TypeExpr::SetOf(Box::new(nullable))))
                } else {
                    nullable
                };
                let return_type = TypeExpr::Fallible(Box::new(inner));
                Ok(
                    CrateVariant::Function {
                        arguments,
                        return_type,
                        return_type_id,
                        return_set,
                        is_strict,
                    },
                )
            },
        }
    }

    /// Synthesize the trigger signature: the fixed marker, with no parameter
    /// or return information. No resolver is consulted — the signature takes
    /// none — and the operation cannot fail.
    pub fn trigger() -> (r: CrateVariant)
        ensures
            r == CrateVariant::Trigger,
    {
        CrateVariant::Trigger
    }
}

/// Law: a strict function's parameter type is the resolved base type itself;
/// no absence wrapper is added anywhere.
pub proof fn lemma_strict_param_unwrapped(base: TypeExpr)
    ensures
        wrapped_param_type(base, true) == base,
        wrapped_param_type(base, true).nullable_count() == base.nullable_count(),
{
}

/// Law: a non-strict function's parameter type is the resolved base type
/// wrapped in exactly one absence wrapper.
pub proof fn lemma_non_strict_param_wrapped_once(base: TypeExpr)
    ensures
        wrapped_param_type(base, false) matches TypeExpr::Nullable(inner) && *inner == base,
        wrapped_param_type(base, false).nullable_count() == base.nullable_count() + 1,
{
}

/// Law: strictness is applied uniformly to the synthesized parameters. Every
/// parameter declaration of a strict function carries its resolved base type
/// itself; every parameter declaration of a non-strict function carries the
/// base type wrapped in exactly one absence wrapper.
pub proof fn lemma_param_strictness_uniform<R: TypeResolver>(
    resolver: &R,
    p: (TypeId, String),
    is_strict: bool,
    out: Parameter,
)
    requires
        param_synthesized(resolver, p, is_strict, out),
    ensures
        resolver.base_type(p.0, false) matches Some(base) && {
            &&& is_strict ==> out.ty == base
            &&& !is_strict ==> (out.ty matches TypeExpr::Nullable(inner) && *inner == base)
            &&& out.ty.nullable_count() == base.nullable_count() + if is_strict {
                0nat
            } else {
                1nat
            }
        },
{
}

/// Law: whatever the flags, the synthesized return type is exactly one
/// fallible wrapper, immediately around an absence wrapper; the fallible
/// wrapper is never added elsewhere. Exactly one absence wrapper lies
/// directly under the fallible wrapper; a set-returning function's
/// lazy-sequence layer carries one more around its element type.
pub proof fn lemma_return_wrapping(base: TypeExpr, return_set: bool)
    ensures
        wrapped_return_type(base, return_set) matches TypeExpr::Fallible(inner)
            && *inner matches TypeExpr::Nullable(_),
        wrapped_return_type(base, return_set).fallible_count() == base.fallible_count() + 1,
        wrapped_return_type(base, return_set).nullable_count() == base.nullable_count()
            + if return_set { 2nat } else { 1nat },
{
    reveal_with_fuel(TypeExpr::fallible_count, 5);
    reveal_with_fuel(TypeExpr::nullable_count, 5);
}

/// Law: a set-returning function's return type carries exactly one
/// lazy-sequence wrapper, between the fallible wrapper and an absence wrapper
/// and itself wrapping the absence-wrapped base; without the set-returning
/// flag no lazy-sequence wrapper is added.
pub proof fn lemma_set_wrapper_position(base: TypeExpr, return_set: bool)
    ensures
        wrapped_return_type(base, return_set).set_of_count() == base.set_of_count()
            + if return_set { 1nat } else { 0nat },
        return_set ==> wrapped_return_type(base, return_set) == TypeExpr::Fallible(
            Box::new(
                TypeExpr::Nullable(
                    Box::new(TypeExpr::SetOf(Box::new(TypeExpr::Nullable(Box::new(base))))),
                ),
            ),
        ),
        !return_set ==> wrapped_return_type(base, return_set) == TypeExpr::Fallible(
            Box::new(TypeExpr::Nullable(Box::new(base))),
        ),
{
    reveal_with_fuel(TypeExpr::set_of_count, 5);
}

} // verus!
