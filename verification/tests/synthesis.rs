use sigsynth::resolver::{MapResolver, ResolverEntry, TypeResolver};
use sigsynth::signature::{check_binding_name, CrateVariant, ErrorSlot, Parameter, SignatureError};
use sigsynth::types::{TypeExpr, TypeId};

fn base(name: &str) -> TypeExpr {
    TypeExpr::Base(String::from(name))
}

fn nullable(inner: TypeExpr) -> TypeExpr {
    TypeExpr::Nullable(Box::new(inner))
}

fn set_of(inner: TypeExpr) -> TypeExpr {
    TypeExpr::SetOf(Box::new(inner))
}

fn fallible(inner: TypeExpr) -> TypeExpr {
    TypeExpr::Fallible(Box::new(inner))
}

const INT4: TypeId = TypeId(23);
const TEXT: TypeId = TypeId(25);

/// A resolver that maps the int4 and text identifiers to their base types in
/// both positions and knows nothing else.
fn standard_resolver() -> MapResolver {
    MapResolver {
        entries: vec![
            ResolverEntry {
                id: INT4,
                argument_type: base("i32"),
                return_type: base("i32"),
            },
            ResolverEntry {
                id: TEXT,
                argument_type: base("&str"),
                return_type: base("String"),
            },
        ],
    }
}

fn params(pairs: &[(TypeId, &str)]) -> Vec<(TypeId, String)> {
    pairs.iter().map(|(id, name)| (*id, String::from(*name))).collect()
}

#[test]
fn scalar_strict_single_parameter() {
    let resolver = standard_resolver();
    let r = CrateVariant::function(params(&[(INT4, "x")]), INT4, false, true, &resolver);
    match r {
        Ok(CrateVariant::Function {
            arguments,
            return_type,
            return_type_id,
            return_set,
            is_strict,
        }) => {
            assert_eq!(arguments.len(), 1);
            assert_eq!(arguments[0].name, "x");
            assert_eq!(arguments[0].ty, base("i32"));
            assert_eq!(return_type, fallible(nullable(base("i32"))));
            assert_eq!(return_type_id, INT4);
            assert!(!return_set);
            assert!(is_strict);
        }
        other => panic!("expected a function signature, got {:?}", other),
    }
}

#[test]
fn scalar_non_strict_wraps_parameter_once() {
    let resolver = standard_resolver();
    let r = CrateVariant::function(params(&[(INT4, "x")]), INT4, false, false, &resolver);
    match r {
        Ok(CrateVariant::Function { arguments, return_type, .. }) => {
            assert_eq!(arguments.len(), 1);
            assert_eq!(arguments[0].name, "x");
            assert_eq!(arguments[0].ty, nullable(base("i32")));
            // The return type is unchanged by strictness.
            assert_eq!(return_type, fallible(nullable(base("i32"))));
        }
        other => panic!("expected a function signature, got {:?}", other),
    }
}

#[test]
fn strictness_applies_to_every_parameter_uniformly() {
    let resolver = standard_resolver();
    let shape = params(&[(INT4, "a"), (TEXT, "b"), (INT4, "c")]);
    match CrateVariant::function(shape.clone(), INT4, false, true, &resolver) {
        Ok(CrateVariant::Function { arguments, .. }) => {
            assert_eq!(arguments[0].ty, base("i32"));
            assert_eq!(arguments[1].ty, base("&str"));
            assert_eq!(arguments[2].ty, base("i32"));
        }
        other => panic!("expected a function signature, got {:?}", other),
    }
    match CrateVariant::function(shape, INT4, false, false, &resolver) {
        Ok(CrateVariant::Function { arguments, .. }) => {
            assert_eq!(arguments[0].ty, nullable(base("i32")));
            assert_eq!(arguments[1].ty, nullable(base("&str")));
            assert_eq!(arguments[2].ty, nullable(base("i32")));
        }
        other => panic!("expected a function signature, got {:?}", other),
    }
}

#[test]
fn set_returning_adds_one_sequence_layer() {
    let resolver = standard_resolver();
    let r = CrateVariant::function(params(&[]), TEXT, true, true, &resolver);
    match r {
        Ok(CrateVariant::Function { return_type, return_set, .. }) => {
            assert_eq!(
                return_type,
                fallible(nullable(set_of(nullable(base("String")))))
            );
            assert!(return_set);
        }
        other => panic!("expected a function signature, got {:?}", other),
    }
}

#[test]
fn trigger_is_the_fixed_marker() {
    // Trigger synthesis takes no resolver at all, so no resolution can occur,
    // and it cannot fail.
    let r = CrateVariant::trigger();
    assert_eq!(r, CrateVariant::Trigger);
}

#[test]
fn unresolvable_parameter_names_its_position() {
    let resolver = standard_resolver();
    let shape = params(&[(INT4, "a"), (TEXT, "b"), (TypeId(9999), "c")]);
    let r = CrateVariant::function(shape, INT4, false, true, &resolver);
    assert_eq!(
        r,
        Err(SignatureError::Unresolvable(ErrorSlot::Argument(2)))
    );
}

#[test]
fn unresolvable_return_type_names_the_return_slot() {
    let resolver = standard_resolver();
    let r = CrateVariant::function(params(&[(INT4, "a")]), TypeId(9999), false, true, &resolver);
    assert_eq!(r, Err(SignatureError::Unresolvable(ErrorSlot::ReturnValue)));
}

#[test]
fn invalid_binding_name_names_its_position() {
    let resolver = standard_resolver();
    let shape = params(&[(INT4, "ok_name"), (INT4, "1bad")]);
    let r = CrateVariant::function(shape, INT4, false, true, &resolver);
    assert_eq!(r, Err(SignatureError::InvalidBinding(1)));
}

#[test]
fn first_failing_parameter_wins() {
    let resolver = standard_resolver();
    // Parameter 0 has an invalid name; parameter 1 is unmappable. The first
    // failing slot in declaration order is reported.
    let shape = params(&[(INT4, "not a name"), (TypeId(9999), "fine")]);
    let r = CrateVariant::function(shape, INT4, false, true, &resolver);
    assert_eq!(r, Err(SignatureError::InvalidBinding(0)));
}

#[test]
fn resolution_is_checked_before_the_binding_name() {
    let resolver = standard_resolver();
    // Parameter 0 is both unmappable and badly named: resolution is checked
    // first within a slot.
    let shape = params(&[(TypeId(9999), "also bad")]);
    let r = CrateVariant::function(shape, INT4, false, true, &resolver);
    assert_eq!(r, Err(SignatureError::Unresolvable(ErrorSlot::Argument(0))));
}

#[test]
fn parameter_order_is_preserved() {
    let resolver = standard_resolver();
    let shape = params(&[(INT4, "delta"), (TEXT, "alpha"), (INT4, "echo"), (TEXT, "bravo")]);
    match CrateVariant::function(shape, INT4, false, true, &resolver) {
        Ok(CrateVariant::Function { arguments, .. }) => {
            let names: Vec<&str> = arguments.iter().map(|p| p.name.as_str()).collect();
            assert_eq!(names, vec!["delta", "alpha", "echo", "bravo"]);
        }
        other => panic!("expected a function signature, got {:?}", other),
    }
}

#[test]
fn function_with_no_parameters_succeeds() {
    let resolver = standard_resolver();
    let r = CrateVariant::function(params(&[]), INT4, false, false, &resolver);
    match r {
        Ok(CrateVariant::Function { arguments, return_type, .. }) => {
            assert!(arguments.is_empty());
            assert_eq!(return_type, fallible(nullable(base("i32"))));
        }
        other => panic!("expected a function signature, got {:?}", other),
    }
}

#[test]
fn argument_and_return_positions_resolve_independently() {
    let resolver = standard_resolver();
    // The text identifier maps to `&str` in argument position but to
    // `String` in return position.
    let r = CrateVariant::function(params(&[(TEXT, "t")]), TEXT, false, true, &resolver);
    match r {
        Ok(CrateVariant::Function { arguments, return_type, .. }) => {
            assert_eq!(arguments[0].ty, base("&str"));
            assert_eq!(return_type, fallible(nullable(base("String"))));
        }
        other => panic!("expected a function signature, got {:?}", other),
    }
}

#[test]
fn resolver_answers_from_the_first_matching_entry() {
    let resolver = MapResolver {
        entries: vec![
            ResolverEntry {
                id: INT4,
                argument_type: base("first"),
                return_type: base("first_ret"),
            },
            ResolverEntry {
                id: INT4,
                argument_type: base("second"),
                return_type: base("second_ret"),
            },
        ],
    };
    assert_eq!(resolver.resolve(INT4, false), Some(base("first")));
    assert_eq!(resolver.resolve(INT4, true), Some(base("first_ret")));
}

#[test]
fn resolver_misses_an_unknown_identifier() {
    let resolver = standard_resolver();
    assert_eq!(resolver.resolve(TypeId(424242), false), None);
    assert_eq!(resolver.resolve(TypeId(424242), true), None);
}

#[test]
fn deep_clone_copies_the_whole_expression() {
    let t = fallible(nullable(set_of(nullable(base("String")))));
    assert_eq!(t.deep_clone(), t);
    assert_eq!(t.clone(), t);
}

#[test]
fn binding_name_validity() {
    assert!(check_binding_name("x"));
    assert!(check_binding_name("_x"));
    assert!(check_binding_name("snake_case_2"));
    assert!(check_binding_name("CamelCase"));
    assert!(!check_binding_name(""));
    assert!(!check_binding_name("_"));
    assert!(!check_binding_name("1bad"));
    assert!(!check_binding_name("has space"));
    assert!(!check_binding_name("has-dash"));
    assert!(!check_binding_name("caf\u{e9}"));
}

#[test]
fn synthesized_parameters_compare_by_value() {
    let p = Parameter { name: String::from("x"), ty: base("i32") };
    let q = Parameter { name: String::from("x"), ty: base("i32") };
    assert_eq!(p, q);
}
