//! The composition machinery: build pipeline, slot table, recursion
//! guard, error locations, names and structural questions.

use validator_core::errors::{ErrorKind, LocItem, ValError};
use validator_core::pipeline::build_schema;
use validator_core::schema::{BuildError, Config, Schema};
use validator_core::validators::{CombinedValidator, FactoryState, Question};
use validator_core::value::{clone_value, value_eq, Value};
use validator_core::with_default::{DefaultType, OnError, WithDefaultValidator};

fn cfg() -> Config {
    Config { validate_default: None }
}

fn nested(depth: usize) -> Value {
    let mut v = Value::List(vec![]);
    for _ in 0..depth {
        v = Value::List(vec![v]);
    }
    v
}

#[test]
fn unknown_discriminator_is_named_in_the_error() {
    let s = Schema::Unknown { kind: String::from("tuple-positional") };
    match build_schema(&s, &cfg(), 16) {
        Err(BuildError::UnknownKind(k)) => assert_eq!(k, "tuple-positional"),
        _ => panic!("expected the discriminator to be reported"),
    }
}

#[test]
fn duplicate_reference_ids_fail_the_build() {
    let s = Schema::Recursive {
        id: 1,
        schema: Box::new(Schema::Recursive { id: 1, schema: Box::new(Schema::Int) }),
    };
    match build_schema(&s, &cfg(), 16) {
        Err(BuildError::DuplicateRef(1)) => {}
        _ => panic!("expected a duplicate reference error"),
    }
}

#[test]
fn unresolved_reference_fails_after_completion() {
    let s = Schema::Ref { id: 7 };
    match build_schema(&s, &cfg(), 16) {
        Err(BuildError::UnresolvedRef(7)) => {}
        _ => panic!("expected an unresolved reference error"),
    }
}

#[test]
fn recursive_schema_validates_bounded_input() {
    let s = Schema::Recursive {
        id: 1,
        schema: Box::new(Schema::List { item: Box::new(Schema::Ref { id: 1 }) }),
    };
    let sv = build_schema(&s, &cfg(), 16).ok().unwrap();
    let mut fs = FactoryState::new();
    let input = nested(3);
    match sv.validate(&input, false, &mut fs) {
        Ok(v) => assert!(value_eq(&v, &input)),
        _ => panic!("expected shallow nesting to validate"),
    }
}

#[test]
fn recursion_past_the_ceiling_is_a_recursion_error() {
    let s = Schema::Recursive {
        id: 1,
        schema: Box::new(Schema::List { item: Box::new(Schema::Ref { id: 1 }) }),
    };
    let sv = build_schema(&s, &cfg(), 4).ok().unwrap();
    let mut fs = FactoryState::new();
    match sv.validate(&nested(10), false, &mut fs) {
        Err(ValError::LineErrors(lines)) => {
            assert_eq!(lines.len(), 1);
            assert!(matches!(lines[0].kind, ErrorKind::RecursionLoop));
        }
        _ => panic!("expected a recursion error"),
    }
}

#[test]
fn self_substituting_default_is_cut_as_a_cycle() {
    // A decorator that substitutes a validated default which itself
    // fails validation would retry the same default forever; the guard
    // reports a recursion error instead.
    let s = Schema::WithDefault {
        default: Some(Value::Str(String::from("bad"))),
        default_factory: None,
        on_error: Some(OnError::Substitute),
        validate_default: Some(true),
        schema: Box::new(Schema::Int),
    };
    let sv = build_schema(&s, &cfg(), 16).ok().unwrap();
    let mut fs = FactoryState::new();
    match sv.validate(&Value::Str(String::from("abc")), false, &mut fs) {
        Err(ValError::LineErrors(lines)) => {
            assert!(matches!(lines[0].kind, ErrorKind::RecursionLoop));
        }
        _ => panic!("expected a recursion error"),
    }
}

#[test]
fn list_collects_located_element_errors() {
    let s = Schema::List { item: Box::new(Schema::Int) };
    let sv = build_schema(&s, &cfg(), 16).ok().unwrap();
    let mut fs = FactoryState::new();
    let input = Value::List(vec![
        Value::Int(1),
        Value::Str(String::from("x")),
        Value::Null,
    ]);
    match sv.validate(&input, false, &mut fs) {
        Err(ValError::LineErrors(lines)) => {
            assert_eq!(lines.len(), 2);
            assert!(matches!(lines[0].kind, ErrorKind::IntParsing));
            assert!(matches!(lines[0].location[0], LocItem::Index(1)));
            assert!(matches!(lines[1].kind, ErrorKind::IntType));
            assert!(matches!(lines[1].location[0], LocItem::Index(2)));
        }
        _ => panic!("expected located element errors"),
    }
}

#[test]
fn non_list_input_is_a_list_type_error() {
    let s = Schema::List { item: Box::new(Schema::Int) };
    let sv = build_schema(&s, &cfg(), 16).ok().unwrap();
    let mut fs = FactoryState::new();
    match sv.validate(&Value::Int(3), false, &mut fs) {
        Err(ValError::LineErrors(lines)) => {
            assert_eq!(lines.len(), 1);
            assert!(matches!(lines[0].kind, ErrorKind::ListType));
            assert_eq!(lines[0].location.len(), 0);
        }
        _ => panic!("expected a list type error"),
    }
}

#[test]
fn any_accepts_every_value_unchanged() {
    let sv = build_schema(&Schema::Any, &cfg(), 16).ok().unwrap();
    let mut fs = FactoryState::new();
    let input = Value::List(vec![Value::Null, Value::Str(String::from("keep"))]);
    match sv.validate(&input, true, &mut fs) {
        Ok(v) => assert!(value_eq(&v, &input)),
        _ => panic!("expected the input back"),
    }
}

#[test]
fn omit_is_consumed_by_the_enclosing_list() {
    // Elements whose decorator omits on failure are dropped silently;
    // the omit sentinel never reaches the caller.
    let item = Schema::WithDefault {
        default: None,
        default_factory: None,
        on_error: Some(OnError::Omit),
        validate_default: None,
        schema: Box::new(Schema::Int),
    };
    let s = Schema::List { item: Box::new(item) };
    let sv = build_schema(&s, &cfg(), 16).ok().unwrap();
    let mut fs = FactoryState::new();
    let input = Value::List(vec![
        Value::Int(1),
        Value::Str(String::from("drop me")),
        Value::Int(2),
    ]);
    match sv.validate(&input, false, &mut fs) {
        Ok(v) => assert!(value_eq(&v, &Value::List(vec![Value::Int(1), Value::Int(2)]))),
        _ => panic!("expected the failing element to be dropped"),
    }
}

#[test]
fn lax_integer_coercion_parses_decimal_strings() {
    let sv = build_schema(&Schema::Int, &cfg(), 16).ok().unwrap();
    let mut fs = FactoryState::new();
    let cases: [(&str, i64); 5] = [
        ("123", 123),
        ("-42", -42),
        ("00042", 42),
        ("9223372036854775807", i64::MAX),
        ("-9223372036854775808", i64::MIN),
    ];
    for (text, want) in cases {
        match sv.validate(&Value::Str(String::from(text)), false, &mut fs) {
            Ok(Value::Int(i)) => assert_eq!(i, want),
            _ => panic!("expected the string to coerce"),
        }
    }
    let bad = ["", "-", "abc", "12x", "9223372036854775808", "--3", " 1"];
    for text in bad {
        match sv.validate(&Value::Str(String::from(text)), false, &mut fs) {
            Err(ValError::LineErrors(lines)) => {
                assert!(matches!(lines[0].kind, ErrorKind::IntParsing));
            }
            _ => panic!("expected a parsing failure"),
        }
    }
    match sv.validate(&Value::Str(String::from("1")), true, &mut fs) {
        Err(ValError::LineErrors(lines)) => {
            assert!(matches!(lines[0].kind, ErrorKind::IntType));
        }
        _ => panic!("expected strict mode to reject strings"),
    }
}

#[test]
fn lax_integer_coercion_accepts_booleans() {
    let sv = build_schema(&Schema::Int, &cfg(), 16).ok().unwrap();
    let mut fs = FactoryState::new();
    match sv.validate(&Value::Bool(true), false, &mut fs) {
        Ok(Value::Int(1)) => {}
        _ => panic!("expected lax coercion to 1"),
    }
    match sv.validate(&Value::Bool(true), true, &mut fs) {
        Err(ValError::LineErrors(lines)) => {
            assert!(matches!(lines[0].kind, ErrorKind::IntType));
        }
        _ => panic!("expected strict mode to reject booleans"),
    }
}

#[test]
fn display_names_compose_through_decorators() {
    let s = Schema::WithDefault {
        default: Some(Value::Int(0)),
        default_factory: None,
        on_error: None,
        validate_default: None,
        schema: Box::new(Schema::List { item: Box::new(Schema::Int) }),
    };
    let sv = build_schema(&s, &cfg(), 16).ok().unwrap();
    assert_eq!(sv.get_name(), "default[list[int]]");
}

#[test]
fn structural_questions_are_forwarded_by_decorators() {
    let with_ref = Schema::Recursive {
        id: 1,
        schema: Box::new(Schema::List { item: Box::new(Schema::Ref { id: 1 }) }),
    };
    let sv = build_schema(&with_ref, &cfg(), 16).ok().unwrap();
    assert!(sv.ask(&Question::ContainsRef));

    let plain = Schema::WithDefault {
        default: Some(Value::Int(0)),
        default_factory: None,
        on_error: None,
        validate_default: None,
        schema: Box::new(Schema::Int),
    };
    let sv2 = build_schema(&plain, &cfg(), 16).ok().unwrap();
    assert!(!sv2.ask(&Question::ContainsRef));
}

#[test]
fn decorator_reports_its_own_configuration() {
    let w = WithDefaultValidator {
        default: DefaultType::Literal(Value::Int(1)),
        on_error: OnError::Omit,
        validator: Box::new(CombinedValidator::Int),
        validate_default: false,
        name: String::from("default[int]"),
        uid: 0,
    };
    assert!(w.has_default());
    assert!(w.omit_on_error());
    let w2 = WithDefaultValidator {
        default: DefaultType::NoDefault,
        on_error: OnError::Raise,
        validator: Box::new(CombinedValidator::Int),
        validate_default: false,
        name: String::from("default[int]"),
        uid: 1,
    };
    assert!(!w2.has_default());
    assert!(!w2.omit_on_error());
}

#[test]
fn errors_accumulate_outer_locations() {
    let e = ValError::new_line(ErrorKind::IntType, Value::Int(3));
    let e = e.with_outer_location(LocItem::Index(4));
    let e = e.with_outer_location(LocItem::Key(String::from("outer")));
    match e {
        ValError::LineErrors(lines) => {
            assert_eq!(lines.len(), 1);
            assert_eq!(lines[0].location.len(), 2);
            assert!(matches!(lines[0].location[0], LocItem::Index(4)));
            match &lines[0].location[1] {
                LocItem::Key(k) => assert_eq!(k, "outer"),
                _ => panic!("expected the outer key last"),
            }
        }
        _ => panic!("expected line errors"),
    }
}

#[test]
fn values_compare_and_copy_deeply() {
    let a = Value::List(vec![
        Value::Str(String::from("ab")),
        Value::List(vec![Value::Int(1), Value::Bool(false)]),
        Value::Null,
    ]);
    let b = clone_value(&a);
    assert!(value_eq(&a, &b));
    let c = Value::List(vec![
        Value::Str(String::from("ab")),
        Value::List(vec![Value::Int(2), Value::Bool(false)]),
        Value::Null,
    ]);
    assert!(!value_eq(&a, &c));
    assert!(!value_eq(&a, &Value::Int(0)));
}
