//! Behaviour of the default-value decorator: policies, defaults and
//! factory accounting.

use validator_core::errors::{ErrorKind, LocItem, ValError};
use validator_core::pipeline::build_schema;
use validator_core::schema::{BuildError, Config, Schema};
use validator_core::validators::FactoryState;
use validator_core::value::{value_eq, Value};
use validator_core::with_default::{DefaultType, OnError};

fn cfg() -> Config {
    Config { validate_default: None }
}

fn wd(
    default: Option<Value>,
    default_factory: Option<Value>,
    on_error: Option<OnError>,
    validate_default: Option<bool>,
    inner: Schema,
) -> Schema {
    Schema::WithDefault {
        default,
        default_factory,
        on_error,
        validate_default,
        schema: Box::new(inner),
    }
}

fn expect_int(r: Result<Value, ValError>, want: i64) {
    match r {
        Ok(Value::Int(i)) => assert_eq!(i, want),
        _ => panic!("expected integer result"),
    }
}

#[test]
fn conflicting_defaults_fail_build() {
    let s = wd(
        Some(Value::Int(0)),
        Some(Value::Int(1)),
        None,
        None,
        Schema::Int,
    );
    match build_schema(&s, &cfg(), 16) {
        Err(BuildError::ConflictingDefaults) => {}
        _ => panic!("expected a configuration error"),
    }
}

#[test]
fn default_type_rejects_both_sources() {
    match DefaultType::new(Some(Value::Int(0)), Some(Value::Int(1))) {
        Err(BuildError::ConflictingDefaults) => {}
        _ => panic!("expected a configuration error"),
    }
}

#[test]
fn substitute_without_default_fails_build() {
    let s = wd(None, None, Some(OnError::Substitute), None, Schema::Int);
    match build_schema(&s, &cfg(), 16) {
        Err(BuildError::SubstituteRequiresDefault) => {}
        _ => panic!("expected a configuration error"),
    }
}

#[test]
fn success_is_independent_of_policy() {
    let policies = [OnError::Raise, OnError::Omit, OnError::Substitute];
    for p in policies {
        let s = wd(Some(Value::Int(7)), None, Some(p), None, Schema::Int);
        let sv = build_schema(&s, &cfg(), 16).ok().unwrap();
        let mut fs = FactoryState::new();
        expect_int(sv.validate(&Value::Int(5), false, &mut fs), 5);
    }
}

#[test]
fn omit_policy_fails_with_omit_sentinel() {
    let s = wd(None, None, Some(OnError::Omit), None, Schema::Int);
    let sv = build_schema(&s, &cfg(), 16).ok().unwrap();
    let mut fs = FactoryState::new();
    match sv.validate(&Value::Str(String::from("abc")), false, &mut fs) {
        Err(ValError::Omit) => {}
        _ => panic!("expected the omit sentinel"),
    }
}

#[test]
fn raise_policy_propagates_inner_error_unchanged() {
    let bare = build_schema(&Schema::Int, &cfg(), 16).ok().unwrap();
    let s = wd(None, None, Some(OnError::Raise), None, Schema::Int);
    let decorated = build_schema(&s, &cfg(), 16).ok().unwrap();
    let mut fs = FactoryState::new();
    let input = Value::Str(String::from("abc"));
    let e1 = bare.validate(&input, false, &mut fs);
    let e2 = decorated.validate(&input, false, &mut fs);
    match (e1, e2) {
        (Err(ValError::LineErrors(a)), Err(ValError::LineErrors(b))) => {
            assert_eq!(a.len(), 1);
            assert_eq!(b.len(), 1);
            assert!(matches!(a[0].kind, ErrorKind::IntParsing));
            assert!(matches!(b[0].kind, ErrorKind::IntParsing));
            assert_eq!(a[0].location.len(), 0);
            assert_eq!(b[0].location.len(), 0);
            assert!(value_eq(&a[0].input, &b[0].input));
        }
        _ => panic!("expected identical line errors"),
    }
}

#[test]
fn substitute_returns_literal_default() {
    // Default literal 0, substitution policy, integer coercion inside,
    // input "abc": validate returns 0.
    let s = wd(
        Some(Value::Int(0)),
        None,
        Some(OnError::Substitute),
        None,
        Schema::Int,
    );
    let sv = build_schema(&s, &cfg(), 16).ok().unwrap();
    let mut fs = FactoryState::new();
    expect_int(sv.validate(&Value::Str(String::from("abc")), false, &mut fs), 0);
}

#[test]
fn unvalidated_default_is_returned_as_produced() {
    // The default is not of the inner validator's shape, but with
    // validate_default off it is trusted and returned untouched.
    let s = wd(
        Some(Value::Str(String::from("raw"))),
        None,
        Some(OnError::Substitute),
        Some(false),
        Schema::Int,
    );
    let sv = build_schema(&s, &cfg(), 16).ok().unwrap();
    let mut fs = FactoryState::new();
    match sv.validate(&Value::Str(String::from("abc")), false, &mut fs) {
        Ok(v) => assert!(value_eq(&v, &Value::Str(String::from("raw")))),
        _ => panic!("expected the unvalidated default"),
    }
}

#[test]
fn validated_factory_default_reports_enclosing_field() {
    // The factory produces ["x"], the inner validator wants a list of
    // integers, defaults are validated: the failure's location ends at
    // the enclosing field, not at a bare inner index.
    let factory_value = Value::List(vec![Value::Str(String::from("x"))]);
    let inner = Schema::List { item: Box::new(Schema::Int) };
    let s = wd(None, Some(factory_value), None, Some(true), inner);
    let sv = build_schema(&s, &cfg(), 16).ok().unwrap();
    let mut fs = FactoryState::new();
    let outer = Some(LocItem::Key(String::from("field")));
    match sv.default_value(outer, false, &mut fs) {
        Err(ValError::LineErrors(lines)) => {
            assert_eq!(lines.len(), 1);
            assert!(matches!(lines[0].kind, ErrorKind::IntParsing));
            // Locations are stored innermost first.
            assert_eq!(lines[0].location.len(), 2);
            assert!(matches!(lines[0].location[0], LocItem::Index(0)));
            match &lines[0].location[1] {
                LocItem::Key(k) => assert_eq!(k, "field"),
                _ => panic!("expected the enclosing field name"),
            }
        }
        _ => panic!("expected a located failure"),
    }
}

#[test]
fn no_default_reports_no_default_present() {
    let s = wd(None, None, None, None, Schema::Int);
    let sv = build_schema(&s, &cfg(), 16).ok().unwrap();
    let mut fs = FactoryState::new();
    match sv.default_value(None, false, &mut fs) {
        Ok(None) => {}
        _ => panic!("expected no default and no error"),
    }
}

#[test]
fn factory_runs_fresh_on_every_use() {
    let s = wd(None, Some(Value::Int(9)), None, None, Schema::Int);
    let sv = build_schema(&s, &cfg(), 16).ok().unwrap();
    let mut fs = FactoryState::new();
    match sv.default_value(None, false, &mut fs) {
        Ok(Some(Value::Int(9))) => {}
        _ => panic!("expected the produced default"),
    }
    match sv.default_value(None, false, &mut fs) {
        Ok(Some(Value::Int(9))) => {}
        _ => panic!("expected the produced default"),
    }
    assert_eq!(fs.calls, 2);
}

#[test]
fn literal_default_is_not_a_factory_call() {
    let s = wd(Some(Value::Int(4)), None, None, None, Schema::Int);
    let sv = build_schema(&s, &cfg(), 16).ok().unwrap();
    let mut fs = FactoryState::new();
    match sv.default_value(None, false, &mut fs) {
        Ok(Some(Value::Int(4))) => {}
        _ => panic!("expected the literal default"),
    }
    assert_eq!(fs.calls, 0);
}

#[test]
fn validate_default_resolves_from_ambient_config() {
    // The schema leaves validate_default unset; the ambient config sets
    // it, so the bad default fails inner validation instead of being
    // handed out raw.
    let s = wd(
        Some(Value::Str(String::from("nope"))),
        None,
        None,
        None,
        Schema::Int,
    );
    let config = Config { validate_default: Some(true) };
    let sv = build_schema(&s, &config, 16).ok().unwrap();
    let mut fs = FactoryState::new();
    match sv.default_value(None, false, &mut fs) {
        Err(ValError::LineErrors(lines)) => {
            assert!(matches!(lines[0].kind, ErrorKind::IntParsing));
        }
        _ => panic!("expected the default to be validated and fail"),
    }
}

#[test]
fn default_type_produces_and_counts() {
    let mut fs = FactoryState::new();
    let lit = DefaultType::new(Some(Value::Int(3)), None).ok().unwrap();
    match lit.default_value(&mut fs) {
        Some(Value::Int(3)) => {}
        _ => panic!("expected the literal"),
    }
    assert_eq!(fs.calls, 0);
    let fac = DefaultType::new(None, Some(Value::Int(8))).ok().unwrap();
    match fac.default_value(&mut fs) {
        Some(Value::Int(8)) => {}
        _ => panic!("expected the produced value"),
    }
    assert_eq!(fs.calls, 1);
    let none = DefaultType::new(None, None).ok().unwrap();
    assert!(none.default_value(&mut fs).is_none());
    assert_eq!(fs.calls, 1);
}
