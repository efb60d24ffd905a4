//! Tests of the builder's runtime model: the factory, the setters, and
//! finalization, including the concrete command scenario.

use builder::ast::{AggregateDescription, FieldDescription, GenericArg, PathSegment, TypeExpr};
use builder::semantics::{mandatory_marks, BuildError, BuilderState};

#[derive(Debug, PartialEq, Eq, Clone)]
enum Val {
    Str(String),
    List(Vec<String>),
}

fn command_aggregate() -> AggregateDescription {
    AggregateDescription {
        name: "Command".to_string(),
        fields: vec![
            FieldDescription {
                name: "executable".to_string(),
                ty: TypeExpr::Path(vec![PathSegment { name: "String".to_string(), args: None }]),
            },
            FieldDescription {
                name: "args".to_string(),
                ty: TypeExpr::Path(vec![PathSegment {
                    name: "Option".to_string(),
                    args: Some(vec![GenericArg::TypeArg("Vec<String>".to_string())]),
                }]),
            },
        ],
    }
}

#[test]
fn empty_aggregate_finalizes_immediately() {
    let b = BuilderState::<Val>::unset(0);
    let marks: Vec<bool> = Vec::new();
    let out = b.finalize(&marks).expect("no fields to demand");
    assert!(out.is_empty());
}

#[test]
fn mandatory_marks_follow_classification() {
    let marks = mandatory_marks(&command_aggregate());
    assert_eq!(marks, vec![true, false]);
}

#[test]
fn missing_mandatory_field_fails_then_set_succeeds() {
    let marks = vec![true, false];
    let mut b = BuilderState::<Val>::unset(2);
    assert_eq!(b.finalize(&marks), Err(BuildError::MissingRequiredField));
    // The failed finalization left the builder usable.
    b.set_field(0, Val::Str("ls".to_string()));
    let out = b.finalize(&marks).expect("every mandatory field is set");
    assert_eq!(out[0], Some(&Val::Str("ls".to_string())));
}

#[test]
fn optional_field_left_unset_passes_through() {
    let marks = vec![true, false];
    let mut b = BuilderState::<Val>::unset(2);
    b.set_field(0, Val::Str("ls".to_string()));
    let out = b.finalize(&marks).expect("the optional field does not block");
    assert_eq!(out[1], None);
}

#[test]
fn setter_overwrite_keeps_last_value() {
    let marks = vec![true];
    let mut twice = BuilderState::<Val>::unset(1);
    twice.set_field(0, Val::Str("first".to_string()));
    twice.set_field(0, Val::Str("second".to_string()));
    let mut once = BuilderState::<Val>::unset(1);
    once.set_field(0, Val::Str("second".to_string()));
    assert_eq!(twice.slots, once.slots);
    let out = twice.finalize(&marks).expect("the field is set");
    assert_eq!(out[0], Some(&Val::Str("second".to_string())));
}

#[test]
fn setter_order_is_irrelevant() {
    let exe = Val::Str("ls".to_string());
    let args = Val::List(vec!["-l".to_string()]);
    let mut forward = BuilderState::<Val>::unset(2);
    forward.set_field(0, exe.clone());
    forward.set_field(1, args.clone());
    let mut backward = BuilderState::<Val>::unset(2);
    backward.set_field(1, args);
    backward.set_field(0, exe);
    assert_eq!(forward.slots, backward.slots);
}

#[test]
fn command_scenario() {
    let marks = mandatory_marks(&command_aggregate());

    // builder().executable("ls").build(): success, args stays unset.
    let mut b = BuilderState::<Val>::unset(2);
    b.set_field(0, Val::Str("ls".to_string()));
    let out = b.finalize(&marks).expect("executable is set");
    assert_eq!(out[0], Some(&Val::Str("ls".to_string())));
    assert_eq!(out[1], None);

    // builder().build(): the mandatory executable is missing.
    let fresh = BuilderState::<Val>::unset(2);
    assert_eq!(fresh.finalize(&marks), Err(BuildError::MissingRequiredField));

    // builder().executable("ls").args(vec!["-l"]).build(): success with args set.
    b.set_field(1, Val::List(vec!["-l".to_string()]));
    let out = b.finalize(&marks).expect("both fields are set");
    assert_eq!(out[0], Some(&Val::Str("ls".to_string())));
    assert_eq!(out[1], Some(&Val::List(vec!["-l".to_string()])));
}

#[test]
fn error_message_is_generic() {
    let e = BuildError::MissingRequiredField;
    assert_eq!(e.message(), "field is required");
}

#[test]
fn factory_starts_every_field_unset() {
    let b = BuilderState::<Val>::unset(3);
    assert_eq!(b.slots, vec![None, None, None]);
}
