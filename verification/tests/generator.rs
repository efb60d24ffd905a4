//! Tests of the generation pass: classification, shape synthesis, and the
//! emitted fragments.

use builder::ast::{AggregateDescription, FieldDescription, GenericArg, PathSegment, TypeExpr};
use builder::classify::{classify, FieldClassification};
use builder::emit::{generate, FinalizeRule};
use builder::shape::synthesize;

fn plain(name: &str) -> TypeExpr {
    TypeExpr::Path(vec![PathSegment { name: name.to_string(), args: None }])
}

fn optional_of(inner: &str) -> TypeExpr {
    TypeExpr::Path(vec![PathSegment {
        name: "Option".to_string(),
        args: Some(vec![GenericArg::TypeArg(inner.to_string())]),
    }])
}

fn field(name: &str, ty: TypeExpr) -> FieldDescription {
    FieldDescription { name: name.to_string(), ty }
}

fn command_aggregate() -> AggregateDescription {
    AggregateDescription {
        name: "Command".to_string(),
        fields: vec![
            field("executable", plain("String")),
            field("args", optional_of("Vec<String>")),
        ],
    }
}

#[test]
fn classify_plain_type_is_mandatory() {
    let c = classify(&field("executable", plain("String")));
    assert_eq!(c, FieldClassification::Mandatory);
}

#[test]
fn classify_option_extracts_inner() {
    let c = classify(&field("args", optional_of("Vec<String>")));
    assert_eq!(
        c,
        FieldClassification::Optional {
            inner: Some(TypeExpr::Verbatim("Vec<String>".to_string())),
        }
    );
}

#[test]
fn classify_qualified_option_is_mandatory() {
    // Only the first path segment is matched: a qualified spelling of the
    // optional wrapper is not recognized.
    let ty = TypeExpr::Path(vec![
        PathSegment { name: "std".to_string(), args: None },
        PathSegment { name: "option".to_string(), args: None },
        PathSegment {
            name: "Option".to_string(),
            args: Some(vec![GenericArg::TypeArg("u32".to_string())]),
        },
    ]);
    let c = classify(&field("count", ty));
    assert_eq!(c, FieldClassification::Mandatory);
}

#[test]
fn classify_option_without_brackets_has_no_inner() {
    let ty = TypeExpr::Path(vec![PathSegment { name: "Option".to_string(), args: None }]);
    let c = classify(&field("value", ty));
    assert_eq!(c, FieldClassification::Optional { inner: None });
}

#[test]
fn classify_option_with_empty_argument_list_has_no_inner() {
    let ty = TypeExpr::Path(vec![PathSegment {
        name: "Option".to_string(),
        args: Some(vec![]),
    }]);
    let c = classify(&field("value", ty));
    assert_eq!(c, FieldClassification::Optional { inner: None });
}

#[test]
fn classify_option_with_two_arguments_has_no_inner() {
    let ty = TypeExpr::Path(vec![PathSegment {
        name: "Option".to_string(),
        args: Some(vec![
            GenericArg::TypeArg("u8".to_string()),
            GenericArg::TypeArg("u16".to_string()),
        ]),
    }]);
    let c = classify(&field("value", ty));
    assert_eq!(c, FieldClassification::Optional { inner: None });
}

#[test]
fn classify_option_with_lifetime_argument_has_no_inner() {
    let ty = TypeExpr::Path(vec![PathSegment {
        name: "Option".to_string(),
        args: Some(vec![GenericArg::OtherArg("'a".to_string())]),
    }]);
    let c = classify(&field("value", ty));
    assert_eq!(c, FieldClassification::Optional { inner: None });
}

#[test]
fn classify_non_path_type_is_mandatory() {
    let c = classify(&field("bytes", TypeExpr::Verbatim("[u8; 4]".to_string())));
    assert_eq!(c, FieldClassification::Mandatory);
}

#[test]
fn synthesize_mandatory_wraps_storage() {
    let f = field("executable", plain("String"));
    let c = classify(&f);
    let s = synthesize(&c, &f);
    assert!(s.storage.wrapped);
    assert_eq!(s.storage.ty, plain("String"));
    assert_eq!(s.setter_param, Some(plain("String")));
}

#[test]
fn synthesize_optional_keeps_storage_and_unwraps_setter() {
    let f = field("args", optional_of("Vec<String>"));
    let c = classify(&f);
    let s = synthesize(&c, &f);
    assert!(!s.storage.wrapped);
    assert_eq!(s.storage.ty, optional_of("Vec<String>"));
    assert_eq!(s.setter_param, Some(TypeExpr::Verbatim("Vec<String>".to_string())));
}

#[test]
fn synthesize_malformed_optional_leaves_setter_param_empty() {
    let ty = TypeExpr::Path(vec![PathSegment {
        name: "Option".to_string(),
        args: Some(vec![]),
    }]);
    let f = field("value", ty.clone());
    let c = classify(&f);
    let s = synthesize(&c, &f);
    assert!(!s.storage.wrapped);
    assert_eq!(s.storage.ty, ty);
    assert_eq!(s.setter_param, None);
}

#[test]
fn generate_command_builder() {
    let g = generate(&command_aggregate());
    assert_eq!(g.decl.name, "CommandBuilder");
    assert_eq!(g.decl.fields.len(), 2);
    assert_eq!(g.decl.fields[0].name, "executable");
    assert!(g.decl.fields[0].ty.wrapped);
    assert_eq!(g.decl.fields[0].ty.ty, plain("String"));
    assert_eq!(g.decl.fields[1].name, "args");
    assert!(!g.decl.fields[1].ty.wrapped);
    assert_eq!(g.decl.fields[1].ty.ty, optional_of("Vec<String>"));

    assert_eq!(g.setters.len(), 2);
    assert_eq!(g.setters[0].field, "executable");
    assert_eq!(g.setters[0].param, Some(plain("String")));
    assert_eq!(g.setters[1].field, "args");
    assert_eq!(g.setters[1].param, Some(TypeExpr::Verbatim("Vec<String>".to_string())));

    assert_eq!(g.finalizer.aggregate, "Command");
    assert_eq!(g.finalizer.error_message, "field is required");
    assert_eq!(g.finalizer.fields.len(), 2);
    assert_eq!(g.finalizer.fields[0].rule, FinalizeRule::RequireSet);
    assert_eq!(g.finalizer.fields[1].rule, FinalizeRule::CopyThrough);

    assert_eq!(g.factory.builder, "CommandBuilder");
    assert_eq!(
        g.factory.unset_fields,
        vec!["executable".to_string(), "args".to_string()]
    );
}

#[test]
fn generate_empty_aggregate() {
    let agg = AggregateDescription { name: "Unit".to_string(), fields: vec![] };
    let g = generate(&agg);
    assert_eq!(g.decl.name, "UnitBuilder");
    assert!(g.decl.fields.is_empty());
    assert!(g.setters.is_empty());
    assert!(g.finalizer.fields.is_empty());
    assert!(g.factory.unset_fields.is_empty());
}

#[test]
fn generate_keeps_field_order() {
    let agg = AggregateDescription {
        name: "Job".to_string(),
        fields: vec![
            field("first", optional_of("u8")),
            field("second", plain("u16")),
            field("third", optional_of("u32")),
        ],
    };
    let g = generate(&agg);
    let names = ["first", "second", "third"];
    for (i, n) in names.iter().enumerate() {
        assert_eq!(g.decl.fields[i].name, *n);
        assert_eq!(g.setters[i].field, *n);
        assert_eq!(g.finalizer.fields[i].name, *n);
        assert_eq!(g.factory.unset_fields[i], *n);
    }
    assert_eq!(g.finalizer.fields[0].rule, FinalizeRule::CopyThrough);
    assert_eq!(g.finalizer.fields[1].rule, FinalizeRule::RequireSet);
    assert_eq!(g.finalizer.fields[2].rule, FinalizeRule::CopyThrough);
}
