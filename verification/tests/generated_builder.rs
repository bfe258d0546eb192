use builder::emit::synthesize;
use builder::runtime::{append_element, assemble, new_builder, set_field, AssembledField, FieldValue};
use builder::schema::{FieldDescriptor, StructSchema, Token, TypeExpr};

fn s(x: &str) -> String {
    x.to_string()
}

fn plain(name: &str) -> TypeExpr {
    TypeExpr::Named { name: s(name), arg: None }
}

fn generic(name: &str, arg: &str) -> TypeExpr {
    TypeExpr::Named { name: s(name), arg: Some(s(arg)) }
}

fn field(name: &str, ty: TypeExpr) -> FieldDescriptor {
    FieldDescriptor { name: s(name), declared_type: ty, raw_annotations: vec![] }
}

fn each_annotation(value: &str) -> Vec<Token> {
    vec![
        Token::Ident(s("each")),
        Token::Punct('='),
        Token::Literal(format!("\"{}\"", value)),
    ]
}

fn required_optional_schema() -> StructSchema {
    StructSchema {
        name: s("Command"),
        fields: vec![field("a", plain("String")), field("b", generic("Option", "String"))],
    }
}

fn repeated_schema(annotations: Vec<Vec<Token>>) -> StructSchema {
    StructSchema {
        name: s("Command"),
        fields: vec![FieldDescriptor {
            name: s("items"),
            declared_type: generic("Vec", "String"),
            raw_annotations: annotations,
        }],
    }
}

#[test]
fn set_required_leave_optional_assembles() {
    let schema = required_optional_schema();
    let d = synthesize(&schema);
    let mut b = new_builder(&d);
    assert!(set_field(&d, &mut b, &s("a"), s("hello")));
    let out = assemble(&d, &b).unwrap();
    assert_eq!(
        out,
        vec![
            AssembledField { name: s("a"), value: FieldValue::One(s("hello")) },
            AssembledField { name: s("b"), value: FieldValue::Maybe(None) },
        ]
    );
}

#[test]
fn missing_required_reports_exact_message() {
    let schema = required_optional_schema();
    let d = synthesize(&schema);
    let b = new_builder(&d);
    let err = assemble(&d, &b).unwrap_err();
    assert_eq!(err, "Missing fields: a");
}

#[test]
fn annotated_repeated_field_appends_in_order() {
    let schema = repeated_schema(vec![each_annotation("item")]);
    let d = synthesize(&schema);
    assert_eq!(d.appenders.len(), 1);
    let mut b = new_builder(&d);
    let fresh = assemble(&d, &b).unwrap();
    assert_eq!(fresh, vec![AssembledField { name: s("items"), value: FieldValue::Many(vec![]) }]);
    assert!(append_element(&d, &mut b, &s("item"), s("x")));
    assert!(append_element(&d, &mut b, &s("item"), s("y")));
    let out = assemble(&d, &b).unwrap();
    assert_eq!(
        out,
        vec![AssembledField {
            name: s("items"),
            value: FieldValue::Many(vec![s("x"), s("y")]),
        }]
    );
}

#[test]
fn unannotated_repeated_field_stays_empty() {
    let schema = repeated_schema(vec![]);
    let d = synthesize(&schema);
    assert_eq!(d.appenders.len(), 0);
    let mut b = new_builder(&d);
    // No appender exists and no setter exists: the field can never be
    // populated.
    assert!(!append_element(&d, &mut b, &s("item"), s("x")));
    assert!(!set_field(&d, &mut b, &s("items"), s("x")));
    let out = assemble(&d, &b).unwrap();
    assert_eq!(out, vec![AssembledField { name: s("items"), value: FieldValue::Many(vec![]) }]);
}

#[test]
fn malformed_annotation_generates_no_appender() {
    // Missing `=`.
    let schema = repeated_schema(vec![vec![
        Token::Ident(s("each")),
        Token::Literal(s("\"item\"")),
    ]]);
    let d = synthesize(&schema);
    assert_eq!(d.appenders.len(), 0);
    // Two tokens instead of three, wrong punctuation.
    let schema2 = repeated_schema(vec![vec![
        Token::Ident(s("each")),
        Token::Punct(','),
        Token::Literal(s("\"item\"")),
    ]]);
    let d2 = synthesize(&schema2);
    assert_eq!(d2.appenders.len(), 0);
    // Generation itself raised no failure: the declaration is complete.
    assert_eq!(d2.storage.len(), 1);
    assert_eq!(d2.builder_name, "CommandBuilder");
}

#[test]
fn assembling_twice_yields_equal_results() {
    let schema = StructSchema {
        name: s("Command"),
        fields: vec![
            field("a", plain("String")),
            field("b", generic("Option", "String")),
            FieldDescriptor {
                name: s("items"),
                declared_type: generic("Vec", "String"),
                raw_annotations: vec![each_annotation("item")],
            },
        ],
    };
    let d = synthesize(&schema);
    let mut b = new_builder(&d);
    assert!(set_field(&d, &mut b, &s("a"), s("hello")));
    assert!(set_field(&d, &mut b, &s("b"), s("maybe")));
    assert!(append_element(&d, &mut b, &s("item"), s("x")));
    let first = assemble(&d, &b);
    let second = assemble(&d, &b);
    assert!(first.is_ok());
    assert_eq!(first, second);
}

#[test]
fn missing_fields_listed_in_declaration_order() {
    let schema = StructSchema {
        name: s("Command"),
        fields: vec![
            field("x", plain("String")),
            field("y", plain("String")),
            field("z", plain("String")),
        ],
    };
    let d = synthesize(&schema);
    assert_eq!(d.checks, vec![s("x"), s("y"), s("z")]);
    let b = new_builder(&d);
    let err = assemble(&d, &b).unwrap_err();
    assert_eq!(err, "Missing fields: x,y,z");
}

#[test]
fn partially_missing_fields_keep_declaration_order() {
    let schema = StructSchema {
        name: s("Command"),
        fields: vec![
            field("x", plain("String")),
            field("y", plain("String")),
            field("z", plain("String")),
        ],
    };
    let d = synthesize(&schema);
    let mut b = new_builder(&d);
    assert!(set_field(&d, &mut b, &s("y"), s("present")));
    let err = assemble(&d, &b).unwrap_err();
    assert_eq!(err, "Missing fields: x,z");
}

#[test]
fn setter_overwrites_previous_value() {
    let schema = required_optional_schema();
    let d = synthesize(&schema);
    let mut b = new_builder(&d);
    assert!(set_field(&d, &mut b, &s("a"), s("first")));
    assert!(set_field(&d, &mut b, &s("a"), s("second")));
    let out = assemble(&d, &b).unwrap();
    assert_eq!(out[0], AssembledField { name: s("a"), value: FieldValue::One(s("second")) });
}

#[test]
fn optional_field_set_is_carried_through() {
    let schema = required_optional_schema();
    let d = synthesize(&schema);
    let mut b = new_builder(&d);
    assert!(set_field(&d, &mut b, &s("a"), s("hello")));
    assert!(set_field(&d, &mut b, &s("b"), s("there")));
    let out = assemble(&d, &b).unwrap();
    assert_eq!(out[1], AssembledField { name: s("b"), value: FieldValue::Maybe(Some(s("there"))) });
}

#[test]
fn empty_schema_assembles_empty() {
    let schema = StructSchema { name: s("Unit"), fields: vec![] };
    let d = synthesize(&schema);
    assert_eq!(d.builder_name, "UnitBuilder");
    let b = new_builder(&d);
    assert_eq!(assemble(&d, &b).unwrap(), vec![]);
}

#[test]
fn unstructured_type_is_required() {
    let schema = StructSchema {
        name: s("Raw"),
        fields: vec![field("bytes", TypeExpr::Other { text: s("[u8; 4]") })],
    };
    let d = synthesize(&schema);
    assert_eq!(d.checks, vec![s("bytes")]);
    let mut b = new_builder(&d);
    assert_eq!(assemble(&d, &b).unwrap_err(), "Missing fields: bytes");
    assert!(set_field(&d, &mut b, &s("bytes"), s("0102")));
    let out = assemble(&d, &b).unwrap();
    assert_eq!(out, vec![AssembledField { name: s("bytes"), value: FieldValue::One(s("0102")) }]);
}

#[test]
fn unknown_names_leave_builder_untouched() {
    let schema = required_optional_schema();
    let d = synthesize(&schema);
    let mut b = new_builder(&d);
    assert!(!set_field(&d, &mut b, &s("zzz"), s("nope")));
    assert!(!append_element(&d, &mut b, &s("zzz"), s("nope")));
    let err = assemble(&d, &b).unwrap_err();
    assert_eq!(err, "Missing fields: a");
}
