use builder::annot::{parse_annotation, Annotation};
use builder::emit::{synthesize, AssemblyExpr, DefaultInit, StorageSlot, StorageType};
use builder::plan::plan_field;
use builder::schema::{FieldDescriptor, StructSchema, Token, TypeExpr};
use builder::shape::{classify, TypeShape};

fn s(x: &str) -> String {
    x.to_string()
}

fn plain(name: &str) -> TypeExpr {
    TypeExpr::Named { name: s(name), arg: None }
}

fn generic(name: &str, arg: &str) -> TypeExpr {
    TypeExpr::Named { name: s(name), arg: Some(s(arg)) }
}

fn field(name: &str, ty: TypeExpr) -> FieldDescriptor {
    FieldDescriptor { name: s(name), declared_type: ty, raw_annotations: vec![] }
}

fn each_annotation(value: &str) -> Vec<Token> {
    vec![
        Token::Ident(s("each")),
        Token::Punct('='),
        Token::Literal(format!("\"{}\"", value)),
    ]
}

#[test]
fn classify_option_is_optional() {
    assert_eq!(classify(&generic("Option", "String")), TypeShape::Optional(s("String")));
}

#[test]
fn classify_vec_is_repeated() {
    assert_eq!(classify(&generic("Vec", "String")), TypeShape::Repeated(s("String")));
}

#[test]
fn classify_plain_is_required() {
    assert_eq!(classify(&plain("String")), TypeShape::Required(plain("String")));
}

#[test]
fn classify_other_generic_is_required() {
    assert_eq!(classify(&generic("Box", "u32")), TypeShape::Required(generic("Box", "u32")));
}

#[test]
fn classify_unstructured_is_required() {
    let ty = TypeExpr::Other { text: s("&'a str") };
    assert_eq!(classify(&ty), TypeShape::Required(TypeExpr::Other { text: s("&'a str") }));
}

#[test]
fn classify_wrapper_without_argument_is_required() {
    assert_eq!(classify(&plain("Option")), TypeShape::Required(plain("Option")));
}

#[test]
fn classify_unwraps_one_level_only() {
    // The inner wrapper stays as the opaque inner type; it is not unwrapped
    // further.
    assert_eq!(
        classify(&generic("Option", "Option<String>")),
        TypeShape::Optional(s("Option<String>"))
    );
}

#[test]
fn annotation_well_formed_parses() {
    let groups = vec![each_annotation("item")];
    assert_eq!(parse_annotation(&groups), Some(Annotation { tag: s("each"), value: s("item") }));
}

#[test]
fn annotation_absent_when_no_groups() {
    assert_eq!(parse_annotation(&vec![]), None);
}

#[test]
fn annotation_empty_group_dropped() {
    assert_eq!(parse_annotation(&vec![vec![]]), None);
}

#[test]
fn annotation_two_tokens_dropped() {
    let groups = vec![vec![Token::Ident(s("each")), Token::Literal(s("\"item\""))]];
    assert_eq!(parse_annotation(&groups), None);
}

#[test]
fn annotation_extra_tokens_dropped() {
    let groups = vec![vec![
        Token::Ident(s("each")),
        Token::Punct('='),
        Token::Literal(s("\"item\"")),
        Token::Punct(','),
    ]];
    assert_eq!(parse_annotation(&groups), None);
}

#[test]
fn annotation_wrong_punctuation_dropped() {
    let groups = vec![vec![
        Token::Ident(s("each")),
        Token::Punct(':'),
        Token::Literal(s("\"item\"")),
    ]];
    assert_eq!(parse_annotation(&groups), None);
}

#[test]
fn annotation_non_string_literal_dropped() {
    let groups = vec![vec![Token::Ident(s("each")), Token::Punct('='), Token::Literal(s("42"))]];
    assert_eq!(parse_annotation(&groups), None);
}

#[test]
fn annotation_only_first_group_inspected() {
    // The first group is malformed, the second is fine: no annotation.
    let groups = vec![vec![Token::Ident(s("each"))], each_annotation("item")];
    assert_eq!(parse_annotation(&groups), None);
}

#[test]
fn annotation_empty_string_value() {
    let groups = vec![vec![
        Token::Ident(s("tag")),
        Token::Punct('='),
        Token::Literal(s("\"\"")),
    ]];
    assert_eq!(parse_annotation(&groups), Some(Annotation { tag: s("tag"), value: s("") }));
}

#[test]
fn plan_flags_presence_for_required_only() {
    assert!(plan_field(&field("a", plain("String"))).needs_presence);
    assert!(!plan_field(&field("b", generic("Option", "String"))).needs_presence);
    assert!(!plan_field(&field("c", generic("Vec", "String"))).needs_presence);
}

#[test]
fn synthesize_emits_all_four_passes() {
    let schema = StructSchema {
        name: s("Mixed"),
        fields: vec![
            field("a", plain("String")),
            field("b", generic("Option", "String")),
            FieldDescriptor {
                name: s("items"),
                declared_type: generic("Vec", "String"),
                raw_annotations: vec![each_annotation("item")],
            },
        ],
    };
    let d = synthesize(&schema);
    assert_eq!(d.struct_name, "Mixed");
    assert_eq!(d.builder_name, "MixedBuilder");
    assert_eq!(
        d.storage,
        vec![
            StorageSlot { name: s("a"), ty: StorageType::OptionOf(plain("String")) },
            StorageSlot { name: s("b"), ty: StorageType::OptionOf(generic("Option", "String")) },
            StorageSlot { name: s("items"), ty: StorageType::Plain(generic("Vec", "String")) },
        ]
    );
    let inits: Vec<DefaultInit> = d.defaults.iter().map(|x| x.init).collect();
    assert_eq!(
        inits,
        vec![DefaultInit::NoneValue, DefaultInit::NoneValue, DefaultInit::EmptySequence]
    );
    assert_eq!(d.setters.len(), 2);
    assert_eq!(d.setters[0].name, "a");
    assert_eq!(d.setters[0].param_type, plain("String"));
    assert_eq!(d.setters[1].name, "b");
    assert_eq!(d.setters[1].param_type, generic("Option", "String"));
    assert_eq!(d.appenders.len(), 1);
    assert_eq!(d.appenders[0].name, "item");
    assert_eq!(d.appenders[0].field, "items");
    assert_eq!(d.appenders[0].element_type, "String");
    assert_eq!(d.checks, vec![s("a")]);
    let exprs: Vec<AssemblyExpr> = d.assembly.iter().map(|x| x.expr).collect();
    assert_eq!(
        exprs,
        vec![AssemblyExpr::UnwrapStored, AssemblyExpr::CopyStored, AssemblyExpr::CopySequence]
    );
}

#[test]
fn synthesize_ignores_non_each_tags() {
    let schema = StructSchema {
        name: s("Holder"),
        fields: vec![FieldDescriptor {
            name: s("items"),
            declared_type: generic("Vec", "String"),
            raw_annotations: vec![vec![
                Token::Ident(s("rename")),
                Token::Punct('='),
                Token::Literal(s("\"item\"")),
            ]],
        }],
    };
    let d = synthesize(&schema);
    assert_eq!(d.appenders.len(), 0);
}

#[test]
fn synthesize_ignores_each_on_non_repeated() {
    let schema = StructSchema {
        name: s("Holder"),
        fields: vec![FieldDescriptor {
            name: s("a"),
            declared_type: plain("String"),
            raw_annotations: vec![each_annotation("item")],
        }],
    };
    let d = synthesize(&schema);
    assert_eq!(d.appenders.len(), 0);
    assert_eq!(d.setters.len(), 1);
}
