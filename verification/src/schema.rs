//! The input side of the engine: annotation tokens, type expressions, and
//! field descriptors, together with their ghost models.
//!
//! The engine receives an already-parsed schema from a language frontend; it
//! never reads source text itself. A declared type is therefore a tagged
//! surface-syntax expression: a single-segment name with at most one generic
//! argument, or anything else carried through as opaque text.

use vstd::prelude::*;

verus! {

/// One token inside a field's bracketed annotation group.
#[derive(Debug, PartialEq, Eq)]
pub enum Token {
    /// An identifier token, carried as its text.
    Ident(String),
    /// A punctuation token, carried as its character.
    Punct(char),
    /// A literal token, carried verbatim (a string literal keeps its quotes).
    Literal(String),
}

/// Ghost model of a [`Token`].
#[verifier::ext_equal]
pub enum TokenModel {
    Ident(Seq<char>),
    Punct(char),
    Literal(Seq<char>),
}

impl DeepView for Token {
    type V = TokenModel;

    open spec fn deep_view(&self) -> TokenModel {
        match self {
            Token::Ident(s) => TokenModel::Ident(s.deep_view()),
            Token::Punct(c) => TokenModel::Punct(*c),
            Token::Literal(s) => TokenModel::Literal(s.deep_view()),
        }
    }
}

/// A declared type as the engine sees it: pure surface syntax.
///
/// Classification is syntactic, so only the outermost level is structured; a
/// generic argument is carried as the opaque text of the inner type and is
/// never inspected further.
#[derive(Debug, PartialEq, Eq)]
pub enum TypeExpr {
    /// A single-segment named type with at most one angle-bracketed generic
    /// argument: `name` or `name<arg>`.
    Named { name: String, arg: Option<String> },
    /// Any other type expression (qualified path, several generic arguments,
    /// reference, tuple, ...), carried as its text.
    Other { text: String },
}

/// Ghost model of a [`TypeExpr`].
#[verifier::ext_equal]
pub enum TypeExprModel {
    Named { name: Seq<char>, arg: Option<Seq<char>> },
    Other { text: Seq<char> },
}

impl DeepView for TypeExpr {
    type V = TypeExprModel;

    open spec fn deep_view(&self) -> TypeExprModel {
        match self {
            TypeExpr::Named { name, arg } => TypeExprModel::Named {
                name: name.deep_view(),
                arg: arg.deep_view(),
            },
            TypeExpr::Other { text } => TypeExprModel::Other { text: text.deep_view() },
        }
    }
}

/// One struct field as seen by the engine: its name, its declared type, and
/// the raw token groups of its annotations, in source order.
#[derive(Debug, PartialEq, Eq)]
pub struct FieldDescriptor {
    pub name: String,
    pub declared_type: TypeExpr,
    pub raw_annotations: Vec<Vec<Token>>,
}

/// Ghost model of a [`FieldDescriptor`].
#[verifier::ext_equal]
pub struct FieldModel {
    pub name: Seq<char>,
    pub declared_type: TypeExprModel,
    pub raw_annotations: Seq<Seq<TokenModel>>,
}

impl DeepView for FieldDescriptor {
    type V = FieldModel;

    open spec fn deep_view(&self) -> FieldModel {
        FieldModel {
            name: self.name.deep_view(),
            declared_type: self.declared_type.deep_view(),
            raw_annotations: self.raw_annotations.deep_view(),
        }
    }
}

/// A whole struct schema: the struct's name and its fields in declaration
/// order.
#[derive(Debug, PartialEq, Eq)]
pub struct StructSchema {
    pub name: String,
    pub fields: Vec<FieldDescriptor>,
}

/// Ghost model of a [`StructSchema`].
#[verifier::ext_equal]
pub struct SchemaModel {
    pub name: Seq<char>,
    pub fields: Seq<FieldModel>,
}

impl DeepView for StructSchema {
    type V = SchemaModel;

    open spec fn deep_view(&self) -> SchemaModel {
        SchemaModel { name: self.name.deep_view(), fields: self.fields.deep_view() }
    }
}

} // verus!
