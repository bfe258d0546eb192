//! The annotation parser: turns a field's raw annotation token groups into
//! zero or one structured `tag = "value"` directive.
//!
//! Only the first group attached to the field is inspected; any other token
//! arrangement (empty group, wrong arity, wrong punctuation, a value that is
//! not a string literal) yields no annotation, silently.

use crate::schema::{Token, TokenModel};
use vstd::prelude::*;

verus! {

/// A structured per-field directive: `tag = "value"` with the literal's
/// surrounding quotes stripped.
#[derive(Debug, PartialEq, Eq)]
pub struct Annotation {
    pub tag: String,
    pub value: String,
}

/// Ghost model of an [`Annotation`].
#[verifier::ext_equal]
pub struct AnnotationModel {
    pub tag: Seq<char>,
    pub value: Seq<char>,
}

impl DeepView for Annotation {
    type V = AnnotationModel;

    open spec fn deep_view(&self) -> AnnotationModel {
        AnnotationModel { tag: self.tag.deep_view(), value: self.value.deep_view() }
    }
}

/// What one bracketed group parses to: it is recognized exactly when it holds
/// three tokens — an identifier, a `=` punctuation, and a quoted string
/// literal — and the value is the literal without its surrounding quotes.
pub open spec fn parse_group_spec(g: Seq<TokenModel>) -> Option<AnnotationModel> {
    if g.len() == 3 {
        match (g[0], g[1], g[2]) {
            (TokenModel::Ident(tag), TokenModel::Punct(p), TokenModel::Literal(lit)) => {
                if p == '=' && lit.len() >= 2 && lit[0] == '"' && lit[lit.len() - 1] == '"' {
                    Some(AnnotationModel { tag, value: lit.subrange(1, lit.len() - 1) })
                } else {
                    None
                }
            },
            _ => None,
        }
    } else {
        None
    }
}

/// What a field's whole annotation list parses to: only the first group is
/// inspected, and a field without groups carries no annotation.
pub open spec fn parse_annotation_spec(groups: Seq<Seq<TokenModel>>) -> Option<AnnotationModel> {
    if groups.len() == 0 {
        None
    } else {
        parse_group_spec(groups[0])
    }
}

/// Parses a field's raw annotation groups into zero or one [`Annotation`].
///
/// A malformed group is dropped without any error: the result is `None`
/// exactly when the first group (if any) is not of the recognized
/// `tag = "value"` shape.
pub fn parse_annotation(groups: &Vec<Vec<Token>>) -> (r: Option<Annotation>)
    ensures
        r.deep_view() == parse_annotation_spec(groups.deep_view()),
{
    if groups.len() == 0 {
        return None;
    }
    let g: &Vec<Token> = &groups[0];
    if g.len() != 3 {
        return None;
    }
    match (&g[0], &g[1], &g[2]) {
        (Token::Ident(tag), Token::Punct(p), Token::Literal(lit)) => {
            if *p != '=' {
                return None;
            }
            let n = lit.as_str().unicode_len();
            if n < 2 {
                return None;
            }
            let first = lit.as_str().get_char(0);
            let last = lit.as_str().get_char(n - 1);
            if first != '"' || last != '"' {
                return None;
            }
            let value = lit.as_str().substring_char(1, n - 1).to_owned();
            Some(Annotation { tag: tag.clone(), value })
        },
        _ => None,
    }
}

} // verus!
