//! The type shape classifier: a purely syntactic, total classification of a
//! field's declared type into Required, Optional, or Repeated.
//!
//! Only a single-segment named type with exactly one generic argument can be
//! a wrapper; the designated wrapper names are `Option` (may be absent) and
//! `Vec` (ordered sequence). Every other declared type — including a type
//! that merely resembles a wrapper, since matching is not semantic — is
//! Required as it stands.

use crate::schema::{TypeExpr, TypeExprModel};
use vstd::prelude::*;

verus! {

/// The shape of a field's declared type.
#[derive(Debug, PartialEq, Eq)]
pub enum TypeShape {
    /// A plain type, carried whole; the field must be supplied before
    /// assembly.
    Required(TypeExpr),
    /// An `Option`-wrapped type; the inner type's text is carried. The field
    /// never blocks assembly.
    Optional(String),
    /// A `Vec`-wrapped type; the inner element type's text is carried. The
    /// field starts empty and grows by per-element appends.
    Repeated(String),
}

/// Ghost model of a [`TypeShape`].
#[verifier::ext_equal]
pub enum ShapeModel {
    Required(TypeExprModel),
    Optional(Seq<char>),
    Repeated(Seq<char>),
}

impl DeepView for TypeShape {
    type V = ShapeModel;

    open spec fn deep_view(&self) -> ShapeModel {
        match self {
            TypeShape::Required(t) => ShapeModel::Required(t.deep_view()),
            TypeShape::Optional(s) => ShapeModel::Optional(s.deep_view()),
            TypeShape::Repeated(s) => ShapeModel::Repeated(s.deep_view()),
        }
    }
}

impl Clone for TypeExpr {
    fn clone(&self) -> (r: Self)
        ensures
            r.deep_view() == self.deep_view(),
    {
        match self {
            TypeExpr::Named { name, arg } => TypeExpr::Named {
                name: name.clone(),
                arg: arg.clone(),
            },
            TypeExpr::Other { text } => TypeExpr::Other { text: text.clone() },
        }
    }
}

/// The classification, total and exclusive: `Option<T>` is Optional, `Vec<T>`
/// is Repeated, and everything else — another name, no generic argument, or
/// an unstructured type expression — is Required unchanged.
pub open spec fn classify_spec(t: TypeExprModel) -> ShapeModel {
    match t {
        TypeExprModel::Named { name, arg: Some(a) } => if name == "Option"@ {
            ShapeModel::Optional(a)
        } else if name == "Vec"@ {
            ShapeModel::Repeated(a)
        } else {
            ShapeModel::Required(t)
        },
        _ => ShapeModel::Required(t),
    }
}

/// Classifies a declared type into its [`TypeShape`].
pub fn classify(t: &TypeExpr) -> (s: TypeShape)
    ensures
        s.deep_view() == classify_spec(t.deep_view()),
{
    match t {
        TypeExpr::Named { name, arg: Some(a) } => {
            let optional_wrapper = String::from_str("Option");
            let repeated_wrapper = String::from_str("Vec");
            if *name == optional_wrapper {
                TypeShape::Optional(a.clone())
            } else if *name == repeated_wrapper {
                TypeShape::Repeated(a.clone())
            } else {
                TypeShape::Required(t.clone())
            }
        },
        _ => TypeShape::Required(t.clone()),
    }
}

} // verus!
