//! The field plan builder: one generation plan per field, combining the
//! field's shape classification with its parsed annotation.
//!
//! Whether a field must be present before assembly is decided once here, as
//! a single flag on the plan, and consumed uniformly by the emission passes:
//! plain (Required) fields must be present, explicitly `Option`-wrapped
//! fields never block assembly, and `Vec`-wrapped fields start empty.

use crate::annot::{parse_annotation, parse_annotation_spec, Annotation, AnnotationModel};
use crate::schema::{FieldDescriptor, FieldModel, TypeExpr, TypeExprModel};
use crate::shape::{classify, classify_spec, ShapeModel, TypeShape};
use vstd::prelude::*;

verus! {

/// The per-field generation plan the emitter consumes.
pub struct FieldPlan {
    pub name: String,
    pub declared_type: TypeExpr,
    pub shape: TypeShape,
    pub annotation: Option<Annotation>,
    /// True exactly when the field's shape is Required: assembly fails while
    /// such a field is unset.
    pub needs_presence: bool,
}

/// Ghost model of a [`FieldPlan`].
#[verifier::ext_equal]
pub struct PlanModel {
    pub name: Seq<char>,
    pub declared_type: TypeExprModel,
    pub shape: ShapeModel,
    pub annotation: Option<AnnotationModel>,
    pub needs_presence: bool,
}

impl DeepView for FieldPlan {
    type V = PlanModel;

    open spec fn deep_view(&self) -> PlanModel {
        PlanModel {
            name: self.name.deep_view(),
            declared_type: self.declared_type.deep_view(),
            shape: self.shape.deep_view(),
            annotation: self.annotation.deep_view(),
            needs_presence: self.needs_presence,
        }
    }
}

/// The plan of one field: its classification, its parsed annotation, and the
/// presence flag, which is set exactly for the Required shape.
pub open spec fn plan_spec(f: FieldModel) -> PlanModel {
    PlanModel {
        name: f.name,
        declared_type: f.declared_type,
        shape: classify_spec(f.declared_type),
        annotation: parse_annotation_spec(f.raw_annotations),
        needs_presence: classify_spec(f.declared_type) is Required,
    }
}

/// The plans of a whole field list, in declaration order.
pub open spec fn plans_spec(fields: Seq<FieldModel>) -> Seq<PlanModel>
    decreases fields.len(),
{
    if fields.len() == 0 {
        Seq::empty()
    } else {
        plans_spec(fields.drop_last()).push(plan_spec(fields.last()))
    }
}

/// The plan list is a pointwise map of the field list.
pub proof fn lemma_plans_spec_index(fields: Seq<FieldModel>)
    ensures
        plans_spec(fields).len() == fields.len(),
        forall|i: int|
            0 <= i < fields.len() ==> #[trigger] plans_spec(fields)[i] == plan_spec(fields[i]),
    decreases fields.len(),
{
    if fields.len() > 0 {
        lemma_plans_spec_index(fields.drop_last());
        assert forall|i: int| 0 <= i < fields.len() implies #[trigger] plans_spec(fields)[i]
            == plan_spec(fields[i]) by {
            if i < fields.len() - 1 {
                assert(plans_spec(fields)[i] == plans_spec(fields.drop_last())[i]);
                assert(fields.drop_last()[i] == fields[i]);
            }
        }
    }
}

/// Builds the generation plan of a single field.
pub fn plan_field(f: &FieldDescriptor) -> (p: FieldPlan)
    ensures
        p.deep_view() == plan_spec(f.deep_view()),
{
    let shape = classify(&f.declared_type);
    let needs_presence = match &shape {
        TypeShape::Required(_) => true,
        _ => false,
    };
    FieldPlan {
        name: f.name.clone(),
        declared_type: f.declared_type.clone(),
        shape,
        annotation: parse_annotation(&f.raw_annotations),
        needs_presence,
    }
}

/// Builds the plans of all fields, in declaration order.
pub fn plan_fields(fields: &Vec<FieldDescriptor>) -> (plans: Vec<FieldPlan>)
    ensures
        plans.deep_view() == plans_spec(fields.deep_view()),
{
    let ghost fv = fields.deep_view();
    let mut plans: Vec<FieldPlan> = Vec::new();
    let n = fields.len();
    for i in 0..n
        invariant
            n == fields.len(),
            fv == fields.deep_view(),
            plans.deep_view() == plans_spec(fv.take(i as int)),
    {
        let p = plan_field(&fields[i]);
        plans.push(p);
        proof {
            assert(fv.take(i + 1 as int).drop_last() =~= fv.take(i as int));
            assert(plans.deep_view() =~= plans_spec(fv.take(i + 1 as int)));
        }
    }
    proof {
        assert(fv.take(n as int) =~= fv);
    }
    plans
}

} // verus!
