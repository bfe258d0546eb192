//! The code emitter and orchestrator: four independent passes over the field
//! plans — storage slots, default initializers, setters together with
//! per-element appenders, and validation checks together with assembly
//! expressions — stitched into the builder's full declaration.
//!
//! The emitted declaration is structural: each piece says what the generated
//! code does, and the host frontend renders it into its own surface syntax.
//! `decl_wf` states the coherence the pieces enjoy, and
//! `lemma_synthesized_wf` proves that every synthesized declaration for a
//! schema with distinct field names enjoys it; the `runtime` module builds
//! on exactly that coherence.

use crate::plan::{plan_fields, plans_spec, FieldPlan, PlanModel};
use crate::schema::{FieldModel, SchemaModel, StructSchema, TypeExpr, TypeExprModel};
use crate::shape::{ShapeModel, TypeShape};
use vstd::prelude::*;

verus! {

/// How a field is stored inside the builder.
#[derive(Debug, PartialEq, Eq)]
pub enum StorageType {
    /// The declared type wrapped in `Option`: unset until a setter runs.
    OptionOf(TypeExpr),
    /// The declared type itself (a `Vec`): its empty state already means
    /// "nothing appended yet".
    Plain(TypeExpr),
}

/// Ghost model of a [`StorageType`].
#[verifier::ext_equal]
pub enum StorageTypeModel {
    OptionOf(TypeExprModel),
    Plain(TypeExprModel),
}

impl DeepView for StorageType {
    type V = StorageTypeModel;

    open spec fn deep_view(&self) -> StorageTypeModel {
        match self {
            StorageType::OptionOf(t) => StorageTypeModel::OptionOf(t.deep_view()),
            StorageType::Plain(t) => StorageTypeModel::Plain(t.deep_view()),
        }
    }
}

/// One storage slot of the builder record.
#[derive(Debug, PartialEq, Eq)]
pub struct StorageSlot {
    pub name: String,
    pub ty: StorageType,
}

/// Ghost model of a [`StorageSlot`].
#[verifier::ext_equal]
pub struct StorageSlotModel {
    pub name: Seq<char>,
    pub ty: StorageTypeModel,
}

impl DeepView for StorageSlot {
    type V = StorageSlotModel;

    open spec fn deep_view(&self) -> StorageSlotModel {
        StorageSlotModel { name: self.name.deep_view(), ty: self.ty.deep_view() }
    }
}

/// The default initializer of one storage slot.
#[derive(Clone, Copy, PartialEq, Eq, Structural, Debug)]
pub enum DefaultInit {
    /// The slot starts absent.
    NoneValue,
    /// The slot starts as an empty sequence.
    EmptySequence,
}

impl DeepView for DefaultInit {
    type V = DefaultInit;

    open spec fn deep_view(&self) -> DefaultInit {
        *self
    }
}

/// One default-initializer entry of the generated constructor.
#[derive(Debug, PartialEq, Eq)]
pub struct DefaultSlot {
    pub name: String,
    pub init: DefaultInit,
}

/// Ghost model of a [`DefaultSlot`].
#[verifier::ext_equal]
pub struct DefaultSlotModel {
    pub name: Seq<char>,
    pub init: DefaultInit,
}

impl DeepView for DefaultSlot {
    type V = DefaultSlotModel;

    open spec fn deep_view(&self) -> DefaultSlotModel {
        DefaultSlotModel { name: self.name.deep_view(), init: self.init }
    }
}

/// One generated setter: named after its field, taking the full declared
/// type, overwriting the stored value.
#[derive(Debug, PartialEq, Eq)]
pub struct SetterMethod {
    pub name: String,
    pub param_type: TypeExpr,
}

/// Ghost model of a [`SetterMethod`].
#[verifier::ext_equal]
pub struct SetterModel {
    pub name: Seq<char>,
    pub param_type: TypeExprModel,
}

impl DeepView for SetterMethod {
    type V = SetterModel;

    open spec fn deep_view(&self) -> SetterModel {
        SetterModel { name: self.name.deep_view(), param_type: self.param_type.deep_view() }
    }
}

/// One generated per-element appender: named by the annotation's value,
/// pushing one element of the inner type onto its repeated field.
#[derive(Debug, PartialEq, Eq)]
pub struct AppenderMethod {
    pub name: String,
    pub field: String,
    pub element_type: String,
}

/// Ghost model of an [`AppenderMethod`].
#[verifier::ext_equal]
pub struct AppenderModel {
    pub name: Seq<char>,
    pub field: Seq<char>,
    pub element_type: Seq<char>,
}

impl DeepView for AppenderMethod {
    type V = AppenderModel;

    open spec fn deep_view(&self) -> AppenderModel {
        AppenderModel {
            name: self.name.deep_view(),
            field: self.field.deep_view(),
            element_type: self.element_type.deep_view(),
        }
    }
}

/// How the generated assembly method produces one field of the final
/// structure.
#[derive(Clone, Copy, PartialEq, Eq, Structural, Debug)]
pub enum AssemblyExpr {
    /// The stored optional value is copied as-is (Optional shape).
    CopyStored,
    /// The stored optional value is unwrapped — safe only because
    /// validation guaranteed presence (Required shape).
    UnwrapStored,
    /// The stored sequence is copied verbatim (Repeated shape).
    CopySequence,
}

impl DeepView for AssemblyExpr {
    type V = AssemblyExpr;

    open spec fn deep_view(&self) -> AssemblyExpr {
        *self
    }
}

/// One assembly entry of the generated assembly method.
#[derive(Debug, PartialEq, Eq)]
pub struct AssemblySlot {
    pub name: String,
    pub expr: AssemblyExpr,
}

/// Ghost model of an [`AssemblySlot`].
#[verifier::ext_equal]
pub struct AssemblySlotModel {
    pub name: Seq<char>,
    pub expr: AssemblyExpr,
}

impl DeepView for AssemblySlot {
    type V = AssemblySlotModel;

    open spec fn deep_view(&self) -> AssemblySlotModel {
        AssemblySlotModel { name: self.name.deep_view(), expr: self.expr }
    }
}

/// The synthesized builder declaration: the terminal artifact of one
/// invocation of the engine.
#[derive(Debug, PartialEq, Eq)]
pub struct BuilderDeclaration {
    pub struct_name: String,
    pub builder_name: String,
    pub storage: Vec<StorageSlot>,
    pub defaults: Vec<DefaultSlot>,
    pub setters: Vec<SetterMethod>,
    pub appenders: Vec<AppenderMethod>,
    pub checks: Vec<String>,
    pub assembly: Vec<AssemblySlot>,
}

/// Ghost model of a [`BuilderDeclaration`].
#[verifier::ext_equal]
pub struct DeclModel {
    pub struct_name: Seq<char>,
    pub builder_name: Seq<char>,
    pub storage: Seq<StorageSlotModel>,
    pub defaults: Seq<DefaultSlotModel>,
    pub setters: Seq<SetterModel>,
    pub appenders: Seq<AppenderModel>,
    pub checks: Seq<Seq<char>>,
    pub assembly: Seq<AssemblySlotModel>,
}

impl DeepView for BuilderDeclaration {
    type V = DeclModel;

    open spec fn deep_view(&self) -> DeclModel {
        DeclModel {
            struct_name: self.struct_name.deep_view(),
            builder_name: self.builder_name.deep_view(),
            storage: self.storage.deep_view(),
            defaults: self.defaults.deep_view(),
            setters: self.setters.deep_view(),
            appenders: self.appenders.deep_view(),
            checks: self.checks.deep_view(),
            assembly: self.assembly.deep_view(),
        }
    }
}

/// The storage slot of one plan: `Option` of the declared type, except that
/// a Repeated field stores its sequence directly.
pub open spec fn storage_slot_spec(p: PlanModel) -> StorageSlotModel {
    StorageSlotModel {
        name: p.name,
        ty: match p.shape {
            ShapeModel::Repeated(_) => StorageTypeModel::Plain(p.declared_type),
            _ => StorageTypeModel::OptionOf(p.declared_type),
        },
    }
}

/// The storage pass: one slot per field, in declaration order.
pub open spec fn storage_list_spec(plans: Seq<PlanModel>) -> Seq<StorageSlotModel>
    decreases plans.len(),
{
    if plans.len() == 0 {
        Seq::empty()
    } else {
        storage_list_spec(plans.drop_last()).push(storage_slot_spec(plans.last()))
    }
}

/// The storage list is a pointwise map of the plan list.
pub proof fn lemma_storage_list_index(plans: Seq<PlanModel>)
    ensures
        storage_list_spec(plans).len() == plans.len(),
        forall|i: int|
            0 <= i < plans.len() ==> #[trigger] storage_list_spec(plans)[i]
                == storage_slot_spec(plans[i]),
    decreases plans.len(),
{
    if plans.len() > 0 {
        lemma_storage_list_index(plans.drop_last());
        assert forall|i: int| 0 <= i < plans.len() implies #[trigger] storage_list_spec(plans)[i]
            == storage_slot_spec(plans[i]) by {
            if i < plans.len() - 1 {
                assert(storage_list_spec(plans)[i] == storage_list_spec(plans.drop_last())[i]);
                assert(plans.drop_last()[i] == plans[i]);
            }
        }
    }
}

/// The default initializer of one plan: absent, except that a Repeated field
/// starts as an empty sequence.
pub open spec fn default_slot_spec(p: PlanModel) -> DefaultSlotModel {
    DefaultSlotModel {
        name: p.name,
        init: match p.shape {
            ShapeModel::Repeated(_) => DefaultInit::EmptySequence,
            _ => DefaultInit::NoneValue,
        },
    }
}

/// The default pass: one initializer per field, in declaration order.
pub open spec fn defaults_list_spec(plans: Seq<PlanModel>) -> Seq<DefaultSlotModel>
    decreases plans.len(),
{
    if plans.len() == 0 {
        Seq::empty()
    } else {
        defaults_list_spec(plans.drop_last()).push(default_slot_spec(plans.last()))
    }
}

/// The default list is a pointwise map of the plan list.
pub proof fn lemma_defaults_list_index(plans: Seq<PlanModel>)
    ensures
        defaults_list_spec(plans).len() == plans.len(),
        forall|i: int|
            0 <= i < plans.len() ==> #[trigger] defaults_list_spec(plans)[i]
                == default_slot_spec(plans[i]),
    decreases plans.len(),
{
    if plans.len() > 0 {
        lemma_defaults_list_index(plans.drop_last());
        assert forall|i: int| 0 <= i < plans.len() implies #[trigger] defaults_list_spec(plans)[i]
            == default_slot_spec(plans[i]) by {
            if i < plans.len() - 1 {
                assert(defaults_list_spec(plans)[i] == defaults_list_spec(plans.drop_last())[i]);
                assert(plans.drop_last()[i] == plans[i]);
            }
        }
    }
}

/// The setters emitted by the setter pass: one per Required or Optional
/// field, in declaration order; a Repeated field gets none.
pub open spec fn setters_list_spec(plans: Seq<PlanModel>) -> Seq<SetterModel>
    decreases plans.len(),
{
    if plans.len() == 0 {
        Seq::empty()
    } else {
        let rest = setters_list_spec(plans.drop_last());
        let p = plans.last();
        match p.shape {
            ShapeModel::Repeated(_) => rest,
            _ => rest.push(SetterModel { name: p.name, param_type: p.declared_type }),
        }
    }
}

/// Whether one plan yields an appender: its shape is Repeated and its
/// annotation is present with the `each` tag.
pub open spec fn appender_of_spec(p: PlanModel) -> Option<AppenderModel> {
    match (p.shape, p.annotation) {
        (ShapeModel::Repeated(elem), Some(a)) => if a.tag == "each"@ {
            Some(AppenderModel { name: a.value, field: p.name, element_type: elem })
        } else {
            None
        },
        _ => None,
    }
}

/// The appenders emitted by the setter pass, in declaration order.
pub open spec fn appenders_list_spec(plans: Seq<PlanModel>) -> Seq<AppenderModel>
    decreases plans.len(),
{
    if plans.len() == 0 {
        Seq::empty()
    } else {
        let rest = appenders_list_spec(plans.drop_last());
        match appender_of_spec(plans.last()) {
            Some(a) => rest.push(a),
            None => rest,
        }
    }
}

/// The validation checks: the names of the fields requiring presence, in
/// declaration order.
pub open spec fn checks_list_spec(plans: Seq<PlanModel>) -> Seq<Seq<char>>
    decreases plans.len(),
{
    if plans.len() == 0 {
        Seq::empty()
    } else {
        let rest = checks_list_spec(plans.drop_last());
        if plans.last().needs_presence {
            rest.push(plans.last().name)
        } else {
            rest
        }
    }
}

/// The assembly expression of one plan, by its shape.
pub open spec fn assembly_slot_spec(p: PlanModel) -> AssemblySlotModel {
    AssemblySlotModel {
        name: p.name,
        expr: match p.shape {
            ShapeModel::Optional(_) => AssemblyExpr::CopyStored,
            ShapeModel::Required(_) => AssemblyExpr::UnwrapStored,
            ShapeModel::Repeated(_) => AssemblyExpr::CopySequence,
        },
    }
}

/// The assembly pass: one entry per field, in declaration order.
pub open spec fn assembly_list_spec(plans: Seq<PlanModel>) -> Seq<AssemblySlotModel>
    decreases plans.len(),
{
    if plans.len() == 0 {
        Seq::empty()
    } else {
        assembly_list_spec(plans.drop_last()).push(assembly_slot_spec(plans.last()))
    }
}

/// The assembly list is a pointwise map of the plan list.
pub proof fn lemma_assembly_list_index(plans: Seq<PlanModel>)
    ensures
        assembly_list_spec(plans).len() == plans.len(),
        forall|i: int|
            0 <= i < plans.len() ==> #[trigger] assembly_list_spec(plans)[i]
                == assembly_slot_spec(plans[i]),
    decreases plans.len(),
{
    if plans.len() > 0 {
        lemma_assembly_list_index(plans.drop_last());
        assert forall|i: int| 0 <= i < plans.len() implies #[trigger] assembly_list_spec(plans)[i]
            == assembly_slot_spec(plans[i]) by {
            if i < plans.len() - 1 {
                assert(assembly_list_spec(plans)[i] == assembly_list_spec(plans.drop_last())[i]);
                assert(plans.drop_last()[i] == plans[i]);
            }
        }
    }
}

/// The whole declaration synthesized for a schema: every pass applied to the
/// schema's field plans, and the builder named after the structure.
pub open spec fn decl_spec(s: SchemaModel) -> DeclModel {
    let plans = plans_spec(s.fields);
    DeclModel {
        struct_name: s.name,
        builder_name: s.name + "Builder"@,
        storage: storage_list_spec(plans),
        defaults: defaults_list_spec(plans),
        setters: setters_list_spec(plans),
        appenders: appenders_list_spec(plans),
        checks: checks_list_spec(plans),
        assembly: assembly_list_spec(plans),
    }
}

/// The storage pass over built plans.
pub fn storage_pass(plans: &Vec<FieldPlan>) -> (out: Vec<StorageSlot>)
    ensures
        out.deep_view() == storage_list_spec(plans.deep_view()),
{
    let ghost pv = plans.deep_view();
    let mut out: Vec<StorageSlot> = Vec::new();
    let n = plans.len();
    for i in 0..n
        invariant
            n == plans.len(),
            pv == plans.deep_view(),
            out.deep_view() == storage_list_spec(pv.take(i as int)),
    {
        let p = &plans[i];
        let ty = match &p.shape {
            TypeShape::Repeated(_) => StorageType::Plain(p.declared_type.clone()),
            _ => StorageType::OptionOf(p.declared_type.clone()),
        };
        out.push(StorageSlot { name: p.name.clone(), ty });
        proof {
            assert(pv.take(i + 1 as int).drop_last() =~= pv.take(i as int));
            assert(out.deep_view() =~= storage_list_spec(pv.take(i + 1 as int)));
        }
    }
    proof {
        assert(pv.take(n as int) =~= pv);
    }
    out
}

/// The default pass over built plans.
pub fn default_pass(plans: &Vec<FieldPlan>) -> (out: Vec<DefaultSlot>)
    ensures
        out.deep_view() == defaults_list_spec(plans.deep_view()),
{
    let ghost pv = plans.deep_view();
    let mut out: Vec<DefaultSlot> = Vec::new();
    let n = plans.len();
    for i in 0..n
        invariant
            n == plans.len(),
            pv == plans.deep_view(),
            out.deep_view() == defaults_list_spec(pv.take(i as int)),
    {
        let p = &plans[i];
        let init = match &p.shape {
            TypeShape::Repeated(_) => DefaultInit::EmptySequence,
            _ => DefaultInit::NoneValue,
        };
        out.push(DefaultSlot { name: p.name.clone(), init });
        proof {
            assert(pv.take(i + 1 as int).drop_last() =~= pv.take(i as int));
            assert(out.deep_view() =~= defaults_list_spec(pv.take(i + 1 as int)));
        }
    }
    proof {
        assert(pv.take(n as int) =~= pv);
    }
    out
}

/// The setter pass over built plans: the setters of the Required and
/// Optional fields, and the appenders of the `each`-annotated Repeated
/// fields, each list in declaration order.
pub fn setter_pass(plans: &Vec<FieldPlan>) -> (out: (Vec<SetterMethod>, Vec<AppenderMethod>))
    ensures
        out.0.deep_view() == setters_list_spec(plans.deep_view()),
        out.1.deep_view() == appenders_list_spec(plans.deep_view()),
{
    let ghost pv = plans.deep_view();
    let mut setters: Vec<SetterMethod> = Vec::new();
    let mut appenders: Vec<AppenderMethod> = Vec::new();
    let each_tag = String::from_str("each");
    let n = plans.len();
    for i in 0..n
        invariant
            n == plans.len(),
            pv == plans.deep_view(),
            each_tag.deep_view() == "each"@,
            setters.deep_view() == setters_list_spec(pv.take(i as int)),
            appenders.deep_view() == appenders_list_spec(pv.take(i as int)),
    {
        let p = &plans[i];
        proof {
            assert(pv.take(i + 1 as int).drop_last() =~= pv.take(i as int));
        }
        match &p.shape {
            TypeShape::Repeated(elem) => {
                match &p.annotation {
                    Some(a) => {
                        if a.tag == each_tag {
                            appenders.push(
                                AppenderMethod {
                                    name: a.value.clone(),
                                    field: p.name.clone(),
                                    element_type: elem.clone(),
                                },
                            );
                        }
                    },
                    None => {},
                }
            },
            _ => {
                setters.push(
                    SetterMethod { name: p.name.clone(), param_type: p.declared_type.clone() },
                );
            },
        }
        proof {
            assert(setters.deep_view() =~= setters_list_spec(pv.take(i + 1 as int)));
            assert(appenders.deep_view() =~= appenders_list_spec(pv.take(i + 1 as int)));
        }
    }
    proof {
        assert(pv.take(n as int) =~= pv);
        assert(setters.deep_view() == setters_list_spec(pv));
        assert(appenders.deep_view() == appenders_list_spec(pv));
    }
    (setters, appenders)
}

/// The validation and assembly pass over built plans: the presence checks of
/// the fields requiring one, and the per-field assembly expressions, each
/// list in declaration order.
pub fn validation_pass(plans: &Vec<FieldPlan>) -> (out: (Vec<String>, Vec<AssemblySlot>))
    ensures
        out.0.deep_view() == checks_list_spec(plans.deep_view()),
        out.1.deep_view() == assembly_list_spec(plans.deep_view()),
{
    let ghost pv = plans.deep_view();
    let mut checks: Vec<String> = Vec::new();
    let mut assembly: Vec<AssemblySlot> = Vec::new();
    let n = plans.len();
    for i in 0..n
        invariant
            n == plans.len(),
            pv == plans.deep_view(),
            checks.deep_view() == checks_list_spec(pv.take(i as int)),
            assembly.deep_view() == assembly_list_spec(pv.take(i as int)),
    {
        let p = &plans[i];
        proof {
            assert(pv.take(i + 1 as int).drop_last() =~= pv.take(i as int));
        }
        if p.needs_presence {
            checks.push(p.name.clone());
        }
        let expr = match &p.shape {
            TypeShape::Optional(_) => AssemblyExpr::CopyStored,
            TypeShape::Required(_) => AssemblyExpr::UnwrapStored,
            TypeShape::Repeated(_) => AssemblyExpr::CopySequence,
        };
        assembly.push(AssemblySlot { name: p.name.clone(), expr });
        proof {
            assert(checks.deep_view() =~= checks_list_spec(pv.take(i + 1 as int)));
            assert(assembly.deep_view() =~= assembly_list_spec(pv.take(i + 1 as int)));
        }
    }
    proof {
        assert(pv.take(n as int) =~= pv);
    }
    (checks, assembly)
}

/// The names of the assembly entries that unwrap their stored value, in
/// order: exactly the fields whose presence the generated checks demand.
pub open spec fn required_names(assembly: Seq<AssemblySlotModel>) -> Seq<Seq<char>>
    decreases assembly.len(),
{
    if assembly.len() == 0 {
        Seq::empty()
    } else {
        let rest = required_names(assembly.drop_last());
        if assembly.last().expr is UnwrapStored {
            rest.push(assembly.last().name)
        } else {
            rest
        }
    }
}

/// Whether the fields of a schema carry pairwise distinct names.
pub open spec fn distinct_names(fields: Seq<FieldModel>) -> bool {
    forall|i: int, j: int|
        0 <= i < j < fields.len() ==> #[trigger] fields[i].name != #[trigger] fields[j].name
}

/// The coherence a builder declaration enjoys: the three per-field lists
/// run in parallel, slot kinds agree across them, the checks are exactly the
/// unwrapping fields in order, slot names are distinct, and every appender
/// targets a sequence-kind slot.
pub open spec fn decl_wf(d: DeclModel) -> bool {
    &&& d.defaults.len() == d.storage.len()
    &&& d.assembly.len() == d.storage.len()
    &&& forall|i: int|
        0 <= i < d.storage.len() ==> (#[trigger] d.defaults[i]).name == d.storage[i].name
    &&& forall|i: int|
        0 <= i < d.storage.len() ==> (#[trigger] d.assembly[i]).name == d.storage[i].name
    &&& forall|i: int|
        0 <= i < d.storage.len() ==> ((#[trigger] d.storage[i]).ty is Plain <==> d.assembly[i].expr
            is CopySequence)
    &&& forall|i: int|
        0 <= i < d.storage.len() ==> ((#[trigger] d.defaults[i]).init is EmptySequence
            <==> d.assembly[i].expr is CopySequence)
    &&& d.checks == required_names(d.assembly)
    &&& forall|i: int, j: int|
        0 <= i < j < d.storage.len() ==> (#[trigger] d.storage[i]).name
            != (#[trigger] d.storage[j]).name
    &&& forall|k: int|
        0 <= k < d.appenders.len() ==> appender_has_target(d, #[trigger] d.appenders[k])
}

/// Whether some storage slot of sequence kind carries an appender's target
/// field name.
pub open spec fn appender_has_target(d: DeclModel, a: AppenderModel) -> bool {
    exists|i: int|
        0 <= i < d.storage.len() && (#[trigger] d.storage[i]).name == a.field && d.assembly[i].expr
            is CopySequence
}

/// The generated checks are exactly the names of the plans requiring
/// presence, which are exactly the assembly entries that unwrap.
proof fn lemma_checks_are_required_names(plans: Seq<PlanModel>)
    requires
        forall|i: int|
            0 <= i < plans.len() ==> ((#[trigger] plans[i]).needs_presence <==> plans[i].shape
                is Required),
    ensures
        checks_list_spec(plans) == required_names(assembly_list_spec(plans)),
    decreases plans.len(),
{
    if plans.len() > 0 {
        lemma_checks_are_required_names(plans.drop_last());
        let a = assembly_list_spec(plans);
        assert(a.drop_last() =~= assembly_list_spec(plans.drop_last()));
        assert(a.last() == assembly_slot_spec(plans.last()));
    }
}

/// Whether some plan of Repeated shape carries an appender's target field
/// name.
pub open spec fn appender_backed(plans: Seq<PlanModel>, a: AppenderModel) -> bool {
    exists|i: int|
        0 <= i < plans.len() && (#[trigger] plans[i]).name == a.field && plans[i].shape is Repeated
}

/// Every emitted appender is backed by a Repeated-shaped plan of the same
/// field name.
proof fn lemma_appender_targets(plans: Seq<PlanModel>)
    ensures
        forall|k: int|
            0 <= k < appenders_list_spec(plans).len() ==> appender_backed(
                plans,
                #[trigger] appenders_list_spec(plans)[k],
            ),
    decreases plans.len(),
{
    if plans.len() > 0 {
        lemma_appender_targets(plans.drop_last());
        assert forall|k: int| 0 <= k < appenders_list_spec(plans).len() implies appender_backed(
            plans,
            #[trigger] appenders_list_spec(plans)[k],
        ) by {
            if k < appenders_list_spec(plans.drop_last()).len() {
                assert(appenders_list_spec(plans)[k] == appenders_list_spec(plans.drop_last())[k]);
                let i = choose|i: int|
                    0 <= i < plans.drop_last().len() && (#[trigger] plans.drop_last()[i]).name
                        == appenders_list_spec(plans.drop_last())[k].field
                        && plans.drop_last()[i].shape is Repeated;
                assert(plans.drop_last()[i] == plans[i]);
                assert(0 <= i < plans.len() && plans[i].name == appenders_list_spec(plans)[k].field
                    && plans[i].shape is Repeated);
            } else {
                assert(appender_of_spec(plans.last()) is Some);
                assert(appenders_list_spec(plans)[k] == appender_of_spec(plans.last()).unwrap());
                let i = plans.len() - 1;
                assert(0 <= i < plans.len() && plans[i].name == appenders_list_spec(plans)[k].field
                    && plans[i].shape is Repeated);
            }
        }
    } else {
        assert(appenders_list_spec(plans).len() == 0);
    }
}

/// Every declaration synthesized for a schema with distinct field names is
/// well-formed in the sense of [`decl_wf`].
pub proof fn lemma_synthesized_wf(s: SchemaModel)
    requires
        distinct_names(s.fields),
    ensures
        decl_wf(decl_spec(s)),
{
    let plans = plans_spec(s.fields);
    let d = decl_spec(s);
    crate::plan::lemma_plans_spec_index(s.fields);
    lemma_storage_list_index(plans);
    lemma_defaults_list_index(plans);
    lemma_assembly_list_index(plans);
    lemma_checks_are_required_names(plans);
    lemma_appender_targets(plans);
    assert forall|k: int| 0 <= k < d.appenders.len() implies appender_has_target(
        d,
        #[trigger] d.appenders[k],
    ) by {
        assert(appender_backed(plans, appenders_list_spec(plans)[k]));
        let i = choose|i: int|
            0 <= i < plans.len() && (#[trigger] plans[i]).name == appenders_list_spec(
                plans,
            )[k].field && plans[i].shape is Repeated;
        assert(0 <= i < d.storage.len() && d.storage[i].name == d.appenders[k].field
            && d.assembly[i].expr is CopySequence);
    }
}

/// The orchestrator: plans every field of the schema, drives the four
/// emission passes, and returns the synthesized builder declaration.
pub fn synthesize(schema: &StructSchema) -> (d: BuilderDeclaration)
    ensures
        d.deep_view() == decl_spec(schema.deep_view()),
{
    let plans = plan_fields(&schema.fields);
    let storage = storage_pass(&plans);
    let defaults = default_pass(&plans);
    let (setters, appenders) = setter_pass(&plans);
    let (checks, assembly) = validation_pass(&plans);
    let builder_name = schema.name.clone().concat("Builder");
    BuilderDeclaration {
        struct_name: schema.name.clone(),
        builder_name,
        storage,
        defaults,
        setters,
        appenders,
        checks,
        assembly,
    }
}

} // verus!
