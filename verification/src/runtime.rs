//! The reference semantics of a synthesized builder declaration.
//!
//! The generated code is generic over the host language's field types; here
//! its behaviour is modeled with string-valued fields, so that what the
//! declaration makes the builder do — defaulting, setting, appending, and
//! validated assembly — is itself verified. In particular, assembly never
//! panics on a well-formed declaration: the unwrap of a required field's
//! stored value is proved safe by the preceding presence checks.

use crate::emit::{
    appender_has_target, decl_wf, AppenderModel, AssemblyExpr, AssemblySlotModel,
    BuilderDeclaration, DeclModel, DefaultInit, DefaultSlotModel, StorageType,
};
use vstd::pervasive::unreached;
use vstd::pervasive::VecAdditionalExecFns;
use vstd::prelude::*;

verus! {

/// The stored state of one builder slot.
#[derive(Debug, PartialEq, Eq)]
pub enum SlotValue {
    /// Storage of `Option` kind: absent until a setter runs.
    Single(Option<String>),
    /// Storage of sequence kind: the elements appended so far, in order.
    Many(Vec<String>),
}

/// Ghost model of a [`SlotValue`].
#[verifier::ext_equal]
pub enum SlotModel {
    Single(Option<Seq<char>>),
    Many(Seq<Seq<char>>),
}

impl DeepView for SlotValue {
    type V = SlotModel;

    open spec fn deep_view(&self) -> SlotModel {
        match self {
            SlotValue::Single(v) => SlotModel::Single(v.deep_view()),
            SlotValue::Many(items) => SlotModel::Many(items.deep_view()),
        }
    }
}

/// One field of the assembled final structure.
#[derive(Debug, PartialEq, Eq)]
pub enum FieldValue {
    /// An Optional field: its stored optional value, copied as-is.
    Maybe(Option<String>),
    /// A Required field: its stored value, present by validation.
    One(String),
    /// A Repeated field: its accumulated elements, copied verbatim.
    Many(Vec<String>),
}

/// Ghost model of a [`FieldValue`].
#[verifier::ext_equal]
pub enum FieldValueModel {
    Maybe(Option<Seq<char>>),
    One(Seq<char>),
    Many(Seq<Seq<char>>),
}

impl DeepView for FieldValue {
    type V = FieldValueModel;

    open spec fn deep_view(&self) -> FieldValueModel {
        match self {
            FieldValue::Maybe(v) => FieldValueModel::Maybe(v.deep_view()),
            FieldValue::One(v) => FieldValueModel::One(v.deep_view()),
            FieldValue::Many(items) => FieldValueModel::Many(items.deep_view()),
        }
    }
}

/// One named field of the assembled final structure.
#[derive(Debug, PartialEq, Eq)]
pub struct AssembledField {
    pub name: String,
    pub value: FieldValue,
}

/// Ghost model of an [`AssembledField`].
#[verifier::ext_equal]
pub struct AssembledFieldModel {
    pub name: Seq<char>,
    pub value: FieldValueModel,
}

impl DeepView for AssembledField {
    type V = AssembledFieldModel;

    open spec fn deep_view(&self) -> AssembledFieldModel {
        AssembledFieldModel { name: self.name.deep_view(), value: self.value.deep_view() }
    }
}

/// A builder instance: one stored slot per field of the declaration, in
/// declaration order.
#[derive(Debug, PartialEq, Eq)]
pub struct BuilderState {
    pub slots: Vec<SlotValue>,
}

impl DeepView for BuilderState {
    type V = Seq<SlotModel>;

    open spec fn deep_view(&self) -> Seq<SlotModel> {
        self.slots.deep_view()
    }
}

/// Whether a builder state runs in parallel with a declaration: one slot per
/// field, of sequence kind exactly where the field assembles by copying its
/// sequence.
pub open spec fn state_wf(d: DeclModel, s: Seq<SlotModel>) -> bool {
    &&& s.len() == d.assembly.len()
    &&& forall|i: int|
        0 <= i < s.len() ==> ((#[trigger] s[i]) is Many <==> d.assembly[i].expr is CopySequence)
}

/// The initial value of one slot, from its default initializer.
pub open spec fn init_slot_of(ds: DefaultSlotModel) -> SlotModel {
    match ds.init {
        DefaultInit::NoneValue => SlotModel::Single(None),
        DefaultInit::EmptySequence => SlotModel::Many(Seq::empty()),
    }
}

/// The freshly defaulted state of a whole declaration.
pub open spec fn init_slots(defaults: Seq<DefaultSlotModel>) -> Seq<SlotModel>
    decreases defaults.len(),
{
    if defaults.len() == 0 {
        Seq::empty()
    } else {
        init_slots(defaults.drop_last()).push(init_slot_of(defaults.last()))
    }
}

/// The initial state is a pointwise map of the default list.
pub proof fn lemma_init_slots_index(defaults: Seq<DefaultSlotModel>)
    ensures
        init_slots(defaults).len() == defaults.len(),
        forall|i: int|
            0 <= i < defaults.len() ==> #[trigger] init_slots(defaults)[i] == init_slot_of(
                defaults[i],
            ),
    decreases defaults.len(),
{
    if defaults.len() > 0 {
        lemma_init_slots_index(defaults.drop_last());
        assert forall|i: int| 0 <= i < defaults.len() implies #[trigger] init_slots(defaults)[i]
            == init_slot_of(defaults[i]) by {
            if i < defaults.len() - 1 {
                assert(init_slots(defaults)[i] == init_slots(defaults.drop_last())[i]);
                assert(defaults.drop_last()[i] == defaults[i]);
            }
        }
    }
}

/// A freshly defaulted builder runs in parallel with its well-formed
/// declaration.
pub proof fn lemma_init_state_wf(d: DeclModel)
    requires
        decl_wf(d),
    ensures
        state_wf(d, init_slots(d.defaults)),
{
    lemma_init_slots_index(d.defaults);
}

/// The generated zero-argument constructor: a builder with every slot at its
/// default initializer.
pub fn new_builder(d: &BuilderDeclaration) -> (b: BuilderState)
    ensures
        b.deep_view() == init_slots(d.deep_view().defaults),
        decl_wf(d.deep_view()) ==> state_wf(d.deep_view(), b.deep_view()),
{
    let ghost dv = d.deep_view().defaults;
    let mut slots: Vec<SlotValue> = Vec::new();
    let n = d.defaults.len();
    for i in 0..n
        invariant
            n == d.defaults.len(),
            dv == d.deep_view().defaults,
            slots.deep_view() == init_slots(dv.take(i as int)),
    {
        let slot = match &d.defaults[i].init {
            DefaultInit::NoneValue => SlotValue::Single(None),
            DefaultInit::EmptySequence => SlotValue::Many(Vec::new()),
        };
        slots.push(slot);
        proof {
            assert(dv.take(i + 1 as int).drop_last() =~= dv.take(i as int));
            assert(slots.deep_view() =~~= init_slots(dv.take(i + 1 as int)));
        }
    }
    proof {
        assert(dv.take(n as int) =~= dv);
        if decl_wf(d.deep_view()) {
            lemma_init_state_wf(d.deep_view());
        }
    }
    BuilderState { slots }
}

/// Whether the declaration stores some field under this name.
pub open spec fn has_slot_named(d: DeclModel, name: Seq<char>) -> bool {
    exists|i: int| 0 <= i < d.storage.len() && (#[trigger] d.storage[i]).name == name
}

/// Whether the declaration stores a settable (Option-kind) field under this
/// name: exactly when the generated builder has a setter of this name.
pub open spec fn has_settable_slot(d: DeclModel, name: Seq<char>) -> bool {
    exists|i: int|
        0 <= i < d.storage.len() && (#[trigger] d.storage[i]).name == name && d.storage[i].ty
            is OptionOf
}

/// The index of the slot stored under this name (unique when the
/// declaration's slot names are distinct).
pub open spec fn slot_index(d: DeclModel, name: Seq<char>) -> int {
    choose|i: int| 0 <= i < d.storage.len() && (#[trigger] d.storage[i]).name == name
}

/// The generated setter: overwrites the named field's stored value.
///
/// Returns whether a setter of this name exists on the generated builder; a
/// name without one (an unknown field, or a Repeated field, which gets no
/// setter) leaves the builder untouched.
pub fn set_field(d: &BuilderDeclaration, state: &mut BuilderState, name: &String, value: String) -> (r:
    bool)
    requires
        decl_wf(d.deep_view()),
        state_wf(d.deep_view(), old(state).deep_view()),
    ensures
        state_wf(d.deep_view(), final(state).deep_view()),
        r == has_settable_slot(d.deep_view(), name.deep_view()),
        r ==> final(state).deep_view() == old(state).deep_view().update(
            slot_index(d.deep_view(), name.deep_view()),
            SlotModel::Single(Some(value.deep_view())),
        ),
        !r ==> final(state).deep_view() == old(state).deep_view(),
{
    let ghost dv = d.deep_view();
    let ghost old_state = state.deep_view();
    let n = d.storage.len();
    let mut idx: usize = n;
    for i in 0..n
        invariant
            n == d.storage.len(),
            dv == d.deep_view(),
            idx == n || idx < i,
            idx == n ==> forall|j: int|
                0 <= j < i ==> (#[trigger] dv.storage[j]).name != name.deep_view(),
            idx < n ==> dv.storage[idx as int].name == name.deep_view(),
    {
        if idx == n {
            let matched = d.storage[i].name == *name;
            proof {
                assert(dv.storage[i as int] == d.storage@[i as int].deep_view());
                assert(matched == (dv.storage[i as int].name == name.deep_view()));
            }
            if matched {
                idx = i;
            }
        }
    }
    if idx < n {
        proof {
            assert(has_slot_named(dv, name.deep_view()));
            let i0 = slot_index(dv, name.deep_view());
            assert(0 <= i0 < dv.storage.len() && dv.storage[i0].name == name.deep_view());
            assert(i0 == idx as int);
        }
        match &d.storage[idx].ty {
            StorageType::OptionOf(_) => {
                state.slots.set(idx, SlotValue::Single(Some(value)));
                proof {
                    assert(state.deep_view() =~~= old_state.update(
                        idx as int,
                        SlotModel::Single(Some(value.deep_view())),
                    ));
                    assert forall|j: int| 0 <= j < state.deep_view().len() implies ((
                    #[trigger] state.deep_view()[j]) is Many <==> dv.assembly[j].expr
                        is CopySequence) by {
                        if j != idx as int {
                            assert(state.deep_view()[j] == old_state[j]);
                        }
                    }
                }
                true
            },
            StorageType::Plain(_) => {
                proof {
                    if has_settable_slot(dv, name.deep_view()) {
                        let j = choose|j: int|
                            0 <= j < dv.storage.len() && (#[trigger] dv.storage[j]).name
                                == name.deep_view() && dv.storage[j].ty is OptionOf;
                        assert(j == idx as int);
                        assert(false);
                    }
                }
                false
            },
        }
    } else {
        proof {
            if has_settable_slot(dv, name.deep_view()) {
                let j = choose|j: int|
                    0 <= j < dv.storage.len() && (#[trigger] dv.storage[j]).name
                        == name.deep_view() && dv.storage[j].ty is OptionOf;
                assert(false);
            }
        }
        false
    }
}

/// The first generated appender of this method name, if any: annotation
/// values are not required to be distinct, and the first declaration wins.
pub open spec fn find_appender(apps: Seq<AppenderModel>, method: Seq<char>) -> Option<
    AppenderModel,
>
    decreases apps.len(),
{
    if apps.len() == 0 {
        None
    } else if apps.first().name == method {
        Some(apps.first())
    } else {
        find_appender(apps.drop_first(), method)
    }
}

/// Copies a sequence of string values.
fn clone_strings(v: &Vec<String>) -> (r: Vec<String>)
    ensures
        r.deep_view() == v.deep_view(),
{
    let mut r: Vec<String> = Vec::new();
    let n = v.len();
    for i in 0..n
        invariant
            n == v.len(),
            r.len() == i,
            r.deep_view() == v.deep_view().take(i as int),
    {
        r.push(v[i].clone());
        proof {
            assert(r.deep_view()[i as int] == r@[i as int].deep_view());
            assert(r@[i as int].deep_view() == v@[i as int].deep_view());
            assert(v.deep_view().take(i + 1 as int)[i as int] == v@[i as int].deep_view());
            assert(r.deep_view() =~= v.deep_view().take(i + 1 as int));
        }
    }
    proof {
        assert(v.deep_view().take(n as int) =~= v.deep_view());
    }
    r
}

/// The generated per-element appender: pushes one element onto the repeated
/// field that the named appender targets.
///
/// Returns whether an appender of this method name exists on the generated
/// builder; a name without one leaves the builder untouched.
pub fn append_element(
    d: &BuilderDeclaration,
    state: &mut BuilderState,
    method: &String,
    value: String,
) -> (r: bool)
    requires
        decl_wf(d.deep_view()),
        state_wf(d.deep_view(), old(state).deep_view()),
    ensures
        state_wf(d.deep_view(), final(state).deep_view()),
        r == (find_appender(d.deep_view().appenders, method.deep_view()) is Some),
        r ==> ({
            let a = find_appender(d.deep_view().appenders, method.deep_view()).unwrap();
            let i = slot_index(d.deep_view(), a.field);
            &&& 0 <= i < old(state).deep_view().len()
            &&& old(state).deep_view()[i] is Many
            &&& final(state).deep_view() == old(state).deep_view().update(
                i,
                SlotModel::Many(old(state).deep_view()[i]->Many_0.push(value.deep_view())),
            )
        }),
        !r ==> final(state).deep_view() == old(state).deep_view(),
{
    let ghost dv = d.deep_view();
    let ghost mv = method.deep_view();
    let ghost old_state = state.deep_view();
    let m = d.appenders.len();
    let mut k: usize = m;
    proof {
        assert(dv.appenders.skip(0) =~= dv.appenders);
    }
    for t in 0..m
        invariant
            m == d.appenders.len(),
            dv == d.deep_view(),
            mv == method.deep_view(),
            k == m || k < t,
            k == m ==> find_appender(dv.appenders, mv) == find_appender(
                dv.appenders.skip(t as int),
                mv,
            ),
            k < m ==> find_appender(dv.appenders, mv) == Some(dv.appenders[k as int]),
    {
        if k == m {
            let matched = d.appenders[t].name == *method;
            proof {
                assert(dv.appenders[t as int] == d.appenders@[t as int].deep_view());
                assert(matched == (dv.appenders[t as int].name == mv));
                assert(dv.appenders.skip(t as int).first() == dv.appenders[t as int]);
            }
            if matched {
                k = t;
            } else {
                proof {
                    assert(dv.appenders.skip(t as int).drop_first() =~= dv.appenders.skip(
                        t + 1 as int,
                    ));
                }
            }
        }
    }
    if k == m {
        proof {
            assert(dv.appenders.skip(m as int) =~= Seq::<AppenderModel>::empty());
        }
        return false;
    }
    let ghost a = find_appender(dv.appenders, mv).unwrap();
    proof {
        assert(a == dv.appenders[k as int]);
        assert(appender_has_target(dv, dv.appenders[k as int]));
    }
    let fieldname: &String = &d.appenders[k].field;
    proof {
        assert(fieldname.deep_view() == a.field);
    }
    let n = d.storage.len();
    let mut idx: usize = n;
    for i in 0..n
        invariant
            n == d.storage.len(),
            dv == d.deep_view(),
            fieldname.deep_view() == a.field,
            idx == n || idx < i,
            idx == n ==> forall|j: int|
                0 <= j < i ==> (#[trigger] dv.storage[j]).name != a.field,
            idx < n ==> dv.storage[idx as int].name == a.field,
    {
        if idx == n {
            let matched = d.storage[i].name == *fieldname;
            proof {
                assert(dv.storage[i as int] == d.storage@[i as int].deep_view());
                assert(matched == (dv.storage[i as int].name == a.field));
            }
            if matched {
                idx = i;
            }
        }
    }
    proof {
        let w = choose|i: int|
            0 <= i < dv.storage.len() && (#[trigger] dv.storage[i]).name == a.field
                && dv.assembly[i].expr is CopySequence;
        assert(idx < n);
        assert(w == idx as int);
        assert(dv.assembly[idx as int].expr is CopySequence);
        let i0 = slot_index(dv, a.field);
        assert(0 <= i0 < dv.storage.len() && dv.storage[i0].name == a.field);
        assert(i0 == idx as int);
        assert(old_state[idx as int] is Many);
    }
    let new_items = match &state.slots[idx] {
        SlotValue::Many(items) => {
            let mut items2 = clone_strings(items);
            items2.push(value);
            items2
        },
        SlotValue::Single(_) => unreached(),
    };
    state.slots.set(idx, SlotValue::Many(new_items));
    proof {
        assert(state.deep_view() =~~= old_state.update(
            idx as int,
            SlotModel::Many(old_state[idx as int]->Many_0.push(value.deep_view())),
        ));
        assert forall|j: int| 0 <= j < state.deep_view().len() implies ((
        #[trigger] state.deep_view()[j]) is Many <==> dv.assembly[j].expr is CopySequence) by {
            if j != idx as int {
                assert(state.deep_view()[j] == old_state[j]);
            }
        }
    }
    true
}

/// The names of the required fields that are unset in a state, in
/// declaration order: what the generated checks accumulate.
pub open spec fn missing_list(assembly: Seq<AssemblySlotModel>, s: Seq<SlotModel>) -> Seq<Seq<char>>
    decreases assembly.len(),
{
    if assembly.len() == 0 {
        Seq::empty()
    } else {
        let rest = missing_list(assembly.drop_last(), s.drop_last());
        if assembly.last().expr is UnwrapStored && s.last() is Single
            && s.last()->Single_0.is_none() {
            rest.push(assembly.last().name)
        } else {
            rest
        }
    }
}

/// The value one assembly entry produces from its slot.
pub open spec fn assembled_value_of(expr: AssemblyExpr, slot: SlotModel) -> FieldValueModel {
    match expr {
        AssemblyExpr::CopyStored => FieldValueModel::Maybe(slot->Single_0),
        AssemblyExpr::UnwrapStored => FieldValueModel::One(slot->Single_0.unwrap()),
        AssemblyExpr::CopySequence => FieldValueModel::Many(slot->Many_0),
    }
}

/// The fields of the final structure, in declaration order.
pub open spec fn assembled_list(assembly: Seq<AssemblySlotModel>, s: Seq<SlotModel>) -> Seq<
    AssembledFieldModel,
>
    decreases assembly.len(),
{
    if assembly.len() == 0 {
        Seq::empty()
    } else {
        assembled_list(assembly.drop_last(), s.drop_last()).push(
            AssembledFieldModel {
                name: assembly.last().name,
                value: assembled_value_of(assembly.last().expr, s.last()),
            },
        )
    }
}

/// The names joined by a single comma, in order.
pub open spec fn join_comma(names: Seq<Seq<char>>) -> Seq<char>
    decreases names.len(),
{
    if names.len() == 0 {
        Seq::empty()
    } else if names.len() == 1 {
        names[0]
    } else {
        join_comma(names.drop_last()) + ","@ + names.last()
    }
}

/// The failure value of the generated assembly method.
pub open spec fn missing_message(names: Seq<Seq<char>>) -> Seq<char> {
    "Missing fields: "@ + join_comma(names)
}

/// What one assembly of a builder state decides: the final structure's
/// fields, or the failure message listing every missing required field.
#[verifier::ext_equal]
pub enum AssemblyOutcome {
    Produced(Seq<AssembledFieldModel>),
    MissingFields(Seq<char>),
}

/// The outcome of assembling a state under a declaration: success exactly
/// when no required field is unset.
pub open spec fn assembly_outcome(assembly: Seq<AssemblySlotModel>, s: Seq<SlotModel>) -> AssemblyOutcome {
    if missing_list(assembly, s).len() == 0 {
        AssemblyOutcome::Produced(assembled_list(assembly, s))
    } else {
        AssemblyOutcome::MissingFields(missing_message(missing_list(assembly, s)))
    }
}

/// Assembly reads the builder's stored state without consuming or mutating
/// it — the assembling function takes the state immutably — so assembling
/// the same fully-populated builder twice decides structurally equal
/// outcomes.
pub proof fn lemma_assembly_idempotent(
    assembly: Seq<AssemblySlotModel>,
    s1: Seq<SlotModel>,
    s2: Seq<SlotModel>,
)
    requires
        s1 == s2,
    ensures
        assembly_outcome(assembly, s1) == assembly_outcome(assembly, s2),
{
}

/// When the missing list is empty, every unwrapping entry's slot holds a
/// value: the generated assembly method's unwraps are safe.
pub proof fn lemma_no_missing_unwraps_safe(assembly: Seq<AssemblySlotModel>, s: Seq<SlotModel>)
    requires
        s.len() == assembly.len(),
        missing_list(assembly, s).len() == 0,
    ensures
        forall|i: int|
            0 <= i < assembly.len() ==> !((#[trigger] assembly[i]).expr is UnwrapStored && s[i]
                is Single && s[i]->Single_0.is_none()),
    decreases assembly.len(),
{
    if assembly.len() > 0 {
        lemma_no_missing_unwraps_safe(assembly.drop_last(), s.drop_last());
        assert forall|i: int| 0 <= i < assembly.len() implies !((#[trigger] assembly[i]).expr
            is UnwrapStored && s[i] is Single && s[i]->Single_0.is_none()) by {
            if i < assembly.len() - 1 {
                assert(assembly.drop_last()[i] == assembly[i]);
                assert(s.drop_last()[i] == s[i]);
            }
        }
    }
}

/// Success is owed once every required field has been supplied: in a state
/// whose unwrapping slots all hold a value, nothing is missing, so assembly
/// produces the final structure's fields.
pub proof fn lemma_all_required_set_assembles(assembly: Seq<AssemblySlotModel>, s: Seq<SlotModel>)
    requires
        s.len() == assembly.len(),
        forall|i: int|
            0 <= i < assembly.len() ==> ((#[trigger] assembly[i]).expr is UnwrapStored ==> s[i]
                is Single && s[i]->Single_0.is_some()),
    ensures
        missing_list(assembly, s).len() == 0,
        assembly_outcome(assembly, s) == AssemblyOutcome::Produced(assembled_list(assembly, s)),
    decreases assembly.len(),
{
    if assembly.len() > 0 {
        assert forall|i: int|
            0 <= i < assembly.drop_last().len() implies ((#[trigger] assembly.drop_last()[i]).expr
            is UnwrapStored ==> s.drop_last()[i] is Single
            && s.drop_last()[i]->Single_0.is_some()) by {
            assert(assembly.drop_last()[i] == assembly[i]);
            assert(s.drop_last()[i] == s[i]);
        }
        lemma_all_required_set_assembles(assembly.drop_last(), s.drop_last());
    }
}

/// In a state whose unwrapping slots are all unset, the missing list is
/// exactly the required names, in declaration order.
proof fn lemma_all_unset_missing(assembly: Seq<AssemblySlotModel>, s: Seq<SlotModel>)
    requires
        s.len() == assembly.len(),
        forall|i: int|
            0 <= i < assembly.len() ==> ((#[trigger] assembly[i]).expr is UnwrapStored ==> s[i]
                == SlotModel::Single(Option::<Seq<char>>::None)),
    ensures
        missing_list(assembly, s) == crate::emit::required_names(assembly),
    decreases assembly.len(),
{
    if assembly.len() > 0 {
        assert forall|i: int|
            0 <= i < assembly.drop_last().len() implies ((#[trigger] assembly.drop_last()[i]).expr
            is UnwrapStored ==> s.drop_last()[i] == SlotModel::Single(
            Option::<Seq<char>>::None,
        )) by {
            assert(assembly.drop_last()[i] == assembly[i]);
            assert(s.drop_last()[i] == s[i]);
        }
        lemma_all_unset_missing(assembly.drop_last(), s.drop_last());
    }
}

/// A freshly defaulted builder is missing exactly the declaration's checked
/// fields — the required ones — in declaration order.
pub proof fn lemma_fresh_builder_missing_all(d: DeclModel)
    requires
        decl_wf(d),
    ensures
        missing_list(d.assembly, init_slots(d.defaults)) == d.checks,
{
    lemma_init_slots_index(d.defaults);
    let s = init_slots(d.defaults);
    assert forall|i: int|
        0 <= i < d.assembly.len() implies ((#[trigger] d.assembly[i]).expr is UnwrapStored ==> s[i]
        == SlotModel::Single(Option::<Seq<char>>::None)) by {
        if d.assembly[i].expr is UnwrapStored {
            assert(d.defaults[i].init is NoneValue);
            assert(s[i] == init_slot_of(d.defaults[i]));
        }
    }
    lemma_all_unset_missing(d.assembly, s);
}

/// Copies a stored optional string value.
fn clone_opt_string(o: &Option<String>) -> (r: Option<String>)
    ensures
        r.deep_view() == o.deep_view(),
{
    match o {
        Some(s) => Some(s.clone()),
        None => None,
    }
}

/// The generated assembly method: walks the checks in field order, and
/// either produces every field of the final structure or fails with the
/// message listing all missing required field names, comma-joined, in
/// declaration order.
pub fn assemble(d: &BuilderDeclaration, state: &BuilderState) -> (r: Result<
    Vec<AssembledField>,
    String,
>)
    requires
        decl_wf(d.deep_view()),
        state_wf(d.deep_view(), state.deep_view()),
    ensures
        (match r {
            Ok(out) => assembly_outcome(d.deep_view().assembly, state.deep_view())
                == AssemblyOutcome::Produced(out.deep_view()),
            Err(msg) => assembly_outcome(d.deep_view().assembly, state.deep_view())
                == AssemblyOutcome::MissingFields(msg.deep_view()),
        }),
{
    let ghost av = d.deep_view().assembly;
    let ghost sv = state.deep_view();
    let n = d.assembly.len();
    proof {
        assert(state.slots.len() == sv.len());
    }
    let mut missing: Vec<String> = Vec::new();
    for i in 0..n
        invariant
            n == d.assembly.len(),
            av == d.deep_view().assembly,
            sv == state.deep_view(),
            state.slots.len() == sv.len(),
            sv.len() == av.len(),
            missing.deep_view() == missing_list(av.take(i as int), sv.take(i as int)),
    {
        proof {
            assert(av.take(i + 1 as int).drop_last() =~= av.take(i as int));
            assert(sv.take(i + 1 as int).drop_last() =~= sv.take(i as int));
            assert(av[i as int] == d.assembly@[i as int].deep_view());
            assert(sv[i as int] == state.slots@[i as int].deep_view());
        }
        let is_missing = match (&d.assembly[i].expr, &state.slots[i]) {
            (AssemblyExpr::UnwrapStored, SlotValue::Single(stored)) => stored.is_none(),
            _ => false,
        };
        if is_missing {
            missing.push(d.assembly[i].name.clone());
        }
        proof {
            assert(missing.deep_view() =~= missing_list(av.take(i + 1 as int), sv.take(i + 1 as int)));
        }
    }
    proof {
        assert(av.take(n as int) =~= av);
        assert(sv.take(n as int) =~= sv);
    }
    if missing.len() == 0 {
        proof {
            assert(missing_list(av, sv).len() == 0);
            lemma_no_missing_unwraps_safe(av, sv);
        }
        let mut out: Vec<AssembledField> = Vec::new();
        for i in 0..n
            invariant
                n == d.assembly.len(),
                av == d.deep_view().assembly,
                sv == state.deep_view(),
                state.slots.len() == sv.len(),
                sv.len() == av.len(),
                state_wf(d.deep_view(), sv),
                forall|j: int|
                    0 <= j < av.len() ==> !((#[trigger] av[j]).expr is UnwrapStored && sv[j]
                        is Single && sv[j]->Single_0.is_none()),
                out.deep_view() == assembled_list(av.take(i as int), sv.take(i as int)),
        {
            proof {
                assert(av.take(i + 1 as int).drop_last() =~= av.take(i as int));
                assert(sv.take(i + 1 as int).drop_last() =~= sv.take(i as int));
                assert(av[i as int] == d.assembly@[i as int].deep_view());
                assert(sv[i as int] == state.slots@[i as int].deep_view());
            }
            let value = match (&d.assembly[i].expr, &state.slots[i]) {
                (AssemblyExpr::CopyStored, SlotValue::Single(stored)) => FieldValue::Maybe(
                    clone_opt_string(stored),
                ),
                (AssemblyExpr::UnwrapStored, SlotValue::Single(stored)) => match stored {
                    Some(v) => FieldValue::One(v.clone()),
                    None => unreached(),
                },
                (AssemblyExpr::CopySequence, SlotValue::Many(items)) => FieldValue::Many(
                    clone_strings(items),
                ),
                _ => unreached(),
            };
            out.push(AssembledField { name: d.assembly[i].name.clone(), value });
            proof {
                assert(out.deep_view() =~= assembled_list(av.take(i + 1 as int), sv.take(i + 1 as int)));
            }
        }
        proof {
            assert(av.take(n as int) =~= av);
            assert(sv.take(n as int) =~= sv);
        }
        Ok(out)
    } else {
        let ghost mdv = missing.deep_view();
        let mut msg = String::from_str("Missing fields: ");
        proof {
            assert("Missing fields: "@ + join_comma(mdv.take(0)) =~= "Missing fields: "@);
        }
        let m = missing.len();
        for j in 0..m
            invariant
                m == missing.len(),
                mdv == missing.deep_view(),
                msg@ == "Missing fields: "@ + join_comma(mdv.take(j as int)),
        {
            if j > 0 {
                msg.append(",");
            }
            msg.append(missing[j].as_str());
            proof {
                assert(mdv.take(j + 1 as int).drop_last() =~= mdv.take(j as int));
                assert(mdv[j as int] == missing@[j as int].deep_view());
                if j == 0 {
                    assert(join_comma(mdv.take(1)) == mdv.take(1)[0]);
                    assert(mdv.take(1)[0] == mdv[0]);
                    assert(msg@ =~= "Missing fields: "@ + join_comma(mdv.take(1)));
                } else {
                    assert(join_comma(mdv.take(j + 1 as int)) == join_comma(mdv.take(j as int))
                        + ","@ + mdv[j as int]);
                    assert(msg@ =~= "Missing fields: "@ + join_comma(mdv.take(j + 1 as int)));
                }
            }
        }
        proof {
            assert(mdv.take(m as int) =~= mdv);
            assert(msg@ == missing_message(missing_list(av, sv)));
        }
        Err(msg)
    }
}

} // verus!
