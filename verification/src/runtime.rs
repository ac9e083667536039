//! The dynamic semantics of a generated builder: storage slots keyed
//! by field position, mutators, and the validating finalizer.  What
//! the emitted declarations mean is verified here once, for every
//! record shape.

use vstd::prelude::*;

use crate::classify::FieldKind;
use crate::shape::BuilderSpec;

verus! {

broadcast use {crate::model::lemma_vec_deep_index, crate::model::lemma_vec_deep_len};

/// A runtime value a builder can store: a piece of text or a number.
#[derive(Debug, PartialEq, Eq)]
pub enum Value {
    Text(String),
    Number(u64),
}

/// Mathematical model of a [`Value`].
pub enum ValueModel {
    Text(Seq<char>),
    Number(u64),
}

impl View for Value {
    type V = ValueModel;

    open spec fn view(&self) -> ValueModel {
        match self {
            Value::Text(s) => ValueModel::Text(s@),
            Value::Number(n) => ValueModel::Number(*n),
        }
    }
}

impl DeepView for Value {
    type V = ValueModel;

    open spec fn deep_view(&self) -> ValueModel {
        self.view()
    }
}

impl Value {
    /// A fresh value equal in model to this one.
    pub fn duplicate(&self) -> (r: Value)
        ensures
            r@ == self@,
    {
        match self {
            Value::Text(s) => Value::Text(s.clone()),
            Value::Number(n) => Value::Number(*n),
        }
    }
}

/// Copies a value sequence element by element.
pub fn duplicate_values(vs: &Vec<Value>) -> (r: Vec<Value>)
    ensures
        r.deep_view() == vs.deep_view(),
{
    let mut out: Vec<Value> = Vec::new();
    let mut i: usize = 0;
    while i < vs.len()
        invariant
            i <= vs.len(),
            out.len() == i,
            forall|j: int| 0 <= j < i ==> out[j]@ == vs[j]@,
        decreases vs.len() - i,
    {
        out.push(vs[i].duplicate());
        i = i + 1;
    }
    assert(out.deep_view() =~= vs.deep_view());
    out
}

/// One field's builder storage: absent, populated, or an accumulated
/// sequence.
#[derive(Debug, PartialEq, Eq)]
pub enum Slot {
    Vacant,
    Filled(Value),
    Gathered(Vec<Value>),
}

/// Mathematical model of a [`Slot`].
pub enum SlotModel {
    Vacant,
    Filled(ValueModel),
    Gathered(Seq<ValueModel>),
}

impl View for Slot {
    type V = SlotModel;

    open spec fn view(&self) -> SlotModel {
        match self {
            Slot::Vacant => SlotModel::Vacant,
            Slot::Filled(v) => SlotModel::Filled(v@),
            Slot::Gathered(vs) => SlotModel::Gathered(vs.deep_view()),
        }
    }
}

impl DeepView for Slot {
    type V = SlotModel;

    open spec fn deep_view(&self) -> SlotModel {
        self.view()
    }
}

/// The kind of one field, as the builder's storage needs it.
#[derive(Clone, Copy, PartialEq, Eq, Structural, Debug)]
pub enum KindTag {
    Required,
    Optional,
    Accumulating,
}

/// One field of a builder's plan: the field's name and its kind.
#[derive(Debug, PartialEq, Eq)]
pub struct FieldPlan {
    pub name: String,
    pub kind: KindTag,
}

/// Mathematical model of a [`FieldPlan`].
#[verifier::ext_equal]
pub struct FieldPlanModel {
    pub name: Seq<char>,
    pub kind: KindTag,
}

impl View for FieldPlan {
    type V = FieldPlanModel;

    open spec fn view(&self) -> FieldPlanModel {
        FieldPlanModel { name: self.name@, kind: self.kind }
    }
}

impl DeepView for FieldPlan {
    type V = FieldPlanModel;

    open spec fn deep_view(&self) -> FieldPlanModel {
        self.view()
    }
}

impl BuilderSpec {
    /// The plan of the builder this synthesis output describes.
    pub fn plan(&self) -> (r: Vec<FieldPlan>)
        ensures
            r.deep_view().len() == self@.entries.len(),
            forall|i: int| 0 <= i < self@.entries.len() ==> #[trigger] r.deep_view()[i]
                == (FieldPlanModel {
                name: self@.entries[i].field.name,
                kind: kind_tag_of(self@.entries[i].kind),
            }),
    {
        let mut out: Vec<FieldPlan> = Vec::new();
        let mut i: usize = 0;
        while i < self.entries.len()
            invariant
                i <= self.entries.len(),
                out.len() == i,
                forall|j: int| 0 <= j < i ==> #[trigger] out[j]@ == (FieldPlanModel {
                    name: self@.entries[j].field.name,
                    kind: kind_tag_of(self@.entries[j].kind),
                }),
            decreases self.entries.len() - i,
        {
            let entry = &self.entries[i];
            let kind = match &entry.kind {
                FieldKind::Required { .. } => KindTag::Required,
                FieldKind::Optional { .. } => KindTag::Optional,
                FieldKind::Accumulating { .. } => KindTag::Accumulating,
            };
            out.push(FieldPlan { name: entry.field.name.clone(), kind });
            i = i + 1;
        }
        out
    }
}

/// The storage kind a classified field maps to.
pub open spec fn kind_tag_of(k: crate::classify::FieldKindModel) -> KindTag {
    match k {
        crate::classify::FieldKindModel::Required { .. } => KindTag::Required,
        crate::classify::FieldKindModel::Optional { .. } => KindTag::Optional,
        crate::classify::FieldKindModel::Accumulating { .. } => KindTag::Accumulating,
    }
}

/// One drained field of a finished record: a bare value, a possibly
/// absent value, or an accumulated sequence.
#[derive(Debug, PartialEq, Eq)]
pub enum FieldValue {
    One(Value),
    Maybe(Option<Value>),
    Many(Vec<Value>),
}

/// Mathematical model of a [`FieldValue`].
pub enum FieldValueModel {
    One(ValueModel),
    Maybe(Option<ValueModel>),
    Many(Seq<ValueModel>),
}

impl View for FieldValue {
    type V = FieldValueModel;

    open spec fn view(&self) -> FieldValueModel {
        match self {
            FieldValue::One(v) => FieldValueModel::One(v@),
            FieldValue::Maybe(o) => FieldValueModel::Maybe(
                match o {
                    Option::Some(v) => Option::Some(v@),
                    Option::None => Option::None,
                },
            ),
            FieldValue::Many(vs) => FieldValueModel::Many(vs.deep_view()),
        }
    }
}

impl DeepView for FieldValue {
    type V = FieldValueModel;

    open spec fn deep_view(&self) -> FieldValueModel {
        self.view()
    }
}

/// The finalizer's failure: the first required field, in declaration
/// order, whose storage was still absent.
#[derive(Debug, PartialEq, Eq)]
pub struct BuildFailure {
    pub field_name: String,
}

impl View for BuildFailure {
    type V = Seq<char>;

    open spec fn view(&self) -> Seq<char> {
        self.field_name@
    }
}

/// A builder instance: its plan and one storage slot per field.
pub struct DynBuilder {
    plan: Vec<FieldPlan>,
    slots: Vec<Slot>,
}

/// Mathematical model of a [`DynBuilder`].
#[verifier::ext_equal]
pub struct DynBuilderModel {
    pub plan: Seq<FieldPlanModel>,
    pub slots: Seq<SlotModel>,
}

impl View for DynBuilder {
    type V = DynBuilderModel;

    closed spec fn view(&self) -> DynBuilderModel {
        DynBuilderModel { plan: self.plan.deep_view(), slots: self.slots.deep_view() }
    }
}

/// Whether a slot's shape fits its field's kind.
pub open spec fn slot_fits(k: KindTag, s: SlotModel) -> bool {
    match k {
        KindTag::Accumulating => s is Gathered,
        _ => !(s is Gathered),
    }
}

/// A builder is well formed when it has one slot per planned field
/// and every slot fits its kind.
pub open spec fn wf_builder(m: DynBuilderModel) -> bool {
    &&& m.slots.len() == m.plan.len()
    &&& forall|i: int| 0 <= i < m.plan.len() ==> slot_fits(m.plan[i].kind, #[trigger] m.slots[i])
}

/// The zero value of one slot.
pub open spec fn spec_zero_slot(k: KindTag) -> SlotModel {
    match k {
        KindTag::Accumulating => SlotModel::Gathered(Seq::empty()),
        _ => SlotModel::Vacant,
    }
}

/// A fresh builder for a plan: every slot at its zero value.
pub open spec fn spec_fresh(plan: Seq<FieldPlanModel>) -> DynBuilderModel {
    DynBuilderModel {
        plan,
        slots: Seq::new(plan.len(), |i: int| spec_zero_slot(plan[i].kind)),
    }
}

/// A setter's effect: the one slot is overwritten with the populated
/// value; every other slot is untouched.
pub open spec fn spec_set(m: DynBuilderModel, i: int, v: ValueModel) -> DynBuilderModel {
    DynBuilderModel { plan: m.plan, slots: m.slots.update(i, SlotModel::Filled(v)) }
}

/// An appender's effect: the one element is pushed onto the slot's
/// sequence; every other slot is untouched.
pub open spec fn spec_append(m: DynBuilderModel, i: int, v: ValueModel) -> DynBuilderModel {
    DynBuilderModel {
        plan: m.plan,
        slots: m.slots.update(i, SlotModel::Gathered(m.slots[i]->Gathered_0.push(v))),
    }
}

/// The first field, in declaration order, whose kind is required and
/// whose slot is still vacant; the length when every required field
/// is populated.
pub open spec fn spec_first_missing(plan: Seq<FieldPlanModel>, slots: Seq<SlotModel>) -> int
    decreases plan.len(),
{
    if plan.len() == 0 {
        0
    } else if plan[0].kind == KindTag::Required && slots[0] is Vacant {
        0
    } else {
        1 + spec_first_missing(plan.skip(1), slots.skip(1))
    }
}

/// What [`spec_first_missing`] returns: the first missing required
/// field's index when one exists, the length otherwise.
pub proof fn lemma_first_missing(plan: Seq<FieldPlanModel>, slots: Seq<SlotModel>)
    requires
        plan.len() == slots.len(),
    ensures
        0 <= spec_first_missing(plan, slots) <= plan.len(),
        spec_first_missing(plan, slots) < plan.len() ==> {
            &&& plan[spec_first_missing(plan, slots)].kind == KindTag::Required
            &&& slots[spec_first_missing(plan, slots)] is Vacant
        },
        forall|j: int| #![trigger slots[j]] 0 <= j < spec_first_missing(plan, slots) ==> !(
            plan[j].kind == KindTag::Required && slots[j] is Vacant),
    decreases plan.len(),
{
    if plan.len() == 0 {
    } else if plan[0].kind == KindTag::Required && slots[0] is Vacant {
    } else {
        lemma_first_missing(plan.skip(1), slots.skip(1));
        assert forall|j: int| #![trigger slots[j]] 0 <= j < spec_first_missing(plan, slots) implies !(
            plan[j].kind == KindTag::Required && slots[j] is Vacant) by {
            if j > 0 {
                assert(plan[j] == plan.skip(1)[j - 1]);
                assert(slots[j] == slots.skip(1)[j - 1]);
            }
        }
    }
}

/// The value one field drains to.  Meaningful for slots that fit
/// their kind and, for a required field, are populated.
pub open spec fn spec_drain_one(k: KindTag, s: SlotModel) -> FieldValueModel {
    match k {
        KindTag::Required => FieldValueModel::One(s->Filled_0),
        KindTag::Optional => FieldValueModel::Maybe(
            match s {
                SlotModel::Filled(v) => Option::Some(v),
                _ => Option::None,
            },
        ),
        KindTag::Accumulating => FieldValueModel::Many(s->Gathered_0),
    }
}

/// The record a successful finalize returns: one drained value per
/// field, in declaration order.
pub open spec fn spec_drained(plan: Seq<FieldPlanModel>, slots: Seq<SlotModel>) -> Seq<
    FieldValueModel,
> {
    Seq::new(plan.len(), |i: int| spec_drain_one(plan[i].kind, slots[i]))
}

/// The storage after a successful finalize: required and optional
/// slots are drained to vacant, accumulated sequences are kept.
pub open spec fn spec_after_build(plan: Seq<FieldPlanModel>, slots: Seq<SlotModel>) -> Seq<
    SlotModel,
> {
    Seq::new(
        plan.len(),
        |i: int|
            if plan[i].kind == KindTag::Accumulating {
                slots[i]
            } else {
                SlotModel::Vacant
            },
    )
}

impl DynBuilder {
    /// Whether this builder is well formed.
    pub open spec fn wf(&self) -> bool {
        wf_builder(self@)
    }

    /// The number of fields.
    pub fn len(&self) -> (n: usize)
        ensures
            n == self@.plan.len(),
    {
        self.plan.len()
    }

    /// The factory operation: a fresh builder with every slot at its
    /// zero value.
    pub fn new_builder(plan: Vec<FieldPlan>) -> (b: DynBuilder)
        ensures
            b.wf(),
            b@ == spec_fresh(plan.deep_view()),
    {
        let mut slots: Vec<Slot> = Vec::new();
        let mut i: usize = 0;
        while i < plan.len()
            invariant
                i <= plan.len(),
                slots.len() == i,
                forall|j: int| 0 <= j < i ==> #[trigger] slots[j]@ == spec_zero_slot(
                    plan[j].kind,
                ),
            decreases plan.len() - i,
        {
            let s = match plan[i].kind {
                KindTag::Accumulating => Slot::Gathered(Vec::new()),
                _ => Slot::Vacant,
            };
            assert(s@ == spec_zero_slot(plan@[i as int].kind)) by {
                assert(s@ matches SlotModel::Gathered(g) ==> g =~= Seq::<ValueModel>::empty());
            }
            slots.push(s);
            i = i + 1;
        }
        let b = DynBuilder { plan, slots };
        assert(b@.slots =~= spec_fresh(b@.plan).slots);
        assert(b@ =~= spec_fresh(b@.plan));
        b
    }

    /// The setter for the field at `i`: overwrites its storage with
    /// the populated value, exactly as [`spec_set`] says.
    pub fn set(&mut self, i: usize, v: Value)
        requires
            old(self).wf(),
            i < old(self)@.plan.len(),
            old(self)@.plan[i as int].kind != KindTag::Accumulating,
        ensures
            final(self).wf(),
            final(self)@ == spec_set(old(self)@, i as int, v@),
    {
        let ghost vm = v@;
        self.slots[i] = Slot::Filled(v);
        assert(self@.slots =~= spec_set(old(self)@, i as int, vm).slots);
        assert(self@ =~= spec_set(old(self)@, i as int, vm));
    }

    /// The appender for the field at `i`: pushes one element onto its
    /// storage sequence, exactly as [`spec_append`] says.
    pub fn append(&mut self, i: usize, v: Value)
        requires
            old(self).wf(),
            i < old(self)@.plan.len(),
            old(self)@.plan[i as int].kind == KindTag::Accumulating,
        ensures
            final(self).wf(),
            final(self)@ == spec_append(old(self)@, i as int, v@),
    {
        let ghost vm = v@;
        let mut taken = Slot::Vacant;
        core::mem::swap(&mut taken, &mut self.slots[i]);
        match taken {
            Slot::Gathered(mut vs) => {
                let ghost prev = vs.deep_view();
                vs.push(v);
                assert(vs.deep_view() =~= prev.push(vm));
                self.slots[i] = Slot::Gathered(vs);
            },
            _ => {
                proof {
                    assert(slot_fits(old(self)@.plan[i as int].kind, old(self)@.slots[i as int]));
                }
                vstd::pervasive::unreached()
            },
        }
        assert(self@.slots =~= spec_append(old(self)@, i as int, vm).slots);
        assert(self@ =~= spec_append(old(self)@, i as int, vm));
    }

    /// The finalizer.  Validates that every required field is
    /// populated — failing with the first missing one's name, in
    /// declaration order, and leaving the builder untouched — then
    /// drains the storage into the record's values: required values
    /// move out, optional wrappers move out as they stand, accumulated
    /// sequences are copied and kept.
    pub fn build(&mut self) -> (r: Result<Vec<FieldValue>, BuildFailure>)
        requires
            old(self).wf(),
        ensures
            final(self).wf(),
            final(self)@.plan == old(self)@.plan,
            r is Ok <==> spec_first_missing(old(self)@.plan, old(self)@.slots) == old(
                self,
            )@.plan.len(),
            r matches Ok(rec) ==> {
                &&& rec.deep_view() == spec_drained(old(self)@.plan, old(self)@.slots)
                &&& final(self)@.slots == spec_after_build(old(self)@.plan, old(self)@.slots)
            },
            r matches Err(e) ==> {
                &&& spec_first_missing(old(self)@.plan, old(self)@.slots) < old(self)@.plan.len()
                &&& e@ == old(self)@.plan[spec_first_missing(old(self)@.plan, old(self)@.slots)].name
                &&& final(self)@ == old(self)@
            },
    {
        proof {
            lemma_first_missing(old(self)@.plan, old(self)@.slots);
        }
        let n = self.plan.len();
        let mut i: usize = 0;
        while i < n
            invariant
                0 <= i <= n,
                self@ == old(self)@,
                self.wf(),
                n == self@.plan.len(),
                forall|j: int| #![trigger self@.slots[j]] 0 <= j < i ==> !(self@.plan[j].kind
                    == KindTag::Required && self@.slots[j] is Vacant),
            decreases n - i,
        {
            let required = self.plan[i].kind == KindTag::Required;
            let slot = &self.slots[i];
            let vacant = match slot {
                Slot::Vacant => true,
                _ => false,
            };
            if required && vacant {
                proof {
                    assert(self@.slots[i as int] == self.slots@[i as int]@);
                    assert(self@.slots[i as int] is Vacant);
                    assert(self@.plan[i as int].kind == KindTag::Required);
                    lemma_first_missing(self@.plan, self@.slots);
                    let fm = spec_first_missing(self@.plan, self@.slots);
                    if fm < i {
                        assert(self@.plan[fm].kind == KindTag::Required && self@.slots[fm]
                            is Vacant);
                        assert(false);
                    }
                    if fm > i {
                        assert(!(self@.plan[i as int].kind == KindTag::Required
                            && self@.slots[i as int] is Vacant));
                        assert(false);
                    }
                }
                return Err(BuildFailure { field_name: self.plan[i].name.clone() });
            }
            i = i + 1;
        }
        assert(spec_first_missing(self@.plan, self@.slots) == n) by {
            lemma_first_missing(self@.plan, self@.slots);
        }
        let mut rec: Vec<FieldValue> = Vec::new();
        let mut i: usize = 0;
        while i < n
            invariant
                0 <= i <= n,
                n == self@.plan.len(),
                n == self@.slots.len(),
                n == self.slots@.len(),
                self@.plan == old(self)@.plan,
                forall|j: int| i <= j < n ==> #[trigger] self@.slots[j] == old(self)@.slots[j],
                forall|j: int| 0 <= j < i ==> #[trigger] self@.slots[j] == spec_after_build(
                    old(self)@.plan,
                    old(self)@.slots,
                )[j],
                rec.len() == i,
                forall|j: int| 0 <= j < i ==> #[trigger] rec[j]@ == spec_drained(
                    old(self)@.plan,
                    old(self)@.slots,
                )[j],
                forall|j: int| 0 <= j < n ==> slot_fits(
                    old(self)@.plan[j].kind,
                    #[trigger] old(self)@.slots[j],
                ),
                forall|j: int| #![trigger old(self)@.slots[j]] 0 <= j < n ==> !(
                    old(self)@.plan[j].kind == KindTag::Required && old(self)@.slots[j] is Vacant),
            decreases n - i,
        {
            let ghost pre_shallow = self.slots@;
            let ghost pre_deep = self@.slots;
            let kind = self.plan[i].kind;
            proof {
                assert(kind == self@.plan[i as int].kind);
                assert(kind == old(self)@.plan[i as int].kind);
            }
            let mut taken = Slot::Vacant;
            core::mem::swap(&mut taken, &mut self.slots[i]);
            proof {
                assert(taken == pre_shallow[i as int]);
                assert(taken@ == pre_deep[i as int]);
                assert(pre_deep[i as int] == old(self)@.slots[i as int]);
                assert(self.slots@ =~= pre_shallow.update(i as int, Slot::Vacant));
            }
            match (kind, taken) {
                (KindTag::Required, Slot::Filled(v)) => {
                    proof {
                        assert(old(self)@.slots[i as int] == SlotModel::Filled(v@));
                        assert(self@.slots[i as int] == SlotModel::Vacant);
                    }
                    rec.push(FieldValue::One(v));
                },
                (KindTag::Optional, Slot::Filled(v)) => {
                    proof {
                        assert(old(self)@.slots[i as int] == SlotModel::Filled(v@));
                        assert(self@.slots[i as int] == SlotModel::Vacant);
                    }
                    rec.push(FieldValue::Maybe(Some(v)));
                },
                (KindTag::Optional, Slot::Vacant) => {
                    proof {
                        assert(old(self)@.slots[i as int] == SlotModel::Vacant);
                        assert(self@.slots[i as int] == SlotModel::Vacant);
                    }
                    rec.push(FieldValue::Maybe(None));
                },
                (KindTag::Accumulating, Slot::Gathered(vs)) => {
                    proof {
                        assert(old(self)@.slots[i as int] == SlotModel::Gathered(vs.deep_view()));
                    }
                    rec.push(FieldValue::Many(duplicate_values(&vs)));
                    self.slots[i] = Slot::Gathered(vs);
                    proof {
                        assert(self@.slots[i as int] == old(self)@.slots[i as int]);
                    }
                },
                _ => {
                    proof {
                        let k = old(self)@.plan[i as int].kind;
                        let s = old(self)@.slots[i as int];
                        assert(slot_fits(k, s));
                        assert(taken@ == s);
                        assert(k == KindTag::Required ==> s is Filled);
                        assert(k == KindTag::Optional ==> !(s is Gathered));
                        assert(k == KindTag::Accumulating ==> s is Gathered);
                        assert(false);
                    }
                    vstd::pervasive::unreached()
                },
            }
            proof {
                assert forall|j: int| 0 <= j < n && j != i implies #[trigger] self@.slots[j]
                    == pre_deep[j] by {
                    assert(self.slots@[j] == pre_shallow[j]);
                };
                assert(rec[i as int]@ == spec_drained(old(self)@.plan, old(self)@.slots)[i as int]);
                assert(self@.slots[i as int] == spec_after_build(
                    old(self)@.plan,
                    old(self)@.slots,
                )[i as int]);
            }
            i = i + 1;
        }
        assert(rec.deep_view() =~= spec_drained(old(self)@.plan, old(self)@.slots));
        assert(self@.slots =~= spec_after_build(old(self)@.plan, old(self)@.slots));
        Ok(rec)
    }
}

} // verus!
