//! Laws of the generated builder's semantics: what any run of mutator
//! calls followed by the finalizer yields.

use vstd::prelude::*;

use crate::runtime::{
    lemma_first_missing, slot_fits, spec_after_build, spec_append, spec_drained, spec_first_missing,
    spec_fresh, spec_set, spec_zero_slot, wf_builder, DynBuilderModel, FieldPlanModel,
    FieldValueModel, KindTag, SlotModel, ValueModel,
};

verus! {

/// A run of setter calls, applied left to right: each call names a
/// field position and carries the value handed to the setter.
pub open spec fn apply_sets(m: DynBuilderModel, calls: Seq<(int, ValueModel)>) -> DynBuilderModel
    decreases calls.len(),
{
    if calls.len() == 0 {
        m
    } else {
        spec_set(apply_sets(m, calls.drop_last()), calls.last().0, calls.last().1)
    }
}

/// Whether some call of the run sets the field at `i`.
pub open spec fn sets_field(calls: Seq<(int, ValueModel)>, i: int) -> bool {
    exists|k: int| 0 <= k < calls.len() && (#[trigger] calls[k]).0 == i
}

/// The value of the last call that sets the field at `i`.
pub open spec fn last_set(calls: Seq<(int, ValueModel)>, i: int) -> ValueModel
    decreases calls.len(),
{
    if calls.len() == 0 {
        arbitrary()
    } else if calls.last().0 == i {
        calls.last().1
    } else {
        last_set(calls.drop_last(), i)
    }
}

/// What a run of setter calls does: a field that some call sets holds
/// the last value set on it, whatever the order and repetition of the
/// calls; every other slot is untouched.
pub proof fn lemma_apply_sets(m: DynBuilderModel, calls: Seq<(int, ValueModel)>)
    requires
        m.slots.len() == m.plan.len(),
        forall|k: int| 0 <= k < calls.len() ==> 0 <= (#[trigger] calls[k]).0 < m.plan.len(),
    ensures
        apply_sets(m, calls).plan == m.plan,
        apply_sets(m, calls).slots.len() == m.slots.len(),
        forall|i: int| 0 <= i < m.slots.len() ==> apply_sets(m, calls).slots[i] == (
        if sets_field(calls, i) {
            SlotModel::Filled(last_set(calls, i))
        } else {
            m.slots[i]
        }),
    decreases calls.len(),
{
    if calls.len() == 0 {
        assert(forall|i: int| 0 <= i < m.slots.len() ==> !sets_field(Seq::<(
            int,
            ValueModel,
        )>::empty(), i));
    } else {
        let prefix = calls.drop_last();
        let hit = calls.last().0;
        lemma_apply_sets(m, prefix);
        let prev = apply_sets(m, prefix);
        assert forall|i: int| 0 <= i < m.slots.len() implies apply_sets(m, calls).slots[i] == (
        if sets_field(calls, i) {
            SlotModel::Filled(last_set(calls, i))
        } else {
            m.slots[i]
        }) by {
            if i == hit {
                assert(sets_field(calls, i)) by {
                    assert((calls[calls.len() - 1]).0 == i);
                }
            } else {
                assert(apply_sets(m, calls).slots[i] == prev.slots[i]);
                assert(last_set(calls, i) == last_set(prefix, i));
                if sets_field(calls, i) {
                    let k = choose|k: int| 0 <= k < calls.len() && (#[trigger] calls[k]).0 == i;
                    assert(k < calls.len() - 1);
                    assert((prefix[k]).0 == i);
                    assert(sets_field(prefix, i));
                } else {
                    assert forall|k: int| 0 <= k < prefix.len() implies (#[trigger] prefix[k]).0
                        != i by {
                        assert(prefix[k] == calls[k]);
                    }
                    assert(!sets_field(prefix, i));
                }
            }
        }
    }
}

/// Law: on a record of only required fields, calling every setter and
/// then the finalizer yields a record holding exactly the values
/// passed to the setters — in any call order, the last value set on
/// each field — and never a validation failure.
pub proof fn lemma_required_round_trip(plan: Seq<FieldPlanModel>, calls: Seq<(int, ValueModel)>)
    requires
        forall|i: int| 0 <= i < plan.len() ==> (#[trigger] plan[i]).kind == KindTag::Required,
        forall|k: int| 0 <= k < calls.len() ==> 0 <= (#[trigger] calls[k]).0 < plan.len(),
        forall|i: int| 0 <= i < plan.len() ==> sets_field(calls, i),
    ensures
        ({
            let b = apply_sets(spec_fresh(plan), calls);
            &&& spec_first_missing(b.plan, b.slots) == plan.len()
            &&& spec_drained(b.plan, b.slots) =~= Seq::new(
                plan.len(),
                |i: int| FieldValueModel::One(last_set(calls, i)),
            )
        }),
{
    lemma_apply_sets(spec_fresh(plan), calls);
    let b = apply_sets(spec_fresh(plan), calls);
    lemma_first_missing(b.plan, b.slots);
    let fm = spec_first_missing(b.plan, b.slots);
    if fm < plan.len() {
        assert(b.slots[fm] == SlotModel::Filled(last_set(calls, fm)));
        assert(false);
    }
}

/// Law: an optional field whose storage is still absent never causes
/// a validation failure — the finalizer succeeds whenever every
/// required field is populated — and drains to the absent value.
pub proof fn lemma_optional_absent(m: DynBuilderModel, i: int)
    requires
        wf_builder(m),
        0 <= i < m.plan.len(),
        m.plan[i].kind == KindTag::Optional,
        m.slots[i] is Vacant,
        forall|j: int| #![trigger m.slots[j]] 0 <= j < m.plan.len() ==> !(m.plan[j].kind
            == KindTag::Required && m.slots[j] is Vacant),
    ensures
        spec_first_missing(m.plan, m.slots) == m.plan.len(),
        spec_drained(m.plan, m.slots)[i] == FieldValueModel::Maybe(Option::<ValueModel>::None),
{
    lemma_first_missing(m.plan, m.slots);
    let fm = spec_first_missing(m.plan, m.slots);
    if fm < m.plan.len() {
        assert(!(m.plan[fm].kind == KindTag::Required && m.slots[fm] is Vacant));
        assert(false);
    }
}

/// A run of appender calls on one field, applied left to right.
pub open spec fn apply_appends(m: DynBuilderModel, i: int, vs: Seq<ValueModel>) -> DynBuilderModel
    decreases vs.len(),
{
    if vs.len() == 0 {
        m
    } else {
        spec_append(apply_appends(m, i, vs.drop_last()), i, vs.last())
    }
}

/// Law: N appender calls leave the field's storage holding exactly
/// the values handed to them, in call order, after whatever it
/// already held; every other slot is untouched.
pub proof fn lemma_appends_accumulate(m: DynBuilderModel, i: int, vs: Seq<ValueModel>)
    requires
        0 <= i < m.slots.len(),
        m.slots[i] is Gathered,
    ensures
        apply_appends(m, i, vs).plan == m.plan,
        apply_appends(m, i, vs).slots =~= m.slots.update(
            i,
            SlotModel::Gathered(m.slots[i]->Gathered_0 + vs),
        ),
    decreases vs.len(),
{
    if vs.len() == 0 {
        assert(m.slots[i]->Gathered_0 + vs =~= m.slots[i]->Gathered_0);
        assert(m.slots.update(i, SlotModel::Gathered(m.slots[i]->Gathered_0)) =~= m.slots);
    } else {
        lemma_appends_accumulate(m, i, vs.drop_last());
        let prev = apply_appends(m, i, vs.drop_last());
        assert(prev.slots[i] == SlotModel::Gathered(m.slots[i]->Gathered_0 + vs.drop_last()));
        assert((m.slots[i]->Gathered_0 + vs.drop_last()).push(vs.last()) =~= m.slots[i]->Gathered_0
            + vs);
        assert(apply_appends(m, i, vs).slots =~= m.slots.update(
            i,
            SlotModel::Gathered(m.slots[i]->Gathered_0 + vs),
        ));
    }
}

/// Law: the finalizer copies an accumulating field and leaves its
/// storage untouched, so on a record without required fields a second
/// finalize, with no appends in between, drains the same sequence
/// again.
pub proof fn lemma_build_repeats_accumulated(m: DynBuilderModel, i: int)
    requires
        wf_builder(m),
        0 <= i < m.plan.len(),
        m.plan[i].kind == KindTag::Accumulating,
        forall|j: int| 0 <= j < m.plan.len() ==> (#[trigger] m.plan[j]).kind != KindTag::Required,
    ensures
        spec_first_missing(m.plan, m.slots) == m.plan.len(),
        spec_after_build(m.plan, m.slots)[i] == m.slots[i],
        ({
            let again = DynBuilderModel { plan: m.plan, slots: spec_after_build(m.plan, m.slots) };
            &&& spec_first_missing(again.plan, again.slots) == m.plan.len()
            &&& spec_drained(again.plan, again.slots)[i] == spec_drained(m.plan, m.slots)[i]
        }),
{
    lemma_first_missing(m.plan, m.slots);
    let fm = spec_first_missing(m.plan, m.slots);
    if fm < m.plan.len() {
        assert(m.plan[fm].kind == KindTag::Required);
        assert(false);
    }
    let again = DynBuilderModel { plan: m.plan, slots: spec_after_build(m.plan, m.slots) };
    lemma_first_missing(again.plan, again.slots);
    let fm2 = spec_first_missing(again.plan, again.slots);
    if fm2 < m.plan.len() {
        assert(again.plan[fm2].kind == KindTag::Required);
        assert(false);
    }
}

/// Law: when required fields are missing, the finalizer's failure
/// names the first of them in declaration order: the named field is
/// required and vacant, and no required field before it is vacant.
pub proof fn lemma_first_missing_named(m: DynBuilderModel)
    requires
        wf_builder(m),
        exists|j: int| 0 <= j < m.plan.len() && (#[trigger] m.plan[j]).kind == KindTag::Required
            && m.slots[j] is Vacant,
    ensures
        ({
            let fm = spec_first_missing(m.plan, m.slots);
            &&& 0 <= fm < m.plan.len()
            &&& m.plan[fm].kind == KindTag::Required
            &&& m.slots[fm] is Vacant
            &&& forall|j: int| #![trigger m.slots[j]] 0 <= j < fm ==> !(m.plan[j].kind
                == KindTag::Required && m.slots[j] is Vacant)
        }),
{
    lemma_first_missing(m.plan, m.slots);
    let fm = spec_first_missing(m.plan, m.slots);
    if fm == m.plan.len() {
        let j = choose|j: int|
            0 <= j < m.plan.len() && (#[trigger] m.plan[j]).kind == KindTag::Required && m.slots[j]
                is Vacant;
        assert(!(m.plan[j].kind == KindTag::Required && m.slots[j] is Vacant));
        assert(false);
    }
}

/// Law: builders made by the factory have independent storage.  The
/// factory is a pure function of the plan, every slot starts at its
/// zero value, and a setter yields a builder changed at its own slot
/// alone — a second builder value made from the same plan is a
/// distinct value and keeps every slot at its zero value.
pub proof fn lemma_factory_independent(plan: Seq<FieldPlanModel>, i: int, v: ValueModel)
    requires
        0 <= i < plan.len(),
    ensures
        spec_fresh(plan).slots[i] == spec_zero_slot(plan[i].kind),
        spec_set(spec_fresh(plan), i, v).slots[i] == SlotModel::Filled(v),
        forall|j: int| 0 <= j < plan.len() && j != i ==> spec_set(spec_fresh(plan), i, v).slots[j]
            == spec_fresh(plan).slots[j],
{
}

} // verus!
