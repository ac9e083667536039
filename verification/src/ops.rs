//! Operation synthesis: one mutator per field, the validating and
//! draining finalizer, and the whole generation pipeline.

use vstd::prelude::*;

use crate::classify::{
    classify_fields, spec_classify_all, FieldKind, FieldKindModel, GenError, GenErrorModel,
};
use crate::model::{
    FieldDescriptor, FieldDescriptorModel, RecordDecl, RecordDeclModel, RecordShape,
    RecordShapeModel, TypeExpr, TypeExprModel,
};
use crate::shape::{spec_shape, synthesize_shape, BuilderEntry, BuilderEntryModel, BuilderSpec,
    BuilderSpecModel};

verus! {

/// One emitted mutator declaration.  A setter overwrites its field's
/// storage with a populated wrapper; an appender pushes one element
/// onto its field's storage sequence.  Both operate on a borrowed
/// builder so calls can be chained.
#[derive(Debug, PartialEq, Eq)]
pub enum MutatorDecl {
    Setter { field_name: String, param_type: TypeExpr },
    Appender { appender_name: String, field_name: String, element_type: TypeExpr },
}

/// Mathematical model of a [`MutatorDecl`].
pub enum MutatorDeclModel {
    Setter { field_name: Seq<char>, param_type: TypeExprModel },
    Appender { appender_name: Seq<char>, field_name: Seq<char>, element_type: TypeExprModel },
}

impl View for MutatorDecl {
    type V = MutatorDeclModel;

    open spec fn view(&self) -> MutatorDeclModel {
        match self {
            MutatorDecl::Setter { field_name, param_type } => MutatorDeclModel::Setter {
                field_name: field_name@,
                param_type: param_type@,
            },
            MutatorDecl::Appender { appender_name, field_name, element_type } => {
                MutatorDeclModel::Appender {
                    appender_name: appender_name@,
                    field_name: field_name@,
                    element_type: element_type@,
                }
            },
        }
    }
}

impl DeepView for MutatorDecl {
    type V = MutatorDeclModel;

    open spec fn deep_view(&self) -> MutatorDeclModel {
        self.view()
    }
}

/// How the finalizer drains one field's storage into a final value.
#[derive(Clone, Copy, PartialEq, Eq, Structural, Debug)]
pub enum DrainStep {
    /// Unwrap the populated value; validation guarantees it is there.
    UnwrapRequired,
    /// Move the wrapper out as it stands, possibly still absent.
    TakeOptional,
    /// Copy the accumulated sequence, leaving the storage untouched.
    CopyAccumulated,
}

/// The emitted finalizer: the required fields it validates, in
/// declaration order, and one drain step per field, in field order.
#[derive(Debug, PartialEq, Eq)]
pub struct FinalizerDecl {
    pub required_checks: Vec<String>,
    pub drains: Vec<DrainStep>,
}

/// Mathematical model of a [`FinalizerDecl`].
#[verifier::ext_equal]
pub struct FinalizerDeclModel {
    pub required_checks: Seq<Seq<char>>,
    pub drains: Seq<DrainStep>,
}

impl View for FinalizerDecl {
    type V = FinalizerDeclModel;

    open spec fn view(&self) -> FinalizerDeclModel {
        FinalizerDeclModel {
            required_checks: self.required_checks.deep_view(),
            drains: self.drains@,
        }
    }
}

/// Everything emitted for one record: the builder's shape (which also
/// fixes the factory operation's zero values), its mutators and its
/// finalizer.
#[derive(Debug, PartialEq, Eq)]
pub struct BuilderModule {
    pub shape: BuilderSpec,
    pub mutators: Vec<MutatorDecl>,
    pub finalizer: FinalizerDecl,
}

/// Mathematical model of a [`BuilderModule`].
#[verifier::ext_equal]
pub struct BuilderModuleModel {
    pub shape: BuilderSpecModel,
    pub mutators: Seq<MutatorDeclModel>,
    pub finalizer: FinalizerDeclModel,
}

impl View for BuilderModule {
    type V = BuilderModuleModel;

    open spec fn view(&self) -> BuilderModuleModel {
        BuilderModuleModel {
            shape: self.shape@,
            mutators: self.mutators.deep_view(),
            finalizer: self.finalizer@,
        }
    }
}

/// The mutator emitted for one field: a setter taking the bare inner
/// type for required and optional fields, the named appender taking
/// one element for accumulating fields.
pub open spec fn spec_mutator(field_name: Seq<char>, k: FieldKindModel) -> MutatorDeclModel {
    match k {
        FieldKindModel::Required { inner_type } => MutatorDeclModel::Setter {
            field_name,
            param_type: inner_type,
        },
        FieldKindModel::Optional { inner_type } => MutatorDeclModel::Setter {
            field_name,
            param_type: inner_type,
        },
        FieldKindModel::Accumulating { element_type, appender_name } => {
            MutatorDeclModel::Appender { appender_name, field_name, element_type }
        },
    }
}

/// The mutator list: one per field, in field order.
pub open spec fn spec_mutators(entries: Seq<BuilderEntryModel>) -> Seq<MutatorDeclModel> {
    Seq::new(entries.len(), |i: int| spec_mutator(entries[i].field.name, entries[i].kind))
}

/// The drain step for one field's kind.
pub open spec fn spec_drain(k: FieldKindModel) -> DrainStep {
    match k {
        FieldKindModel::Required { .. } => DrainStep::UnwrapRequired,
        FieldKindModel::Optional { .. } => DrainStep::TakeOptional,
        FieldKindModel::Accumulating { .. } => DrainStep::CopyAccumulated,
    }
}

/// The drain steps, one per field, in field order.
pub open spec fn spec_drains(entries: Seq<BuilderEntryModel>) -> Seq<DrainStep> {
    Seq::new(entries.len(), |i: int| spec_drain(entries[i].kind))
}

/// The names of the required fields, in declaration order: the fields
/// the finalizer validates, first failure first.
pub open spec fn spec_required_checks(entries: Seq<BuilderEntryModel>) -> Seq<Seq<char>>
    decreases entries.len(),
{
    if entries.len() == 0 {
        Seq::empty()
    } else {
        let rest = spec_required_checks(entries.drop_last());
        if entries.last().kind is Required {
            rest.push(entries.last().field.name)
        } else {
            rest
        }
    }
}

/// The emitted finalizer as a function of the entries.
pub open spec fn spec_finalizer(entries: Seq<BuilderEntryModel>) -> FinalizerDeclModel {
    FinalizerDeclModel {
        required_checks: spec_required_checks(entries),
        drains: spec_drains(entries),
    }
}

/// Synthesizes the mutators, exactly as [`spec_mutators`] says.
pub fn synthesize_mutators(shape: &BuilderSpec) -> (r: Vec<MutatorDecl>)
    ensures
        r.deep_view() == spec_mutators(shape@.entries),
{
    let mut out: Vec<MutatorDecl> = Vec::new();
    let n = shape.entries.len();
    let mut i: usize = 0;
    while i < n
        invariant
            0 <= i <= n,
            n == shape.entries.len(),
            out.len() == i,
            forall|j: int| 0 <= j < i ==> #[trigger] out[j]@ == spec_mutator(
                shape@.entries[j].field.name,
                shape@.entries[j].kind,
            ),
        decreases n - i,
    {
        let entry = &shape.entries[i];
        let m = match &entry.kind {
            FieldKind::Required { inner_type } => MutatorDecl::Setter {
                field_name: entry.field.name.clone(),
                param_type: inner_type.duplicate(),
            },
            FieldKind::Optional { inner_type } => MutatorDecl::Setter {
                field_name: entry.field.name.clone(),
                param_type: inner_type.duplicate(),
            },
            FieldKind::Accumulating { element_type, appender_name } => MutatorDecl::Appender {
                appender_name: appender_name.clone(),
                field_name: entry.field.name.clone(),
                element_type: element_type.duplicate(),
            },
        };
        out.push(m);
        i = i + 1;
    }
    assert(out.deep_view() =~= spec_mutators(shape@.entries));
    out
}

/// Synthesizes the finalizer, exactly as [`spec_finalizer`] says.
pub fn synthesize_finalizer(shape: &BuilderSpec) -> (r: FinalizerDecl)
    ensures
        r@ == spec_finalizer(shape@.entries),
{
    let n = shape.entries.len();
    let mut required_checks: Vec<String> = Vec::new();
    let mut drains: Vec<DrainStep> = Vec::new();
    let mut i: usize = 0;
    while i < n
        invariant
            0 <= i <= n,
            n == shape.entries.len(),
            drains.len() == i,
            forall|j: int| 0 <= j < i ==> #[trigger] drains[j] == spec_drain(
                shape@.entries[j].kind,
            ),
            required_checks.deep_view() == spec_required_checks(shape@.entries.take(i as int)),
        decreases n - i,
    {
        let entry = &shape.entries[i];
        let ghost prev = required_checks.deep_view();
        match &entry.kind {
            FieldKind::Required { .. } => {
                required_checks.push(entry.field.name.clone());
                proof {
                    assert(required_checks.deep_view() =~= prev.push(entry.field.name@));
                }
            },
            _ => {},
        }
        drains.push(drain_step(&entry.kind));
        proof {
            assert(shape@.entries.take(i + 1).drop_last() =~= shape@.entries.take(i as int));
            assert(shape@.entries.take(i + 1).last() == shape@.entries[i as int]);
        }
        i = i + 1;
    }
    proof {
        assert(shape@.entries.take(n as int) =~= shape@.entries);
    }
    let r = FinalizerDecl { required_checks, drains };
    assert(r@.drains =~= spec_drains(shape@.entries));
    assert(r@ =~= spec_finalizer(shape@.entries));
    r
}

/// Returns [`spec_drain`] of the kind.
pub fn drain_step(k: &FieldKind) -> (r: DrainStep)
    ensures
        r == spec_drain(k@),
{
    match k {
        FieldKind::Required { .. } => DrainStep::UnwrapRequired,
        FieldKind::Optional { .. } => DrainStep::TakeOptional,
        FieldKind::Accumulating { .. } => DrainStep::CopyAccumulated,
    }
}

/// The record inspector: the ordered field list of a plain named
/// record; every other shape is rejected.
pub open spec fn spec_inspect(s: RecordShapeModel) -> Result<
    Seq<FieldDescriptorModel>,
    GenErrorModel,
> {
    match s {
        RecordShapeModel::Named { fields } => Ok(fields),
        _ => Err(GenErrorModel::NotNamedRecord),
    }
}

/// Extracts the field list, exactly as [`spec_inspect`] says.
pub fn inspect(shape: RecordShape) -> (r: Result<Vec<FieldDescriptor>, GenError>)
    ensures
        r matches Ok(fields) ==> spec_inspect(shape@) == Ok::<_, GenErrorModel>(
            fields.deep_view(),
        ),
        r matches Err(e) ==> spec_inspect(shape@) == Err::<Seq<FieldDescriptorModel>, _>(e@),
{
    let ghost sm = shape@;
    match shape {
        RecordShape::Named { fields } => {
            assert(spec_inspect(sm) matches Ok(f) && f =~= fields.deep_view());
            Ok(fields)
        },
        _ => Err(GenError::NotNamedRecord),
    }
}

/// The whole generation pipeline as one function of the declaration's
/// model: inspect, classify every field, synthesize the shape and the
/// operations.  The emitted module is a pure function of the input.
pub open spec fn spec_generate(d: RecordDeclModel) -> Result<BuilderModuleModel, GenErrorModel> {
    match spec_inspect(d.shape) {
        Err(e) => Err(e),
        Ok(fields) => match spec_classify_all(fields) {
            Err(e) => Err(e),
            Ok(kinds) => {
                let shape = spec_shape(d.name, fields, kinds);
                Ok(
                    BuilderModuleModel {
                        shape,
                        mutators: spec_mutators(shape.entries),
                        finalizer: spec_finalizer(shape.entries),
                    },
                )
            },
        },
    }
}

/// Runs the pipeline on one record declaration, exactly as
/// [`spec_generate`] says.
pub fn generate(decl: RecordDecl) -> (r: Result<BuilderModule, GenError>)
    ensures
        r matches Ok(m) ==> spec_generate(decl@) == Ok::<_, GenErrorModel>(m@),
        r matches Err(e) ==> spec_generate(decl@) == Err::<BuilderModuleModel, _>(e@),
{
    let ghost dm = decl@;
    let RecordDecl { name, shape } = decl;
    let fields = match inspect(shape) {
        Ok(fields) => fields,
        Err(e) => {
            return Err(e);
        },
    };
    let kinds = match classify_fields(&fields) {
        Ok(kinds) => kinds,
        Err(e) => {
            return Err(e);
        },
    };
    let builder_shape = synthesize_shape(&name, &fields, &kinds);
    let mutators = synthesize_mutators(&builder_shape);
    let finalizer = synthesize_finalizer(&builder_shape);
    let m = BuilderModule { shape: builder_shape, mutators, finalizer };
    assert(spec_generate(dm) matches Ok(mm) && m@ =~= mm);
    Ok(m)
}

} // verus!
