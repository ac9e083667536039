//! Shape synthesis: the builder type's storage fields and their zero
//! values, one per source field, in source order.

use vstd::prelude::*;
use vstd::string::StringExecFns;

use crate::classify::{FieldKind, FieldKindModel};
use crate::model::{FieldDescriptor, FieldDescriptorModel, TypeExpr, TypeExprModel};

verus! {

/// The zero value a builder storage field starts from.
#[derive(Clone, Copy, PartialEq, Eq, Structural, Debug)]
pub enum InitValue {
    /// The absent value of the nullable wrapper.
    Absent,
    /// An empty sequence.
    EmptySeq,
}

/// One entry of the synthesis output: a source field, its kind, the
/// builder's storage type for it and that storage's zero value.
#[derive(Debug, PartialEq, Eq)]
pub struct BuilderEntry {
    pub field: FieldDescriptor,
    pub kind: FieldKind,
    pub storage: TypeExpr,
    pub init: InitValue,
}

/// Mathematical model of a [`BuilderEntry`].
#[verifier::ext_equal]
pub struct BuilderEntryModel {
    pub field: FieldDescriptorModel,
    pub kind: FieldKindModel,
    pub storage: TypeExprModel,
    pub init: InitValue,
}

impl View for BuilderEntry {
    type V = BuilderEntryModel;

    open spec fn view(&self) -> BuilderEntryModel {
        BuilderEntryModel {
            field: self.field@,
            kind: self.kind@,
            storage: self.storage@,
            init: self.init,
        }
    }
}

impl DeepView for BuilderEntry {
    type V = BuilderEntryModel;

    open spec fn deep_view(&self) -> BuilderEntryModel {
        self.view()
    }
}

/// The synthesis output for one record: its name, the generated
/// builder's name, and one entry per source field in source order.
#[derive(Debug, PartialEq, Eq)]
pub struct BuilderSpec {
    pub record_name: String,
    pub builder_name: String,
    pub entries: Vec<BuilderEntry>,
}

/// Mathematical model of a [`BuilderSpec`].
#[verifier::ext_equal]
pub struct BuilderSpecModel {
    pub record_name: Seq<char>,
    pub builder_name: Seq<char>,
    pub entries: Seq<BuilderEntryModel>,
}

impl View for BuilderSpec {
    type V = BuilderSpecModel;

    open spec fn view(&self) -> BuilderSpecModel {
        BuilderSpecModel {
            record_name: self.record_name@,
            builder_name: self.builder_name@,
            entries: Seq::new(self.entries.len() as nat, |i: int| self.entries@[i]@),
        }
    }
}

/// A nullable wrapper around a type.
pub open spec fn spec_option_wrap(t: TypeExprModel) -> TypeExprModel {
    TypeExprModel { head: "Option"@, args: seq![t] }
}

/// A sequence of a type.
pub open spec fn spec_seq_wrap(t: TypeExprModel) -> TypeExprModel {
    TypeExprModel { head: "Vec"@, args: seq![t] }
}

/// The builder's storage type for a field of the given kind: required
/// values gain the nullable wrapper, optional values keep it, and
/// accumulating values are stored as a sequence of their element.
pub open spec fn spec_storage_type(k: FieldKindModel) -> TypeExprModel {
    match k {
        FieldKindModel::Required { inner_type } => spec_option_wrap(inner_type),
        FieldKindModel::Optional { inner_type } => spec_option_wrap(inner_type),
        FieldKindModel::Accumulating { element_type, .. } => spec_seq_wrap(element_type),
    }
}

/// The zero value of a field's storage: an empty sequence for an
/// accumulating field, absent otherwise.
pub open spec fn spec_init_value(k: FieldKindModel) -> InitValue {
    match k {
        FieldKindModel::Accumulating { .. } => InitValue::EmptySeq,
        _ => InitValue::Absent,
    }
}

/// The suffix the builder type's name appends to the record's name.
pub open spec fn spec_builder_suffix() -> Seq<char> {
    "Builder"@
}

/// The whole shape synthesis as a function of the classified field
/// list: storage field order follows source field order exactly.
pub open spec fn spec_shape(
    record_name: Seq<char>,
    fields: Seq<FieldDescriptorModel>,
    kinds: Seq<FieldKindModel>,
) -> BuilderSpecModel {
    BuilderSpecModel {
        record_name: record_name,
        builder_name: record_name + spec_builder_suffix(),
        entries: Seq::new(
            fields.len(),
            |i: int|
                BuilderEntryModel {
                    field: fields[i],
                    kind: kinds[i],
                    storage: spec_storage_type(kinds[i]),
                    init: spec_init_value(kinds[i]),
                },
        ),
    }
}

/// Returns [`spec_storage_type`] of the kind.
pub fn storage_type(k: &FieldKind) -> (r: TypeExpr)
    ensures
        r@ == spec_storage_type(k@),
{
    let r = match k {
        FieldKind::Required { inner_type } => TypeExpr {
            head: "Option".to_owned(),
            args: vec![inner_type.duplicate()],
        },
        FieldKind::Optional { inner_type } => TypeExpr {
            head: "Option".to_owned(),
            args: vec![inner_type.duplicate()],
        },
        FieldKind::Accumulating { element_type, .. } => TypeExpr {
            head: "Vec".to_owned(),
            args: vec![element_type.duplicate()],
        },
    };
    assert(r@.args =~= spec_storage_type(k@).args);
    assert(r@ =~= spec_storage_type(k@));
    r
}

/// Returns [`spec_init_value`] of the kind.
pub fn init_value(k: &FieldKind) -> (r: InitValue)
    ensures
        r == spec_init_value(k@),
{
    match k {
        FieldKind::Accumulating { .. } => InitValue::EmptySeq,
        _ => InitValue::Absent,
    }
}

/// Synthesizes the builder's shape for a classified field list,
/// exactly as [`spec_shape`] says.
pub fn synthesize_shape(
    record_name: &String,
    fields: &Vec<FieldDescriptor>,
    kinds: &Vec<FieldKind>,
) -> (r: BuilderSpec)
    requires
        fields.len() == kinds.len(),
    ensures
        r@ == spec_shape(record_name@, fields.deep_view(), kinds.deep_view()),
{
    let mut entries: Vec<BuilderEntry> = Vec::new();
    let n = fields.len();
    let mut i: usize = 0;
    while i < n
        invariant
            0 <= i <= n,
            n == fields.len(),
            n == kinds.len(),
            entries.len() == i,
            forall|j: int| 0 <= j < i ==> #[trigger] entries[j]@ == (BuilderEntryModel {
                field: fields.deep_view()[j],
                kind: kinds.deep_view()[j],
                storage: spec_storage_type(kinds.deep_view()[j]),
                init: spec_init_value(kinds.deep_view()[j]),
            }),
        decreases n - i,
    {
        let entry = BuilderEntry {
            field: fields[i].duplicate(),
            kind: kinds[i].duplicate(),
            storage: storage_type(&kinds[i]),
            init: init_value(&kinds[i]),
        };
        entries.push(entry);
        i = i + 1;
    }
    let r = BuilderSpec {
        record_name: record_name.clone(),
        builder_name: record_name.clone().concat("Builder"),
        entries,
    };
    assert(r@.entries =~= spec_shape(record_name@, fields.deep_view(), kinds.deep_view()).entries);
    assert(r@ =~= spec_shape(record_name@, fields.deep_view(), kinds.deep_view()));
    r
}

} // verus!
