//! Field classification: every field is exactly one of required,
//! optional or accumulating.  The accumulation annotation takes
//! priority over the shape of the declared type.

use vstd::prelude::*;

use crate::model::{
    is_identifier, check_identifier, AnnotationArg, AnnotationArgModel, AnnotationModel,
    FieldDescriptor, FieldDescriptorModel, TypeExpr, TypeExprModel,
};

verus! {

/// The kind a field was classified as.
#[derive(Debug, PartialEq, Eq)]
pub enum FieldKind {
    /// Must be populated before the finalizer succeeds.
    Required { inner_type: TypeExpr },
    /// Declared as a nullable wrapper; may stay absent.
    Optional { inner_type: TypeExpr },
    /// A sequence populated element by element through a named appender.
    Accumulating { element_type: TypeExpr, appender_name: String },
}

/// Mathematical model of a [`FieldKind`].
pub enum FieldKindModel {
    Required { inner_type: TypeExprModel },
    Optional { inner_type: TypeExprModel },
    Accumulating { element_type: TypeExprModel, appender_name: Seq<char> },
}

impl DeepView for FieldKind {
    type V = FieldKindModel;

    open spec fn deep_view(&self) -> FieldKindModel {
        self.view()
    }
}

impl View for FieldKind {
    type V = FieldKindModel;

    open spec fn view(&self) -> FieldKindModel {
        match self {
            FieldKind::Required { inner_type } => FieldKindModel::Required {
                inner_type: inner_type@,
            },
            FieldKind::Optional { inner_type } => FieldKindModel::Optional {
                inner_type: inner_type@,
            },
            FieldKind::Accumulating { element_type, appender_name } => {
                FieldKindModel::Accumulating {
                    element_type: element_type@,
                    appender_name: appender_name@,
                }
            },
        }
    }
}

impl FieldKind {
    /// A fresh kind equal in model to this one.
    pub fn duplicate(&self) -> (r: FieldKind)
        ensures
            r@ == self@,
    {
        match self {
            FieldKind::Required { inner_type } => FieldKind::Required {
                inner_type: inner_type.duplicate(),
            },
            FieldKind::Optional { inner_type } => FieldKind::Optional {
                inner_type: inner_type.duplicate(),
            },
            FieldKind::Accumulating { element_type, appender_name } => FieldKind::Accumulating {
                element_type: element_type.duplicate(),
                appender_name: appender_name.clone(),
            },
        }
    }
}

/// A reason code generation aborts before anything is emitted.
#[derive(Debug, PartialEq, Eq)]
pub enum GenError {
    /// The declaration is not a plain record with named fields.
    NotNamedRecord,
    /// The accumulation annotation does not carry a single
    /// string-valued argument.
    MalformedAnnotation { field: String },
    /// The accumulation annotation's single key is not `each`.
    WrongAnnotationKey { field: String, key: String },
    /// The appender name in the annotation is not an identifier.
    BadAppenderName { field: String, value: String },
}

/// Mathematical model of a [`GenError`].
pub enum GenErrorModel {
    NotNamedRecord,
    MalformedAnnotation { field: Seq<char> },
    WrongAnnotationKey { field: Seq<char>, key: Seq<char> },
    BadAppenderName { field: Seq<char>, value: Seq<char> },
}

impl View for GenError {
    type V = GenErrorModel;

    open spec fn view(&self) -> GenErrorModel {
        match self {
            GenError::NotNamedRecord => GenErrorModel::NotNamedRecord,
            GenError::MalformedAnnotation { field } => GenErrorModel::MalformedAnnotation {
                field: field@,
            },
            GenError::WrongAnnotationKey { field, key } => GenErrorModel::WrongAnnotationKey {
                field: field@,
                key: key@,
            },
            GenError::BadAppenderName { field, value } => GenErrorModel::BadAppenderName {
                field: field@,
                value: value@,
            },
        }
    }
}

/// Whether an annotation is the generator's reserved one.
pub open spec fn is_marker(a: AnnotationModel) -> bool {
    a.name == "builder"@
}

/// The index of the first reserved annotation, or the list's length
/// when there is none.
pub open spec fn marker_index(anns: Seq<AnnotationModel>) -> int
    decreases anns.len(),
{
    if anns.len() == 0 {
        0
    } else if is_marker(anns[0]) {
        0
    } else {
        1 + marker_index(anns.skip(1))
    }
}

/// What [`marker_index`] returns: the first reserved annotation's
/// index when one exists, the length otherwise.
pub proof fn lemma_marker_index(anns: Seq<AnnotationModel>)
    ensures
        0 <= marker_index(anns) <= anns.len(),
        marker_index(anns) < anns.len() ==> is_marker(anns[marker_index(anns)]),
        forall|j: int| 0 <= j < marker_index(anns) ==> !is_marker(#[trigger] anns[j]),
    decreases anns.len(),
{
    if anns.len() == 0 {
    } else if is_marker(anns[0]) {
    } else {
        lemma_marker_index(anns.skip(1));
        assert forall|j: int| 0 <= j < marker_index(anns) implies !is_marker(#[trigger] anns[j]) by {
            if j > 0 {
                assert(anns[j] == anns.skip(1)[j - 1]);
            }
        }
    }
}

/// The element a sequence-shaped type accumulates: its single type
/// argument, or the type itself where it does not carry exactly one.
pub open spec fn spec_element_of(t: TypeExprModel) -> TypeExprModel {
    if t.args.len() == 1 {
        t.args[0]
    } else {
        t
    }
}

/// Classification of a field that carries the reserved annotation.
pub open spec fn spec_classify_marked(f: FieldDescriptorModel, a: AnnotationModel) -> Result<
    FieldKindModel,
    GenErrorModel,
> {
    if a.args.len() != 1 {
        Err(GenErrorModel::MalformedAnnotation { field: f.name })
    } else {
        match a.args[0] {
            AnnotationArgModel::KeyString { key, value } => {
                if key != "each"@ {
                    Err(GenErrorModel::WrongAnnotationKey { field: f.name, key })
                } else if !is_identifier(value) {
                    Err(GenErrorModel::BadAppenderName { field: f.name, value })
                } else {
                    Ok(FieldKindModel::Accumulating {
                        element_type: spec_element_of(f.ty),
                        appender_name: value,
                    })
                }
            },
            AnnotationArgModel::Other => Err(GenErrorModel::MalformedAnnotation { field: f.name }),
        }
    }
}

/// The classification of one field: the accumulation annotation first,
/// then the nullable-wrapper shape, else required.
pub open spec fn spec_classify(f: FieldDescriptorModel) -> Result<FieldKindModel, GenErrorModel> {
    let k = marker_index(f.annotations);
    if k < f.annotations.len() {
        spec_classify_marked(f, f.annotations[k])
    } else if f.ty.head == "Option"@ && f.ty.args.len() == 1 {
        Ok(FieldKindModel::Optional { inner_type: f.ty.args[0] })
    } else {
        Ok(FieldKindModel::Required { inner_type: f.ty })
    }
}

/// Returns [`spec_element_of`] of the declared type.
fn element_of(t: &TypeExpr) -> (r: TypeExpr)
    ensures
        r@ == spec_element_of(t@),
{
    if t.args.len() == 1 {
        t.args[0].duplicate()
    } else {
        t.duplicate()
    }
}

/// Classifies one field, exactly as [`spec_classify`] says.
pub fn classify_field(f: &FieldDescriptor) -> (r: Result<FieldKind, GenError>)
    ensures
        r matches Ok(k) ==> spec_classify(f@) == Ok::<FieldKindModel, GenErrorModel>(k@),
        r matches Err(e) ==> spec_classify(f@) == Err::<FieldKindModel, GenErrorModel>(e@),
{
    proof {
        lemma_marker_index(f@.annotations);
    }
    let marker: String = "builder".to_owned();
    let n = f.annotations.len();
    let mut i: usize = 0;
    while i < n
        invariant
            0 <= i <= n,
            n == f.annotations.len(),
            forall|j: int| 0 <= j < i ==> !is_marker(#[trigger] f@.annotations[j]),
            marker@ == "builder"@,
        decreases n - i,
    {
        if f.annotations[i].name == marker {
            assert(is_marker(f@.annotations[i as int]));
            assert(marker_index(f@.annotations) == i) by {
                lemma_marker_index(f@.annotations);
            }
            let ann = &f.annotations[i];
            if ann.args.len() != 1 {
                return Err(GenError::MalformedAnnotation { field: f.name.clone() });
            }
            match &ann.args[0] {
                AnnotationArg::KeyString { key, value } => {
                    let each: String = "each".to_owned();
                    if !(*key == each) {
                        return Err(GenError::WrongAnnotationKey {
                            field: f.name.clone(),
                            key: key.clone(),
                        });
                    }
                    if !check_identifier(value.as_str()) {
                        return Err(GenError::BadAppenderName {
                            field: f.name.clone(),
                            value: value.clone(),
                        });
                    }
                    return Ok(FieldKind::Accumulating {
                        element_type: element_of(&f.ty),
                        appender_name: value.clone(),
                    });
                },
                AnnotationArg::Other => {
                    return Err(GenError::MalformedAnnotation { field: f.name.clone() });
                },
            }
        }
        i = i + 1;
    }
    assert(marker_index(f@.annotations) == n) by {
        lemma_marker_index(f@.annotations);
    }
    let option_name: String = "Option".to_owned();
    if f.ty.head == option_name && f.ty.args.len() == 1 {
        Ok(FieldKind::Optional { inner_type: f.ty.args[0].duplicate() })
    } else {
        Ok(FieldKind::Required { inner_type: f.ty.duplicate() })
    }
}

/// The classification of a whole field list, stopping at the first
/// field the classifier rejects.
pub open spec fn spec_classify_all(fields: Seq<FieldDescriptorModel>) -> Result<
    Seq<FieldKindModel>,
    GenErrorModel,
>
    decreases fields.len(),
{
    if fields.len() == 0 {
        Ok(Seq::empty())
    } else {
        match spec_classify_all(fields.drop_last()) {
            Ok(ks) => match spec_classify(fields.last()) {
                Ok(k) => Ok(ks.push(k)),
                Err(e) => Err(e),
            },
            Err(e) => Err(e),
        }
    }
}

/// Classifies every field in order, exactly as [`spec_classify_all`]
/// says.
pub fn classify_fields(fields: &Vec<FieldDescriptor>) -> (r: Result<Vec<FieldKind>, GenError>)
    ensures
        r matches Ok(ks) ==> {
            &&& spec_classify_all(fields.deep_view()) matches Ok(kms)
            &&& kms == ks.deep_view()
            &&& ks.len() == fields.len()
        },
        r matches Err(e) ==> spec_classify_all(fields.deep_view()) == Err::<
            Seq<FieldKindModel>,
            GenErrorModel,
        >(e@),
{
    let mut out: Vec<FieldKind> = Vec::new();
    let n = fields.len();
    let mut i: usize = 0;
    while i < n
        invariant
            0 <= i <= n,
            n == fields.len(),
            out.len() == i,
            spec_classify_all(fields.deep_view().take(i as int)) matches Ok(kms) && kms
                == out.deep_view(),
        decreases n - i,
    {
        match classify_field(&fields[i]) {
            Ok(k) => {
                let ghost prev = out.deep_view();
                let ghost km = k@;
                out.push(k);
                proof {
                    assert(out.deep_view() =~= prev.push(km));
                    assert(fields.deep_view().take(i + 1).drop_last() =~= fields.deep_view().take(
                        i as int,
                    ));
                    assert(fields.deep_view().take(i + 1).last() == fields[i as int]@);
                }
            },
            Err(e) => {
                proof {
                    lemma_classify_all_prefix_err(fields.deep_view(), i as int);
                }
                return Err(e);
            },
        }
        i = i + 1;
    }
    proof {
        assert(fields.deep_view().take(n as int) =~= fields.deep_view());
    }
    Ok(out)
}

/// Where one field is rejected and every earlier field is accepted,
/// the whole list is rejected with that field's error.
pub proof fn lemma_classify_all_prefix_err(fields: Seq<FieldDescriptorModel>, i: int)
    requires
        0 <= i < fields.len(),
        spec_classify_all(fields.take(i)) is Ok,
        spec_classify(fields[i]) is Err,
    ensures
        spec_classify_all(fields) == Err::<Seq<FieldKindModel>, GenErrorModel>(
            spec_classify(fields[i])->Err_0,
        ),
    decreases fields.len(),
{
    if fields.len() - 1 == i {
        assert(fields.drop_last() =~= fields.take(i));
    } else {
        assert(fields.drop_last().take(i) =~= fields.take(i));
        assert(fields.drop_last()[i] == fields[i]);
        lemma_classify_all_prefix_err(fields.drop_last(), i);
    }
}

} // verus!
