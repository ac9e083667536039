//! The metadata a record declaration hands to the generator: type
//! expressions, annotations, field descriptors and the record shapes.

use vstd::prelude::*;
use vstd::string::StrSliceExecFns;

verus! {

broadcast use vstd::std_specs::vec::group_vec_axioms;

/// A named type expression: a head identifier and its ordered generic
/// arguments, e.g. `Option<String>` or `Vec<u8>`.
#[derive(Debug, PartialEq, Eq)]
pub struct TypeExpr {
    pub head: String,
    pub args: Vec<TypeExpr>,
}

/// Mathematical model of a [`TypeExpr`].
#[verifier::ext_equal]
pub struct TypeExprModel {
    pub head: Seq<char>,
    pub args: Seq<TypeExprModel>,
}

impl TypeExpr {
    /// The model of a type expression, taken recursively.
    pub open spec fn model(self) -> TypeExprModel
        decreases self,
    {
        TypeExprModel {
            head: self.head@,
            args: Seq::new(
                self.args.len() as nat,
                |i: int|
                    if 0 <= i < self.args.len() {
                        self.args[i].model()
                    } else {
                        arbitrary()
                    },
            ),
        }
    }
}

impl View for TypeExpr {
    type V = TypeExprModel;

    open spec fn view(&self) -> TypeExprModel {
        self.model()
    }
}

impl TypeExpr {
    /// A fresh type expression equal in model to this one.
    pub fn duplicate(&self) -> (r: TypeExpr)
        ensures
            r@ == self@,
        decreases *self,
    {
        let mut args: Vec<TypeExpr> = Vec::new();
        let mut i: usize = 0;
        while i < self.args.len()
            invariant
                i <= self.args.len(),
                args.len() == i,
                forall|j: int| 0 <= j < i ==> args[j]@ == self.args[j]@,
            decreases self.args.len() - i,
        {
            args.push(self.args[i].duplicate());
            i = i + 1;
        }
        let r = TypeExpr { head: self.head.clone(), args };
        assert(r@.args =~= self@.args);
        assert(r@ =~= self@);
        r
    }
}

/// The visibility a field was declared with.
#[derive(Clone, Copy, PartialEq, Eq, Structural, Debug)]
pub enum Visibility {
    Public,
    Inherited,
}

/// One argument of an annotation.  A `key = "value"` pair with a string
/// literal on the right is the only form the generator reads; every
/// other form is kept opaque.
#[derive(Debug, PartialEq, Eq)]
pub enum AnnotationArg {
    KeyString { key: String, value: String },
    Other,
}

/// Mathematical model of an [`AnnotationArg`].
pub enum AnnotationArgModel {
    KeyString { key: Seq<char>, value: Seq<char> },
    Other,
}

impl View for AnnotationArg {
    type V = AnnotationArgModel;

    open spec fn view(&self) -> AnnotationArgModel {
        match self {
            AnnotationArg::KeyString { key, value } => AnnotationArgModel::KeyString {
                key: key@,
                value: value@,
            },
            AnnotationArg::Other => AnnotationArgModel::Other,
        }
    }
}

/// An attribute-style annotation attached to a field: a name and an
/// ordered argument list, e.g. `builder(each = "push_tag")`.
#[derive(Debug, PartialEq, Eq)]
pub struct Annotation {
    pub name: String,
    pub args: Vec<AnnotationArg>,
}

/// Mathematical model of an [`Annotation`].
#[verifier::ext_equal]
pub struct AnnotationModel {
    pub name: Seq<char>,
    pub args: Seq<AnnotationArgModel>,
}

impl View for Annotation {
    type V = AnnotationModel;

    open spec fn view(&self) -> AnnotationModel {
        AnnotationModel {
            name: self.name@,
            args: Seq::new(self.args.len() as nat, |i: int| self.args@[i]@),
        }
    }
}

impl AnnotationArg {
    /// A fresh argument equal in model to this one.
    pub fn duplicate(&self) -> (r: AnnotationArg)
        ensures
            r@ == self@,
    {
        match self {
            AnnotationArg::KeyString { key, value } => AnnotationArg::KeyString {
                key: key.clone(),
                value: value.clone(),
            },
            AnnotationArg::Other => AnnotationArg::Other,
        }
    }
}

impl Annotation {
    /// A fresh annotation equal in model to this one.
    pub fn duplicate(&self) -> (r: Annotation)
        ensures
            r@ == self@,
    {
        let mut args: Vec<AnnotationArg> = Vec::new();
        let mut i: usize = 0;
        while i < self.args.len()
            invariant
                i <= self.args.len(),
                args.len() == i,
                forall|j: int| 0 <= j < i ==> args[j]@ == self.args[j]@,
            decreases self.args.len() - i,
        {
            args.push(self.args[i].duplicate());
            i = i + 1;
        }
        let r = Annotation { name: self.name.clone(), args };
        assert(r@.args =~= self@.args);
        assert(r@ =~= self@);
        r
    }
}

/// The metadata of one declared field: its name, declared type,
/// visibility and the annotations attached to it.
#[derive(Debug, PartialEq, Eq)]
pub struct FieldDescriptor {
    pub name: String,
    pub vis: Visibility,
    pub ty: TypeExpr,
    pub annotations: Vec<Annotation>,
}

/// Mathematical model of a [`FieldDescriptor`].
#[verifier::ext_equal]
pub struct FieldDescriptorModel {
    pub name: Seq<char>,
    pub vis: Visibility,
    pub ty: TypeExprModel,
    pub annotations: Seq<AnnotationModel>,
}

impl View for FieldDescriptor {
    type V = FieldDescriptorModel;

    open spec fn view(&self) -> FieldDescriptorModel {
        FieldDescriptorModel {
            name: self.name@,
            vis: self.vis,
            ty: self.ty@,
            annotations: Seq::new(self.annotations.len() as nat, |i: int| self.annotations@[i]@),
        }
    }
}

impl DeepView for FieldDescriptor {
    type V = FieldDescriptorModel;

    open spec fn deep_view(&self) -> FieldDescriptorModel {
        self.view()
    }
}

impl FieldDescriptor {
    /// A fresh descriptor equal in model to this one.
    pub fn duplicate(&self) -> (r: FieldDescriptor)
        ensures
            r@ == self@,
    {
        let mut annotations: Vec<Annotation> = Vec::new();
        let mut i: usize = 0;
        while i < self.annotations.len()
            invariant
                i <= self.annotations.len(),
                annotations.len() == i,
                forall|j: int| 0 <= j < i ==> annotations[j]@ == self.annotations[j]@,
            decreases self.annotations.len() - i,
        {
            annotations.push(self.annotations[i].duplicate());
            i = i + 1;
        }
        let r = FieldDescriptor {
            name: self.name.clone(),
            vis: self.vis,
            ty: self.ty.duplicate(),
            annotations,
        };
        assert(r@.annotations =~= self@.annotations);
        assert(r@ =~= self@);
        r
    }
}

/// The shape of a declared record type.  Only a plain record with
/// named fields can be given a builder.
#[derive(Debug, PartialEq, Eq)]
pub enum RecordShape {
    Named { fields: Vec<FieldDescriptor> },
    Tuple { types: Vec<TypeExpr> },
    Unit,
    Variants,
}

/// Mathematical model of a [`RecordShape`].
pub enum RecordShapeModel {
    Named { fields: Seq<FieldDescriptorModel> },
    Tuple { types: Seq<TypeExprModel> },
    Unit,
    Variants,
}

impl View for RecordShape {
    type V = RecordShapeModel;

    open spec fn view(&self) -> RecordShapeModel {
        match self {
            RecordShape::Named { fields } => RecordShapeModel::Named {
                fields: Seq::new(fields.len() as nat, |i: int| fields@[i]@),
            },
            RecordShape::Tuple { types } => RecordShapeModel::Tuple {
                types: Seq::new(types.len() as nat, |i: int| types@[i]@),
            },
            RecordShape::Unit => RecordShapeModel::Unit,
            RecordShape::Variants => RecordShapeModel::Variants,
        }
    }
}

/// A record declaration: its name and its shape.
#[derive(Debug, PartialEq, Eq)]
pub struct RecordDecl {
    pub name: String,
    pub shape: RecordShape,
}

/// Mathematical model of a [`RecordDecl`].
#[verifier::ext_equal]
pub struct RecordDeclModel {
    pub name: Seq<char>,
    pub shape: RecordShapeModel,
}

impl View for RecordDecl {
    type V = RecordDeclModel;

    open spec fn view(&self) -> RecordDeclModel {
        RecordDeclModel { name: self.name@, shape: self.shape@ }
    }
}

/// Indexing the deep view of a vector is taking the element's deep
/// view.
pub broadcast proof fn lemma_vec_deep_index<T: DeepView>(v: Vec<T>, j: int)
    requires
        0 <= j < v@.len(),
    ensures
        #[trigger] v.deep_view()[j] == v@[j].deep_view(),
{
}

/// The deep view of a vector keeps its length.
pub broadcast proof fn lemma_vec_deep_len<T: DeepView>(v: Vec<T>)
    ensures
        #[trigger] v.deep_view().len() == v@.len(),
{
}

/// A character that may open an identifier.
pub open spec fn is_ident_start(c: char) -> bool {
    c == '_' || ('a' <= c && c <= 'z') || ('A' <= c && c <= 'Z')
}

/// A character that may continue an identifier.
pub open spec fn is_ident_continue(c: char) -> bool {
    is_ident_start(c) || ('0' <= c && c <= '9')
}

/// A non-empty sequence of identifier characters, opened by a letter
/// or an underscore.
pub open spec fn is_identifier(s: Seq<char>) -> bool {
    &&& s.len() > 0
    &&& is_ident_start(s[0])
    &&& forall|i: int| 1 <= i < s.len() ==> is_ident_continue(#[trigger] s[i])
}

/// Decides [`is_identifier`] on a string slice.
pub fn check_identifier(s: &str) -> (b: bool)
    ensures
        b == is_identifier(s@),
{
    let n = s.unicode_len();
    if n == 0 {
        return false;
    }
    let c0 = s.get_char(0);
    if !(c0 == '_' || ('a' <= c0 && c0 <= 'z') || ('A' <= c0 && c0 <= 'Z')) {
        return false;
    }
    let mut i: usize = 1;
    while i < n
        invariant
            1 <= i <= n,
            n == s@.len(),
            forall|j: int| 1 <= j < i ==> is_ident_continue(#[trigger] s@[j]),
        decreases n - i,
    {
        let c = s.get_char(i);
        if !(c == '_' || ('a' <= c && c <= 'z') || ('A' <= c && c <= 'Z') || ('0' <= c && c
            <= '9')) {
            return false;
        }
        i = i + 1;
    }
    true
}

} // verus!
