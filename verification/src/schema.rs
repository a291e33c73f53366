//! The data model of the compiler: the record declaration handed in by the
//! host (fields, declared type names, raw directives) and the fatal errors
//! that abort compilation of a record.
//!
//! Every exec type here carries plain values only; its mathematical model is
//! the corresponding `...View` type, over `Seq<char>` and `Seq`.

use vstd::prelude::*;

verus! {

/// The kind of a literal token standing as a directive argument.
///
/// Only `Int` and `Float` are accepted as slider bounds; every other kind is
/// a fatal parse error, not an unreachable branch.
#[derive(Clone, Copy, PartialEq, Eq, Structural, Debug)]
pub enum LitKind {
    Int,
    Float,
    Str,
    ByteStr,
    Byte,
    Char,
    Bool,
    Verbatim,
}

/// A literal token: its kind and its verbatim source text.
///
/// The text is never interpreted numerically; slider bounds are passed
/// through to the widget layer exactly as the schema author wrote them.
#[derive(Clone, PartialEq, Eq, Debug)]
pub struct RawLit {
    pub kind: LitKind,
    pub text: String,
}

/// Model of a `RawLit`.
pub struct RawLitView {
    pub kind: LitKind,
    pub text: Seq<char>,
}

impl View for RawLit {
    type V = RawLitView;

    open spec fn view(&self) -> RawLitView {
        RawLitView { kind: self.kind, text: self.text@ }
    }
}

/// One raw directive attached to a field: a keyword and its literal
/// arguments, exactly as they stand at the record's definition site.
#[derive(Clone, PartialEq, Eq, Debug)]
pub struct DirectiveDecl {
    pub keyword: String,
    pub args: Vec<RawLit>,
}

/// Model of a `DirectiveDecl`.
pub struct DirectiveDeclView {
    pub keyword: Seq<char>,
    pub args: Seq<RawLitView>,
}

/// The models of a sequence of literal tokens, element by element.
pub open spec fn lits_view(s: Seq<RawLit>) -> Seq<RawLitView> {
    s.map_values(|l: RawLit| l@)
}

impl View for DirectiveDecl {
    type V = DirectiveDeclView;

    open spec fn view(&self) -> DirectiveDeclView {
        DirectiveDeclView { keyword: self.keyword@, args: lits_view(self.args@) }
    }
}

/// The shape of a field's declared type.
///
/// Only a simple named type is supported; a sequence (array) type or any
/// other shape is a fatal error (`UnsupportedFieldShape`).
#[derive(Clone, PartialEq, Eq, Debug)]
pub enum TypeShape {
    /// A simple named type, held by its source name (`u32`, `String`, ...).
    Named(String),
    /// An array or sequence type; explicitly unsupported.
    Sequence,
    /// Any other type shape; unsupported.
    Other,
}

/// Model of a `TypeShape`.
pub enum TypeShapeView {
    Named(Seq<char>),
    Sequence,
    Other,
}

impl View for TypeShape {
    type V = TypeShapeView;

    open spec fn view(&self) -> TypeShapeView {
        match self {
            TypeShape::Named(n) => TypeShapeView::Named(n@),
            TypeShape::Sequence => TypeShapeView::Sequence,
            TypeShape::Other => TypeShapeView::Other,
        }
    }
}

/// One named, typed, directive-annotated member of a record.
#[derive(Clone, PartialEq, Eq, Debug)]
pub struct FieldDecl {
    pub name: String,
    pub ty: TypeShape,
    pub directives: Vec<DirectiveDecl>,
}

/// Model of a `FieldDecl`.
pub struct FieldDeclView {
    pub name: Seq<char>,
    pub ty: TypeShapeView,
    pub directives: Seq<DirectiveDeclView>,
}

/// The models of a sequence of directive declarations, element by element.
pub open spec fn directives_view(s: Seq<DirectiveDecl>) -> Seq<DirectiveDeclView> {
    s.map_values(|d: DirectiveDecl| d@)
}

impl View for FieldDecl {
    type V = FieldDeclView;

    open spec fn view(&self) -> FieldDeclView {
        FieldDeclView { name: self.name@, ty: self.ty@, directives: directives_view(self.directives@) }
    }
}

/// The shape of the annotated item itself.
///
/// Only a plain record of named fields compiles; anything else (an enum, a
/// union, a tuple struct) is a fatal error (`UnknownRecordShape`).
#[derive(Clone, PartialEq, Eq, Debug)]
pub enum RecordShape {
    /// A plain record: named fields in declaration order.
    Plain(Vec<FieldDecl>),
    /// Any other item shape; unsupported.
    Other,
}

/// Model of a `RecordShape`.
pub enum RecordShapeView {
    Plain(Seq<FieldDeclView>),
    Other,
}

/// The models of a sequence of field declarations, element by element.
pub open spec fn fields_view(s: Seq<FieldDecl>) -> Seq<FieldDeclView> {
    s.map_values(|f: FieldDecl| f@)
}

impl View for RecordShape {
    type V = RecordShapeView;

    open spec fn view(&self) -> RecordShapeView {
        match self {
            RecordShape::Plain(fs) => RecordShapeView::Plain(fields_view(fs@)),
            RecordShape::Other => RecordShapeView::Other,
        }
    }
}

/// A record declaration: the unit being compiled.
#[derive(Clone, PartialEq, Eq, Debug)]
pub struct RecordDecl {
    pub name: String,
    pub shape: RecordShape,
}

/// Model of a `RecordDecl`.
pub struct RecordDeclView {
    pub name: Seq<char>,
    pub shape: RecordShapeView,
}

impl View for RecordDecl {
    type V = RecordDeclView;

    open spec fn view(&self) -> RecordDeclView {
        RecordDeclView { name: self.name@, shape: self.shape@ }
    }
}

/// The fields of a plain record shape; the empty sequence for any other
/// shape.
pub open spec fn plain_fields(s: RecordShapeView) -> Seq<FieldDeclView> {
    match s {
        RecordShapeView::Plain(fs) => fs,
        RecordShapeView::Other => Seq::<FieldDeclView>::empty(),
    }
}

/// The model of an optional value, element mapped to its own model.
pub open spec fn opt_view<T: View>(o: Option<T>) -> Option<T::V> {
    match o {
        Some(t) => Some(t@),
        None => None,
    }
}

/// The fatal compile-time failures. Each aborts generation for the whole
/// record; no partially generated procedure is ever produced.
#[derive(Clone, Copy, PartialEq, Eq, Structural, Debug)]
pub enum CompileError {
    /// A slider bound of the wrong literal kind (not an integer or
    /// floating-point literal).
    UnsupportedLiteralKind,
    /// A slider directive present with fewer than two numeric bounds.
    MissingSliderBounds,
    /// A field whose type is a sequence/array or otherwise not a simple
    /// named type.
    UnsupportedFieldShape,
    /// The annotated item is not a plain field-record.
    UnknownRecordShape,
}

/// The model of a fallible result whose success value has a model of its
/// own; the error is carried unchanged.
pub open spec fn res_view<T: View>(r: Result<T, CompileError>) -> Result<T::V, CompileError> {
    match r {
        Ok(t) => Ok(t@),
        Err(e) => Err(e),
    }
}

/// The model of a fallible, optional result: `Ok(None)` means the field is
/// skipped, `Ok(Some(..))` carries the model of the produced value.
pub open spec fn res_opt_view<T: View>(r: Result<Option<T>, CompileError>) -> Result<
    Option<T::V>,
    CompileError,
> {
    match r {
        Ok(o) => Ok(opt_view(o)),
        Err(e) => Err(e),
    }
}

} // verus!
