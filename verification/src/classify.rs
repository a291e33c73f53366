//! The type classifier: maps a field's declared type name to its widget
//! category. Exact, table-driven name matching; adding a scalar width is a
//! one-line change to the table. Non-named type shapes are a fatal error.

use vstd::prelude::*;

use crate::schema::CompileError;
use crate::schema::TypeShape;
use crate::schema::TypeShapeView;
use crate::text::str_eq;

verus! {

/// The widget category of a field: the classification of its rendering
/// treatment. `Composite` is the default for any name not recognized as a
/// primitive; it is not validated further here.
#[derive(Clone, Copy, PartialEq, Eq, Structural, Debug)]
pub enum TypeTag {
    ScalarNumeric,
    Text,
    Boolean,
    Composite,
}

/// The fixed table of type names classified as `ScalarNumeric`.
pub open spec fn scalar_type_names() -> Seq<Seq<char>> {
    seq!["u8"@, "u16"@, "u32"@, "u64"@, "usize"@, "f32"@, "f64"@]
}

/// The type name classified as `Text`.
pub open spec fn text_type_name() -> Seq<char> {
    "String"@
}

/// The type name classified as `Boolean`.
pub open spec fn boolean_type_name() -> Seq<char> {
    "bool"@
}

/// The classification of a declared type name.
pub open spec fn spec_classify_name(n: Seq<char>) -> TypeTag {
    if scalar_type_names().contains(n) {
        TypeTag::ScalarNumeric
    } else if n == text_type_name() {
        TypeTag::Text
    } else if n == boolean_type_name() {
        TypeTag::Boolean
    } else {
        TypeTag::Composite
    }
}

/// The classification of a type shape: only a simple named type has a
/// category; a sequence/array or other shape is a fatal error.
pub open spec fn spec_classify_shape(t: TypeShapeView) -> Result<TypeTag, CompileError> {
    match t {
        TypeShapeView::Named(n) => Ok(spec_classify_name(n)),
        TypeShapeView::Sequence => Err(CompileError::UnsupportedFieldShape),
        TypeShapeView::Other => Err(CompileError::UnsupportedFieldShape),
    }
}

/// The scalar-name table; one entry per recognized scalar width.
fn scalar_name_table() -> (t: Vec<&'static str>)
    ensures
        t@.len() == scalar_type_names().len(),
        forall|i: int| 0 <= i < t@.len() ==> (#[trigger] t@[i])@ == scalar_type_names()[i],
{
    let t: Vec<&'static str> = vec!["u8", "u16", "u32", "u64", "usize", "f32", "f64"];
    t
}

/// Whether `n` is one of the scalar numeric type names.
fn is_scalar_type_name(n: &str) -> (r: bool)
    ensures
        r == scalar_type_names().contains(n@),
{
    let table = scalar_name_table();
    let len = table.len();
    let mut i: usize = 0;
    while i < len
        invariant
            i <= len,
            len == table@.len(),
            table@.len() == scalar_type_names().len(),
            forall|j: int| 0 <= j < table@.len() ==> (#[trigger] table@[j])@ == scalar_type_names()[j],
            forall|j: int| 0 <= j < i ==> scalar_type_names()[j] != n@,
        decreases len - i,
    {
        if str_eq(n, table[i]) {
            assert(scalar_type_names()[i as int] == n@);
            return true;
        }
        i = i + 1;
    }
    assert(!scalar_type_names().contains(n@)) by {
        if scalar_type_names().contains(n@) {
            let j = choose|j: int|
                0 <= j < scalar_type_names().len() && scalar_type_names()[j] == n@;
            assert(scalar_type_names()[j] != n@);
        }
    }
    false
}

/// The widget category of a declared type name.
pub fn classify_name(n: &str) -> (t: TypeTag)
    ensures
        t == spec_classify_name(n@),
{
    if is_scalar_type_name(n) {
        TypeTag::ScalarNumeric
    } else if str_eq(n, "String") {
        TypeTag::Text
    } else if str_eq(n, "bool") {
        TypeTag::Boolean
    } else {
        TypeTag::Composite
    }
}

/// The widget category of a field's type shape, or the fatal error for an
/// unsupported shape.
pub fn classify_shape(t: &TypeShape) -> (r: Result<TypeTag, CompileError>)
    ensures
        r == spec_classify_shape(t@),
{
    match t {
        TypeShape::Named(n) => Ok(classify_name(n.as_str())),
        TypeShape::Sequence => Err(CompileError::UnsupportedFieldShape),
        TypeShape::Other => Err(CompileError::UnsupportedFieldShape),
    }
}

} // verus!
