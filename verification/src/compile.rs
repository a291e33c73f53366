//! The schema walker and the procedure assembler: the compiler pass over one
//! record.
//!
//! The walker visits the fields in declaration order; for each field it
//! parses the directives, classifies the type and emits the binding,
//! skipping entirely (no binding, no error) a field whose directive set
//! carries `ignore`, and aborting the whole record at the first fatal error.
//! The assembler packages the collected bindings into the two generated
//! entry points.

use vstd::prelude::*;

use crate::classify::spec_classify_shape;
use crate::classify::classify_shape;
use crate::directive::spec_parse_directives;
use crate::directive::parse_directives;
use crate::emit::spec_emit_binding;
use crate::emit::emit_binding;
use crate::emit::Binding;
use crate::emit::BindingView;
use crate::schema::res_opt_view;
use crate::schema::CompileError;
use crate::schema::FieldDecl;
use crate::schema::FieldDeclView;
use crate::schema::RecordDecl;
use crate::schema::RecordDeclView;
use crate::schema::RecordShape;
use crate::schema::RecordShapeView;
use crate::schema::fields_view;

verus! {

/// The models of a sequence of bindings, element by element.
pub open spec fn bindings_view(s: Seq<Binding>) -> Seq<BindingView> {
    s.map_values(|b: Binding| b@)
}

/// The outcome of one field: no binding (`ignore`), one binding, or the
/// first fatal error of parsing, classification or emission, in that order.
pub open spec fn spec_field_binding(f: FieldDeclView) -> Result<Option<BindingView>, CompileError> {
    match spec_parse_directives(f.directives) {
        Err(e) => Err(e),
        Ok(ds) => {
            if ds.ignore {
                Ok(None)
            } else {
                match spec_classify_shape(f.ty) {
                    Err(e) => Err(e),
                    Ok(tag) => match spec_emit_binding(f.name, tag, ds) {
                        Err(e) => Err(e),
                        Ok(b) => Ok(Some(b)),
                    },
                }
            }
        },
    }
}

/// The ordered bindings of a field list: one binding per non-ignored field,
/// in declaration order, or the first fatal error.
pub open spec fn spec_walk_fields(fs: Seq<FieldDeclView>) -> Result<Seq<BindingView>, CompileError>
    decreases fs.len(),
{
    if fs.len() == 0 {
        Ok(Seq::<BindingView>::empty())
    } else {
        match spec_field_binding(fs[0]) {
            Err(e) => Err(e),
            Ok(opt) => match spec_walk_fields(fs.drop_first()) {
                Err(e) => Err(e),
                Ok(rest) => Ok(
                    match opt {
                        Some(b) => seq![b] + rest,
                        None => rest,
                    },
                ),
            },
        }
    }
}

/// The outcome of one field.
pub fn field_binding(f: &FieldDecl) -> (r: Result<Option<Binding>, CompileError>)
    ensures
        res_opt_view(r) == spec_field_binding(f@),
{
    match parse_directives(&f.directives) {
        Err(e) => Err(e),
        Ok(ds) => {
            if ds.ignore {
                Ok(None)
            } else {
                match classify_shape(&f.ty) {
                    Err(e) => Err(e),
                    Ok(tag) => match emit_binding(&f.name, tag, &ds) {
                        Err(e) => Err(e),
                        Ok(b) => Ok(Some(b)),
                    },
                }
            }
        },
    }
}

/// Walks a field list in declaration order and collects the bindings,
/// aborting at the first fatal error (no partial record compiles).
pub fn walk_fields(fields: &Vec<FieldDecl>) -> (r: Result<Vec<Binding>, CompileError>)
    ensures
        (match r {
            Ok(bs) => spec_walk_fields(fields_view(fields@)) == Ok::<_, CompileError>(
                bindings_view(bs@),
            ),
            Err(e) => spec_walk_fields(fields_view(fields@)) == Err::<Seq<BindingView>, _>(e),
        }),
{
    let ghost fv = fields_view(fields@);
    let mut acc: Vec<Binding> = Vec::new();
    let len = fields.len();
    let mut i: usize = 0;
    proof {
        assert(fv.skip(0) =~= fv);
        assert(bindings_view(acc@) =~= Seq::<BindingView>::empty());
    }
    while i < len
        invariant
            i <= len,
            len == fields@.len(),
            fv == fields_view(fields@),
            (match spec_walk_fields(fv.skip(i as int)) {
                Ok(rest) => spec_walk_fields(fv) == Ok::<_, CompileError>(
                    bindings_view(acc@) + rest,
                ),
                Err(e) => spec_walk_fields(fv) == Err::<Seq<BindingView>, _>(e),
            }),
        decreases len - i,
    {
        proof {
            assert(fv.skip(i as int)[0] == fields@[i as int]@);
        }
        match field_binding(&fields[i]) {
            Err(e) => {
                return Err(e);
            },
            Ok(opt) => {
                let ghost acc_before = bindings_view(acc@);
                match opt {
                    Some(b) => {
                        let ghost bv = b@;
                        acc.push(b);
                        proof {
                            assert(bindings_view(acc@) =~= acc_before + seq![bv]);
                        }
                    },
                    None => (),
                }
                i = i + 1;
                proof {
                    assert(fv.skip(i as int - 1).drop_first() =~= fv.skip(i as int));
                    if spec_walk_fields(fv.skip(i as int)) is Ok {
                        let rest = spec_walk_fields(fv.skip(i as int))->Ok_0;
                        assert(bindings_view(acc@) + rest =~= (match opt {
                            Some(b) => acc_before + (seq![b@] + rest),
                            None => acc_before + rest,
                        }));
                    }
                }
            },
        }
    }
    proof {
        assert(fv.skip(len as int) =~= Seq::<FieldDeclView>::empty());
        assert(bindings_view(acc@) + Seq::<BindingView>::empty() =~= bindings_view(acc@));
    }
    Ok(acc)
}

/// One generated entry point: the owning record's name, whether the entry
/// point first writes the passed-in display label as a heading (the
/// nested-render form), and the bindings it executes in order.
#[derive(PartialEq, Eq, Debug)]
pub struct GeneratedProcedure {
    pub record_name: String,
    pub prints_label: bool,
    pub bindings: Vec<Binding>,
}

/// Model of a `GeneratedProcedure`.
pub struct GeneratedProcedureView {
    pub record_name: Seq<char>,
    pub prints_label: bool,
    pub bindings: Seq<BindingView>,
}

impl View for GeneratedProcedure {
    type V = GeneratedProcedureView;

    open spec fn view(&self) -> GeneratedProcedureView {
        GeneratedProcedureView {
            record_name: self.record_name@,
            prints_label: self.prints_label,
            bindings: bindings_view(self.bindings@),
        }
    }
}

/// The two generated entry points of one compiled record: the plain render
/// procedure and the label-prefixed nested-render procedure. Both execute
/// the same bindings in the same order.
#[derive(PartialEq, Eq, Debug)]
pub struct CompiledRecord {
    pub render: GeneratedProcedure,
    pub nested_render: GeneratedProcedure,
}

/// Model of a `CompiledRecord`.
pub struct CompiledRecordView {
    pub render: GeneratedProcedureView,
    pub nested_render: GeneratedProcedureView,
}

impl View for CompiledRecord {
    type V = CompiledRecordView;

    open spec fn view(&self) -> CompiledRecordView {
        CompiledRecordView { render: self.render@, nested_render: self.nested_render@ }
    }
}

/// Packages the collected bindings into the two entry points: the plain
/// render procedure executes them with no extra framing, the nested-render
/// procedure first writes its label as a heading.
pub open spec fn spec_assemble(record_name: Seq<char>, bs: Seq<BindingView>) -> CompiledRecordView {
    CompiledRecordView {
        render: GeneratedProcedureView { record_name, prints_label: false, bindings: bs },
        nested_render: GeneratedProcedureView { record_name, prints_label: true, bindings: bs },
    }
}

/// The compiled form of a record declaration: the two entry points over the
/// walked bindings, or the first fatal error; an item that is not a plain
/// field-record is `UnknownRecordShape`.
pub open spec fn spec_compile_record(d: RecordDeclView) -> Result<CompiledRecordView, CompileError> {
    match d.shape {
        RecordShapeView::Plain(fs) => match spec_walk_fields(fs) {
            Ok(bs) => Ok(spec_assemble(d.name, bs)),
            Err(e) => Err(e),
        },
        RecordShapeView::Other => Err(CompileError::UnknownRecordShape),
    }
}

/// Packages bindings into the two generated entry points of one record.
pub fn assemble(record_name: &String, bindings: Vec<Binding>) -> (c: CompiledRecord)
    ensures
        c@ == spec_assemble(record_name@, bindings_view(bindings@)),
{
    let nested_bindings = bindings.clone();
    proof {
        assert forall|i: int| 0 <= i < bindings@.len() implies nested_bindings@[i]
            == bindings@[i] by {
            assert(cloned::<Binding>(bindings@[i], nested_bindings@[i]));
        }
        assert(nested_bindings@ =~= bindings@);
    }
    CompiledRecord {
        render: GeneratedProcedure {
            record_name: record_name.clone(),
            prints_label: false,
            bindings,
        },
        nested_render: GeneratedProcedure {
            record_name: record_name.clone(),
            prints_label: true,
            bindings: nested_bindings,
        },
    }
}

/// Compiles one record declaration: walks the fields, then assembles the
/// two entry points. The record either compiles fully or not at all.
pub fn compile_record(decl: &RecordDecl) -> (r: Result<CompiledRecord, CompileError>)
    ensures
        (match r {
            Ok(c) => spec_compile_record(decl@) == Ok::<_, CompileError>(c@),
            Err(e) => spec_compile_record(decl@) == Err::<CompiledRecordView, _>(e),
        }),
{
    match &decl.shape {
        RecordShape::Plain(fields) => match walk_fields(fields) {
            Ok(bs) => Ok(assemble(&decl.name, bs)),
            Err(e) => Err(e),
        },
        RecordShape::Other => Err(CompileError::UnknownRecordShape),
    }
}

} // verus!
