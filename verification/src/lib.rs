//! Schema-driven widget-binding compiler.
//!
//! Given the declaration of a data record (named, typed fields, each
//! optionally carrying directives), this library compiles a rendering
//! procedure: one widget binding per field, assembled into a plain render
//! entry point and a label-prefixed nested-render entry point.

pub mod classify;
pub mod compile;
pub mod directive;
pub mod emit;
pub mod laws;
pub mod schema;
pub mod text;

pub use classify::TypeTag;
pub use compile::compile_record;
pub use compile::walk_fields;
pub use compile::CompiledRecord;
pub use compile::GeneratedProcedure;
pub use directive::DirectiveSet;
pub use directive::SliderConfig;
pub use emit::Binding;
pub use schema::CompileError;
pub use schema::DirectiveDecl;
pub use schema::FieldDecl;
pub use schema::LitKind;
pub use schema::RawLit;
pub use schema::RecordDecl;
pub use schema::RecordShape;
pub use schema::TypeShape;
pub use text::str_eq;
