use imgui_fields::compile_record;
use imgui_fields::Binding;
use imgui_fields::CompileError;
use imgui_fields::DirectiveDecl;
use imgui_fields::FieldDecl;
use imgui_fields::LitKind;
use imgui_fields::RawLit;
use imgui_fields::RecordDecl;
use imgui_fields::RecordShape;
use imgui_fields::TypeShape;

fn named(t: &str) -> TypeShape {
    TypeShape::Named(t.to_string())
}

fn lit(kind: LitKind, text: &str) -> RawLit {
    RawLit { kind, text: text.to_string() }
}

fn int_lit(text: &str) -> RawLit {
    lit(LitKind::Int, text)
}

fn slider(args: Vec<RawLit>) -> DirectiveDecl {
    DirectiveDecl { keyword: "slider".to_string(), args }
}

fn flag(keyword: &str) -> DirectiveDecl {
    DirectiveDecl { keyword: keyword.to_string(), args: Vec::new() }
}

fn field(name: &str, ty: TypeShape, directives: Vec<DirectiveDecl>) -> FieldDecl {
    FieldDecl { name: name.to_string(), ty, directives }
}

fn record(name: &str, fields: Vec<FieldDecl>) -> RecordDecl {
    RecordDecl { name: name.to_string(), shape: RecordShape::Plain(fields) }
}

fn scalar(name: &str) -> Binding {
    Binding::Scalar { name: name.to_string() }
}

fn slider_binding(name: &str, min: &str, max: &str) -> Binding {
    Binding::Slider { name: name.to_string(), min: min.to_string(), max: max.to_string() }
}

#[test]
fn mixed_record_compiles_to_expected_bindings() {
    let decl = record(
        "Player",
        vec![
            field("age", named("u32"), vec![slider(vec![int_lit("0"), int_lit("120")])]),
            field("name", named("String"), vec![]),
            field("active", named("bool"), vec![]),
            field("profile", named("Address"), vec![]),
        ],
    );
    let compiled = compile_record(&decl).unwrap();
    assert_eq!(
        compiled.render.bindings,
        vec![
            slider_binding("age", "0", "120"),
            Binding::TextEdit { name: "name".to_string() },
            Binding::Checkbox { name: "active".to_string() },
            Binding::Delegate { label: "profile".to_string() },
        ]
    );
    assert_eq!(compiled.render.record_name, "Player");
    assert!(!compiled.render.prints_label);
    assert!(compiled.nested_render.prints_label);
    assert_eq!(compiled.render.bindings, compiled.nested_render.bindings);
}

#[test]
fn slider_without_bounds_fails() {
    let decl = record("Panel", vec![field("x", named("u32"), vec![slider(vec![])])]);
    assert_eq!(compile_record(&decl), Err(CompileError::MissingSliderBounds));
}

#[test]
fn slider_with_only_min_fails() {
    let decl = record("Panel", vec![field("x", named("u32"), vec![slider(vec![int_lit("0")])])]);
    assert_eq!(compile_record(&decl), Err(CompileError::MissingSliderBounds));
}

#[test]
fn ignored_field_produces_no_binding() {
    let decl = record("Vault", vec![field("secret", named("String"), vec![flag("ignore")])]);
    let compiled = compile_record(&decl).unwrap();
    assert!(compiled.render.bindings.is_empty());
    assert!(compiled.nested_render.bindings.is_empty());
}

#[test]
fn no_directives_one_binding_per_field_in_order() {
    let decl = record(
        "Config",
        vec![
            field("width", named("u16"), vec![]),
            field("title", named("String"), vec![]),
            field("visible", named("bool"), vec![]),
            field("depth", named("usize"), vec![]),
        ],
    );
    let compiled = compile_record(&decl).unwrap();
    assert_eq!(compiled.render.bindings.len(), 4);
    assert_eq!(
        compiled.render.bindings,
        vec![
            scalar("width"),
            Binding::TextEdit { name: "title".to_string() },
            Binding::Checkbox { name: "visible".to_string() },
            scalar("depth"),
        ]
    );
}

#[test]
fn ignore_overrides_all_other_directives() {
    let decl = record(
        "Vault",
        vec![field(
            "level",
            named("u32"),
            vec![slider(vec![int_lit("0"), int_lit("9")]), flag("nested"), flag("ignore")],
        )],
    );
    let compiled = compile_record(&decl).unwrap();
    assert!(compiled.render.bindings.is_empty());
}

#[test]
fn slider_bounds_keep_encounter_order_even_reversed() {
    let decl = record(
        "Panel",
        vec![field("x", named("u32"), vec![slider(vec![int_lit("120"), int_lit("0")])])],
    );
    let compiled = compile_record(&decl).unwrap();
    assert_eq!(compiled.render.bindings, vec![slider_binding("x", "120", "0")]);
}

#[test]
fn slider_third_literal_is_dropped() {
    let decl = record(
        "Panel",
        vec![field("x", named("u32"), vec![slider(vec![int_lit("1"), int_lit("2"), int_lit("3")])])],
    );
    let compiled = compile_record(&decl).unwrap();
    assert_eq!(compiled.render.bindings, vec![slider_binding("x", "1", "2")]);
}

#[test]
fn slider_bounds_accumulate_across_directives() {
    let decl = record(
        "Panel",
        vec![field(
            "x",
            named("u32"),
            vec![slider(vec![int_lit("3")]), slider(vec![int_lit("7")])],
        )],
    );
    let compiled = compile_record(&decl).unwrap();
    assert_eq!(compiled.render.bindings, vec![slider_binding("x", "3", "7")]);
}

#[test]
fn float_literal_bounds_are_accepted_verbatim() {
    let decl = record(
        "Panel",
        vec![field(
            "x",
            named("f32"),
            vec![slider(vec![lit(LitKind::Float, "0.5"), lit(LitKind::Float, "1.5")])],
        )],
    );
    let compiled = compile_record(&decl).unwrap();
    assert_eq!(compiled.render.bindings, vec![slider_binding("x", "0.5", "1.5")]);
}

#[test]
fn string_literal_bound_is_fatal() {
    let decl = record(
        "Panel",
        vec![field("x", named("u32"), vec![slider(vec![lit(LitKind::Str, "low")])])],
    );
    assert_eq!(compile_record(&decl), Err(CompileError::UnsupportedLiteralKind));
}

#[test]
fn boolean_literal_bound_is_fatal() {
    let decl = record(
        "Panel",
        vec![field("x", named("u32"), vec![slider(vec![lit(LitKind::Bool, "true")])])],
    );
    assert_eq!(compile_record(&decl), Err(CompileError::UnsupportedLiteralKind));
}

#[test]
fn sequence_typed_field_is_fatal() {
    let decl = record("Grid", vec![field("cells", TypeShape::Sequence, vec![])]);
    assert_eq!(compile_record(&decl), Err(CompileError::UnsupportedFieldShape));
}

#[test]
fn other_typed_field_is_fatal() {
    let decl = record("Grid", vec![field("cells", TypeShape::Other, vec![])]);
    assert_eq!(compile_record(&decl), Err(CompileError::UnsupportedFieldShape));
}

#[test]
fn non_record_item_is_fatal() {
    let decl = RecordDecl { name: "Choice".to_string(), shape: RecordShape::Other };
    assert_eq!(compile_record(&decl), Err(CompileError::UnknownRecordShape));
}

#[test]
fn nested_directive_forces_delegation_on_scalar() {
    let decl = record("Wrap", vec![field("inner", named("u32"), vec![flag("nested")])]);
    let compiled = compile_record(&decl).unwrap();
    assert_eq!(
        compiled.render.bindings,
        vec![Binding::Delegate { label: "inner".to_string() }]
    );
}

#[test]
fn self_typed_field_still_compiles() {
    let decl = record(
        "Node",
        vec![field("value", named("u64"), vec![]), field("next", named("Node"), vec![])],
    );
    let compiled = compile_record(&decl).unwrap();
    assert_eq!(
        compiled.render.bindings,
        vec![scalar("value"), Binding::Delegate { label: "next".to_string() }]
    );
}

#[test]
fn unknown_directive_keyword_is_ignored() {
    let decl = record(
        "Panel",
        vec![field("x", named("u32"), vec![flag("color")])],
    );
    let compiled = compile_record(&decl).unwrap();
    assert_eq!(compiled.render.bindings, vec![scalar("x")]);
}

#[test]
fn empty_record_compiles_to_zero_bindings() {
    let decl = record("Unit", vec![]);
    let compiled = compile_record(&decl).unwrap();
    assert!(compiled.render.bindings.is_empty());
}

#[test]
fn ignored_field_keeps_order_of_the_rest() {
    let decl = record(
        "Form",
        vec![
            field("a", named("u8"), vec![]),
            field("b", named("String"), vec![flag("ignore")]),
            field("c", named("bool"), vec![]),
        ],
    );
    let compiled = compile_record(&decl).unwrap();
    assert_eq!(
        compiled.render.bindings,
        vec![scalar("a"), Binding::Checkbox { name: "c".to_string() }]
    );
}

#[test]
fn slider_on_text_field_is_ignored() {
    let decl = record(
        "Form",
        vec![field("label", named("String"), vec![slider(vec![int_lit("0"), int_lit("9")])])],
    );
    let compiled = compile_record(&decl).unwrap();
    assert_eq!(
        compiled.render.bindings,
        vec![Binding::TextEdit { name: "label".to_string() }]
    );
}

#[test]
fn first_fatal_error_wins() {
    let decl = record(
        "Broken",
        vec![
            field("x", named("u32"), vec![slider(vec![lit(LitKind::Char, "c")])]),
            field("cells", TypeShape::Sequence, vec![]),
        ],
    );
    assert_eq!(compile_record(&decl), Err(CompileError::UnsupportedLiteralKind));

    let swapped = record(
        "Broken",
        vec![
            field("cells", TypeShape::Sequence, vec![]),
            field("x", named("u32"), vec![slider(vec![lit(LitKind::Char, "c")])]),
        ],
    );
    assert_eq!(compile_record(&swapped), Err(CompileError::UnsupportedFieldShape));
}

#[test]
fn ignored_field_skips_type_classification() {
    let decl = record("Grid", vec![field("cells", TypeShape::Sequence, vec![flag("ignore")])]);
    let compiled = compile_record(&decl).unwrap();
    assert!(compiled.render.bindings.is_empty());
}

#[test]
fn widget_bindings_scope_under_their_field_name() {
    let decl = record(
        "Player",
        vec![
            field("age", named("u32"), vec![slider(vec![int_lit("0"), int_lit("120")])]),
            field("name", named("String"), vec![]),
            field("profile", named("Address"), vec![]),
        ],
    );
    let compiled = compile_record(&decl).unwrap();
    let ids: Vec<Option<&String>> =
        compiled.render.bindings.iter().map(Binding::scope_id).collect();
    assert_eq!(ids.len(), 3);
    assert_eq!(ids[0].map(String::as_str), Some("age"));
    assert_eq!(ids[1].map(String::as_str), Some("name"));
    assert_eq!(ids[2], None);
    let labels: Vec<&str> =
        compiled.render.bindings.iter().map(|b| b.label().as_str()).collect();
    assert_eq!(labels, vec!["age", "name", "profile"]);
}

#[test]
fn bad_literal_on_ignored_field_is_still_fatal() {
    let decl = record(
        "Vault",
        vec![field(
            "secret",
            named("u32"),
            vec![slider(vec![lit(LitKind::ByteStr, "b")]), flag("ignore")],
        )],
    );
    assert_eq!(compile_record(&decl), Err(CompileError::UnsupportedLiteralKind));
}
