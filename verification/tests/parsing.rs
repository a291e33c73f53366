use imgui_fields::classify::classify_name;
use imgui_fields::classify::classify_shape;
use imgui_fields::directive::parse_directives;
use imgui_fields::CompileError;
use imgui_fields::DirectiveDecl;
use imgui_fields::DirectiveSet;
use imgui_fields::LitKind;
use imgui_fields::RawLit;
use imgui_fields::TypeShape;
use imgui_fields::TypeTag;

fn directive(keyword: &str, args: Vec<RawLit>) -> DirectiveDecl {
    DirectiveDecl { keyword: keyword.to_string(), args }
}

fn int_lit(text: &str) -> RawLit {
    RawLit { kind: LitKind::Int, text: text.to_string() }
}

#[test]
fn every_scalar_width_classifies_as_scalar_numeric() {
    for name in ["u8", "u16", "u32", "u64", "usize", "f32", "f64"] {
        assert_eq!(classify_name(name), TypeTag::ScalarNumeric);
    }
}

#[test]
fn text_and_boolean_names_classify_exactly() {
    assert_eq!(classify_name("String"), TypeTag::Text);
    assert_eq!(classify_name("bool"), TypeTag::Boolean);
}

#[test]
fn unrecognized_names_default_to_composite() {
    assert_eq!(classify_name("Address"), TypeTag::Composite);
    assert_eq!(classify_name("i32"), TypeTag::Composite);
    assert_eq!(classify_name("str"), TypeTag::Composite);
    assert_eq!(classify_name(""), TypeTag::Composite);
}

#[test]
fn name_matching_is_exact_not_fuzzy() {
    assert_eq!(classify_name("U32"), TypeTag::Composite);
    assert_eq!(classify_name("string"), TypeTag::Composite);
    assert_eq!(classify_name("boolean"), TypeTag::Composite);
}

#[test]
fn classify_shape_rejects_non_named_types() {
    assert_eq!(
        classify_shape(&TypeShape::Sequence),
        Err(CompileError::UnsupportedFieldShape)
    );
    assert_eq!(classify_shape(&TypeShape::Other), Err(CompileError::UnsupportedFieldShape));
    assert_eq!(classify_shape(&TypeShape::Named("u8".to_string())), Ok(TypeTag::ScalarNumeric));
}

#[test]
fn empty_directive_list_parses_to_default_set() {
    let parsed = parse_directives(&Vec::new()).unwrap();
    assert_eq!(parsed, DirectiveSet::default());
    assert!(!parsed.ignore);
    assert!(!parsed.nested);
    assert!(!parsed.slider.present);
    assert_eq!(parsed.slider.min, None);
    assert_eq!(parsed.slider.max, None);
}

#[test]
fn slider_fills_min_then_max_in_order() {
    let parsed = parse_directives(&vec![directive("slider", vec![int_lit("5"), int_lit("2")])])
        .unwrap();
    assert!(parsed.slider.present);
    assert_eq!(parsed.slider.min.as_deref(), Some("5"));
    assert_eq!(parsed.slider.max.as_deref(), Some("2"));
}

#[test]
fn bare_slider_keyword_only_marks_presence() {
    let parsed = parse_directives(&vec![directive("slider", vec![])]).unwrap();
    assert!(parsed.slider.present);
    assert_eq!(parsed.slider.min, None);
    assert_eq!(parsed.slider.max, None);
}

#[test]
fn ignore_and_nested_are_zero_argument_flags() {
    let parsed = parse_directives(&vec![directive("ignore", vec![]), directive("nested", vec![])])
        .unwrap();
    assert!(parsed.ignore);
    assert!(parsed.nested);
    assert!(!parsed.slider.present);
}

#[test]
fn char_literal_bound_is_rejected() {
    let parsed = parse_directives(&vec![directive(
        "slider",
        vec![RawLit { kind: LitKind::Char, text: "c".to_string() }],
    )]);
    assert_eq!(parsed, Err(CompileError::UnsupportedLiteralKind));
}

#[test]
fn verbatim_literal_bound_is_rejected() {
    let parsed = parse_directives(&vec![directive(
        "slider",
        vec![RawLit { kind: LitKind::Verbatim, text: "x".to_string() }],
    )]);
    assert_eq!(parsed, Err(CompileError::UnsupportedLiteralKind));
}

#[test]
fn byte_literal_bound_is_rejected() {
    let parsed = parse_directives(&vec![directive(
        "slider",
        vec![RawLit { kind: LitKind::Byte, text: "7".to_string() }],
    )]);
    assert_eq!(parsed, Err(CompileError::UnsupportedLiteralKind));
}
