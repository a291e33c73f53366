//! The laws of the compiler pass, stated over the spec-level pipeline and
//! proved once for all inputs.

use vstd::prelude::*;

use crate::classify::spec_classify_name;
use crate::classify::TypeTag;
use crate::directive::empty_directive_set;
use crate::directive::lit_is_numeric;
use crate::directive::slider_keyword;
use crate::directive::spec_apply_directive;
use crate::directive::spec_apply_slider_args;
use crate::directive::spec_parse_directives;
use crate::directive::spec_parse_directives_from;
use crate::directive::DirectiveSetView;
use crate::directive::SliderConfigView;
use crate::emit::spec_binding_label;
use crate::emit::spec_emit_binding;
use crate::emit::BindingView;
use crate::schema::plain_fields;
use crate::schema::CompileError;
use crate::schema::DirectiveDeclView;
use crate::schema::FieldDeclView;
use crate::schema::RawLitView;
use crate::schema::RecordDeclView;
use crate::compile::spec_compile_record;
use crate::compile::spec_field_binding;
use crate::compile::spec_walk_fields;

verus! {

/// For a record whose fields carry no directives (and have simple named
/// types), every field — scalar, text, boolean or composite — produces
/// exactly one binding: the walk succeeds, yields as many bindings as
/// fields, and the binding at each position is labeled with the name of the
/// field declared at that position (declaration order is kept).
pub proof fn lemma_no_directives_one_binding_per_field(fs: Seq<FieldDeclView>)
    requires
        forall|i: int| 0 <= i < fs.len() ==> (#[trigger] fs[i]).directives.len() == 0,
        forall|i: int| 0 <= i < fs.len() ==> (#[trigger] fs[i]).ty is Named,
    ensures
        spec_walk_fields(fs) is Ok,
        spec_walk_fields(fs)->Ok_0.len() == fs.len(),
        forall|i: int| 0 <= i < fs.len() ==> spec_binding_label(
            #[trigger] spec_walk_fields(fs)->Ok_0[i],
        ) == fs[i].name,
    decreases fs.len(),
{
    if fs.len() > 0 {
        let f = fs[0];
        assert(spec_parse_directives(f.directives) == Ok::<DirectiveSetView, CompileError>(
            empty_directive_set(),
        ));
        assert(spec_field_binding(f) is Ok && spec_field_binding(f)->Ok_0 is Some);
        let b = spec_field_binding(f)->Ok_0->0;
        assert(spec_binding_label(b) == f.name);
        let rest = fs.drop_first();
        lemma_no_directives_one_binding_per_field(rest);
        let bs = spec_walk_fields(fs)->Ok_0;
        assert(bs == seq![b] + spec_walk_fields(rest)->Ok_0);
        assert forall|i: int| 0 <= i < fs.len() implies spec_binding_label(#[trigger] bs[i])
            == fs[i].name by {
            if i > 0 {
                assert(bs[i] == spec_walk_fields(rest)->Ok_0[i - 1]);
                assert(rest[i - 1] == fs[i]);
            }
        }
    }
}

/// A field whose directive set carries `ignore` produces no binding, no
/// matter what other directives stand beside it: its outcome is empty, and
/// the walk of a field list that starts with it equals the walk of the
/// remaining fields alone.
pub proof fn lemma_ignore_produces_no_binding(f: FieldDeclView, rest: Seq<FieldDeclView>)
    requires
        spec_parse_directives(f.directives) is Ok,
        spec_parse_directives(f.directives)->Ok_0.ignore,
    ensures
        spec_field_binding(f) == Ok::<Option<BindingView>, CompileError>(None),
        spec_walk_fields(seq![f] + rest) == spec_walk_fields(rest),
{
    let all = seq![f] + rest;
    assert(all[0] == f);
    assert(all.drop_first() =~= rest);
}

/// A `ScalarNumeric` field carrying a slider directive emits a slider
/// binding exactly when both bounds are present — and then with exactly
/// those bounds; with either bound absent, emission fails with
/// `MissingSliderBounds`.
pub proof fn lemma_slider_needs_both_bounds(name: Seq<char>, ds: DirectiveSetView)
    requires
        ds.slider.present,
        !ds.nested,
    ensures
        ds.slider.min is Some && ds.slider.max is Some ==> spec_emit_binding(
            name,
            TypeTag::ScalarNumeric,
            ds,
        ) == Ok::<BindingView, CompileError>(
            BindingView::Slider { name, min: ds.slider.min->0, max: ds.slider.max->0 },
        ),
        ds.slider.min is None || ds.slider.max is None ==> spec_emit_binding(
            name,
            TypeTag::ScalarNumeric,
            ds,
        ) == Err::<BindingView, CompileError>(CompileError::MissingSliderBounds),
{
}

/// Once both bounds are filled, further numeric literals are silently
/// dropped: folding any all-numeric argument tail leaves the state as it
/// stands.
proof fn lemma_slider_args_saturated(st: SliderConfigView, args: Seq<RawLitView>)
    requires
        st.min is Some,
        st.max is Some,
        forall|i: int| 0 <= i < args.len() ==> lit_is_numeric((#[trigger] args[i]).kind),
    ensures
        spec_apply_slider_args(st, args) == Ok::<SliderConfigView, CompileError>(st),
    decreases args.len(),
{
    if args.len() > 0 {
        lemma_slider_args_saturated(st, args.drop_first());
    }
}

/// In a slider directive, the first numeric literal always becomes `min`
/// and the second always becomes `max`: encounter order, kept verbatim,
/// with no reordering even when the first bound is numerically larger than
/// the second, and with any literal past the second dropped.
pub proof fn lemma_slider_first_literal_is_min(d: DirectiveDeclView)
    requires
        d.keyword == slider_keyword(),
        d.args.len() >= 2,
        forall|i: int| 0 <= i < d.args.len() ==> lit_is_numeric((#[trigger] d.args[i]).kind),
    ensures
        spec_parse_directives(seq![d]) is Ok,
        spec_parse_directives(seq![d])->Ok_0.slider.present,
        spec_parse_directives(seq![d])->Ok_0.slider.min == Some(d.args[0].text),
        spec_parse_directives(seq![d])->Ok_0.slider.max == Some(d.args[1].text),
        !spec_parse_directives(seq![d])->Ok_0.ignore,
        !spec_parse_directives(seq![d])->Ok_0.nested,
{
    let st0 = SliderConfigView { present: true, min: None, max: None };
    let st1 = SliderConfigView { present: true, min: Some(d.args[0].text), max: None };
    let st2 = SliderConfigView {
        present: true,
        min: Some(d.args[0].text),
        max: Some(d.args[1].text),
    };
    assert(lit_is_numeric(d.args[0].kind));
    assert(lit_is_numeric(d.args[1].kind));
    assert(d.args.drop_first()[0] == d.args[1]);
    assert(spec_apply_slider_args(st0, d.args) == spec_apply_slider_args(
        st1,
        d.args.drop_first(),
    ));
    assert(spec_apply_slider_args(st1, d.args.drop_first()) == spec_apply_slider_args(
        st2,
        d.args.drop_first().drop_first(),
    ));
    assert forall|i: int| 0 <= i < d.args.drop_first().drop_first().len() implies lit_is_numeric(
        (#[trigger] d.args.drop_first().drop_first()[i]).kind,
    ) by {
        assert(d.args.drop_first().drop_first()[i] == d.args[i + 2]);
    }
    lemma_slider_args_saturated(st2, d.args.drop_first().drop_first());
    assert(spec_apply_slider_args(st0, d.args) == Ok::<SliderConfigView, CompileError>(st2));
    let ds0 = empty_directive_set();
    assert(ds0.slider.min is None && ds0.slider.max is None);
    let ds2 = DirectiveSetView { ignore: false, nested: false, slider: st2 };
    assert(spec_apply_directive(ds0, d) == Ok::<DirectiveSetView, CompileError>(ds2));
    assert(seq![d][0] == d);
    assert(seq![d].len() == 1);
    assert(seq![d].drop_first() =~= Seq::<DirectiveDeclView>::empty());
    assert(spec_parse_directives_from(ds2, Seq::<DirectiveDeclView>::empty())
        == Ok::<DirectiveSetView, CompileError>(ds2));
    assert(spec_parse_directives(seq![d]) == Ok::<DirectiveSetView, CompileError>(ds2));
}

/// A scalar field whose one directive is a slider with numeric literal
/// arguments, end to end: with two or more literals it produces exactly the
/// slider binding bounded by the first two, and with fewer than two the
/// whole record's generation fails with `MissingSliderBounds` — so removing
/// either bound from an otherwise identical schema turns success into that
/// failure.
pub proof fn lemma_slider_field_outcome(f: FieldDeclView, d: DirectiveDeclView)
    requires
        f.directives == seq![d],
        d.keyword == slider_keyword(),
        forall|i: int| 0 <= i < d.args.len() ==> lit_is_numeric((#[trigger] d.args[i]).kind),
        f.ty is Named,
        spec_classify_name(f.ty->Named_0) == TypeTag::ScalarNumeric,
    ensures
        d.args.len() >= 2 ==> spec_field_binding(f) == Ok::<Option<BindingView>, CompileError>(
            Some(
                BindingView::Slider { name: f.name, min: d.args[0].text, max: d.args[1].text },
            ),
        ),
        d.args.len() < 2 ==> spec_field_binding(f) == Err::<Option<BindingView>, CompileError>(
            CompileError::MissingSliderBounds,
        ),
{
    if d.args.len() >= 2 {
        lemma_slider_first_literal_is_min(d);
    } else {
        let ds0 = empty_directive_set();
        let st0 = SliderConfigView { present: true, min: None, max: None };
        assert(ds0.slider.min is None && ds0.slider.max is None);
        if d.args.len() == 0 {
            assert(spec_apply_slider_args(st0, d.args) == Ok::<SliderConfigView, CompileError>(
                st0,
            ));
        } else {
            let st1 = SliderConfigView { present: true, min: Some(d.args[0].text), max: None };
            assert(lit_is_numeric(d.args[0].kind));
            assert(spec_apply_slider_args(st0, d.args) == spec_apply_slider_args(
                st1,
                d.args.drop_first(),
            ));
            assert(d.args.drop_first() =~= Seq::<RawLitView>::empty());
            assert(spec_apply_slider_args(st1, d.args.drop_first())
                == Ok::<SliderConfigView, CompileError>(st1));
        }
        let ds1 = spec_apply_directive(ds0, d)->Ok_0;
        assert(ds1.slider.present && !ds1.ignore && !ds1.nested);
        assert(ds1.slider.min is None || ds1.slider.max is None);
        assert(seq![d][0] == d);
        assert(seq![d].len() == 1);
        assert(seq![d].drop_first() =~= Seq::<DirectiveDeclView>::empty());
        assert(spec_parse_directives_from(ds1, Seq::<DirectiveDeclView>::empty())
            == Ok::<DirectiveSetView, CompileError>(ds1));
        assert(spec_parse_directives(seq![d]) == Ok::<DirectiveSetView, CompileError>(ds1));
    }
}

/// A composite field always delegates: whether its type name falls outside
/// every primitive table or the legacy `nested` directive forces it, the
/// emitted binding is a delegation under the field's own name as display
/// label.
pub proof fn lemma_composite_delegates(f: FieldDeclView)
    requires
        f.ty is Named,
        spec_parse_directives(f.directives) is Ok,
        !spec_parse_directives(f.directives)->Ok_0.ignore,
        spec_parse_directives(f.directives)->Ok_0.nested || spec_classify_name(f.ty->Named_0)
            == TypeTag::Composite,
    ensures
        spec_field_binding(f) == Ok::<Option<BindingView>, CompileError>(
            Some(BindingView::Delegate { label: f.name }),
        ),
{
}

/// The walk succeeds exactly when every field's own outcome succeeds; the
/// first failing field aborts the whole record, and nothing else can.
pub proof fn lemma_walk_succeeds_iff_each_field_does(fs: Seq<FieldDeclView>)
    ensures
        spec_walk_fields(fs) is Ok <==> (forall|i: int|
            0 <= i < fs.len() ==> (#[trigger] spec_field_binding(fs[i])) is Ok),
    decreases fs.len(),
{
    if fs.len() > 0 {
        let rest = fs.drop_first();
        lemma_walk_succeeds_iff_each_field_does(rest);
        if spec_field_binding(fs[0]) is Ok && (forall|i: int|
            0 <= i < rest.len() ==> (#[trigger] spec_field_binding(rest[i])) is Ok) {
            assert forall|i: int| 0 <= i < fs.len() implies (#[trigger] spec_field_binding(
                fs[i],
            )) is Ok by {
                if i > 0 {
                    assert(rest[i - 1] == fs[i]);
                }
            }
        }
        if (forall|i: int| 0 <= i < fs.len() ==> (#[trigger] spec_field_binding(fs[i])) is Ok) {
            assert forall|i: int| 0 <= i < rest.len() implies (#[trigger] spec_field_binding(
                rest[i],
            )) is Ok by {
                assert(rest[i] == fs[i + 1]);
            }
        }
    }
}

/// Delegation is reflexive: classification consults only the field's own
/// type name, never the containing record's, so a plain record each of
/// whose fields has a successful outcome compiles — also when a field's
/// type is the record's own type (`lemma_composite_delegates` then gives
/// the delegation binding of that field; the recursion this sets up is a
/// render-time concern of the host, not a compile-time check).
pub proof fn lemma_self_reference_still_compiles(d: RecordDeclView)
    requires
        d.shape is Plain,
        forall|i: int|
            0 <= i < plain_fields(d.shape).len() ==> (#[trigger] spec_field_binding(
                plain_fields(d.shape)[i],
            )) is Ok,
    ensures
        spec_compile_record(d) is Ok,
{
    lemma_walk_succeeds_iff_each_field_does(plain_fields(d.shape));
}

} // verus!
