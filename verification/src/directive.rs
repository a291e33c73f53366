//! The directive parser: folds a field's raw directive list into the
//! field's directive set.
//!
//! Exactly three keywords are recognized (`slider`, `ignore`, `nested`); any
//! other keyword is ignored for forward compatibility. For `slider`, the
//! first numeric literal becomes `min` and the second becomes `max`, in
//! encounter order and without any ordering check between them; a third or
//! later numeric literal is silently dropped; a literal of any other kind is
//! the fatal error `UnsupportedLiteralKind`.

use vstd::prelude::*;

use crate::schema::opt_view;
use crate::schema::res_view;
use crate::schema::CompileError;
use crate::schema::DirectiveDecl;
use crate::schema::DirectiveDeclView;
use crate::schema::LitKind;
use crate::schema::RawLit;
use crate::schema::RawLitView;
use crate::schema::directives_view;
use crate::schema::lits_view;
use crate::text::str_eq;

verus! {

/// The slider state gathered from a field's directives: whether a `slider`
/// directive is present, and the verbatim texts of the bounds seen so far.
#[derive(Clone, PartialEq, Eq, Debug)]
pub struct SliderConfig {
    pub present: bool,
    pub min: Option<String>,
    pub max: Option<String>,
}

/// Model of a `SliderConfig`.
pub struct SliderConfigView {
    pub present: bool,
    pub min: Option<Seq<char>>,
    pub max: Option<Seq<char>>,
}

impl View for SliderConfig {
    type V = SliderConfigView;

    open spec fn view(&self) -> SliderConfigView {
        SliderConfigView {
            present: self.present,
            min: opt_view(self.min),
            max: opt_view(self.max),
        }
    }
}

/// The parsed directive set of one field. `ignore`, when set, overrides and
/// voids everything else; `nested` forces composite delegation.
#[derive(Clone, PartialEq, Eq, Debug)]
pub struct DirectiveSet {
    pub ignore: bool,
    pub nested: bool,
    pub slider: SliderConfig,
}

/// Model of a `DirectiveSet`.
pub struct DirectiveSetView {
    pub ignore: bool,
    pub nested: bool,
    pub slider: SliderConfigView,
}

impl View for DirectiveSet {
    type V = DirectiveSetView;

    open spec fn view(&self) -> DirectiveSetView {
        DirectiveSetView { ignore: self.ignore, nested: self.nested, slider: self.slider@ }
    }
}

/// The directive set of a field with no directives.
pub open spec fn empty_directive_set() -> DirectiveSetView {
    DirectiveSetView {
        ignore: false,
        nested: false,
        slider: SliderConfigView { present: false, min: None, max: None },
    }
}

impl Default for DirectiveSet {
    /// The directive set of a field with no directives.
    fn default() -> (d: DirectiveSet)
        ensures
            d@ == empty_directive_set(),
    {
        DirectiveSet {
            ignore: false,
            nested: false,
            slider: SliderConfig { present: false, min: None, max: None },
        }
    }
}

/// The keyword of the slider directive.
pub open spec fn slider_keyword() -> Seq<char> {
    "slider"@
}

/// The keyword of the ignore directive.
pub open spec fn ignore_keyword() -> Seq<char> {
    "ignore"@
}

/// The keyword of the legacy nested directive.
pub open spec fn nested_keyword() -> Seq<char> {
    "nested"@
}

/// Whether a literal kind is accepted as a slider bound.
pub open spec fn lit_is_numeric(k: LitKind) -> bool {
    k == LitKind::Int || k == LitKind::Float
}

/// Folds the literal arguments of one slider directive into the slider
/// state, in order: the first numeric literal fills `min`, the second fills
/// `max`, later ones are dropped; a non-numeric literal is fatal.
pub open spec fn spec_apply_slider_args(st: SliderConfigView, args: Seq<RawLitView>) -> Result<
    SliderConfigView,
    CompileError,
>
    decreases args.len(),
{
    if args.len() == 0 {
        Ok(st)
    } else {
        let a = args[0];
        if !lit_is_numeric(a.kind) {
            Err(CompileError::UnsupportedLiteralKind)
        } else {
            let st2 = if st.min is None {
                SliderConfigView { present: st.present, min: Some(a.text), max: st.max }
            } else if st.max is None {
                SliderConfigView { present: st.present, min: st.min, max: Some(a.text) }
            } else {
                st
            };
            spec_apply_slider_args(st2, args.drop_first())
        }
    }
}

/// Folds one raw directive into the directive set. An unrecognized keyword
/// leaves the set unchanged.
pub open spec fn spec_apply_directive(ds: DirectiveSetView, d: DirectiveDeclView) -> Result<
    DirectiveSetView,
    CompileError,
> {
    if d.keyword == slider_keyword() {
        let st0 = SliderConfigView { present: true, min: ds.slider.min, max: ds.slider.max };
        match spec_apply_slider_args(st0, d.args) {
            Ok(st) => Ok(DirectiveSetView { ignore: ds.ignore, nested: ds.nested, slider: st }),
            Err(e) => Err(e),
        }
    } else if d.keyword == ignore_keyword() {
        Ok(DirectiveSetView { ignore: true, nested: ds.nested, slider: ds.slider })
    } else if d.keyword == nested_keyword() {
        Ok(DirectiveSetView { ignore: ds.ignore, nested: true, slider: ds.slider })
    } else {
        Ok(ds)
    }
}

/// Folds a directive list into a starting directive set, left to right,
/// stopping at the first fatal error.
pub open spec fn spec_parse_directives_from(
    ds: DirectiveSetView,
    list: Seq<DirectiveDeclView>,
) -> Result<DirectiveSetView, CompileError>
    decreases list.len(),
{
    if list.len() == 0 {
        Ok(ds)
    } else {
        match spec_apply_directive(ds, list[0]) {
            Ok(ds2) => spec_parse_directives_from(ds2, list.drop_first()),
            Err(e) => Err(e),
        }
    }
}

/// The directive set of a field, from its raw directive list.
pub open spec fn spec_parse_directives(list: Seq<DirectiveDeclView>) -> Result<
    DirectiveSetView,
    CompileError,
> {
    spec_parse_directives_from(empty_directive_set(), list)
}

/// Consumes the literal arguments of one slider directive, in order.
fn apply_slider_args(st: SliderConfig, args: &Vec<RawLit>) -> (r: Result<
    SliderConfig,
    CompileError,
>)
    ensures
        res_view(r) == spec_apply_slider_args(st@, lits_view(args@)),
{
    let ghost all = lits_view(args@);
    let mut cur = st;
    let len = args.len();
    let mut i: usize = 0;
    proof {
        assert(all.skip(0) =~= all);
    }
    while i < len
        invariant
            i <= len,
            len == args@.len(),
            all == lits_view(args@),
            spec_apply_slider_args(st@, all) == spec_apply_slider_args(cur@, all.skip(i as int)),
        decreases len - i,
    {
        let a = &args[i];
        proof {
            assert(all.skip(i as int)[0] == args@[i as int]@);
        }
        match a.kind {
            LitKind::Int => (),
            LitKind::Float => (),
            _ => {
                return Err(CompileError::UnsupportedLiteralKind);
            }
        }
        if cur.min.is_none() {
            cur.min = Some(a.text.clone());
        } else if cur.max.is_none() {
            cur.max = Some(a.text.clone());
        }
        i = i + 1;
        proof {
            assert(all.skip(i as int - 1).drop_first() =~= all.skip(i as int));
        }
    }
    proof {
        assert(all.skip(len as int) =~= Seq::<RawLitView>::empty());
    }
    Ok(cur)
}

/// Folds one raw directive into the directive set.
fn apply_directive(ds: DirectiveSet, d: &DirectiveDecl) -> (r: Result<DirectiveSet, CompileError>)
    ensures
        res_view(r) == spec_apply_directive(ds@, d@),
{
    if str_eq(d.keyword.as_str(), "slider") {
        let st0 = SliderConfig { present: true, min: ds.slider.min, max: ds.slider.max };
        match apply_slider_args(st0, &d.args) {
            Ok(st) => Ok(DirectiveSet { ignore: ds.ignore, nested: ds.nested, slider: st }),
            Err(e) => Err(e),
        }
    } else if str_eq(d.keyword.as_str(), "ignore") {
        Ok(DirectiveSet { ignore: true, nested: ds.nested, slider: ds.slider })
    } else if str_eq(d.keyword.as_str(), "nested") {
        Ok(DirectiveSet { ignore: ds.ignore, nested: true, slider: ds.slider })
    } else {
        Ok(ds)
    }
}

/// The directive set of a field, from its raw directive list: the first
/// fatal error aborts, an unrecognized keyword is skipped.
pub fn parse_directives(list: &Vec<DirectiveDecl>) -> (r: Result<DirectiveSet, CompileError>)
    ensures
        res_view(r) == spec_parse_directives(directives_view(list@)),
{
    let ghost all = directives_view(list@);
    let mut ds = DirectiveSet::default();
    let len = list.len();
    let mut i: usize = 0;
    proof {
        assert(all.skip(0) =~= all);
    }
    while i < len
        invariant
            i <= len,
            len == list@.len(),
            all == directives_view(list@),
            spec_parse_directives(all) == spec_parse_directives_from(ds@, all.skip(i as int)),
        decreases len - i,
    {
        proof {
            assert(all.skip(i as int)[0] == list@[i as int]@);
        }
        match apply_directive(ds, &list[i]) {
            Ok(ds2) => {
                ds = ds2;
            },
            Err(e) => {
                return Err(e);
            },
        }
        i = i + 1;
        proof {
            assert(all.skip(i as int - 1).drop_first() =~= all.skip(i as int));
        }
    }
    proof {
        assert(all.skip(len as int) =~= Seq::<DirectiveDeclView>::empty());
    }
    Ok(ds)
}

} // verus!
