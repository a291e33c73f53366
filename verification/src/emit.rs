//! The widget binding emitter: given a field's name, widget category and
//! directive set, produces the field's single binding, or the fatal error
//! `MissingSliderBounds` when a slider is asked for without both bounds.

use vstd::prelude::*;

use crate::classify::TypeTag;
use crate::directive::DirectiveSet;
use crate::directive::DirectiveSetView;
use crate::schema::res_view;
use crate::schema::CompileError;

verus! {

/// The compiled output unit for one field: a widget invocation carrying the
/// field's name (which also serves as the widget-scoping identifier pushed
/// around the invocation), or a delegation to the nested record's own
/// generated nested-render procedure under the field's display label.
#[derive(PartialEq, Eq, Debug)]
pub enum Binding {
    /// A bounded scalar input widget.
    Scalar { name: String },
    /// A range slider widget; `min` and `max` are the verbatim literal
    /// texts of the bounds, in the order they were written.
    Slider { name: String, min: String, max: String },
    /// A single-line text-edit widget.
    TextEdit { name: String },
    /// A checkbox widget.
    Checkbox { name: String },
    /// A delegation call into the nested value's generated procedure,
    /// passing the field's display label.
    Delegate { label: String },
}

/// Model of a `Binding`.
pub enum BindingView {
    Scalar { name: Seq<char> },
    Slider { name: Seq<char>, min: Seq<char>, max: Seq<char> },
    TextEdit { name: Seq<char> },
    Checkbox { name: Seq<char> },
    Delegate { label: Seq<char> },
}

impl View for Binding {
    type V = BindingView;

    open spec fn view(&self) -> BindingView {
        match self {
            Binding::Scalar { name } => BindingView::Scalar { name: name@ },
            Binding::Slider { name, min, max } => BindingView::Slider {
                name: name@,
                min: min@,
                max: max@,
            },
            Binding::TextEdit { name } => BindingView::TextEdit { name: name@ },
            Binding::Checkbox { name } => BindingView::Checkbox { name: name@ },
            Binding::Delegate { label } => BindingView::Delegate { label: label@ },
        }
    }
}

impl Clone for Binding {
    /// An exact copy: the clone models the same binding.
    fn clone(&self) -> (r: Binding)
        ensures
            r == *self,
    {
        match self {
            Binding::Scalar { name } => Binding::Scalar { name: name.clone() },
            Binding::Slider { name, min, max } => Binding::Slider {
                name: name.clone(),
                min: min.clone(),
                max: max.clone(),
            },
            Binding::TextEdit { name } => Binding::TextEdit { name: name.clone() },
            Binding::Checkbox { name } => Binding::Checkbox { name: name.clone() },
            Binding::Delegate { label } => Binding::Delegate { label: label.clone() },
        }
    }
}

/// The display label of a binding: the name of the field it was emitted
/// for.
pub open spec fn spec_binding_label(b: BindingView) -> Seq<char> {
    match b {
        BindingView::Scalar { name } => name,
        BindingView::Slider { name, min: _, max: _ } => name,
        BindingView::TextEdit { name } => name,
        BindingView::Checkbox { name } => name,
        BindingView::Delegate { label } => label,
    }
}

/// The widget-scoping identifier a binding pushes before its widget call
/// and pops after it; a delegation pushes none (the nested procedure scopes
/// its own bindings).
pub open spec fn spec_scope_id(b: BindingView) -> Option<Seq<char>> {
    match b {
        BindingView::Delegate { label: _ } => None,
        _ => Some(spec_binding_label(b)),
    }
}

impl Binding {
    /// The display label of this binding: the name of the field it was
    /// emitted for.
    pub fn label(&self) -> (r: &String)
        ensures
            r@ == spec_binding_label(self@),
    {
        match self {
            Binding::Scalar { name } => name,
            Binding::Slider { name, min: _, max: _ } => name,
            Binding::TextEdit { name } => name,
            Binding::Checkbox { name } => name,
            Binding::Delegate { label } => label,
        }
    }

    /// The widget-scoping identifier this binding pushes before its widget
    /// call and pops after it, so that two fields with identical display
    /// labels cannot collide in the widget identity table; a delegation
    /// pushes none.
    pub fn scope_id(&self) -> (r: Option<&String>)
        ensures
            (match r {
                Some(s) => spec_scope_id(self@) == Some(s@),
                None => spec_scope_id(self@) == None::<Seq<char>>,
            }),
    {
        match self {
            Binding::Delegate { label: _ } => None,
            Binding::Scalar { name } => Some(name),
            Binding::Slider { name, min: _, max: _ } => Some(name),
            Binding::TextEdit { name } => Some(name),
            Binding::Checkbox { name } => Some(name),
        }
    }
}

/// The binding of one field, from its name, widget category and directive
/// set.
///
/// `nested` forces delegation, as does the `Composite` category. A scalar
/// field with a slider directive needs both bounds; otherwise generation of
/// the whole record fails with `MissingSliderBounds`.
pub open spec fn spec_emit_binding(
    name: Seq<char>,
    tag: TypeTag,
    ds: DirectiveSetView,
) -> Result<BindingView, CompileError> {
    if ds.nested || tag == TypeTag::Composite {
        Ok(BindingView::Delegate { label: name })
    } else {
        match tag {
            TypeTag::ScalarNumeric => {
                if !ds.slider.present {
                    Ok(BindingView::Scalar { name })
                } else if ds.slider.min is Some && ds.slider.max is Some {
                    Ok(
                        BindingView::Slider {
                            name,
                            min: ds.slider.min->0,
                            max: ds.slider.max->0,
                        },
                    )
                } else {
                    Err(CompileError::MissingSliderBounds)
                }
            },
            TypeTag::Text => Ok(BindingView::TextEdit { name }),
            TypeTag::Boolean => Ok(BindingView::Checkbox { name }),
            TypeTag::Composite => Ok(BindingView::Delegate { label: name }),
        }
    }
}

/// Emits the binding of one field.
pub fn emit_binding(name: &String, tag: TypeTag, ds: &DirectiveSet) -> (r: Result<
    Binding,
    CompileError,
>)
    ensures
        res_view(r) == spec_emit_binding(name@, tag, ds@),
{
    if ds.nested || matches!(tag, TypeTag::Composite) {
        Ok(Binding::Delegate { label: name.clone() })
    } else {
        match tag {
            TypeTag::ScalarNumeric => {
                if !ds.slider.present {
                    Ok(Binding::Scalar { name: name.clone() })
                } else {
                    match (&ds.slider.min, &ds.slider.max) {
                        (Some(mn), Some(mx)) => Ok(
                            Binding::Slider { name: name.clone(), min: mn.clone(), max: mx.clone() },
                        ),
                        _ => Err(CompileError::MissingSliderBounds),
                    }
                }
            },
            TypeTag::Text => Ok(Binding::TextEdit { name: name.clone() }),
            TypeTag::Boolean => Ok(Binding::Checkbox { name: name.clone() }),
            TypeTag::Composite => Ok(Binding::Delegate { label: name.clone() }),
        }
    }
}

} // verus!
