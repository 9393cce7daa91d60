//! What the form of a component shows: one row per parameter, with the text
//! being typed in place of the parameter that is being edited.

use vstd::prelude::*;
use crate::param::{Param, ParamView};
use crate::utils::{NumericInput, TextField};

verus! {

/// A row of a form as the proofs see it.
pub struct FormRowView {
    pub label: Seq<char>,
    pub text: Seq<char>,
    pub active: bool,
}

/// A row of a form: the label of a parameter, the text behind it, and
/// whether that text is being typed.
pub struct FormRow {
    pub label: &'static str,
    pub text: String,
    pub active: bool,
}

impl View for FormRow {
    type V = FormRowView;

    open spec fn view(&self) -> FormRowView {
        FormRowView { label: self.label@, text: self.text@, active: self.active }
    }
}

/// The row of a parameter: it shows the text typed so far while the
/// parameter is being edited, and the rendering of the parameter otherwise.
pub open spec fn spec_form_row<V>(
    label: Seq<char>,
    param: ParamView<V>,
    input: Option<TextField>,
) -> FormRowView {
    match input {
        Some(typed) => FormRowView { label, text: typed.text, active: true },
        None => FormRowView { label, text: param.text, active: false },
    }
}

/// The text field of an edit that may be missing.
pub open spec fn input_view(input: Option<&NumericInput>) -> Option<TextField> {
    match input {
        Some(typed) => Some(typed@),
        None => None,
    }
}

/// The row of `param` under `label`; `input` is the text typed so far if the
/// parameter is being edited.
pub fn form_row<V>(label: &'static str, param: &Param<V>, input: Option<&NumericInput>) -> (row:
    FormRow)
    ensures
        row@ == spec_form_row(label@, param@, input_view(input)),
{
    match input {
        Some(typed) => FormRow { label, text: typed.value.clone(), active: true },
        None => FormRow { label, text: param.text().clone(), active: false },
    }
}

} // verus!
