//! The parameters of a component: each a value with the text that shows it,
//! and the coefficients of the difference equation that follow from them.

use vstd::prelude::*;
use vstd::utf8::*;
use crate::Key;

verus! {

/// A parameter as the proofs see it.
pub struct ParamView<V> {
    pub value: V,
    pub text: Seq<char>,
}

/// A number together with its rendering. The number is what the component
/// computes with; the rendering is what an edit of the parameter starts from.
/// The rendering is plain ASCII.
pub struct Param<V> {
    value: V,
    text: String,
}

impl<V> View for Param<V> {
    type V = ParamView<V>;

    closed spec fn view(&self) -> ParamView<V> {
        ParamView { value: self.value, text: self.text@ }
    }
}

/// The view of a parameter that may be missing.
pub open spec fn param_view<V>(param: Option<Param<V>>) -> Option<ParamView<V>> {
    match param {
        Some(p) => Some(p@),
        None => None,
    }
}

impl<V> Param<V> {
    #[verifier::type_invariant]
    closed spec fn ascii(&self) -> bool {
        is_ascii_chars(self.text@)
    }

    /// Pairs `value` with its rendering `text`. A rendering that is not plain
    /// ASCII is refused.
    pub fn new(value: V, text: String) -> (param: Option<Self>)
        ensures
            param is Some <==> is_ascii_chars(text@),
            param is Some ==> param->0@ == (ParamView { value, text: text@ }),
    {
        if text.as_str().is_ascii() {
            Some(Param { value, text })
        } else {
            None
        }
    }

    /// The number.
    pub fn value(&self) -> (value: &V)
        ensures
            *value == self@.value,
    {
        &self.value
    }

    /// The rendering, which is plain ASCII.
    pub fn text(&self) -> (text: &String)
        ensures
            text@ == self@.text,
            is_ascii_chars(text@),
    {
        proof {
            use_type_invariant(self);
        }
        &self.text
    }
}

/// The coefficients of a second-order difference equation: those of the two
/// earlier outputs, and those of the three latest inputs.
pub struct Coefficients<V> {
    pub feedback: (V, V),
    pub forward: (V, V, V),
}

/// A new value for a parameter, together with the coefficients that the
/// difference equation has once the parameter takes it.
pub struct Update<V> {
    pub param: Param<V>,
    pub coefficients: Coefficients<V>,
}

/// The parameter of an update that may be missing.
pub open spec fn update_param<V>(update: Option<Update<V>>) -> Option<ParamView<V>> {
    match update {
        Some(u) => Some(u.param@),
        None => None,
    }
}

/// Whether `key` makes a form take the number typed: `Down`, `Up` and
/// `Enter` do.
pub open spec fn takes_number(key: Key) -> bool {
    key == Key::Down || key == Key::Up || key == Key::Enter
}

/// The coefficients after a key press on a form: those of the update where
/// the key makes the form take a number and there is one, and the ones
/// before otherwise.
pub open spec fn coefficients_after<V>(
    before: Coefficients<V>,
    key: Key,
    update: Option<Update<V>>,
) -> Coefficients<V> {
    match update {
        Some(u) => if takes_number(key) {
            u.coefficients
        } else {
            before
        },
        None => before,
    }
}

} // verus!
