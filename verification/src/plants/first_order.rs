//! The parameters of a first-order plant, `y[k+1] = a * y[k] + b * u[k]`, and
//! the form in which they are edited.

use vstd::prelude::*;
use crate::form::{form_row, spec_form_row, FormRow, FormRowView};
use crate::param::{param_view, Param, ParamView};
use crate::utils::{EditView, NumericInput, TextField};
use crate::{ends_edit, Editing, Key};

verus! {

/// The name under which the first-order plant is registered.
pub const PLANT_NAME: &'static str = "FirstOrderSystem";

/// One of the two parameters of the first-order plant.
#[derive(Clone, Copy, Debug, PartialEq, Eq, Structural)]
pub enum FirstOrderField {
    A,
    B,
}

impl FirstOrderField {
    /// The other parameter.
    pub open spec fn spec_other(self) -> FirstOrderField {
        match self {
            FirstOrderField::A => FirstOrderField::B,
            FirstOrderField::B => FirstOrderField::A,
        }
    }

    /// The column at which the text of this parameter starts in the form.
    pub open spec fn spec_column(self) -> u16 {
        match self {
            FirstOrderField::A => 5,
            FirstOrderField::B => 5,
        }
    }

    /// The row of this parameter in the form.
    pub open spec fn spec_row(self) -> u16 {
        match self {
            FirstOrderField::A => 2,
            FirstOrderField::B => 3,
        }
    }

    #[verifier::when_used_as_spec(spec_other)]
    pub fn other(self) -> (field: FirstOrderField)
        ensures
            field == self.spec_other(),
    {
        match self {
            FirstOrderField::A => FirstOrderField::B,
            FirstOrderField::B => FirstOrderField::A,
        }
    }

    /// The column at which the text of this parameter starts in the form.
    #[verifier::when_used_as_spec(spec_column)]
    pub fn column(self) -> (column: u16)
        ensures
            column == self.spec_column(),
    {
        match self {
            FirstOrderField::A => 5,
            FirstOrderField::B => 5,
        }
    }

    /// The row of this parameter in the form.
    #[verifier::when_used_as_spec(spec_row)]
    pub fn row(self) -> (row: u16)
        ensures
            row == self.spec_row(),
    {
        match self {
            FirstOrderField::A => 2,
            FirstOrderField::B => 3,
        }
    }
}

/// The parameter that is being edited, with the text typed so far.
#[derive(Clone)]
pub enum FirstOrderEdit {
    A(NumericInput),
    B(NumericInput),
}

impl View for FirstOrderEdit {
    type V = EditView<FirstOrderField>;

    open spec fn view(&self) -> EditView<FirstOrderField> {
        EditView { field: self.spec_field(), input: self.spec_input()@ }
    }
}

impl FirstOrderEdit {
    /// The parameter that is being edited.
    pub open spec fn spec_field(&self) -> FirstOrderField {
        match self {
            FirstOrderEdit::A(_) => FirstOrderField::A,
            FirstOrderEdit::B(_) => FirstOrderField::B,
        }
    }

    /// The text typed so far.
    pub open spec fn spec_input(&self) -> NumericInput {
        match self {
            FirstOrderEdit::A(input) => *input,
            FirstOrderEdit::B(input) => *input,
        }
    }

    /// The edit of `field` with `input` as the text typed so far.
    pub fn of(field: FirstOrderField, input: NumericInput) -> (edit: Self)
        ensures
            edit.spec_field() == field,
            edit.spec_input() == input,
    {
        match field {
            FirstOrderField::A => FirstOrderEdit::A(input),
            FirstOrderField::B => FirstOrderEdit::B(input),
        }
    }

    /// The parameter that is being edited.
    #[verifier::when_used_as_spec(spec_field)]
    pub fn field(&self) -> (field: FirstOrderField)
        ensures
            field == self.spec_field(),
    {
        match self {
            FirstOrderEdit::A(_) => FirstOrderField::A,
            FirstOrderEdit::B(_) => FirstOrderField::B,
        }
    }

    /// The text typed so far.
    pub fn input(&self) -> (input: &NumericInput)
        ensures
            *input == self.spec_input(),
    {
        match self {
            FirstOrderEdit::A(input) => input,
            FirstOrderEdit::B(input) => input,
        }
    }

    /// Gives up the edit and hands out the text typed so far.
    pub fn into_input(self) -> (input: NumericInput)
        ensures
            input == self.spec_input(),
    {
        match self {
            FirstOrderEdit::A(input) => input,
            FirstOrderEdit::B(input) => input,
        }
    }
}

/// The parameters and their form as the proofs see them.
pub struct FirstOrderSettingsView<V> {
    pub a: ParamView<V>,
    pub b: ParamView<V>,
    pub edit: Option<EditView<FirstOrderField>>,
}

impl<V> FirstOrderSettingsView<V> {
    /// The parameter `field`.
    pub open spec fn param(self, field: FirstOrderField) -> ParamView<V> {
        match field {
            FirstOrderField::A => self.a,
            FirstOrderField::B => self.b,
        }
    }

    /// The settings with `param` in the place of the parameter `field`.
    pub open spec fn with_param(self, field: FirstOrderField, param: ParamView<V>) -> Self {
        match field {
            FirstOrderField::A => FirstOrderSettingsView { a: param, ..self },
            FirstOrderField::B => FirstOrderSettingsView { b: param, ..self },
        }
    }

    /// The text being typed into `field`, if that is the parameter being
    /// edited.
    pub open spec fn typed_into(self, field: FirstOrderField) -> Option<TextField> {
        match self.edit {
            Some(open) => if open.field == field {
                Some(open.input)
            } else {
                None
            },
            None => None,
        }
    }

    /// The rows that the form shows, from the top.
    pub open spec fn rows(self) -> Seq<FormRowView> {
        seq![
            spec_form_row("a = "@, self.a, self.typed_into(FirstOrderField::A)),
            spec_form_row("b = "@, self.b, self.typed_into(FirstOrderField::B)),
        ]
    }

    /// The edit that the next key press goes to: the open one, or else a
    /// fresh edit of the first parameter.
    pub open spec fn pending(self) -> EditView<FirstOrderField> {
        match self.edit {
            Some(edit) => edit,
            None => EditView { field: FirstOrderField::A, input: TextField::opened(self.a.text) },
        }
    }

    /// The settings with a fresh edit of `field` open.
    pub open spec fn opened_on(self, field: FirstOrderField) -> Self {
        FirstOrderSettingsView {
            edit: Some(EditView { field, input: TextField::opened(self.param(field).text) }),
            ..self
        }
    }

    /// The settings with no edit open.
    pub open spec fn closed(self) -> Self {
        FirstOrderSettingsView { edit: None, ..self }
    }

    /// The settings once the number typed has been offered: if the text was
    /// a number, the pending parameter takes it and the edit moves on to the
    /// other parameter; if not, the pending edit stays as it is.
    pub open spec fn committed(self, parsed: Option<ParamView<V>>) -> Self {
        match parsed {
            Some(param) => self.with_param(self.pending().field, param).opened_on(
                self.pending().field.spec_other(),
            ),
            None => FirstOrderSettingsView { edit: Some(self.pending()), ..self },
        }
    }

    /// The settings after a key press. `parsed` is the number that the
    /// pending text stands for, if it is one. `Down` and `Up` offer the
    /// number, `Enter` offers it and ends the edit, `Esc` ends the edit
    /// without offering it, and every other key goes to the text.
    pub open spec fn after_key(self, key: Key, parsed: Option<ParamView<V>>) -> Self {
        match key {
            Key::Esc => self.closed(),
            Key::Down | Key::Up => self.committed(parsed),
            Key::Enter => self.committed(parsed).closed(),
            _ => FirstOrderSettingsView {
                edit: Some(
                    EditView { field: self.pending().field, input: self.pending().input.typed(key) },
                ),
                ..self
            },
        }
    }
}

/// The two parameters of the first-order plant (the two coefficients) and the
/// edit that is open, if any.
pub struct FirstOrderSettings<V> {
    a: Param<V>,
    b: Param<V>,
    edit: Option<FirstOrderEdit>,
}

impl<V> View for FirstOrderSettings<V> {
    type V = FirstOrderSettingsView<V>;

    closed spec fn view(&self) -> FirstOrderSettingsView<V> {
        FirstOrderSettingsView {
            a: self.a@,
            b: self.b@,
            edit: match self.edit {
                Some(edit) => Some(edit@),
                None => None,
            },
        }
    }
}

impl<V> FirstOrderSettings<V> {
    /// The text of the open edit is plain ASCII with the cursor inside it.
    pub open spec fn wf(&self) -> bool {
        self@.edit is Some ==> self@.edit->0.input.wf()
    }

    /// Settings with the given parameters and no edit open.
    pub fn new(a: Param<V>, b: Param<V>) -> (settings: Self)
        ensures
            settings.wf(),
            settings@ == (FirstOrderSettingsView { a: a@, b: b@, edit: None }),
    {
        FirstOrderSettings { a, b, edit: None }
    }

    /// The parameter `field`.
    pub fn param(&self, field: FirstOrderField) -> (param: &Param<V>)
        ensures
            param@ == self@.param(field),
    {
        match field {
            FirstOrderField::A => &self.a,
            FirstOrderField::B => &self.b,
        }
    }

    /// The edit that is open, if any.
    pub fn editing(&self) -> (edit: Option<&FirstOrderEdit>)
        ensures
            edit is Some <==> self@.edit is Some,
            edit is Some ==> edit->0@ == self@.edit->0,
    {
        self.edit.as_ref()
    }

    /// The parameter that the next key press applies to: the one being
    /// edited, or else the first.
    pub fn pending_field(&self) -> (field: FirstOrderField)
        ensures
            field == self@.pending().field,
    {
        match &self.edit {
            Some(edit) => edit.field(),
            None => FirstOrderField::A,
        }
    }

    /// The text that the next key press applies to. A caller that hands
    /// `edit` the number typed parses this text.
    pub fn input_text(&self) -> (text: &String)
        ensures
            text@ == self@.pending().input.text,
    {
        match &self.edit {
            Some(edit) => &edit.input().value,
            None => self.a.text(),
        }
    }

    fn set_param(&mut self, field: FirstOrderField, param: Param<V>)
        ensures
            final(self)@ == old(self)@.with_param(field, param@),
            old(self).wf() ==> final(self).wf(),
    {
        match field {
            FirstOrderField::A => self.a = param,
            FirstOrderField::B => self.b = param,
        }
    }

    fn open(&mut self, field: FirstOrderField)
        ensures
            final(self)@ == old(self)@.opened_on(field),
            final(self).wf(),
    {
        let text = self.param(field).text().clone();
        let input = NumericInput::from(text);
        proof {
            crate::utils::lemma_ascii_positions(text@, text@.len() as int);
        }
        self.edit = Some(FirstOrderEdit::of(field, input));
    }

    /// Opens the edit of the first parameter, whatever was open before.
    pub fn set_edit(&mut self)
        ensures
            final(self).wf(),
            final(self)@ == old(self)@.opened_on(FirstOrderField::A),
    {
        self.open(FirstOrderField::A);
    }

    /// Applies a key press to the form. `parsed` is the number that the text
    /// of [`input_text`](Self::input_text) stands for, if it is one. When the
    /// key ends the edit, `editing` becomes `Editing::Nothing`.
    pub fn edit(&mut self, editing: &mut Editing, key: Key, parsed: Option<Param<V>>)
        requires
            old(self).wf(),
        ensures
            final(self).wf(),
            final(self)@ == old(self)@.after_key(key, param_view(parsed)),
            *final(editing) == if ends_edit(key) {
                Editing::Nothing
            } else {
                *old(editing)
            },
    {
        if self.edit.is_none() {
            self.open(FirstOrderField::A);
        }
        match key {
            Key::Esc => {
                *editing = Editing::Nothing;
                self.edit = None;
            },
            Key::Down | Key::Up | Key::Enter => {
                if let Some(param) = parsed {
                    let field = self.edit.as_ref().unwrap().field();
                    self.set_param(field, param);
                    self.open(field.other());
                }
                if let Key::Enter = key {
                    *editing = Editing::Nothing;
                    self.edit = None;
                }
            },
            _ => {
                let open = self.edit.take().unwrap();
                let field = open.field();
                let mut input = open.into_input();
                input.apply_key(key);
                self.edit = Some(FirstOrderEdit::of(field, input));
            },
        }
    }

    /// The text being typed into `field`, if that is the parameter being
    /// edited.
    fn typed_into(&self, field: FirstOrderField) -> (input: Option<&NumericInput>)
        ensures
            crate::form::input_view(input) == self@.typed_into(field),
    {
        match &self.edit {
            Some(open) => if open.field() == field {
                Some(open.input())
            } else {
                None
            },
            None => None,
        }
    }

    /// The rows that the form shows, from the top.
    pub fn rows(&self) -> (rows: Vec<FormRow>)
        ensures
            rows@.map_values(|row: FormRow| row@) == self@.rows(),
    {
        let mut rows: Vec<FormRow> = Vec::new();
        rows.push(form_row("a = ", &self.a, self.typed_into(FirstOrderField::A)));
        rows.push(form_row("b = ", &self.b, self.typed_into(FirstOrderField::B)));
        assert(rows@.map_values(|row: FormRow| row@) =~= self@.rows());
        rows
    }

    /// Whether the cursor has a place in the form: a parameter is being
    /// edited, and the column of the cursor is a number that fits.
    pub fn cursor_fits(&self) -> (fits: bool)
        ensures
            fits == (self@.edit is Some && (self@.edit->0.input.cursor as u16)
                + self@.edit->0.field.column() <= u16::MAX),
    {
        match &self.edit {
            Some(edit) => {
                let cursor = edit.input().cursor;
                #[verifier::truncate] (cursor as u16) <= u16::MAX - edit.field().column()
            },
            None => false,
        }
    }

    /// Where the cursor stands in the form, as column and row: the column is
    /// that of the parameter being edited plus the cursor in its text.
    pub fn get_cursor_offsets(&self) -> (offsets: (u16, u16))
        requires
            self@.edit is Some,
            (self@.edit->0.input.cursor as u16) + self@.edit->0.field.column() <= u16::MAX,
        ensures
            offsets.0 == (self@.edit->0.input.cursor as u16) + self@.edit->0.field.column(),
            offsets.1 == self@.edit->0.field.row(),
    {
        let edit = self.edit.as_ref().unwrap();
        let cursor = edit.input().cursor;
        let field = edit.field();
        (#[verifier::truncate] (cursor as u16) + field.column(), field.row())
    }
}

/// The plant as the proofs see it.
pub struct FirstOrderSystemView<V> {
    pub settings: FirstOrderSettingsView<V>,
    /// The time of the next sample.
    pub x: V,
    /// The sampling interval.
    pub ts: V,
    /// The latest input.
    pub u: V,
    /// The latest output.
    pub y_k: V,
    /// The number zero.
    pub zero: V,
}

impl<V> FirstOrderSystemView<V> {
    /// The plant after a step in which the difference equation gave `y`:
    /// `y` is the latest output, and the clock stands at `next_clock`.
    pub open spec fn advanced(self, y: V, next_clock: V) -> Self {
        FirstOrderSystemView { y_k: y, x: next_clock, ..self }
    }

    /// The plant started over: clock, input and output at zero. The
    /// parameters stay.
    pub open spec fn restarted(self) -> Self {
        FirstOrderSystemView { x: self.zero, u: self.zero, y_k: self.zero, ..self }
    }
}

/// The state of a first-order plant, `y[k+1] = a * y[k] + b * u[k]`.
///
/// The plant keeps its two coefficients, the latest input and the latest
/// output. It does not compute with numbers: the caller evaluates the
/// difference equation and hands in the result.
pub struct FirstOrderSystem<V> {
    settings: FirstOrderSettings<V>,
    x: V,
    ts: V,
    u: V,
    y_k: V,
    zero: V,
}

impl<V> View for FirstOrderSystem<V> {
    type V = FirstOrderSystemView<V>;

    closed spec fn view(&self) -> FirstOrderSystemView<V> {
        FirstOrderSystemView {
            settings: self.settings@,
            x: self.x,
            ts: self.ts,
            u: self.u,
            y_k: self.y_k,
            zero: self.zero,
        }
    }
}

impl<V: Copy> FirstOrderSystem<V> {
    /// The text of the open edit is plain ASCII with the cursor inside it.
    pub open spec fn wf(&self) -> bool {
        self@.settings.edit is Some ==> self@.settings.edit->0.input.wf()
    }

    /// A plant with the given coefficients and sampling interval `ts`, with
    /// clock and input at `zero`. The latest output is `y_0`, or `zero`
    /// where none is given.
    pub fn new(ts: V, a: Param<V>, b: Param<V>, y_0: Option<V>, zero: V) -> (plant: Self)
        ensures
            plant.wf(),
            plant@ == (FirstOrderSystemView {
                settings: FirstOrderSettingsView { a: a@, b: b@, edit: None },
                x: zero,
                ts,
                u: zero,
                y_k: match y_0 {
                    Some(output) => output,
                    None => zero,
                },
                zero,
            }),
    {
        FirstOrderSystem {
            settings: FirstOrderSettings::new(a, b),
            x: zero,
            ts,
            u: zero,
            y_k: match y_0 {
                Some(output) => output,
                None => zero,
            },
            zero,
        }
    }

    /// The coefficients and their form.
    pub fn settings(&self) -> (settings: &FirstOrderSettings<V>)
        ensures
            settings@ == self@.settings,
    {
        &self.settings
    }

    /// The time of the next sample.
    pub fn clock(&self) -> (x: V)
        ensures
            x == self@.x,
    {
        self.x
    }

    /// The sampling interval.
    pub fn ts(&self) -> (ts: V)
        ensures
            ts == self@.ts,
    {
        self.ts
    }

    /// The latest input.
    pub fn input(&self) -> (u: V)
        ensures
            u == self@.u,
    {
        self.u
    }

    /// The latest output.
    pub fn output(&self) -> (y_k: V)
        ensures
            y_k == self@.y_k,
    {
        self.y_k
    }

    /// Takes a new sampling interval.
    pub fn set_ts(&mut self, ts: V)
        ensures
            final(self)@ == (FirstOrderSystemView { ts, ..old(self)@ }),
    {
        self.ts = ts;
    }

    /// Takes `u` as the input of the next step.
    pub fn set_input(&mut self, u: V)
        ensures
            final(self)@ == (FirstOrderSystemView { u, ..old(self)@ }),
    {
        self.u = u;
    }

    /// Completes a step. The caller has computed `y`, the value of the
    /// difference equation on the latest output and input, and `next_clock`,
    /// the clock plus the sampling interval. The sample returned is `y` at
    /// the time the clock showed.
    pub fn advance(&mut self, y: V, next_clock: V) -> (sample: (V, V))
        ensures
            sample == (old(self)@.x, y),
            final(self)@ == old(self)@.advanced(y, next_clock),
    {
        let point = (self.x, y);
        self.x = next_clock;
        self.y_k = y;
        point
    }

    /// Starts the plant over: clock, input and output go back to zero, and
    /// the coefficients stay.
    pub fn reset(&mut self)
        ensures
            final(self)@ == old(self)@.restarted(),
            final(self)@.x == final(self)@.zero,
    {
        self.x = self.zero;
        self.u = self.zero;
        self.y_k = self.zero;
    }

    /// Opens the edit of the first coefficient, whatever was open before.
    pub fn set_edit(&mut self)
        ensures
            final(self).wf(),
            final(self)@ == (FirstOrderSystemView {
                settings: old(self)@.settings.opened_on(FirstOrderField::A),
                ..old(self)@
            }),
    {
        self.settings.set_edit();
    }

    /// Applies a key press to the form of the coefficients. `parsed` is the
    /// number that the text being typed stands for, if it is one. When the
    /// key ends the edit, `editing` becomes `Editing::Nothing`.
    pub fn edit(&mut self, editing: &mut Editing, key: Key, parsed: Option<Param<V>>)
        requires
            old(self).wf(),
        ensures
            final(self).wf(),
            final(self)@ == (FirstOrderSystemView {
                settings: old(self)@.settings.after_key(key, param_view(parsed)),
                ..old(self)@
            }),
            *final(editing) == if ends_edit(key) {
                Editing::Nothing
            } else {
                *old(editing)
            },
    {
        self.settings.edit(editing, key, parsed);
    }

    /// The name under which the plant is registered.
    pub fn name(&self) -> (name: &'static str)
        ensures
            name == PLANT_NAME,
    {
        PLANT_NAME
    }
}

} // verus!
