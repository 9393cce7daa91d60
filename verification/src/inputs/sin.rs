//! The parameters of a sinusoidal reference signal, and the form in which
//! they are edited.

use vstd::prelude::*;
use crate::form::{form_row, spec_form_row, FormRow, FormRowView};
use crate::param::{param_view, Param, ParamView};
use crate::utils::{EditView, NumericInput, TextField};
use crate::{ends_edit, Editing, Key};

verus! {

/// The name under which the sinusoid is registered.
pub const REFERENCE_NAME: &'static str = "SinSignal";

/// One of the two parameters of the sinusoid.
#[derive(Clone, Copy, Debug, PartialEq, Eq, Structural)]
pub enum SinField {
    Period,
    Amplitude,
}

impl SinField {
    /// The other parameter.
    pub open spec fn spec_other(self) -> SinField {
        match self {
            SinField::Period => SinField::Amplitude,
            SinField::Amplitude => SinField::Period,
        }
    }

    /// The column at which the text of this parameter starts in the form.
    pub open spec fn spec_column(self) -> u16 {
        match self {
            SinField::Period => 10,
            SinField::Amplitude => 13,
        }
    }

    /// The row of this parameter in the form.
    pub open spec fn spec_row(self) -> u16 {
        match self {
            SinField::Period => 2,
            SinField::Amplitude => 3,
        }
    }

    #[verifier::when_used_as_spec(spec_other)]
    pub fn other(self) -> (field: SinField)
        ensures
            field == self.spec_other(),
    {
        match self {
            SinField::Period => SinField::Amplitude,
            SinField::Amplitude => SinField::Period,
        }
    }

    /// The column at which the text of this parameter starts in the form.
    #[verifier::when_used_as_spec(spec_column)]
    pub fn column(self) -> (column: u16)
        ensures
            column == self.spec_column(),
    {
        match self {
            SinField::Period => 10,
            SinField::Amplitude => 13,
        }
    }

    /// The row of this parameter in the form.
    #[verifier::when_used_as_spec(spec_row)]
    pub fn row(self) -> (row: u16)
        ensures
            row == self.spec_row(),
    {
        match self {
            SinField::Period => 2,
            SinField::Amplitude => 3,
        }
    }
}

/// The parameter that is being edited, with the text typed so far.
#[derive(Clone)]
pub enum SinSignalEdit {
    PERIOD(NumericInput),
    AMPLITUDE(NumericInput),
}

impl View for SinSignalEdit {
    type V = EditView<SinField>;

    open spec fn view(&self) -> EditView<SinField> {
        EditView { field: self.spec_field(), input: self.spec_input()@ }
    }
}

impl SinSignalEdit {
    /// The parameter that is being edited.
    pub open spec fn spec_field(&self) -> SinField {
        match self {
            SinSignalEdit::PERIOD(_) => SinField::Period,
            SinSignalEdit::AMPLITUDE(_) => SinField::Amplitude,
        }
    }

    /// The text typed so far.
    pub open spec fn spec_input(&self) -> NumericInput {
        match self {
            SinSignalEdit::PERIOD(input) => *input,
            SinSignalEdit::AMPLITUDE(input) => *input,
        }
    }

    /// The edit of `field` with `input` as the text typed so far.
    pub fn of(field: SinField, input: NumericInput) -> (edit: Self)
        ensures
            edit.spec_field() == field,
            edit.spec_input() == input,
    {
        match field {
            SinField::Period => SinSignalEdit::PERIOD(input),
            SinField::Amplitude => SinSignalEdit::AMPLITUDE(input),
        }
    }

    /// The parameter that is being edited.
    #[verifier::when_used_as_spec(spec_field)]
    pub fn field(&self) -> (field: SinField)
        ensures
            field == self.spec_field(),
    {
        match self {
            SinSignalEdit::PERIOD(_) => SinField::Period,
            SinSignalEdit::AMPLITUDE(_) => SinField::Amplitude,
        }
    }

    /// The text typed so far.
    pub fn input(&self) -> (input: &NumericInput)
        ensures
            *input == self.spec_input(),
    {
        match self {
            SinSignalEdit::PERIOD(input) => input,
            SinSignalEdit::AMPLITUDE(input) => input,
        }
    }

    /// Gives up the edit and hands out the text typed so far.
    pub fn into_input(self) -> (input: NumericInput)
        ensures
            input == self.spec_input(),
    {
        match self {
            SinSignalEdit::PERIOD(input) => input,
            SinSignalEdit::AMPLITUDE(input) => input,
        }
    }
}

/// The parameters and their form as the proofs see them.
pub struct SinSettingsView<V> {
    pub period: ParamView<V>,
    pub amplitude: ParamView<V>,
    pub edit: Option<EditView<SinField>>,
}

impl<V> SinSettingsView<V> {
    /// The parameter `field`.
    pub open spec fn param(self, field: SinField) -> ParamView<V> {
        match field {
            SinField::Period => self.period,
            SinField::Amplitude => self.amplitude,
        }
    }

    /// The settings with `param` in the place of the parameter `field`.
    pub open spec fn with_param(self, field: SinField, param: ParamView<V>) -> Self {
        match field {
            SinField::Period => SinSettingsView { period: param, ..self },
            SinField::Amplitude => SinSettingsView { amplitude: param, ..self },
        }
    }

    /// The text being typed into `field`, if that is the parameter being
    /// edited.
    pub open spec fn typed_into(self, field: SinField) -> Option<TextField> {
        match self.edit {
            Some(open) => if open.field == field {
                Some(open.input)
            } else {
                None
            },
            None => None,
        }
    }

    /// The rows that the form shows, from the top.
    pub open spec fn rows(self) -> Seq<FormRowView> {
        seq![
            spec_form_row("period = "@, self.period, self.typed_into(SinField::Period)),
            spec_form_row("amplitude = "@, self.amplitude, self.typed_into(SinField::Amplitude)),
        ]
    }

    /// The edit that the next key press goes to: the open one, or else a
    /// fresh edit of the first parameter.
    pub open spec fn pending(self) -> EditView<SinField> {
        match self.edit {
            Some(edit) => edit,
            None => EditView { field: SinField::Period, input: TextField::opened(self.period.text) },
        }
    }

    /// The settings with a fresh edit of `field` open.
    pub open spec fn opened_on(self, field: SinField) -> Self {
        SinSettingsView {
            edit: Some(EditView { field, input: TextField::opened(self.param(field).text) }),
            ..self
        }
    }

    /// The settings with no edit open.
    pub open spec fn closed(self) -> Self {
        SinSettingsView { edit: None, ..self }
    }

    /// The settings once the number typed has been offered: if the text was
    /// a number, the pending parameter takes it and the edit moves on to the
    /// other parameter; if not, the pending edit stays as it is.
    pub open spec fn committed(self, parsed: Option<ParamView<V>>) -> Self {
        match parsed {
            Some(param) => self.with_param(self.pending().field, param).opened_on(
                self.pending().field.spec_other(),
            ),
            None => SinSettingsView { edit: Some(self.pending()), ..self },
        }
    }

    /// The settings after a key press. `parsed` is the number that the
    /// pending text stands for, if it is one. `Down` and `Up` offer the
    /// number, `Enter` offers it and ends the edit, `Esc` ends the edit
    /// without offering it, and every other key goes to the text.
    pub open spec fn after_key(self, key: Key, parsed: Option<ParamView<V>>) -> Self {
        match key {
            Key::Esc => self.closed(),
            Key::Down | Key::Up => self.committed(parsed),
            Key::Enter => self.committed(parsed).closed(),
            _ => SinSettingsView {
                edit: Some(
                    EditView { field: self.pending().field, input: self.pending().input.typed(key) },
                ),
                ..self
            },
        }
    }
}

/// The two parameters of the sinusoid (period and amplitude) and the
/// edit that is open, if any.
pub struct SinSettings<V> {
    period: Param<V>,
    amplitude: Param<V>,
    edit: Option<SinSignalEdit>,
}

impl<V> View for SinSettings<V> {
    type V = SinSettingsView<V>;

    closed spec fn view(&self) -> SinSettingsView<V> {
        SinSettingsView {
            period: self.period@,
            amplitude: self.amplitude@,
            edit: match self.edit {
                Some(edit) => Some(edit@),
                None => None,
            },
        }
    }
}

impl<V> SinSettings<V> {
    /// The text of the open edit is plain ASCII with the cursor inside it.
    pub open spec fn wf(&self) -> bool {
        self@.edit is Some ==> self@.edit->0.input.wf()
    }

    /// Settings with the given parameters and no edit open.
    pub fn new(period: Param<V>, amplitude: Param<V>) -> (settings: Self)
        ensures
            settings.wf(),
            settings@ == (SinSettingsView { period: period@, amplitude: amplitude@, edit: None }),
    {
        SinSettings { period, amplitude, edit: None }
    }

    /// The parameter `field`.
    pub fn param(&self, field: SinField) -> (param: &Param<V>)
        ensures
            param@ == self@.param(field),
    {
        match field {
            SinField::Period => &self.period,
            SinField::Amplitude => &self.amplitude,
        }
    }

    /// The edit that is open, if any.
    pub fn editing(&self) -> (edit: Option<&SinSignalEdit>)
        ensures
            edit is Some <==> self@.edit is Some,
            edit is Some ==> edit->0@ == self@.edit->0,
    {
        self.edit.as_ref()
    }

    /// The parameter that the next key press applies to: the one being
    /// edited, or else the first.
    pub fn pending_field(&self) -> (field: SinField)
        ensures
            field == self@.pending().field,
    {
        match &self.edit {
            Some(edit) => edit.field(),
            None => SinField::Period,
        }
    }

    /// The text that the next key press applies to. A caller that hands
    /// `edit` the number typed parses this text.
    pub fn input_text(&self) -> (text: &String)
        ensures
            text@ == self@.pending().input.text,
    {
        match &self.edit {
            Some(edit) => &edit.input().value,
            None => self.period.text(),
        }
    }

    fn set_param(&mut self, field: SinField, param: Param<V>)
        ensures
            final(self)@ == old(self)@.with_param(field, param@),
            old(self).wf() ==> final(self).wf(),
    {
        match field {
            SinField::Period => self.period = param,
            SinField::Amplitude => self.amplitude = param,
        }
    }

    fn open(&mut self, field: SinField)
        ensures
            final(self)@ == old(self)@.opened_on(field),
            final(self).wf(),
    {
        let text = self.param(field).text().clone();
        let input = NumericInput::from(text);
        proof {
            crate::utils::lemma_ascii_positions(text@, text@.len() as int);
        }
        self.edit = Some(SinSignalEdit::of(field, input));
    }

    /// Opens the edit of the first parameter, whatever was open before.
    pub fn set_edit(&mut self)
        ensures
            final(self).wf(),
            final(self)@ == old(self)@.opened_on(SinField::Period),
    {
        self.open(SinField::Period);
    }

    /// Applies a key press to the form. `parsed` is the number that the text
    /// of [`input_text`](Self::input_text) stands for, if it is one. When the
    /// key ends the edit, `editing` becomes `Editing::Nothing`.
    pub fn edit(&mut self, editing: &mut Editing, key: Key, parsed: Option<Param<V>>)
        requires
            old(self).wf(),
        ensures
            final(self).wf(),
            final(self)@ == old(self)@.after_key(key, param_view(parsed)),
            *final(editing) == if ends_edit(key) {
                Editing::Nothing
            } else {
                *old(editing)
            },
    {
        if self.edit.is_none() {
            self.open(SinField::Period);
        }
        match key {
            Key::Esc => {
                *editing = Editing::Nothing;
                self.edit = None;
            },
            Key::Down | Key::Up | Key::Enter => {
                if let Some(param) = parsed {
                    let field = self.edit.as_ref().unwrap().field();
                    self.set_param(field, param);
                    self.open(field.other());
                }
                if let Key::Enter = key {
                    *editing = Editing::Nothing;
                    self.edit = None;
                }
            },
            _ => {
                let open = self.edit.take().unwrap();
                let field = open.field();
                let mut input = open.into_input();
                input.apply_key(key);
                self.edit = Some(SinSignalEdit::of(field, input));
            },
        }
    }

    /// The text being typed into `field`, if that is the parameter being
    /// edited.
    fn typed_into(&self, field: SinField) -> (input: Option<&NumericInput>)
        ensures
            crate::form::input_view(input) == self@.typed_into(field),
    {
        match &self.edit {
            Some(open) => if open.field() == field {
                Some(open.input())
            } else {
                None
            },
            None => None,
        }
    }

    /// The rows that the form shows, from the top.
    pub fn rows(&self) -> (rows: Vec<FormRow>)
        ensures
            rows@.map_values(|row: FormRow| row@) == self@.rows(),
    {
        let mut rows: Vec<FormRow> = Vec::new();
        rows.push(form_row("period = ", &self.period, self.typed_into(SinField::Period)));
        rows.push(form_row("amplitude = ", &self.amplitude, self.typed_into(SinField::Amplitude)));
        assert(rows@.map_values(|row: FormRow| row@) =~= self@.rows());
        rows
    }

    /// Whether the cursor has a place in the form: a parameter is being
    /// edited, and the column of the cursor is a number that fits.
    pub fn cursor_fits(&self) -> (fits: bool)
        ensures
            fits == (self@.edit is Some && (self@.edit->0.input.cursor as u16)
                + self@.edit->0.field.column() <= u16::MAX),
    {
        match &self.edit {
            Some(edit) => {
                let cursor = edit.input().cursor;
                #[verifier::truncate] (cursor as u16) <= u16::MAX - edit.field().column()
            },
            None => false,
        }
    }

    /// Where the cursor stands in the form, as column and row: the column is
    /// that of the parameter being edited plus the cursor in its text.
    pub fn get_cursor_offsets(&self) -> (offsets: (u16, u16))
        requires
            self@.edit is Some,
            (self@.edit->0.input.cursor as u16) + self@.edit->0.field.column() <= u16::MAX,
        ensures
            offsets.0 == (self@.edit->0.input.cursor as u16) + self@.edit->0.field.column(),
            offsets.1 == self@.edit->0.field.row(),
    {
        let edit = self.edit.as_ref().unwrap();
        let cursor = edit.input().cursor;
        let field = edit.field();
        (#[verifier::truncate] (cursor as u16) + field.column(), field.row())
    }
}

/// The sinusoid as the proofs see it.
pub struct SinSignalView<V> {
    pub settings: SinSettingsView<V>,
    /// The time of the next sample.
    pub x: V,
    /// The sampling interval.
    pub ts: V,
    /// The number zero.
    pub zero: V,
}

/// A sinusoidal signal, `amplitude * sin(x / period)`.
///
/// The signal does not compute with numbers: the caller evaluates the sine
/// and hands in the value, and adds the sampling interval to the clock and
/// hands in the sum.
pub struct SinSignal<V> {
    settings: SinSettings<V>,
    x: V,
    ts: V,
    zero: V,
}

impl<V> View for SinSignal<V> {
    type V = SinSignalView<V>;

    closed spec fn view(&self) -> SinSignalView<V> {
        SinSignalView { settings: self.settings@, x: self.x, ts: self.ts, zero: self.zero }
    }
}

impl<V: Copy> SinSignal<V> {
    /// The text of the open edit is plain ASCII with the cursor inside it.
    pub open spec fn wf(&self) -> bool {
        self@.settings.edit is Some ==> self@.settings.edit->0.input.wf()
    }

    /// A sinusoid of the given period and amplitude and sampling interval
    /// `ts`, with the clock at `zero`.
    pub fn new(ts: V, period: Param<V>, amplitude: Param<V>, zero: V) -> (signal: Self)
        ensures
            signal.wf(),
            signal@ == (SinSignalView {
                settings: SinSettingsView { period: period@, amplitude: amplitude@, edit: None },
                x: zero,
                ts,
                zero,
            }),
    {
        SinSignal { settings: SinSettings::new(period, amplitude), x: zero, ts, zero }
    }

    /// The parameters and their form.
    pub fn settings(&self) -> (settings: &SinSettings<V>)
        ensures
            settings@ == self@.settings,
    {
        &self.settings
    }

    /// The time of the next sample.
    pub fn clock(&self) -> (x: V)
        ensures
            x == self@.x,
    {
        self.x
    }

    /// The sampling interval.
    pub fn ts(&self) -> (ts: V)
        ensures
            ts == self@.ts,
    {
        self.ts
    }

    /// Produces the next sample: `value`, which the caller has computed for
    /// the time the clock shows, at that time. The clock then stands at
    /// `next_clock`, which the caller has computed as the clock plus the
    /// sampling interval.
    pub fn advance(&mut self, value: V, next_clock: V) -> (sample: (V, V))
        ensures
            sample == (old(self)@.x, value),
            final(self)@ == (SinSignalView { x: next_clock, ..old(self)@ }),
    {
        let point = (self.x, value);
        self.x = next_clock;
        point
    }

    /// Puts the clock back to zero and leaves the parameters as they are.
    pub fn reset(&mut self)
        ensures
            final(self)@ == (SinSignalView { x: old(self)@.zero, ..old(self)@ }),
    {
        self.x = self.zero;
    }

    /// Opens the edit of the period, whatever was open before.
    pub fn set_edit(&mut self)
        ensures
            final(self).wf(),
            final(self)@ == (SinSignalView {
                settings: old(self)@.settings.opened_on(SinField::Period),
                ..old(self)@
            }),
    {
        self.settings.set_edit();
    }

    /// Applies a key press to the form of the parameters. `parsed` is the
    /// number that the text being typed stands for, if it is one. When the
    /// key ends the edit, `editing` becomes `Editing::Nothing`.
    pub fn edit(&mut self, editing: &mut Editing, key: Key, parsed: Option<Param<V>>)
        requires
            old(self).wf(),
        ensures
            final(self).wf(),
            final(self)@ == (SinSignalView {
                settings: old(self)@.settings.after_key(key, param_view(parsed)),
                ..old(self)@
            }),
            *final(editing) == if ends_edit(key) {
                Editing::Nothing
            } else {
                *old(editing)
            },
    {
        self.settings.edit(editing, key, parsed);
    }

    /// The name under which the signal is registered.
    pub fn name(&self) -> (name: &'static str)
        ensures
            name == REFERENCE_NAME,
    {
        REFERENCE_NAME
    }
}

} // verus!
