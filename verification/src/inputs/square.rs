//! The parameters of a rectangular reference signal, and the form in which
//! they are edited.

use vstd::prelude::*;
use vstd::std_specs::cmp::PartialEqSpecImpl;
use crate::form::{form_row, spec_form_row, FormRow, FormRowView};
use crate::param::{param_view, Param, ParamView};
use crate::utils::{EditView, NumericInput, TextField};
use crate::{ends_edit, Editing, Key};

verus! {

/// The name under which the rectangular signal is registered.
pub const REFERENCE_NAME: &'static str = "SquareSignal";

/// One of the three parameters of the rectangular signal that can be edited.
#[derive(Clone, Copy, Debug, PartialEq, Eq, Structural)]
pub enum SquareField {
    Period,
    Amplitude,
    Duty,
}

impl SquareField {
    /// The parameter below this one in the form; below the last comes the first.
    pub open spec fn spec_next(self) -> SquareField {
        match self {
            SquareField::Period => SquareField::Amplitude,
            SquareField::Amplitude => SquareField::Duty,
            SquareField::Duty => SquareField::Period,
        }
    }

    /// The parameter above this one in the form; above the first comes the last.
    pub open spec fn spec_previous(self) -> SquareField {
        match self {
            SquareField::Period => SquareField::Duty,
            SquareField::Amplitude => SquareField::Period,
            SquareField::Duty => SquareField::Amplitude,
        }
    }

    /// The column at which the text of this parameter starts in the form.
    pub open spec fn spec_column(self) -> u16 {
        match self {
            SquareField::Period => 10,
            SquareField::Amplitude => 13,
            SquareField::Duty => 8,
        }
    }

    /// The row of this parameter in the form.
    pub open spec fn spec_row(self) -> u16 {
        match self {
            SquareField::Period => 2,
            SquareField::Amplitude => 3,
            SquareField::Duty => 4,
        }
    }

    #[verifier::when_used_as_spec(spec_next)]
    pub fn next(self) -> (field: SquareField)
        ensures
            field == self.spec_next(),
    {
        match self {
            SquareField::Period => SquareField::Amplitude,
            SquareField::Amplitude => SquareField::Duty,
            SquareField::Duty => SquareField::Period,
        }
    }

    #[verifier::when_used_as_spec(spec_previous)]
    pub fn previous(self) -> (field: SquareField)
        ensures
            field == self.spec_previous(),
    {
        match self {
            SquareField::Period => SquareField::Duty,
            SquareField::Amplitude => SquareField::Period,
            SquareField::Duty => SquareField::Amplitude,
        }
    }

    /// The column at which the text of this parameter starts in the form.
    #[verifier::when_used_as_spec(spec_column)]
    pub fn column(self) -> (column: u16)
        ensures
            column == self.spec_column(),
    {
        match self {
            SquareField::Period => 10,
            SquareField::Amplitude => 13,
            SquareField::Duty => 8,
        }
    }

    /// The row of this parameter in the form.
    #[verifier::when_used_as_spec(spec_row)]
    pub fn row(self) -> (row: u16)
        ensures
            row == self.spec_row(),
    {
        match self {
            SquareField::Period => 2,
            SquareField::Amplitude => 3,
            SquareField::Duty => 4,
        }
    }
}

/// The parameter that is being edited, with the text typed so far.
#[derive(Clone)]
pub enum SquareSignalEdit {
    PERIOD(NumericInput),
    AMPLITUDE(NumericInput),
    DUTY(NumericInput),
}

impl PartialEq for SquareSignalEdit {
    /// Two edits are equal when they are edits of the same parameter,
    /// whatever has been typed.
    fn eq(&self, other: &Self) -> (same: bool) {
        match (self, other) {
            (SquareSignalEdit::PERIOD(_), SquareSignalEdit::PERIOD(_)) => true,
            (SquareSignalEdit::AMPLITUDE(_), SquareSignalEdit::AMPLITUDE(_)) => true,
            (SquareSignalEdit::DUTY(_), SquareSignalEdit::DUTY(_)) => true,
            _ => false,
        }
    }
}

impl PartialEqSpecImpl for SquareSignalEdit {
    open spec fn obeys_eq_spec() -> bool {
        true
    }

    open spec fn eq_spec(&self, other: &Self) -> bool {
        self.spec_field() == other.spec_field()
    }
}

impl View for SquareSignalEdit {
    type V = EditView<SquareField>;

    open spec fn view(&self) -> EditView<SquareField> {
        EditView { field: self.spec_field(), input: self.spec_input()@ }
    }
}

impl SquareSignalEdit {
    /// The parameter that is being edited.
    pub open spec fn spec_field(&self) -> SquareField {
        match self {
            SquareSignalEdit::PERIOD(_) => SquareField::Period,
            SquareSignalEdit::AMPLITUDE(_) => SquareField::Amplitude,
            SquareSignalEdit::DUTY(_) => SquareField::Duty,
        }
    }

    /// The text typed so far.
    pub open spec fn spec_input(&self) -> NumericInput {
        match self {
            SquareSignalEdit::PERIOD(input) => *input,
            SquareSignalEdit::AMPLITUDE(input) => *input,
            SquareSignalEdit::DUTY(input) => *input,
        }
    }

    /// The edit of `field` with `input` as the text typed so far.
    pub fn of(field: SquareField, input: NumericInput) -> (edit: Self)
        ensures
            edit.spec_field() == field,
            edit.spec_input() == input,
    {
        match field {
            SquareField::Period => SquareSignalEdit::PERIOD(input),
            SquareField::Amplitude => SquareSignalEdit::AMPLITUDE(input),
            SquareField::Duty => SquareSignalEdit::DUTY(input),
        }
    }

    /// The parameter that is being edited.
    #[verifier::when_used_as_spec(spec_field)]
    pub fn field(&self) -> (field: SquareField)
        ensures
            field == self.spec_field(),
    {
        match self {
            SquareSignalEdit::PERIOD(_) => SquareField::Period,
            SquareSignalEdit::AMPLITUDE(_) => SquareField::Amplitude,
            SquareSignalEdit::DUTY(_) => SquareField::Duty,
        }
    }

    /// The text typed so far.
    pub fn input(&self) -> (input: &NumericInput)
        ensures
            *input == self.spec_input(),
    {
        match self {
            SquareSignalEdit::PERIOD(input) => input,
            SquareSignalEdit::AMPLITUDE(input) => input,
            SquareSignalEdit::DUTY(input) => input,
        }
    }

    /// Gives up the edit and hands out the text typed so far.
    pub fn into_input(self) -> (input: NumericInput)
        ensures
            input == self.spec_input(),
    {
        match self {
            SquareSignalEdit::PERIOD(input) => input,
            SquareSignalEdit::AMPLITUDE(input) => input,
            SquareSignalEdit::DUTY(input) => input,
        }
    }
}

/// The parameters and their form as the proofs see them.
pub struct SquareSettingsView<V> {
    pub period: ParamView<V>,
    pub amplitude: ParamView<V>,
    pub duty: ParamView<V>,
    pub edit: Option<EditView<SquareField>>,
}

impl<V> SquareSettingsView<V> {
    /// The parameter `field`.
    pub open spec fn param(self, field: SquareField) -> ParamView<V> {
        match field {
            SquareField::Period => self.period,
            SquareField::Amplitude => self.amplitude,
            SquareField::Duty => self.duty,
        }
    }

    /// The settings with `param` in the place of the parameter `field`.
    pub open spec fn with_param(self, field: SquareField, param: ParamView<V>) -> Self {
        match field {
            SquareField::Period => SquareSettingsView { period: param, ..self },
            SquareField::Amplitude => SquareSettingsView { amplitude: param, ..self },
            SquareField::Duty => SquareSettingsView { duty: param, ..self },
        }
    }

    /// The text being typed into `field`, if that is the parameter being
    /// edited.
    pub open spec fn typed_into(self, field: SquareField) -> Option<TextField> {
        match self.edit {
            Some(open) => if open.field == field {
                Some(open.input)
            } else {
                None
            },
            None => None,
        }
    }

    /// The rows that the form shows, from the top.
    pub open spec fn rows(self) -> Seq<FormRowView> {
        seq![
            spec_form_row("period = "@, self.period, self.typed_into(SquareField::Period)),
            spec_form_row("amplitude = "@, self.amplitude, self.typed_into(SquareField::Amplitude)),
            spec_form_row("duty = "@, self.duty, self.typed_into(SquareField::Duty)),
        ]
    }

    /// The edit that the next key press goes to: the open one, or else a
    /// fresh edit of the period.
    pub open spec fn pending(self) -> EditView<SquareField> {
        match self.edit {
            Some(edit) => edit,
            None => EditView { field: SquareField::Period, input: TextField::opened(self.period.text) },
        }
    }

    /// The settings with a fresh edit of `field` open.
    pub open spec fn opened_on(self, field: SquareField) -> Self {
        SquareSettingsView {
            edit: Some(EditView { field, input: TextField::opened(self.param(field).text) }),
            ..self
        }
    }

    /// The settings with no edit open.
    pub open spec fn closed(self) -> Self {
        SquareSettingsView { edit: None, ..self }
    }

    /// The settings once the pending parameter has taken the number typed,
    /// if the text was one. The duty takes it only if it lies between 0 and
    /// 1, both included, which `unit` says; otherwise the duty stays as it
    /// was.
    pub open spec fn committed(self, parsed: Option<ParamView<V>>, unit: bool) -> Self {
        match parsed {
            Some(param) => if self.pending().field == SquareField::Duty && !unit {
                self
            } else {
                self.with_param(self.pending().field, param)
            },
            None => self,
        }
    }

    /// The settings after a key press. `parsed` is the number that the
    /// pending text stands for, if it is one, and `unit` says whether that
    /// number lies between 0 and 1. `Down` and `Up` take the number and move
    /// to the next or the previous parameter, `Enter` takes it and ends the
    /// edit, `Esc` ends the edit without taking it, and every other key goes
    /// to the text.
    pub open spec fn after_key(self, key: Key, parsed: Option<ParamView<V>>, unit: bool) -> Self {
        match key {
            Key::Esc => self.closed(),
            Key::Down => self.committed(parsed, unit).opened_on(
                self.pending().field.spec_next(),
            ),
            Key::Up => self.committed(parsed, unit).opened_on(
                self.pending().field.spec_previous(),
            ),
            Key::Enter => self.committed(parsed, unit).closed(),
            _ => SquareSettingsView {
                edit: Some(
                    EditView { field: self.pending().field, input: self.pending().input.typed(key) },
                ),
                ..self
            },
        }
    }
}

/// The three parameters of the rectangular signal that can be edited
/// (period, amplitude, and the fraction of the period for which the signal is
/// high) and the edit that is open, if any.
pub struct SquareSettings<V> {
    period: Param<V>,
    amplitude: Param<V>,
    duty: Param<V>,
    edit: Option<SquareSignalEdit>,
}

impl<V> View for SquareSettings<V> {
    type V = SquareSettingsView<V>;

    closed spec fn view(&self) -> SquareSettingsView<V> {
        SquareSettingsView {
            period: self.period@,
            amplitude: self.amplitude@,
            duty: self.duty@,
            edit: match self.edit {
                Some(edit) => Some(edit@),
                None => None,
            },
        }
    }
}

impl<V> SquareSettings<V> {
    /// The text of the open edit is plain ASCII with the cursor inside it.
    pub open spec fn wf(&self) -> bool {
        self@.edit is Some ==> self@.edit->0.input.wf()
    }

    /// Settings with the given parameters and no edit open.
    pub fn new(period: Param<V>, amplitude: Param<V>, duty: Param<V>) -> (settings: Self)
        ensures
            settings.wf(),
            settings@ == (SquareSettingsView {
                period: period@,
                amplitude: amplitude@,
                duty: duty@,
                edit: None,
            }),
    {
        SquareSettings { period, amplitude, duty, edit: None }
    }

    /// The parameter `field`.
    pub fn param(&self, field: SquareField) -> (param: &Param<V>)
        ensures
            param@ == self@.param(field),
    {
        match field {
            SquareField::Period => &self.period,
            SquareField::Amplitude => &self.amplitude,
            SquareField::Duty => &self.duty,
        }
    }

    /// The edit that is open, if any.
    pub fn editing(&self) -> (edit: Option<&SquareSignalEdit>)
        ensures
            edit is Some <==> self@.edit is Some,
            edit is Some ==> edit->0@ == self@.edit->0,
    {
        self.edit.as_ref()
    }

    /// The parameter that the next key press applies to: the one being
    /// edited, or else the first.
    pub fn pending_field(&self) -> (field: SquareField)
        ensures
            field == self@.pending().field,
    {
        match &self.edit {
            Some(edit) => edit.field(),
            None => SquareField::Period,
        }
    }

    /// The text that the next key press applies to. A caller that hands
    /// `edit` the number typed parses this text.
    pub fn input_text(&self) -> (text: &String)
        ensures
            text@ == self@.pending().input.text,
    {
        match &self.edit {
            Some(edit) => &edit.input().value,
            None => self.period.text(),
        }
    }

    fn set_param(&mut self, field: SquareField, param: Param<V>)
        ensures
            final(self)@ == old(self)@.with_param(field, param@),
            old(self).wf() ==> final(self).wf(),
    {
        match field {
            SquareField::Period => self.period = param,
            SquareField::Amplitude => self.amplitude = param,
            SquareField::Duty => self.duty = param,
        }
    }

    fn open(&mut self, field: SquareField)
        ensures
            final(self)@ == old(self)@.opened_on(field),
            final(self).wf(),
    {
        let text = self.param(field).text().clone();
        let input = NumericInput::from(text);
        proof {
            crate::utils::lemma_ascii_positions(text@, text@.len() as int);
        }
        self.edit = Some(SquareSignalEdit::of(field, input));
    }

    /// Opens the edit of the period, whatever was open before.
    pub fn set_edit(&mut self)
        ensures
            final(self).wf(),
            final(self)@ == old(self)@.opened_on(SquareField::Period),
    {
        self.open(SquareField::Period);
    }

    /// Applies a key press to the form. `parsed` is the number that the text
    /// of [`input_text`](Self::input_text) stands for, if it is one, and
    /// `unit` says whether that number lies between 0 and 1, both included.
    /// When the key ends the edit, `editing` becomes `Editing::Nothing`.
    pub fn edit(
        &mut self,
        editing: &mut Editing,
        key: Key,
        parsed: Option<Param<V>>,
        unit: bool,
    )
        requires
            old(self).wf(),
        ensures
            final(self).wf(),
            final(self)@ == old(self)@.after_key(key, param_view(parsed), unit),
            *final(editing) == if ends_edit(key) {
                Editing::Nothing
            } else {
                *old(editing)
            },
    {
        if self.edit.is_none() {
            self.open(SquareField::Period);
        }
        let open = self.edit.take().unwrap();
        let field = open.field();
        let mut input = open.into_input();
        match key {
            Key::Esc => {
                *editing = Editing::Nothing;
            },
            Key::Down | Key::Up | Key::Enter => {
                if let Some(param) = parsed {
                    let refused = match field {
                        SquareField::Duty => !unit,
                        _ => false,
                    };
                    if !refused {
                        self.set_param(field, param);
                    }
                }
                match key {
                    Key::Down => self.open(field.next()),
                    Key::Up => self.open(field.previous()),
                    _ => {
                        *editing = Editing::Nothing;
                    },
                }
            },
            _ => {
                input.apply_key(key);
                self.edit = Some(SquareSignalEdit::of(field, input));
            },
        }
    }

    /// The text being typed into `field`, if that is the parameter being
    /// edited.
    fn typed_into(&self, field: SquareField) -> (input: Option<&NumericInput>)
        ensures
            crate::form::input_view(input) == self@.typed_into(field),
    {
        match &self.edit {
            Some(open) => if open.field() == field {
                Some(open.input())
            } else {
                None
            },
            None => None,
        }
    }

    /// The rows that the form shows, from the top.
    pub fn rows(&self) -> (rows: Vec<FormRow>)
        ensures
            rows@.map_values(|row: FormRow| row@) == self@.rows(),
    {
        let mut rows: Vec<FormRow> = Vec::new();
        rows.push(form_row("period = ", &self.period, self.typed_into(SquareField::Period)));
        rows.push(form_row("amplitude = ", &self.amplitude, self.typed_into(SquareField::Amplitude)));
        rows.push(form_row("duty = ", &self.duty, self.typed_into(SquareField::Duty)));
        assert(rows@.map_values(|row: FormRow| row@) =~= self@.rows());
        rows
    }

    /// Whether the cursor has a place in the form: a parameter is being
    /// edited, and the column of the cursor is a number that fits.
    pub fn cursor_fits(&self) -> (fits: bool)
        ensures
            fits == (self@.edit is Some && (self@.edit->0.input.cursor as u16)
                + self@.edit->0.field.column() <= u16::MAX),
    {
        match &self.edit {
            Some(edit) => {
                let cursor = edit.input().cursor;
                #[verifier::truncate] (cursor as u16) <= u16::MAX - edit.field().column()
            },
            None => false,
        }
    }

    /// Where the cursor stands in the form, as column and row: the column is
    /// that of the parameter being edited plus the cursor in its text.
    pub fn get_cursor_offsets(&self) -> (offsets: (u16, u16))
        requires
            self@.edit is Some,
            (self@.edit->0.input.cursor as u16) + self@.edit->0.field.column() <= u16::MAX,
        ensures
            offsets.0 == (self@.edit->0.input.cursor as u16) + self@.edit->0.field.column(),
            offsets.1 == self@.edit->0.field.row(),
    {
        let edit = self.edit.as_ref().unwrap();
        let cursor = edit.input().cursor;
        let field = edit.field();
        (#[verifier::truncate] (cursor as u16) + field.column(), field.row())
    }
}

/// The rectangular signal as the proofs see it.
pub struct SquareSignalView<V> {
    pub settings: SquareSettingsView<V>,
    /// The time of the next sample.
    pub x: V,
    /// The sampling interval.
    pub ts: V,
    /// By how much the signal runs ahead of the clock.
    pub phase: V,
    /// The number zero.
    pub zero: V,
}

impl<V> SquareSignalView<V> {
    /// The value of the signal: the amplitude in the part of the period in
    /// which the signal is high, and zero in the rest.
    pub open spec fn value_at(self, high: bool) -> V {
        if high {
            self.settings.amplitude.value
        } else {
            self.zero
        }
    }
}

/// A rectangular signal: in each period it has its amplitude for the
/// fraction of the period that the duty gives, and is zero for the rest.
///
/// The signal does not compute with numbers: the caller finds out in which
/// part of the period a time lies and hands in the answer, and adds the
/// sampling interval to the clock and hands in the sum.
pub struct SquareSignal<V> {
    settings: SquareSettings<V>,
    x: V,
    ts: V,
    phase: V,
    zero: V,
}

impl<V> View for SquareSignal<V> {
    type V = SquareSignalView<V>;

    closed spec fn view(&self) -> SquareSignalView<V> {
        SquareSignalView {
            settings: self.settings@,
            x: self.x,
            ts: self.ts,
            phase: self.phase,
            zero: self.zero,
        }
    }
}

impl<V: Copy> SquareSignal<V> {
    /// The text of the open edit is plain ASCII with the cursor inside it.
    pub open spec fn wf(&self) -> bool {
        self@.settings.edit is Some ==> self@.settings.edit->0.input.wf()
    }

    /// A rectangular signal of the given period, amplitude, duty and phase,
    /// with sampling interval `ts` and the clock at `zero`.
    pub fn new(
        ts: V,
        period: Param<V>,
        amplitude: Param<V>,
        duty: Param<V>,
        phase: V,
        zero: V,
    ) -> (signal: Self)
        ensures
            signal.wf(),
            signal@ == (SquareSignalView {
                settings: SquareSettingsView {
                    period: period@,
                    amplitude: amplitude@,
                    duty: duty@,
                    edit: None,
                },
                x: zero,
                ts,
                phase,
                zero,
            }),
    {
        SquareSignal { settings: SquareSettings::new(period, amplitude, duty), x: zero, ts, phase, zero }
    }

    /// The parameters and their form.
    pub fn settings(&self) -> (settings: &SquareSettings<V>)
        ensures
            settings@ == self@.settings,
    {
        &self.settings
    }

    /// The time of the next sample.
    pub fn clock(&self) -> (x: V)
        ensures
            x == self@.x,
    {
        self.x
    }

    /// The sampling interval.
    pub fn ts(&self) -> (ts: V)
        ensures
            ts == self@.ts,
    {
        self.ts
    }

    /// By how much the signal runs ahead of the clock.
    pub fn phase(&self) -> (phase: V)
        ensures
            phase == self@.phase,
    {
        self.phase
    }

    /// The value of the signal at a time of which the caller has found out
    /// whether it lies in the high part of the period: the amplitude there,
    /// zero in the rest. The clock is left alone.
    pub fn value_at(&self, high: bool) -> (value: V)
        ensures
            value == self@.value_at(high),
    {
        if high {
            *self.settings.param(SquareField::Amplitude).value()
        } else {
            self.zero
        }
    }

    /// Produces the next sample: the value of the signal at the time the
    /// clock shows, of which `high` says whether it lies in the high part of
    /// the period. The clock then stands at `next_clock`, which the caller
    /// has computed as the clock plus the sampling interval.
    pub fn advance(&mut self, high: bool, next_clock: V) -> (sample: (V, V))
        ensures
            sample == (old(self)@.x, old(self)@.value_at(high)),
            final(self)@ == (SquareSignalView { x: next_clock, ..old(self)@ }),
    {
        let point = (self.x, self.value_at(high));
        self.x = next_clock;
        point
    }

    /// Puts the clock back to zero and leaves the parameters as they are.
    pub fn reset(&mut self)
        ensures
            final(self)@ == (SquareSignalView { x: old(self)@.zero, ..old(self)@ }),
    {
        self.x = self.zero;
    }

    /// Opens the edit of the period, whatever was open before.
    pub fn set_edit(&mut self)
        ensures
            final(self).wf(),
            final(self)@ == (SquareSignalView {
                settings: old(self)@.settings.opened_on(SquareField::Period),
                ..old(self)@
            }),
    {
        self.settings.set_edit();
    }

    /// Applies a key press to the form of the parameters. `parsed` is the
    /// number that the text being typed stands for, if it is one, and `unit`
    /// says whether that number lies between 0 and 1, both included: a duty
    /// outside that range is not taken. When the key ends the edit,
    /// `editing` becomes `Editing::Nothing`.
    pub fn edit(
        &mut self,
        editing: &mut Editing,
        key: Key,
        parsed: Option<Param<V>>,
        unit: bool,
    )
        requires
            old(self).wf(),
        ensures
            final(self).wf(),
            final(self)@ == (SquareSignalView {
                settings: old(self)@.settings.after_key(key, param_view(parsed), unit),
                ..old(self)@
            }),
            *final(editing) == if ends_edit(key) {
                Editing::Nothing
            } else {
                *old(editing)
            },
    {
        self.settings.edit(editing, key, parsed, unit);
    }

    /// The name under which the signal is registered.
    pub fn name(&self) -> (name: &'static str)
        ensures
            name == REFERENCE_NAME,
    {
        REFERENCE_NAME
    }
}

} // verus!
