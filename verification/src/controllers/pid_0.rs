//! The gains of a PID controller with a filtered derivative, and the form in
//! which they are edited.

use vstd::prelude::*;
use crate::form::{form_row, spec_form_row, FormRow, FormRowView};
use crate::param::{
    coefficients_after, param_view, update_param, Coefficients, Param, ParamView, Update,
};
use crate::utils::{EditView, NumericInput, TextField};
use crate::{ends_edit, Editing, Key};

verus! {

/// The name under which the controller is registered.
pub const CONTROLLER_NAME: &'static str = "PID with Derivative Filter (backward Euler)";

/// One of the four parameters of the controller.
#[derive(Clone, Copy, Debug, PartialEq, Eq, Structural)]
pub enum PidField {
    Kp,
    Ki,
    Kd,
    N,
}

impl PidField {
    /// The parameter below this one in the form; below the last comes the first.
    pub open spec fn spec_next(self) -> PidField {
        match self {
            PidField::Kp => PidField::Ki,
            PidField::Ki => PidField::Kd,
            PidField::Kd => PidField::N,
            PidField::N => PidField::Kp,
        }
    }

    /// The parameter above this one in the form; above the first comes the last.
    pub open spec fn spec_previous(self) -> PidField {
        match self {
            PidField::Kp => PidField::N,
            PidField::Ki => PidField::Kp,
            PidField::Kd => PidField::Ki,
            PidField::N => PidField::Kd,
        }
    }

    /// The column at which the text of this parameter starts in the form.
    pub open spec fn spec_column(self) -> u16 {
        match self {
            PidField::N => 5,
            _ => 6,
        }
    }

    /// The row of this parameter in the form.
    pub open spec fn spec_row(self) -> u16 {
        match self {
            PidField::Kp => 3,
            PidField::Ki => 4,
            PidField::Kd => 5,
            PidField::N => 6,
        }
    }

    #[verifier::when_used_as_spec(spec_next)]
    pub fn next(self) -> (field: PidField)
        ensures
            field == self.spec_next(),
    {
        match self {
            PidField::Kp => PidField::Ki,
            PidField::Ki => PidField::Kd,
            PidField::Kd => PidField::N,
            PidField::N => PidField::Kp,
        }
    }

    #[verifier::when_used_as_spec(spec_previous)]
    pub fn previous(self) -> (field: PidField)
        ensures
            field == self.spec_previous(),
    {
        match self {
            PidField::Kp => PidField::N,
            PidField::Ki => PidField::Kp,
            PidField::Kd => PidField::Ki,
            PidField::N => PidField::Kd,
        }
    }

    /// The column at which the text of this parameter starts in the form.
    #[verifier::when_used_as_spec(spec_column)]
    pub fn column(self) -> (column: u16)
        ensures
            column == self.spec_column(),
    {
        match self {
            PidField::N => 5,
            _ => 6,
        }
    }

    /// The row of this parameter in the form.
    #[verifier::when_used_as_spec(spec_row)]
    pub fn row(self) -> (row: u16)
        ensures
            row == self.spec_row(),
    {
        match self {
            PidField::Kp => 3,
            PidField::Ki => 4,
            PidField::Kd => 5,
            PidField::N => 6,
        }
    }
}

/// The parameter that is being edited, with the text typed so far.
#[derive(Clone)]
pub enum PIDControllerEdit {
    KP(NumericInput),
    KI(NumericInput),
    KD(NumericInput),
    N(NumericInput),
}

impl View for PIDControllerEdit {
    type V = EditView<PidField>;

    open spec fn view(&self) -> EditView<PidField> {
        EditView { field: self.spec_field(), input: self.spec_input()@ }
    }
}

impl PIDControllerEdit {
    /// The parameter that is being edited.
    pub open spec fn spec_field(&self) -> PidField {
        match self {
            PIDControllerEdit::KP(_) => PidField::Kp,
            PIDControllerEdit::KI(_) => PidField::Ki,
            PIDControllerEdit::KD(_) => PidField::Kd,
            PIDControllerEdit::N(_) => PidField::N,
        }
    }

    /// The text typed so far.
    pub open spec fn spec_input(&self) -> NumericInput {
        match self {
            PIDControllerEdit::KP(input) => *input,
            PIDControllerEdit::KI(input) => *input,
            PIDControllerEdit::KD(input) => *input,
            PIDControllerEdit::N(input) => *input,
        }
    }

    /// The edit of `field` with `input` as the text typed so far.
    pub fn of(field: PidField, input: NumericInput) -> (edit: Self)
        ensures
            edit.spec_field() == field,
            edit.spec_input() == input,
    {
        match field {
            PidField::Kp => PIDControllerEdit::KP(input),
            PidField::Ki => PIDControllerEdit::KI(input),
            PidField::Kd => PIDControllerEdit::KD(input),
            PidField::N => PIDControllerEdit::N(input),
        }
    }

    /// The parameter that is being edited.
    #[verifier::when_used_as_spec(spec_field)]
    pub fn field(&self) -> (field: PidField)
        ensures
            field == self.spec_field(),
    {
        match self {
            PIDControllerEdit::KP(_) => PidField::Kp,
            PIDControllerEdit::KI(_) => PidField::Ki,
            PIDControllerEdit::KD(_) => PidField::Kd,
            PIDControllerEdit::N(_) => PidField::N,
        }
    }

    /// The text typed so far.
    pub fn input(&self) -> (input: &NumericInput)
        ensures
            *input == self.spec_input(),
    {
        match self {
            PIDControllerEdit::KP(input) => input,
            PIDControllerEdit::KI(input) => input,
            PIDControllerEdit::KD(input) => input,
            PIDControllerEdit::N(input) => input,
        }
    }

    /// Gives up the edit and hands out the text typed so far.
    pub fn into_input(self) -> (input: NumericInput)
        ensures
            input == self.spec_input(),
    {
        match self {
            PIDControllerEdit::KP(input) => input,
            PIDControllerEdit::KI(input) => input,
            PIDControllerEdit::KD(input) => input,
            PIDControllerEdit::N(input) => input,
        }
    }
}

/// The gains and their form as the proofs see them.
pub struct PidSettingsView<V> {
    pub kp: ParamView<V>,
    pub ki: ParamView<V>,
    pub kd: ParamView<V>,
    pub n: ParamView<V>,
    pub edit: Option<EditView<PidField>>,
}

impl<V> PidSettingsView<V> {
    /// The parameter `field`.
    pub open spec fn param(self, field: PidField) -> ParamView<V> {
        match field {
            PidField::Kp => self.kp,
            PidField::Ki => self.ki,
            PidField::Kd => self.kd,
            PidField::N => self.n,
        }
    }

    /// The settings with `param` in the place of the parameter `field`.
    pub open spec fn with_param(self, field: PidField, param: ParamView<V>) -> Self {
        match field {
            PidField::Kp => PidSettingsView { kp: param, ..self },
            PidField::Ki => PidSettingsView { ki: param, ..self },
            PidField::Kd => PidSettingsView { kd: param, ..self },
            PidField::N => PidSettingsView { n: param, ..self },
        }
    }

    /// The text being typed into `field`, if that is the parameter being
    /// edited.
    pub open spec fn typed_into(self, field: PidField) -> Option<TextField> {
        match self.edit {
            Some(open) => if open.field == field {
                Some(open.input)
            } else {
                None
            },
            None => None,
        }
    }

    /// The rows that the form shows, from the top.
    pub open spec fn rows(self) -> Seq<FormRowView> {
        seq![
            spec_form_row("Kp = "@, self.kp, self.typed_into(PidField::Kp)),
            spec_form_row("Ki = "@, self.ki, self.typed_into(PidField::Ki)),
            spec_form_row("Kd = "@, self.kd, self.typed_into(PidField::Kd)),
            spec_form_row("N = "@, self.n, self.typed_into(PidField::N)),
        ]
    }

    /// The edit that the next key press goes to: the open one, or else a
    /// fresh edit of the proportional gain.
    pub open spec fn pending(self) -> EditView<PidField> {
        match self.edit {
            Some(edit) => edit,
            None => EditView { field: PidField::Kp, input: TextField::opened(self.kp.text) },
        }
    }

    /// The settings with a fresh edit of `field` open.
    pub open spec fn opened_on(self, field: PidField) -> Self {
        PidSettingsView {
            edit: Some(EditView { field, input: TextField::opened(self.param(field).text) }),
            ..self
        }
    }

    /// The settings with no edit open.
    pub open spec fn closed(self) -> Self {
        PidSettingsView { edit: None, ..self }
    }

    /// The settings once the pending parameter has taken the number typed,
    /// if the text was one.
    pub open spec fn committed(self, parsed: Option<ParamView<V>>) -> Self {
        match parsed {
            Some(param) => self.with_param(self.pending().field, param),
            None => self,
        }
    }

    /// The settings after a key press. `parsed` is the number that the
    /// pending text stands for, if it is one. `Down` and `Up` take the number
    /// and move to the next or the previous parameter, `Enter` takes it and
    /// ends the edit, `Esc` ends the edit without taking it, and every other
    /// key goes to the text.
    pub open spec fn after_key(self, key: Key, parsed: Option<ParamView<V>>) -> Self {
        match key {
            Key::Esc => self.closed(),
            Key::Down => self.committed(parsed).opened_on(self.pending().field.spec_next()),
            Key::Up => self.committed(parsed).opened_on(self.pending().field.spec_previous()),
            Key::Enter => self.committed(parsed).closed(),
            _ => PidSettingsView {
                edit: Some(
                    EditView { field: self.pending().field, input: self.pending().input.typed(key) },
                ),
                ..self
            },
        }
    }
}

/// The four parameters of the controller (the three gains and the
/// coefficient of the derivative filter) and the edit that is open, if any.
pub struct PidSettings<V> {
    kp: Param<V>,
    ki: Param<V>,
    kd: Param<V>,
    n: Param<V>,
    edit: Option<PIDControllerEdit>,
}

impl<V> View for PidSettings<V> {
    type V = PidSettingsView<V>;

    closed spec fn view(&self) -> PidSettingsView<V> {
        PidSettingsView {
            kp: self.kp@,
            ki: self.ki@,
            kd: self.kd@,
            n: self.n@,
            edit: match self.edit {
                Some(edit) => Some(edit@),
                None => None,
            },
        }
    }
}

impl<V> PidSettings<V> {
    /// The text of the open edit is plain ASCII with the cursor inside it.
    pub open spec fn wf(&self) -> bool {
        self@.edit is Some ==> self@.edit->0.input.wf()
    }

    /// Settings with the given parameters and no edit open.
    pub fn new(kp: Param<V>, ki: Param<V>, kd: Param<V>, n: Param<V>) -> (settings: Self)
        ensures
            settings.wf(),
            settings@ == (PidSettingsView { kp: kp@, ki: ki@, kd: kd@, n: n@, edit: None }),
    {
        PidSettings { kp, ki, kd, n, edit: None }
    }

    /// The parameter `field`.
    pub fn param(&self, field: PidField) -> (param: &Param<V>)
        ensures
            param@ == self@.param(field),
    {
        match field {
            PidField::Kp => &self.kp,
            PidField::Ki => &self.ki,
            PidField::Kd => &self.kd,
            PidField::N => &self.n,
        }
    }

    /// The edit that is open, if any.
    pub fn editing(&self) -> (edit: Option<&PIDControllerEdit>)
        ensures
            edit is Some <==> self@.edit is Some,
            edit is Some ==> edit->0@ == self@.edit->0,
    {
        self.edit.as_ref()
    }

    /// The parameter that the next key press applies to: the one being
    /// edited, or else the first.
    pub fn pending_field(&self) -> (field: PidField)
        ensures
            field == self@.pending().field,
    {
        match &self.edit {
            Some(edit) => edit.field(),
            None => PidField::Kp,
        }
    }

    /// The text that the next key press applies to. A caller that hands
    /// `edit` the number typed parses this text.
    pub fn input_text(&self) -> (text: &String)
        ensures
            text@ == self@.pending().input.text,
    {
        match &self.edit {
            Some(edit) => &edit.input().value,
            None => self.kp.text(),
        }
    }

    fn set_param(&mut self, field: PidField, param: Param<V>)
        ensures
            final(self)@ == old(self)@.with_param(field, param@),
            old(self).wf() ==> final(self).wf(),
    {
        match field {
            PidField::Kp => self.kp = param,
            PidField::Ki => self.ki = param,
            PidField::Kd => self.kd = param,
            PidField::N => self.n = param,
        }
    }

    fn open(&mut self, field: PidField)
        ensures
            final(self)@ == old(self)@.opened_on(field),
            final(self).wf(),
    {
        let text = self.param(field).text().clone();
        let input = NumericInput::from(text);
        proof {
            crate::utils::lemma_ascii_positions(text@, text@.len() as int);
        }
        self.edit = Some(PIDControllerEdit::of(field, input));
    }

    /// Opens the edit of the proportional gain, whatever was open before.
    pub fn set_edit(&mut self)
        ensures
            final(self).wf(),
            final(self)@ == old(self)@.opened_on(PidField::Kp),
    {
        self.open(PidField::Kp);
    }

    /// Applies a key press to the form. `parsed` is the number that the text
    /// of [`input_text`](Self::input_text) stands for, if it is one. When the
    /// key ends the edit, `editing` becomes `Editing::Nothing`.
    pub fn edit(&mut self, editing: &mut Editing, key: Key, parsed: Option<Param<V>>)
        requires
            old(self).wf(),
        ensures
            final(self).wf(),
            final(self)@ == old(self)@.after_key(key, param_view(parsed)),
            *final(editing) == if ends_edit(key) {
                Editing::Nothing
            } else {
                *old(editing)
            },
    {
        if self.edit.is_none() {
            self.open(PidField::Kp);
        }
        let open = self.edit.take().unwrap();
        let field = open.field();
        let mut input = open.into_input();
        match key {
            Key::Esc => {
                *editing = Editing::Nothing;
            },
            Key::Down | Key::Up | Key::Enter => {
                if let Some(param) = parsed {
                    self.set_param(field, param);
                }
                match key {
                    Key::Down => self.open(field.next()),
                    Key::Up => self.open(field.previous()),
                    _ => {
                        *editing = Editing::Nothing;
                    },
                }
            },
            _ => {
                input.apply_key(key);
                self.edit = Some(PIDControllerEdit::of(field, input));
            },
        }
    }

    /// The text being typed into `field`, if that is the parameter being
    /// edited.
    fn typed_into(&self, field: PidField) -> (input: Option<&NumericInput>)
        ensures
            crate::form::input_view(input) == self@.typed_into(field),
    {
        match &self.edit {
            Some(open) => if open.field() == field {
                Some(open.input())
            } else {
                None
            },
            None => None,
        }
    }

    /// The rows that the form shows, from the top.
    pub fn rows(&self) -> (rows: Vec<FormRow>)
        ensures
            rows@.map_values(|row: FormRow| row@) == self@.rows(),
    {
        let mut rows: Vec<FormRow> = Vec::new();
        rows.push(form_row("Kp = ", &self.kp, self.typed_into(PidField::Kp)));
        rows.push(form_row("Ki = ", &self.ki, self.typed_into(PidField::Ki)));
        rows.push(form_row("Kd = ", &self.kd, self.typed_into(PidField::Kd)));
        rows.push(form_row("N = ", &self.n, self.typed_into(PidField::N)));
        assert(rows@.map_values(|row: FormRow| row@) =~= self@.rows());
        rows
    }

    /// Whether the cursor has a place in the form: a parameter is being
    /// edited, and the column of the cursor is a number that fits.
    pub fn cursor_fits(&self) -> (fits: bool)
        ensures
            fits == (self@.edit is Some && (self@.edit->0.input.cursor as u16)
                + self@.edit->0.field.column() <= u16::MAX),
    {
        match &self.edit {
            Some(edit) => {
                let cursor = edit.input().cursor;
                #[verifier::truncate] (cursor as u16) <= u16::MAX - edit.field().column()
            },
            None => false,
        }
    }

    /// Where the cursor stands in the form, as column and row: the column is
    /// that of the parameter being edited plus the cursor in its text.
    pub fn get_cursor_offsets(&self) -> (offsets: (u16, u16))
        requires
            self@.edit is Some,
            (self@.edit->0.input.cursor as u16) + self@.edit->0.field.column() <= u16::MAX,
        ensures
            offsets.0 == (self@.edit->0.input.cursor as u16) + self@.edit->0.field.column(),
            offsets.1 == self@.edit->0.field.row(),
    {
        let edit = self.edit.as_ref().unwrap();
        let cursor = edit.input().cursor;
        let field = edit.field();
        (#[verifier::truncate] (cursor as u16) + field.column(), field.row())
    }
}

/// The controller as the proofs see it.
pub struct PIDControllerView<V> {
    pub settings: PidSettingsView<V>,
    /// The errors of the latest three steps, newest first.
    pub e: (V, V, V),
    /// The outputs of the latest three steps, newest first.
    pub u: (V, V, V),
    /// The latest output of the plant.
    pub y: V,
    /// The set-point.
    pub r: V,
    /// The sampling interval.
    pub ts: V,
    /// The coefficients of the difference equation: those of the two earlier
    /// outputs, and those of the three latest errors.
    pub k: Coefficients<V>,
    /// The time of the next sample.
    pub x: V,
    /// The number zero.
    pub zero: V,
}

impl<V> PIDControllerView<V> {
    /// The controller after a step in which `error` was the difference
    /// between set-point and plant output and `output` what the difference
    /// equation gave: both histories take the new value in front and let go
    /// of their oldest one, and the clock stands at `next_clock`.
    pub open spec fn advanced(self, error: V, output: V, next_clock: V) -> Self {
        PIDControllerView {
            e: (error, self.e.0, self.e.1),
            u: (output, self.u.0, self.u.1),
            x: next_clock,
            ..self
        }
    }

    /// The controller made to look settled at `v`: set-point and plant
    /// output are both `v`, and the earlier errors and outputs are zero. The
    /// latest error and output stay.
    pub open spec fn settled_at(self, v: V) -> Self {
        PIDControllerView {
            e: (self.e.0, self.zero, self.zero),
            u: (self.u.0, self.zero, self.zero),
            r: v,
            y: v,
            ..self
        }
    }

    /// The controller started over: settled at zero, with the clock at zero.
    /// Gains and coefficients stay.
    pub open spec fn restarted(self) -> Self {
        PIDControllerView { x: self.zero, ..self.settled_at(self.zero) }
    }

    /// A controller that is made to look settled at `v` is, but for its
    /// clock, in the state of one that was first started over and then made
    /// to look settled at `v`. Its next outputs depend on that state alone,
    /// so a loop that is closed again after its controller was settled sees
    /// the very outputs that it would see with the controller started over.
    pub proof fn lemma_settled_like_started_over(self, v: V)
        ensures
            self.settled_at(v) == (PIDControllerView {
                x: self.x,
                ..self.restarted().settled_at(v)
            }),
    {
    }

    /// The controller after a key press on the form of its gains. `update`
    /// holds the number that the text being typed stands for, if it is one,
    /// and the coefficients that go with it. Where the key makes the form
    /// take the number, the coefficients are replaced in the same step.
    pub open spec fn after_key(self, key: Key, update: Option<Update<V>>) -> Self {
        PIDControllerView {
            settings: self.settings.after_key(key, update_param(update)),
            k: coefficients_after(self.k, key, update),
            ..self
        }
    }
}

/// The state of a discrete-time PID controller with a filtered derivative.
///
/// The controller keeps the gains, the coefficients of its difference
/// equation, the set-point, the latest plant output, and the latest three
/// errors and outputs. It does not compute with numbers: the caller
/// evaluates the difference equation and hands in the results. A gain
/// changes only together with the coefficients, so that the two never drift
/// apart.
pub struct PIDController<V> {
    settings: PidSettings<V>,
    e: (V, V, V),
    u: (V, V, V),
    y: V,
    r: V,
    ts: V,
    k: Coefficients<V>,
    x: V,
    zero: V,
}

impl<V> View for PIDController<V> {
    type V = PIDControllerView<V>;

    closed spec fn view(&self) -> PIDControllerView<V> {
        PIDControllerView {
            settings: self.settings@,
            e: self.e,
            u: self.u,
            y: self.y,
            r: self.r,
            ts: self.ts,
            k: self.k,
            x: self.x,
            zero: self.zero,
        }
    }
}

impl<V: Copy> PIDController<V> {
    /// The text of the open edit is plain ASCII with the cursor inside it.
    pub open spec fn wf(&self) -> bool {
        self@.settings.edit is Some ==> self@.settings.edit->0.input.wf()
    }

    /// A controller with the given gains, sampling interval `ts` and
    /// coefficients `k`, at rest: clock, set-point, plant output and
    /// histories are all `zero`.
    pub fn new(
        kp: Param<V>,
        ki: Param<V>,
        kd: Param<V>,
        n: Param<V>,
        ts: V,
        k: Coefficients<V>,
        zero: V,
    ) -> (pid: Self)
        ensures
            pid.wf(),
            pid@ == (PIDControllerView {
                settings: PidSettingsView { kp: kp@, ki: ki@, kd: kd@, n: n@, edit: None },
                e: (zero, zero, zero),
                u: (zero, zero, zero),
                y: zero,
                r: zero,
                ts,
                k,
                x: zero,
                zero,
            }),
    {
        PIDController {
            settings: PidSettings::new(kp, ki, kd, n),
            e: (zero, zero, zero),
            u: (zero, zero, zero),
            y: zero,
            r: zero,
            ts,
            k,
            x: zero,
            zero,
        }
    }

    /// The gains and their form.
    pub fn settings(&self) -> (settings: &PidSettings<V>)
        ensures
            settings@ == self@.settings,
    {
        &self.settings
    }

    /// The errors of the latest three steps, newest first.
    pub fn errors(&self) -> (e: (V, V, V))
        ensures
            e == self@.e,
    {
        self.e
    }

    /// The outputs of the latest three steps, newest first.
    pub fn outputs(&self) -> (u: (V, V, V))
        ensures
            u == self@.u,
    {
        self.u
    }

    /// The latest output of the plant.
    pub fn plant_output(&self) -> (y: V)
        ensures
            y == self@.y,
    {
        self.y
    }

    /// The set-point.
    pub fn set_point(&self) -> (r: V)
        ensures
            r == self@.r,
    {
        self.r
    }

    /// The sampling interval.
    pub fn ts(&self) -> (ts: V)
        ensures
            ts == self@.ts,
    {
        self.ts
    }

    /// The time of the next sample.
    pub fn clock(&self) -> (x: V)
        ensures
            x == self@.x,
    {
        self.x
    }

    /// The coefficients of the difference equation.
    pub fn coefficients(&self) -> (k: &Coefficients<V>)
        ensures
            *k == self@.k,
    {
        &self.k
    }

    /// Makes the controller look settled at `u`, so that a loop that is
    /// closed again does not start from a stale history: set-point and plant
    /// output become `u`, and the earlier errors and outputs become zero.
    pub fn reset_to_setpoint(&mut self, u: V)
        ensures
            final(self)@ == old(self)@.settled_at(u),
            final(self)@.r == final(self)@.y,
    {
        self.u.1 = self.zero;
        self.u.2 = self.zero;
        self.set_set_point(u);
        self.e.1 = self.zero;
        self.e.2 = self.zero;
        self.set_plant_output(u);
    }

    /// Takes `y` as the latest output of the plant.
    pub fn set_plant_output(&mut self, y: V)
        ensures
            final(self)@ == (PIDControllerView { y, ..old(self)@ }),
    {
        self.y = y;
    }

    /// Takes `r` as the set-point.
    pub fn set_set_point(&mut self, r: V)
        ensures
            final(self)@ == (PIDControllerView { r, ..old(self)@ }),
    {
        self.r = r;
    }

    /// Starts the controller over: the clock at zero, settled at zero.
    pub fn reset(&mut self)
        ensures
            final(self)@ == old(self)@.restarted(),
            final(self)@.x == final(self)@.zero,
    {
        self.x = self.zero;
        self.reset_to_setpoint(self.zero);
        self.set_plant_output(self.zero);
    }

    /// Completes a step. The caller has computed `error`, the set-point
    /// less the plant output, `output`, the value of the difference equation
    /// on `error`, the two latest errors and the two latest outputs, and
    /// `next_clock`, the clock plus the sampling interval. Both histories
    /// move on by one place, and the sample returned is `output` at the time
    /// the clock showed.
    pub fn advance(&mut self, error: V, output: V, next_clock: V) -> (sample: (V, V))
        ensures
            sample == (old(self)@.x, output),
            final(self)@ == old(self)@.advanced(error, output, next_clock),
    {
        self.e.2 = self.e.1;
        self.e.1 = self.e.0;
        self.u.2 = self.u.1;
        self.u.1 = self.u.0;
        self.e.0 = error;
        let point = (self.x, output);
        self.x = next_clock;
        self.u.0 = output;
        point
    }

    /// Opens the edit of the proportional gain, whatever was open before.
    pub fn set_edit(&mut self)
        ensures
            final(self).wf(),
            final(self)@ == (PIDControllerView {
                settings: old(self)@.settings.opened_on(PidField::Kp),
                ..old(self)@
            }),
    {
        self.settings.set_edit();
    }

    /// Applies a key press to the form of the gains. `update` holds the
    /// number that the text being typed stands for, if it is one, and the
    /// coefficients that the difference equation has with that number in
    /// the place of the gain being edited. When the key ends the edit,
    /// `editing` becomes `Editing::Nothing`.
    pub fn edit(&mut self, editing: &mut Editing, key: Key, update: Option<Update<V>>)
        requires
            old(self).wf(),
        ensures
            final(self).wf(),
            final(self)@ == old(self)@.after_key(key, update),
            *final(editing) == if ends_edit(key) {
                Editing::Nothing
            } else {
                *old(editing)
            },
    {
        match update {
            Some(update) => {
                match key {
                    Key::Down | Key::Up | Key::Enter => {
                        self.k = update.coefficients;
                    },
                    _ => {},
                }
                self.settings.edit(editing, key, Some(update.param));
            },
            None => {
                self.settings.edit(editing, key, None);
            },
        }
    }

    /// The name under which the controller is registered.
    pub fn name(&self) -> (name: &'static str)
        ensures
            name == CONTROLLER_NAME,
    {
        CONTROLLER_NAME
    }
}

} // verus!
