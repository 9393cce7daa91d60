//! The parameters of a second-order plant, damping ratio and natural
//! frequency, and the form in which they are edited.

use vstd::prelude::*;
use crate::form::{form_row, spec_form_row, FormRow, FormRowView};
use crate::param::{
    coefficients_after, param_view, update_param, Coefficients, Param, ParamView, Update,
};
use crate::utils::{EditView, NumericInput, TextField};
use crate::{ends_edit, Editing, Key};

verus! {

/// The name under which the second-order plant is registered.
pub const PLANT_NAME: &'static str = "SecondOrderSystem";

/// One of the two parameters of the second-order plant.
#[derive(Clone, Copy, Debug, PartialEq, Eq, Structural)]
pub enum SecondOrderField {
    Zeta,
    Wn,
}

impl SecondOrderField {
    /// The other parameter.
    pub open spec fn spec_other(self) -> SecondOrderField {
        match self {
            SecondOrderField::Zeta => SecondOrderField::Wn,
            SecondOrderField::Wn => SecondOrderField::Zeta,
        }
    }

    /// The column at which the text of this parameter starts in the form.
    pub open spec fn spec_column(self) -> u16 {
        match self {
            SecondOrderField::Zeta => 8,
            SecondOrderField::Wn => 6,
        }
    }

    /// The row of this parameter in the form.
    pub open spec fn spec_row(self) -> u16 {
        match self {
            SecondOrderField::Zeta => 1,
            SecondOrderField::Wn => 2,
        }
    }

    #[verifier::when_used_as_spec(spec_other)]
    pub fn other(self) -> (field: SecondOrderField)
        ensures
            field == self.spec_other(),
    {
        match self {
            SecondOrderField::Zeta => SecondOrderField::Wn,
            SecondOrderField::Wn => SecondOrderField::Zeta,
        }
    }

    /// The column at which the text of this parameter starts in the form.
    #[verifier::when_used_as_spec(spec_column)]
    pub fn column(self) -> (column: u16)
        ensures
            column == self.spec_column(),
    {
        match self {
            SecondOrderField::Zeta => 8,
            SecondOrderField::Wn => 6,
        }
    }

    /// The row of this parameter in the form.
    #[verifier::when_used_as_spec(spec_row)]
    pub fn row(self) -> (row: u16)
        ensures
            row == self.spec_row(),
    {
        match self {
            SecondOrderField::Zeta => 1,
            SecondOrderField::Wn => 2,
        }
    }
}

/// The parameter that is being edited, with the text typed so far.
#[derive(Clone)]
pub enum SecondOrderEdit {
    Zeta(NumericInput),
    Wn(NumericInput),
}

impl View for SecondOrderEdit {
    type V = EditView<SecondOrderField>;

    open spec fn view(&self) -> EditView<SecondOrderField> {
        EditView { field: self.spec_field(), input: self.spec_input()@ }
    }
}

impl SecondOrderEdit {
    /// The parameter that is being edited.
    pub open spec fn spec_field(&self) -> SecondOrderField {
        match self {
            SecondOrderEdit::Zeta(_) => SecondOrderField::Zeta,
            SecondOrderEdit::Wn(_) => SecondOrderField::Wn,
        }
    }

    /// The text typed so far.
    pub open spec fn spec_input(&self) -> NumericInput {
        match self {
            SecondOrderEdit::Zeta(input) => *input,
            SecondOrderEdit::Wn(input) => *input,
        }
    }

    /// The edit of `field` with `input` as the text typed so far.
    pub fn of(field: SecondOrderField, input: NumericInput) -> (edit: Self)
        ensures
            edit.spec_field() == field,
            edit.spec_input() == input,
    {
        match field {
            SecondOrderField::Zeta => SecondOrderEdit::Zeta(input),
            SecondOrderField::Wn => SecondOrderEdit::Wn(input),
        }
    }

    /// The parameter that is being edited.
    #[verifier::when_used_as_spec(spec_field)]
    pub fn field(&self) -> (field: SecondOrderField)
        ensures
            field == self.spec_field(),
    {
        match self {
            SecondOrderEdit::Zeta(_) => SecondOrderField::Zeta,
            SecondOrderEdit::Wn(_) => SecondOrderField::Wn,
        }
    }

    /// The text typed so far.
    pub fn input(&self) -> (input: &NumericInput)
        ensures
            *input == self.spec_input(),
    {
        match self {
            SecondOrderEdit::Zeta(input) => input,
            SecondOrderEdit::Wn(input) => input,
        }
    }

    /// Gives up the edit and hands out the text typed so far.
    pub fn into_input(self) -> (input: NumericInput)
        ensures
            input == self.spec_input(),
    {
        match self {
            SecondOrderEdit::Zeta(input) => input,
            SecondOrderEdit::Wn(input) => input,
        }
    }
}

/// The parameters and their form as the proofs see them.
pub struct SecondOrderSettingsView<V> {
    pub zeta: ParamView<V>,
    pub wn: ParamView<V>,
    pub edit: Option<EditView<SecondOrderField>>,
}

impl<V> SecondOrderSettingsView<V> {
    /// The parameter `field`.
    pub open spec fn param(self, field: SecondOrderField) -> ParamView<V> {
        match field {
            SecondOrderField::Zeta => self.zeta,
            SecondOrderField::Wn => self.wn,
        }
    }

    /// The settings with `param` in the place of the parameter `field`.
    pub open spec fn with_param(self, field: SecondOrderField, param: ParamView<V>) -> Self {
        match field {
            SecondOrderField::Zeta => SecondOrderSettingsView { zeta: param, ..self },
            SecondOrderField::Wn => SecondOrderSettingsView { wn: param, ..self },
        }
    }

    /// The text being typed into `field`, if that is the parameter being
    /// edited.
    pub open spec fn typed_into(self, field: SecondOrderField) -> Option<TextField> {
        match self.edit {
            Some(open) => if open.field == field {
                Some(open.input)
            } else {
                None
            },
            None => None,
        }
    }

    /// The rows that the form shows, from the top.
    pub open spec fn rows(self) -> Seq<FormRowView> {
        seq![
            spec_form_row("zeta = "@, self.zeta, self.typed_into(SecondOrderField::Zeta)),
            spec_form_row("wn = "@, self.wn, self.typed_into(SecondOrderField::Wn)),
        ]
    }

    /// The edit that the next key press goes to: the open one, or else a
    /// fresh edit of the first parameter.
    pub open spec fn pending(self) -> EditView<SecondOrderField> {
        match self.edit {
            Some(edit) => edit,
            None => EditView { field: SecondOrderField::Zeta, input: TextField::opened(self.zeta.text) },
        }
    }

    /// The settings with a fresh edit of `field` open.
    pub open spec fn opened_on(self, field: SecondOrderField) -> Self {
        SecondOrderSettingsView {
            edit: Some(EditView { field, input: TextField::opened(self.param(field).text) }),
            ..self
        }
    }

    /// The settings with no edit open.
    pub open spec fn closed(self) -> Self {
        SecondOrderSettingsView { edit: None, ..self }
    }

    /// The settings once the number typed has been offered: if the text was
    /// a number, the pending parameter takes it and the edit moves on to the
    /// other parameter; if not, the pending edit stays as it is.
    pub open spec fn committed(self, parsed: Option<ParamView<V>>) -> Self {
        match parsed {
            Some(param) => self.with_param(self.pending().field, param).opened_on(
                self.pending().field.spec_other(),
            ),
            None => SecondOrderSettingsView { edit: Some(self.pending()), ..self },
        }
    }

    /// The settings after a key press. `parsed` is the number that the
    /// pending text stands for, if it is one. `Down` and `Up` offer the
    /// number, `Enter` offers it and ends the edit, `Esc` ends the edit
    /// without offering it, and every other key goes to the text.
    pub open spec fn after_key(self, key: Key, parsed: Option<ParamView<V>>) -> Self {
        match key {
            Key::Esc => self.closed(),
            Key::Down | Key::Up => self.committed(parsed),
            Key::Enter => self.committed(parsed).closed(),
            _ => SecondOrderSettingsView {
                edit: Some(
                    EditView { field: self.pending().field, input: self.pending().input.typed(key) },
                ),
                ..self
            },
        }
    }
}

/// The two parameters of the second-order plant (damping ratio and natural
/// frequency) and the edit that is open, if any.
pub struct SecondOrderSettings<V> {
    zeta: Param<V>,
    wn: Param<V>,
    edit: Option<SecondOrderEdit>,
}

impl<V> View for SecondOrderSettings<V> {
    type V = SecondOrderSettingsView<V>;

    closed spec fn view(&self) -> SecondOrderSettingsView<V> {
        SecondOrderSettingsView {
            zeta: self.zeta@,
            wn: self.wn@,
            edit: match self.edit {
                Some(edit) => Some(edit@),
                None => None,
            },
        }
    }
}

impl<V> SecondOrderSettings<V> {
    /// The text of the open edit is plain ASCII with the cursor inside it.
    pub open spec fn wf(&self) -> bool {
        self@.edit is Some ==> self@.edit->0.input.wf()
    }

    /// Settings with the given parameters and no edit open.
    pub fn new(zeta: Param<V>, wn: Param<V>) -> (settings: Self)
        ensures
            settings.wf(),
            settings@ == (SecondOrderSettingsView { zeta: zeta@, wn: wn@, edit: None }),
    {
        SecondOrderSettings { zeta, wn, edit: None }
    }

    /// The parameter `field`.
    pub fn param(&self, field: SecondOrderField) -> (param: &Param<V>)
        ensures
            param@ == self@.param(field),
    {
        match field {
            SecondOrderField::Zeta => &self.zeta,
            SecondOrderField::Wn => &self.wn,
        }
    }

    /// The edit that is open, if any.
    pub fn editing(&self) -> (edit: Option<&SecondOrderEdit>)
        ensures
            edit is Some <==> self@.edit is Some,
            edit is Some ==> edit->0@ == self@.edit->0,
    {
        self.edit.as_ref()
    }

    /// The parameter that the next key press applies to: the one being
    /// edited, or else the first.
    pub fn pending_field(&self) -> (field: SecondOrderField)
        ensures
            field == self@.pending().field,
    {
        match &self.edit {
            Some(edit) => edit.field(),
            None => SecondOrderField::Zeta,
        }
    }

    /// The text that the next key press applies to. A caller that hands
    /// `edit` the number typed parses this text.
    pub fn input_text(&self) -> (text: &String)
        ensures
            text@ == self@.pending().input.text,
    {
        match &self.edit {
            Some(edit) => &edit.input().value,
            None => self.zeta.text(),
        }
    }

    fn set_param(&mut self, field: SecondOrderField, param: Param<V>)
        ensures
            final(self)@ == old(self)@.with_param(field, param@),
            old(self).wf() ==> final(self).wf(),
    {
        match field {
            SecondOrderField::Zeta => self.zeta = param,
            SecondOrderField::Wn => self.wn = param,
        }
    }

    fn open(&mut self, field: SecondOrderField)
        ensures
            final(self)@ == old(self)@.opened_on(field),
            final(self).wf(),
    {
        let text = self.param(field).text().clone();
        let input = NumericInput::from(text);
        proof {
            crate::utils::lemma_ascii_positions(text@, text@.len() as int);
        }
        self.edit = Some(SecondOrderEdit::of(field, input));
    }

    /// Opens the edit of the first parameter, whatever was open before.
    pub fn set_edit(&mut self)
        ensures
            final(self).wf(),
            final(self)@ == old(self)@.opened_on(SecondOrderField::Zeta),
    {
        self.open(SecondOrderField::Zeta);
    }

    /// Applies a key press to the form. `parsed` is the number that the text
    /// of [`input_text`](Self::input_text) stands for, if it is one. When the
    /// key ends the edit, `editing` becomes `Editing::Nothing`.
    pub fn edit(&mut self, editing: &mut Editing, key: Key, parsed: Option<Param<V>>)
        requires
            old(self).wf(),
        ensures
            final(self).wf(),
            final(self)@ == old(self)@.after_key(key, param_view(parsed)),
            *final(editing) == if ends_edit(key) {
                Editing::Nothing
            } else {
                *old(editing)
            },
    {
        if self.edit.is_none() {
            self.open(SecondOrderField::Zeta);
        }
        match key {
            Key::Esc => {
                *editing = Editing::Nothing;
                self.edit = None;
            },
            Key::Down | Key::Up | Key::Enter => {
                if let Some(param) = parsed {
                    let field = self.edit.as_ref().unwrap().field();
                    self.set_param(field, param);
                    self.open(field.other());
                }
                if let Key::Enter = key {
                    *editing = Editing::Nothing;
                    self.edit = None;
                }
            },
            _ => {
                let open = self.edit.take().unwrap();
                let field = open.field();
                let mut input = open.into_input();
                input.apply_key(key);
                self.edit = Some(SecondOrderEdit::of(field, input));
            },
        }
    }

    /// The text being typed into `field`, if that is the parameter being
    /// edited.
    fn typed_into(&self, field: SecondOrderField) -> (input: Option<&NumericInput>)
        ensures
            crate::form::input_view(input) == self@.typed_into(field),
    {
        match &self.edit {
            Some(open) => if open.field() == field {
                Some(open.input())
            } else {
                None
            },
            None => None,
        }
    }

    /// The rows that the form shows, from the top.
    pub fn rows(&self) -> (rows: Vec<FormRow>)
        ensures
            rows@.map_values(|row: FormRow| row@) == self@.rows(),
    {
        let mut rows: Vec<FormRow> = Vec::new();
        rows.push(form_row("zeta = ", &self.zeta, self.typed_into(SecondOrderField::Zeta)));
        rows.push(form_row("wn = ", &self.wn, self.typed_into(SecondOrderField::Wn)));
        assert(rows@.map_values(|row: FormRow| row@) =~= self@.rows());
        rows
    }

    /// Whether the cursor has a place in the form: a parameter is being
    /// edited, and the column of the cursor is a number that fits.
    pub fn cursor_fits(&self) -> (fits: bool)
        ensures
            fits == (self@.edit is Some && (self@.edit->0.input.cursor as u16)
                + self@.edit->0.field.column() <= u16::MAX),
    {
        match &self.edit {
            Some(edit) => {
                let cursor = edit.input().cursor;
                #[verifier::truncate] (cursor as u16) <= u16::MAX - edit.field().column()
            },
            None => false,
        }
    }

    /// Where the cursor stands in the form, as column and row: the column is
    /// that of the parameter being edited plus the cursor in its text.
    pub fn get_cursor_offsets(&self) -> (offsets: (u16, u16))
        requires
            self@.edit is Some,
            (self@.edit->0.input.cursor as u16) + self@.edit->0.field.column() <= u16::MAX,
        ensures
            offsets.0 == (self@.edit->0.input.cursor as u16) + self@.edit->0.field.column(),
            offsets.1 == self@.edit->0.field.row(),
    {
        let edit = self.edit.as_ref().unwrap();
        let cursor = edit.input().cursor;
        let field = edit.field();
        (#[verifier::truncate] (cursor as u16) + field.column(), field.row())
    }
}

/// The plant as the proofs see it.
pub struct SecondOrderSystemView<V> {
    pub settings: SecondOrderSettingsView<V>,
    /// The time of the next sample.
    pub x: V,
    /// The sampling interval.
    pub ts: V,
    /// The coefficients of the difference equation: those of the two earlier
    /// outputs, and those of the three latest inputs.
    pub k: Coefficients<V>,
    /// The latest three inputs, newest first.
    pub u: (V, V, V),
    /// The latest two outputs, newer first.
    pub y_k: (V, V),
    /// The number zero.
    pub zero: V,
}

impl<V> SecondOrderSystemView<V> {
    /// The plant once it has been given the input `u`: the input history
    /// takes `u` in front and lets go of its oldest value.
    pub open spec fn with_input(self, u: V) -> Self {
        SecondOrderSystemView { u: (u, self.u.0, self.u.1), ..self }
    }

    /// The plant after a step in which the difference equation gave `y`:
    /// the output history takes `y` in front, and the clock stands at
    /// `next_clock`.
    pub open spec fn advanced(self, y: V, next_clock: V) -> Self {
        SecondOrderSystemView { y_k: (y, self.y_k.0), x: next_clock, ..self }
    }

    /// The plant started over: clock, inputs and outputs at zero. The
    /// parameters and coefficients stay.
    pub open spec fn restarted(self) -> Self {
        SecondOrderSystemView {
            x: self.zero,
            u: (self.zero, self.zero, self.zero),
            y_k: (self.zero, self.zero),
            ..self
        }
    }

    /// The plant after a key press on the form of its parameters. `update`
    /// holds the number that the text being typed stands for, if it is one,
    /// and the coefficients that go with it. Where the key makes the form
    /// take the number, the coefficients are replaced in the same step.
    pub open spec fn after_key(self, key: Key, update: Option<Update<V>>) -> Self {
        SecondOrderSystemView {
            settings: self.settings.after_key(key, update_param(update)),
            k: coefficients_after(self.k, key, update),
            ..self
        }
    }
}

/// The state of a second-order plant,
/// `y[k] = -a1 y[k-1] - a2 y[k-2] + b0 u[k] + b1 u[k-1] + b2 u[k-2]`.
///
/// The plant keeps damping ratio and natural frequency, the coefficients
/// derived from them, and the latest inputs and outputs. It does not compute
/// with numbers: the caller evaluates the difference equation and hands in
/// the result. A parameter changes only together with the coefficients, so
/// that the two never drift apart.
pub struct SecondOrderSystem<V> {
    settings: SecondOrderSettings<V>,
    x: V,
    ts: V,
    k: Coefficients<V>,
    u: (V, V, V),
    y_k: (V, V),
    zero: V,
}

impl<V> View for SecondOrderSystem<V> {
    type V = SecondOrderSystemView<V>;

    closed spec fn view(&self) -> SecondOrderSystemView<V> {
        SecondOrderSystemView {
            settings: self.settings@,
            x: self.x,
            ts: self.ts,
            k: self.k,
            u: self.u,
            y_k: self.y_k,
            zero: self.zero,
        }
    }
}

impl<V: Copy> SecondOrderSystem<V> {
    /// The text of the open edit is plain ASCII with the cursor inside it.
    pub open spec fn wf(&self) -> bool {
        self@.settings.edit is Some ==> self@.settings.edit->0.input.wf()
    }

    /// A plant with the given parameters, sampling interval `ts` and
    /// coefficients `k`, with the clock and the inputs at `zero`. The two
    /// latest outputs are `y_0_1`, or `zero` where none are given.
    pub fn new(
        zeta: Param<V>,
        wn: Param<V>,
        ts: V,
        y_0_1: Option<(V, V)>,
        k: Coefficients<V>,
        zero: V,
    ) -> (plant: Self)
        ensures
            plant.wf(),
            plant@ == (SecondOrderSystemView {
                settings: SecondOrderSettingsView { zeta: zeta@, wn: wn@, edit: None },
                x: zero,
                ts,
                k,
                u: (zero, zero, zero),
                y_k: match y_0_1 {
                    Some(outputs) => outputs,
                    None => (zero, zero),
                },
                zero,
            }),
    {
        SecondOrderSystem {
            settings: SecondOrderSettings::new(zeta, wn),
            x: zero,
            ts,
            k,
            u: (zero, zero, zero),
            y_k: match y_0_1 {
                Some(outputs) => outputs,
                None => (zero, zero),
            },
            zero,
        }
    }

    /// The parameters and their form.
    pub fn settings(&self) -> (settings: &SecondOrderSettings<V>)
        ensures
            settings@ == self@.settings,
    {
        &self.settings
    }

    /// The time of the next sample.
    pub fn clock(&self) -> (x: V)
        ensures
            x == self@.x,
    {
        self.x
    }

    /// The sampling interval.
    pub fn ts(&self) -> (ts: V)
        ensures
            ts == self@.ts,
    {
        self.ts
    }

    /// The coefficients of the difference equation.
    pub fn coefficients(&self) -> (k: &Coefficients<V>)
        ensures
            *k == self@.k,
    {
        &self.k
    }

    /// The latest three inputs, newest first.
    pub fn inputs(&self) -> (u: (V, V, V))
        ensures
            u == self@.u,
    {
        self.u
    }

    /// The latest two outputs, newer first.
    pub fn outputs(&self) -> (y_k: (V, V))
        ensures
            y_k == self@.y_k,
    {
        self.y_k
    }

    /// Gives the damping ratio a new value, and the difference equation the
    /// coefficients that go with it.
    pub fn set_zeta(&mut self, update: Update<V>)
        ensures
            final(self)@ == (SecondOrderSystemView {
                settings: old(self)@.settings.with_param(SecondOrderField::Zeta, update.param@),
                k: update.coefficients,
                ..old(self)@
            }),
            old(self).wf() ==> final(self).wf(),
    {
        self.settings.set_param(SecondOrderField::Zeta, update.param);
        self.k = update.coefficients;
    }

    /// The damping ratio.
    pub fn get_zeta(&self) -> (zeta: V)
        ensures
            zeta == self@.settings.zeta.value,
    {
        *self.settings.param(SecondOrderField::Zeta).value()
    }

    /// Gives the natural frequency a new value, and the difference equation
    /// the coefficients that go with it.
    pub fn set_wn(&mut self, update: Update<V>)
        ensures
            final(self)@ == (SecondOrderSystemView {
                settings: old(self)@.settings.with_param(SecondOrderField::Wn, update.param@),
                k: update.coefficients,
                ..old(self)@
            }),
            old(self).wf() ==> final(self).wf(),
    {
        self.settings.set_param(SecondOrderField::Wn, update.param);
        self.k = update.coefficients;
    }

    /// The natural frequency.
    pub fn get_wn(&self) -> (wn: V)
        ensures
            wn == self@.settings.wn.value,
    {
        *self.settings.param(SecondOrderField::Wn).value()
    }

    /// Takes `u` as the newest input: the two inputs before it move back by
    /// one place, and the oldest is let go.
    pub fn set_input(&mut self, u: V)
        ensures
            final(self)@ == old(self)@.with_input(u),
    {
        self.u.2 = self.u.1;
        self.u.1 = self.u.0;
        self.u.0 = u;
    }

    /// Completes a step. The caller has computed `y`, the value of the
    /// difference equation on the latest two outputs and three inputs, and
    /// `next_clock`, the clock plus the sampling interval. The output
    /// history moves on by one place, and the sample returned is `y` at the
    /// time the clock showed.
    pub fn advance(&mut self, y: V, next_clock: V) -> (sample: (V, V))
        ensures
            sample == (old(self)@.x, y),
            final(self)@ == old(self)@.advanced(y, next_clock),
    {
        let point = (self.x, y);
        self.x = next_clock;
        self.y_k.1 = self.y_k.0;
        self.y_k.0 = y;
        point
    }

    /// Starts the plant over: clock, inputs and outputs go back to zero, and
    /// the parameters stay.
    pub fn reset(&mut self)
        ensures
            final(self)@ == old(self)@.restarted(),
            final(self)@.x == final(self)@.zero,
    {
        self.x = self.zero;
        self.u = (self.zero, self.zero, self.zero);
        self.y_k = (self.zero, self.zero);
    }

    /// Opens the edit of the damping ratio, whatever was open before.
    pub fn set_edit(&mut self)
        ensures
            final(self).wf(),
            final(self)@ == (SecondOrderSystemView {
                settings: old(self)@.settings.opened_on(SecondOrderField::Zeta),
                ..old(self)@
            }),
    {
        self.settings.set_edit();
    }

    /// Applies a key press to the form of the parameters. `update` holds the
    /// number that the text being typed stands for, if it is one, and the
    /// coefficients that the difference equation has with that number in
    /// the place of the parameter being edited. When the key ends the edit,
    /// `editing` becomes `Editing::Nothing`.
    pub fn edit(&mut self, editing: &mut Editing, key: Key, update: Option<Update<V>>)
        requires
            old(self).wf(),
        ensures
            final(self).wf(),
            final(self)@ == old(self)@.after_key(key, update),
            *final(editing) == if ends_edit(key) {
                Editing::Nothing
            } else {
                *old(editing)
            },
    {
        match update {
            Some(update) => {
                match key {
                    Key::Down | Key::Up | Key::Enter => {
                        self.k = update.coefficients;
                    },
                    _ => {},
                }
                self.settings.edit(editing, key, Some(update.param));
            },
            None => {
                self.settings.edit(editing, key, None);
            },
        }
    }

    /// The name under which the plant is registered.
    pub fn name(&self) -> (name: &'static str)
        ensures
            name == PLANT_NAME,
    {
        PLANT_NAME
    }
}

} // verus!
