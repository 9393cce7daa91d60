//! The parameter of a step reference signal, its amplitude, and the form in
//! which it is edited.

use vstd::prelude::*;
use crate::form::{FormRow, FormRowView};
use crate::param::{param_view, Param, ParamView};
use crate::utils::{lemma_ascii_positions, string_len, NumericInput, TextField};
use crate::{Editing, Key};

verus! {

/// The name under which the step signal is registered.
pub const REFERENCE_NAME: &'static str = "StepSignal";

/// The column at which the text of the amplitude starts in the form.
pub const AMPLITUDE_COLUMN: u16 = 13;

/// The row of the amplitude in the form.
pub const AMPLITUDE_ROW: u16 = 1;

/// The amplitude and its form as the proofs see them.
pub struct StepSettingsView<V> {
    pub amplitude: ParamView<V>,
    pub amplitude_edit: Option<TextField>,
}

impl<V> StepSettingsView<V> {
    /// The text that the next key press goes to: the open edit, or else a
    /// fresh edit of the amplitude.
    pub open spec fn pending(self) -> TextField {
        match self.amplitude_edit {
            Some(input) => input,
            None => TextField::opened(self.amplitude.text),
        }
    }

    /// The row that the form shows. While the signal is being edited
    /// (`active`), it shows the pending text; otherwise the amplitude.
    pub open spec fn row(self, active: bool) -> FormRowView {
        FormRowView {
            label: "Set point = "@,
            text: if active {
                self.pending().text
            } else {
                self.amplitude.text
            },
            active,
        }
    }

    /// Whether a key press ends the edit: `Esc` always, `Enter` if the text
    /// is a number.
    pub open spec fn ends(key: Key, parsed: Option<ParamView<V>>) -> bool {
        key == Key::Esc || (key == Key::Enter && parsed is Some)
    }

    /// The settings after a key press. `parsed` is the number that the
    /// pending text stands for, if it is one. `Enter` makes that number the
    /// amplitude and ends the edit; while the text is no number, `Enter`
    /// does nothing. `Esc` ends the edit and keeps the amplitude. Every
    /// other key goes to the text.
    pub open spec fn after_key(self, key: Key, parsed: Option<ParamView<V>>) -> Self {
        match key {
            Key::Esc => StepSettingsView { amplitude_edit: None, ..self },
            Key::Enter => match parsed {
                Some(param) => StepSettingsView { amplitude: param, amplitude_edit: None },
                None => StepSettingsView { amplitude_edit: Some(self.pending()), ..self },
            },
            _ => StepSettingsView { amplitude_edit: Some(self.pending().typed(key)), ..self },
        }
    }
}

/// The amplitude of the step signal and the edit of it that is open, if any.
pub struct StepSettings<V> {
    amplitude: Param<V>,
    amplitude_edit: Option<NumericInput>,
}

impl<V> View for StepSettings<V> {
    type V = StepSettingsView<V>;

    closed spec fn view(&self) -> StepSettingsView<V> {
        StepSettingsView {
            amplitude: self.amplitude@,
            amplitude_edit: match self.amplitude_edit {
                Some(input) => Some(input@),
                None => None,
            },
        }
    }
}

impl<V> StepSettings<V> {
    /// The text of the open edit is plain ASCII with the cursor inside it.
    pub open spec fn wf(&self) -> bool {
        self@.amplitude_edit is Some ==> self@.amplitude_edit->0.wf()
    }

    /// Settings with the given amplitude and no edit open.
    pub fn new(amplitude: Param<V>) -> (settings: Self)
        ensures
            settings.wf(),
            settings@ == (StepSettingsView { amplitude: amplitude@, amplitude_edit: None }),
    {
        StepSettings { amplitude, amplitude_edit: None }
    }

    /// The amplitude.
    pub fn amplitude(&self) -> (amplitude: &Param<V>)
        ensures
            amplitude@ == self@.amplitude,
    {
        &self.amplitude
    }

    /// Gives the amplitude a new value. An open edit is left as it is.
    pub fn set_amplitude(&mut self, amplitude: Param<V>)
        ensures
            final(self)@ == (StepSettingsView { amplitude: amplitude@, ..old(self)@ }),
            old(self).wf() ==> final(self).wf(),
    {
        self.amplitude = amplitude;
    }

    /// The edit that is open, if any.
    pub fn editing(&self) -> (input: Option<&NumericInput>)
        ensures
            input is Some <==> self@.amplitude_edit is Some,
            input is Some ==> input->0@ == self@.amplitude_edit->0,
    {
        self.amplitude_edit.as_ref()
    }

    /// The text that the next key press applies to. A caller that hands
    /// `edit` the number typed parses this text.
    pub fn input_text(&self) -> (text: &String)
        ensures
            text@ == self@.pending().text,
    {
        match &self.amplitude_edit {
            Some(input) => &input.value,
            None => self.amplitude.text(),
        }
    }

    /// The row that the form shows. While the signal is being edited
    /// (`active`), it shows the text typed so far, or the amplitude before
    /// any key was pressed; otherwise it shows the amplitude.
    pub fn row(&self, active: bool) -> (row: FormRow)
        ensures
            row@ == self@.row(active),
    {
        let text = if active {
            self.input_text().clone()
        } else {
            self.amplitude.text().clone()
        };
        FormRow { label: "Set point = ", text, active }
    }

    /// Does nothing: the edit of the amplitude opens with the first key.
    pub fn set_edit(&mut self)
        ensures
            *final(self) == *old(self),
    {
    }

    /// Applies a key press to the form. `parsed` is the number that the text
    /// of [`input_text`](Self::input_text) stands for, if it is one. When the
    /// key ends the edit, `editing` becomes `Editing::Nothing`.
    pub fn edit(&mut self, editing: &mut Editing, key: Key, parsed: Option<Param<V>>)
        requires
            old(self).wf(),
        ensures
            final(self).wf(),
            final(self)@ == old(self)@.after_key(key, param_view(parsed)),
            *final(editing) == if StepSettingsView::ends(key, param_view(parsed)) {
                Editing::Nothing
            } else {
                *old(editing)
            },
    {
        if self.amplitude_edit.is_none() {
            let text = self.amplitude.text().clone();
            proof {
                lemma_ascii_positions(text@, text@.len() as int);
            }
            self.amplitude_edit = Some(NumericInput::from(text));
        }
        match key {
            Key::Esc => {
                *editing = Editing::Nothing;
                self.amplitude_edit = None;
            },
            Key::Enter => {
                if let Some(param) = parsed {
                    self.amplitude = param;
                    self.amplitude_edit = None;
                    *editing = Editing::Nothing;
                }
            },
            _ => {
                let mut input = self.amplitude_edit.take().unwrap();
                input.apply_key(key);
                self.amplitude_edit = Some(input);
            },
        }
    }

    /// The cursor: that of the open edit, or else the place behind the
    /// amplitude.
    fn cursor(&self) -> (cursor: usize)
        ensures
            cursor == self@.pending().cursor,
    {
        match &self.amplitude_edit {
            Some(input) => input.cursor,
            None => {
                let text = self.amplitude.text();
                proof {
                    lemma_ascii_positions(text@, text@.len() as int);
                }
                string_len(text)
            },
        }
    }

    /// Whether the column of the cursor is a number that fits.
    pub fn cursor_fits(&self) -> (fits: bool)
        ensures
            fits == ((self@.pending().cursor as u16) + AMPLITUDE_COLUMN <= u16::MAX),
    {
        let cursor = self.cursor();
        #[verifier::truncate] (cursor as u16) <= u16::MAX - AMPLITUDE_COLUMN
    }

    /// Where the cursor stands in the form, as column and row: in the open
    /// edit, or else behind the amplitude.
    pub fn get_cursor_offsets(&self) -> (offsets: (u16, u16))
        requires
            (self@.pending().cursor as u16) + AMPLITUDE_COLUMN <= u16::MAX,
        ensures
            offsets.0 == (self@.pending().cursor as u16) + AMPLITUDE_COLUMN,
            offsets.1 == AMPLITUDE_ROW,
    {
        let cursor = self.cursor();
        (#[verifier::truncate] (cursor as u16) + AMPLITUDE_COLUMN, AMPLITUDE_ROW)
    }
}

/// The step signal as the proofs see it.
pub struct StepSignalView<V> {
    pub settings: StepSettingsView<V>,
    /// The time of the next sample.
    pub x: V,
    /// The sampling interval.
    pub ts: V,
    /// The number zero.
    pub zero: V,
}

/// A step signal: a set-point that has one value, its amplitude, at all
/// times.
///
/// The signal does not compute with numbers: the caller adds the sampling
/// interval to the clock and hands in the sum.
pub struct StepSignal<V> {
    settings: StepSettings<V>,
    x: V,
    ts: V,
    zero: V,
}

impl<V> View for StepSignal<V> {
    type V = StepSignalView<V>;

    closed spec fn view(&self) -> StepSignalView<V> {
        StepSignalView { settings: self.settings@, x: self.x, ts: self.ts, zero: self.zero }
    }
}

impl<V: Copy> StepSignal<V> {
    /// The text of the open edit is plain ASCII with the cursor inside it.
    pub open spec fn wf(&self) -> bool {
        self@.settings.amplitude_edit is Some ==> self@.settings.amplitude_edit->0.wf()
    }

    /// A step signal of the given amplitude and sampling interval `ts`, with
    /// the clock at `zero`.
    pub fn new(ts: V, amplitude: Param<V>, zero: V) -> (signal: Self)
        ensures
            signal.wf(),
            signal@ == (StepSignalView {
                settings: StepSettingsView { amplitude: amplitude@, amplitude_edit: None },
                x: zero,
                ts,
                zero,
            }),
    {
        StepSignal { settings: StepSettings::new(amplitude), x: zero, ts, zero }
    }

    /// The amplitude and its form.
    pub fn settings(&self) -> (settings: &StepSettings<V>)
        ensures
            settings@ == self@.settings,
    {
        &self.settings
    }

    /// The time of the next sample.
    pub fn clock(&self) -> (x: V)
        ensures
            x == self@.x,
    {
        self.x
    }

    /// The sampling interval.
    pub fn ts(&self) -> (ts: V)
        ensures
            ts == self@.ts,
    {
        self.ts
    }

    /// Produces the next sample: the amplitude at the time the clock shows,
    /// whatever that time is. The clock then stands at `next_clock`, which
    /// the caller has computed as the clock plus the sampling interval.
    pub fn advance(&mut self, next_clock: V) -> (sample: (V, V))
        ensures
            sample == (old(self)@.x, old(self)@.settings.amplitude.value),
            final(self)@ == (StepSignalView { x: next_clock, ..old(self)@ }),
    {
        let point = (self.x, *self.settings.amplitude().value());
        self.x = next_clock;
        point
    }

    /// Puts the clock back to zero and leaves the amplitude as it is.
    pub fn reset(&mut self)
        ensures
            final(self)@ == (StepSignalView { x: old(self)@.zero, ..old(self)@ }),
    {
        self.x = self.zero;
    }

    /// Gives the amplitude a new value. An open edit is left as it is.
    pub fn set_amplitude(&mut self, amplitude: Param<V>)
        ensures
            final(self)@ == (StepSignalView {
                settings: StepSettingsView { amplitude: amplitude@, ..old(self)@.settings },
                ..old(self)@
            }),
            old(self).wf() ==> final(self).wf(),
    {
        self.settings.set_amplitude(amplitude);
    }

    /// Does nothing: the edit of the amplitude opens with the first key.
    pub fn set_edit(&mut self)
        ensures
            *final(self) == *old(self),
    {
    }

    /// Applies a key press to the form of the amplitude. `parsed` is the
    /// number that the text being typed stands for, if it is one. When the
    /// key ends the edit, `editing` becomes `Editing::Nothing`.
    pub fn edit(&mut self, editing: &mut Editing, key: Key, parsed: Option<Param<V>>)
        requires
            old(self).wf(),
        ensures
            final(self).wf(),
            final(self)@ == (StepSignalView {
                settings: old(self)@.settings.after_key(key, param_view(parsed)),
                ..old(self)@
            }),
            *final(editing) == if StepSettingsView::ends(key, param_view(parsed)) {
                Editing::Nothing
            } else {
                *old(editing)
            },
    {
        self.settings.edit(editing, key, parsed);
    }

    /// The name under which the signal is registered.
    pub fn name(&self) -> (name: &'static str)
        ensures
            name == REFERENCE_NAME,
    {
        REFERENCE_NAME
    }
}

} // verus!
