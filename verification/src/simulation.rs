//! The simulation: one reference signal, one controller and one plant,
//! advanced in lock-step one tick at a time, with a bounded history of the
//! samples of each.

use vstd::prelude::*;
use crate::controllers::Controller;
use crate::inputs::Reference;
use crate::menu::{can_move, can_move_selection, move_selection, moved, picked, row_of};
use crate::plants::Plant;
use crate::registry::{all_callable, position_of, Registry};
use crate::window::{latest, SampleWindow};
use crate::{Editing, Key};

verus! {

/// By how many ticks the displayed time window has slid once `ticks` ticks
/// have run with histories of `capacity` samples: it slides on every tick
/// that leaves the history of the plant full. The count stops at the largest
/// `usize`.
pub open spec fn window_shift_after(ticks: nat, capacity: usize) -> usize {
    if ticks < capacity {
        0
    } else if ticks - capacity + 1 >= usize::MAX {
        usize::MAX
    } else {
        (ticks - capacity + 1) as usize
    }
}

/// How many of `ticks` samples a history of `capacity` keeps: the smaller of
/// the two numbers.
pub open spec fn kept(ticks: nat, capacity: usize) -> nat {
    if ticks <= capacity {
        ticks
    } else {
        capacity as nat
    }
}

/// The simulation as the proofs see it.
pub struct SimulationView<V, R, C, P> {
    pub reference: R,
    pub controller: C,
    pub plant: P,
    /// Every sample of the reference signal since the last reset.
    pub reference_samples: Seq<(V, V)>,
    /// Every sample of the controller output since the last reset.
    pub controller_samples: Seq<(V, V)>,
    /// Every sample of the plant output since the last reset.
    pub plant_samples: Seq<(V, V)>,
    pub samples_per_window: usize,
    pub window_shift: usize,
    pub simulation_on: bool,
    pub editing: Editing,
    pub controller_active: bool,
    /// The controller output that is held while the controller is bypassed
    /// and has not produced any yet.
    pub rest_output: V,
}

impl<V, R: Reference<V>, C: Controller<V>, P: Plant<V>> SimulationView<V, R, C, P> {
    /// The number of ticks since the last reset.
    pub open spec fn ticks(self) -> nat {
        self.plant_samples.len()
    }

    /// The history of the reference signal that is kept for display.
    pub open spec fn reference_data(self) -> Seq<(V, V)> {
        latest(self.reference_samples, self.samples_per_window as nat)
    }

    /// The history of the controller output that is kept for display.
    pub open spec fn controller_data(self) -> Seq<(V, V)> {
        latest(self.controller_samples, self.samples_per_window as nat)
    }

    /// The history of the plant output that is kept for display.
    pub open spec fn plant_data(self) -> Seq<(V, V)> {
        latest(self.plant_samples, self.samples_per_window as nat)
    }

    /// Each history holds one sample per tick, and the time window has slid
    /// as the number of ticks says.
    pub open spec fn consistent(self) -> bool {
        &&& self.samples_per_window >= 1
        &&& self.reference_samples.len() == self.ticks()
        &&& self.controller_samples.len() == self.ticks()
        &&& self.window_shift == window_shift_after(self.ticks(), self.samples_per_window)
    }

    /// The controller output that a bypassed tick repeats: the latest one,
    /// or the rest output before there is any.
    pub open spec fn held_output(self) -> V {
        if self.controller_samples.len() > 0 {
            self.controller_samples.last().1
        } else {
            self.rest_output
        }
    }

    /// Whether a controller that was `before` may be `after` once it has
    /// been given the set-point `r`, has produced the sample `c`, and has
    /// been given the plant output `y`, in this order.
    pub open spec fn controller_steps(before: C, r: V, c: (V, V), y: V, after: C) -> bool {
        exists|aimed: C, moved_on: C|
            #![trigger before.takes_set_point(r, aimed), aimed.advances(c, moved_on)]
            before.takes_set_point(r, aimed) && aimed.advances(c, moved_on)
                && moved_on.takes_plant_output(y, after)
    }

    /// Whether a plant that was `before` may be `after` once it has been
    /// given the input `u` and has then produced the sample `p`.
    pub open spec fn plant_steps(before: P, u: V, p: (V, V), after: P) -> bool {
        exists|driven: P|
            #![trigger before.takes_input(u, driven)]
            before.takes_input(u, driven) && driven.advances(p, after)
    }

    /// Whether a bypassed controller that was `before` may be `after` once
    /// it has moved its clock on, and `c` is the sample recorded for it: the
    /// time of the sample that it produced, with the value `held`.
    pub open spec fn controller_idles(before: C, held: V, c: (V, V), after: C) -> bool {
        exists|produced: (V, V)|
            #![trigger before.advances(produced, after)]
            before.advances(produced, after) && c == (produced.0, held)
    }

    /// Whether `after` may be the simulation one tick later.
    ///
    /// Each history has one sample more: `r`, `c` and `p` below. The
    /// reference signal produces `r` first. With the controller active, the
    /// value of `r` becomes the set-point, the controller produces `c`, the
    /// plant takes the value of `c` as input and produces `p`, and the value
    /// of `p` is fed back to the controller. With the controller bypassed,
    /// the controller only moves its clock on, `c` repeats the held output
    /// at the new time, and the plant takes the value of `r` directly.
    /// Everything else stays, but that the time window slides once the
    /// history of the plant is full.
    pub open spec fn ticks_to(self, after: Self) -> bool {
        let r = after.reference_samples.last();
        let c = after.controller_samples.last();
        let p = after.plant_samples.last();
        &&& after.reference_samples == self.reference_samples.push(r)
        &&& after.controller_samples == self.controller_samples.push(c)
        &&& after.plant_samples == self.plant_samples.push(p)
        &&& self.reference.advances(r, after.reference)
        &&& if self.controller_active {
            &&& Self::controller_steps(self.controller, r.1, c, p.1, after.controller)
            &&& Self::plant_steps(self.plant, c.1, p, after.plant)
        } else {
            &&& Self::controller_idles(self.controller, self.held_output(), c, after.controller)
            &&& Self::plant_steps(self.plant, r.1, p, after.plant)
        }
        &&& after.window_shift == window_shift_after(self.ticks() + 1, self.samples_per_window)
        &&& after.samples_per_window == self.samples_per_window
        &&& after.simulation_on == self.simulation_on
        &&& after.editing == self.editing
        &&& after.controller_active == self.controller_active
        &&& after.rest_output == self.rest_output
    }

    /// Whether `after` may be the simulation `n` ticks later.
    pub open spec fn ticks_to_in(self, n: nat, after: Self) -> bool
        decreases n,
    {
        if n == 0 {
            after == self
        } else {
            exists|before: Self|
                #![trigger before.ticks_to(after)]
                self.ticks_to_in((n - 1) as nat, before) && before.ticks_to(after)
        }
    }

    /// Whether `after` may be the simulation started over: every component
    /// reset, the histories empty, the time window back at the start. What
    /// is being edited, and whether the simulation runs and the controller
    /// is active, stay.
    pub open spec fn restarts_to(self, after: Self) -> bool {
        &&& self.reference.resets(after.reference)
        &&& self.controller.resets(after.controller)
        &&& self.plant.resets(after.plant)
        &&& after.reference_samples == Seq::<(V, V)>::empty()
        &&& after.controller_samples == Seq::<(V, V)>::empty()
        &&& after.plant_samples == Seq::<(V, V)>::empty()
        &&& after.window_shift == 0
        &&& after.samples_per_window == self.samples_per_window
        &&& after.simulation_on == self.simulation_on
        &&& after.editing == self.editing
        &&& after.controller_active == self.controller_active
        &&& after.rest_output == self.rest_output
    }

    /// A tick adds one sample to each history, lets the oldest one go where
    /// the history kept for display is full, and keeps the view consistent.
    pub proof fn lemma_tick(self, after: Self)
        requires
            self.consistent(),
            self.ticks_to(after),
        ensures
            after.consistent(),
            after.ticks() == self.ticks() + 1,
            after.samples_per_window == self.samples_per_window,
            after.reference_data() == crate::window::window_push(
                self.reference_data(),
                after.reference_samples.last(),
                self.samples_per_window as nat,
            ),
            after.controller_data() == crate::window::window_push(
                self.controller_data(),
                after.controller_samples.last(),
                self.samples_per_window as nat,
            ),
            after.plant_data() == crate::window::window_push(
                self.plant_data(),
                after.plant_samples.last(),
                self.samples_per_window as nat,
            ),
    {
        let capacity = self.samples_per_window as nat;
        crate::window::lemma_push_latest(
            self.reference_samples,
            after.reference_samples.last(),
            capacity,
        );
        crate::window::lemma_push_latest(
            self.controller_samples,
            after.controller_samples.last(),
            capacity,
        );
        crate::window::lemma_push_latest(self.plant_samples, after.plant_samples.last(), capacity);
    }

    /// After any number of ticks each history that is kept for display holds
    /// the most recent samples of its component, in the order in which they
    /// were produced: all of them while they are at most
    /// `samples_per_window`, and the last `samples_per_window` of them from
    /// then on.
    pub proof fn lemma_histories_after_ticks(self, n: nat, after: Self)
        requires
            self.consistent(),
            self.ticks_to_in(n, after),
        ensures
            after.consistent(),
            after.ticks() == self.ticks() + n,
            after.samples_per_window == self.samples_per_window,
            after.reference_data().len() == kept(after.ticks(), self.samples_per_window),
            after.controller_data().len() == kept(after.ticks(), self.samples_per_window),
            after.plant_data().len() == kept(after.ticks(), self.samples_per_window),
            forall|i: int|
                0 <= i < kept(after.ticks(), self.samples_per_window)
                    ==> #[trigger] after.reference_data()[i] == after.reference_samples[after.ticks()
                    - kept(after.ticks(), self.samples_per_window) + i],
            forall|i: int|
                0 <= i < kept(after.ticks(), self.samples_per_window)
                    ==> #[trigger] after.controller_data()[i] == after.controller_samples[after.ticks()
                    - kept(after.ticks(), self.samples_per_window) + i],
            forall|i: int|
                0 <= i < kept(after.ticks(), self.samples_per_window)
                    ==> #[trigger] after.plant_data()[i] == after.plant_samples[after.ticks() - kept(
                    after.ticks(),
                    self.samples_per_window,
                ) + i],
        decreases n,
    {
        if n > 0 {
            let before = choose|before: Self|
                #![trigger before.ticks_to(after)]
                self.ticks_to_in((n - 1) as nat, before) && before.ticks_to(after);
            self.lemma_histories_after_ticks((n - 1) as nat, before);
            before.lemma_tick(after);
        }
    }

    /// A simulation that was started over has empty histories, has run no
    /// tick, and shows the time window at the start.
    pub proof fn lemma_restarted(self, after: Self)
        requires
            self.samples_per_window >= 1,
            self.restarts_to(after),
        ensures
            after.consistent(),
            after.ticks() == 0,
            after.window_shift == 0,
            after.reference_data() == Seq::<(V, V)>::empty(),
            after.controller_data() == Seq::<(V, V)>::empty(),
            after.plant_data() == Seq::<(V, V)>::empty(),
    {
    }

    /// Whether `key` asks to leave the program: `q` or `Q` while nothing is
    /// being edited.
    pub open spec fn quits(self, key: Key) -> bool {
        self.editing == Editing::Nothing && (key == Key::Char('q') || key == Key::Char('Q'))
    }

    /// Whether `after` may be the simulation after `key` while nothing is
    /// being edited: `s` starts or stops it, the space bar bypasses or
    /// engages the controller, `i`, `p` and `c` open the parameters of
    /// reference, plant and controller, and `I`, `P` and `C` open the list of
    /// their variants. Any other key changes nothing.
    pub open spec fn commanded(self, key: Key, after: Self) -> bool {
        if key == Key::Char('s') || key == Key::Char('S') {
            after == (SimulationView { simulation_on: !self.simulation_on, ..self })
        } else if key == Key::Char(' ') {
            after == (SimulationView { controller_active: !self.controller_active, ..self })
        } else if key == Key::Char('i') {
            &&& self.reference.opens_edit(after.reference)
            &&& after == (SimulationView {
                editing: Editing::Reference,
                reference: after.reference,
                ..self
            })
        } else if key == Key::Char('I') {
            after == (SimulationView { editing: Editing::ReferenceType(None), ..self })
        } else if key == Key::Char('p') {
            &&& self.plant.opens_edit(after.plant)
            &&& after == (SimulationView { editing: Editing::Plant, plant: after.plant, ..self })
        } else if key == Key::Char('P') {
            after == (SimulationView { editing: Editing::PlantType(None), ..self })
        } else if key == Key::Char('c') {
            &&& self.controller.opens_edit(after.controller)
            &&& after == (SimulationView {
                editing: Editing::Controller,
                controller: after.controller,
                ..self
            })
        } else if key == Key::Char('C') {
            after == (SimulationView { editing: Editing::ControllerType(None), ..self })
        } else {
            after == self
        }
    }

    /// Whether `after` may be the simulation after the reference signal has
    /// taken `key` as part of the edit of its parameters.
    pub open spec fn reference_edited(self, key: Key, after: Self) -> bool {
        &&& self.reference.edits(self.editing, key, after.reference, after.editing)
        &&& after == (SimulationView { reference: after.reference, editing: after.editing, ..self })
    }

    /// Whether `after` may be the simulation after the plant has taken `key`
    /// as part of the edit of its parameters.
    pub open spec fn plant_edited(self, key: Key, after: Self) -> bool {
        &&& self.plant.edits(self.editing, key, after.plant, after.editing)
        &&& after == (SimulationView { plant: after.plant, editing: after.editing, ..self })
    }

    /// Whether `after` may be the simulation after the controller has taken
    /// `key` as part of the edit of its parameters.
    pub open spec fn controller_edited(self, key: Key, after: Self) -> bool {
        &&& self.controller.edits(self.editing, key, after.controller, after.editing)
        &&& after == (SimulationView {
            controller: after.controller,
            editing: after.editing,
            ..self
        })
    }

    /// Whether `after` may be the simulation started over with a reference signal
    /// that `factory` made, and nothing being edited.
    pub open spec fn reference_swapped<F: Fn() -> R>(self, factory: F, after: Self) -> bool {
        exists|fresh: R|
            #![trigger call_ensures(factory, (), fresh)]
            call_ensures(factory, (), fresh) && (SimulationView {
                reference: fresh,
                editing: Editing::Nothing,
                ..self
            }).restarts_to(after)
    }

    /// Whether `after` may be the simulation after `Enter` in the list of
    /// the variants of the reference signal, with `selected` highlighted, where the
    /// reference signal in use is called `name`: the list closes and, where the
    /// highlighted variant is another than the one in use, a fresh instance
    /// of it is put in place and the simulation starts over.
    pub open spec fn reference_entered<F: Fn() -> R>(
        self,
        selected: Option<usize>,
        variants: Seq<(Seq<char>, F)>,
        name: Seq<char>,
        after: Self,
    ) -> bool {
        match picked(selected, position_of(variants, name), variants.len()) {
            Some(row) => self.reference_swapped(variants[row].1, after),
            None => after == (SimulationView { editing: Editing::Nothing, ..self }),
        }
    }

    /// Whether `after` may be the simulation after `key` in the list of the
    /// variants of the reference signal, with `selected` highlighted. `Esc` closes
    /// the list, `Up` and `Down` move the highlight, `Enter` chooses, and
    /// any other key changes nothing.
    pub open spec fn reference_chosen<F: Fn() -> R>(
        self,
        key: Key,
        selected: Option<usize>,
        variants: Seq<(Seq<char>, F)>,
        after: Self,
    ) -> bool {
        match key {
            Key::Esc => after == (SimulationView { editing: Editing::Nothing, ..self }),
            Key::Down | Key::Up => after == (SimulationView {
                editing: Editing::ReferenceType(moved(selected, key, variants.len())),
                ..self
            }),
            Key::Enter => exists|name: Seq<char>|
                #![trigger self.reference.named(name)]
                self.reference.named(name) && self.reference_entered(
                    selected,
                    variants,
                    name,
                    after,
                ),
            _ => after == self,
        }
    }

    /// Whether `after` may be the simulation started over with a plant
    /// that `factory` made, and nothing being edited.
    pub open spec fn plant_swapped<F: Fn() -> P>(self, factory: F, after: Self) -> bool {
        exists|fresh: P|
            #![trigger call_ensures(factory, (), fresh)]
            call_ensures(factory, (), fresh) && (SimulationView {
                plant: fresh,
                editing: Editing::Nothing,
                ..self
            }).restarts_to(after)
    }

    /// Whether `after` may be the simulation after `Enter` in the list of
    /// the variants of the plant, with `selected` highlighted, where the
    /// plant in use is called `name`: the list closes and, where the
    /// highlighted variant is another than the one in use, a fresh instance
    /// of it is put in place and the simulation starts over.
    pub open spec fn plant_entered<F: Fn() -> P>(
        self,
        selected: Option<usize>,
        variants: Seq<(Seq<char>, F)>,
        name: Seq<char>,
        after: Self,
    ) -> bool {
        match picked(selected, position_of(variants, name), variants.len()) {
            Some(row) => self.plant_swapped(variants[row].1, after),
            None => after == (SimulationView { editing: Editing::Nothing, ..self }),
        }
    }

    /// Whether `after` may be the simulation after `key` in the list of the
    /// variants of the plant, with `selected` highlighted. `Esc` closes
    /// the list, `Up` and `Down` move the highlight, `Enter` chooses, and
    /// any other key changes nothing.
    pub open spec fn plant_chosen<F: Fn() -> P>(
        self,
        key: Key,
        selected: Option<usize>,
        variants: Seq<(Seq<char>, F)>,
        after: Self,
    ) -> bool {
        match key {
            Key::Esc => after == (SimulationView { editing: Editing::Nothing, ..self }),
            Key::Down | Key::Up => after == (SimulationView {
                editing: Editing::PlantType(moved(selected, key, variants.len())),
                ..self
            }),
            Key::Enter => exists|name: Seq<char>|
                #![trigger self.plant.named(name)]
                self.plant.named(name) && self.plant_entered(
                    selected,
                    variants,
                    name,
                    after,
                ),
            _ => after == self,
        }
    }

    /// Whether `after` may be the simulation started over with a controller
    /// that `factory` made, and nothing being edited.
    pub open spec fn controller_swapped<F: Fn() -> C>(self, factory: F, after: Self) -> bool {
        exists|fresh: C|
            #![trigger call_ensures(factory, (), fresh)]
            call_ensures(factory, (), fresh) && (SimulationView {
                controller: fresh,
                editing: Editing::Nothing,
                ..self
            }).restarts_to(after)
    }

    /// Whether `after` may be the simulation after `Enter` in the list of
    /// the variants of the controller, with `selected` highlighted, where the
    /// controller in use is called `name`: the list closes and, where the
    /// highlighted variant is another than the one in use, a fresh instance
    /// of it is put in place and the simulation starts over.
    pub open spec fn controller_entered<F: Fn() -> C>(
        self,
        selected: Option<usize>,
        variants: Seq<(Seq<char>, F)>,
        name: Seq<char>,
        after: Self,
    ) -> bool {
        match picked(selected, position_of(variants, name), variants.len()) {
            Some(row) => self.controller_swapped(variants[row].1, after),
            None => after == (SimulationView { editing: Editing::Nothing, ..self }),
        }
    }

    /// Whether `after` may be the simulation after `key` in the list of the
    /// variants of the controller, with `selected` highlighted. `Esc` closes
    /// the list, `Up` and `Down` move the highlight, `Enter` chooses, and
    /// any other key changes nothing.
    pub open spec fn controller_chosen<F: Fn() -> C>(
        self,
        key: Key,
        selected: Option<usize>,
        variants: Seq<(Seq<char>, F)>,
        after: Self,
    ) -> bool {
        match key {
            Key::Esc => after == (SimulationView { editing: Editing::Nothing, ..self }),
            Key::Down | Key::Up => after == (SimulationView {
                editing: Editing::ControllerType(moved(selected, key, variants.len())),
                ..self
            }),
            Key::Enter => exists|name: Seq<char>|
                #![trigger self.controller.named(name)]
                self.controller.named(name) && self.controller_entered(
                    selected,
                    variants,
                    name,
                    after,
                ),
            _ => after == self,
        }
    }

    /// Whether `key` can be handled: in a list of variants the move that it
    /// asks for can be made.
    pub open spec fn accepts_key(
        self,
        key: Key,
        references: nat,
        controllers: nat,
        plants: nat,
    ) -> bool {
        match self.editing {
            Editing::ReferenceType(selected) => can_move(selected, key, references),
            Editing::ControllerType(selected) => can_move(selected, key, controllers),
            Editing::PlantType(selected) => can_move(selected, key, plants),
            _ => true,
        }
    }

    /// Whether `after` may be the simulation after `key`. While nothing is
    /// being edited the key is a command; while the parameters of a
    /// component are being edited it goes to that component; while a list
    /// of variants is open it goes to the list.
    pub open spec fn handles<FR: Fn() -> R, FC: Fn() -> C, FP: Fn() -> P>(
        self,
        key: Key,
        references: Seq<(Seq<char>, FR)>,
        controllers: Seq<(Seq<char>, FC)>,
        plants: Seq<(Seq<char>, FP)>,
        after: Self,
    ) -> bool {
        match self.editing {
            Editing::Nothing => self.commanded(key, after),
            Editing::Reference => self.reference_edited(key, after),
            Editing::Plant => self.plant_edited(key, after),
            Editing::Controller => self.controller_edited(key, after),
            Editing::ReferenceType(selected) => self.reference_chosen(
                key,
                selected,
                references,
                after,
            ),
            Editing::PlantType(selected) => self.plant_chosen(key, selected, plants, after),
            Editing::ControllerType(selected) => self.controller_chosen(
                key,
                selected,
                controllers,
                after,
            ),
        }
    }

    /// Whether `after` may be the simulation once an open list of variants
    /// shows its highlight: where none is set yet, the variant in use is
    /// highlighted, if the list holds it. Nothing else changes.
    pub open spec fn selection_shown<FR, FC, FP>(
        self,
        references: Seq<(Seq<char>, FR)>,
        controllers: Seq<(Seq<char>, FC)>,
        plants: Seq<(Seq<char>, FP)>,
        after: Self,
    ) -> bool {
        match self.editing {
            Editing::ReferenceType(None) => exists|name: Seq<char>|
                #![trigger self.reference.named(name)]
                self.reference.named(name) && after == (SimulationView {
                    editing: Editing::ReferenceType(row_of(position_of(references, name))),
                    ..self
                }),
            Editing::ControllerType(None) => exists|name: Seq<char>|
                #![trigger self.controller.named(name)]
                self.controller.named(name) && after == (SimulationView {
                    editing: Editing::ControllerType(row_of(position_of(controllers, name))),
                    ..self
                }),
            Editing::PlantType(None) => exists|name: Seq<char>|
                #![trigger self.plant.named(name)]
                self.plant.named(name) && after == (SimulationView {
                    editing: Editing::PlantType(row_of(position_of(plants, name))),
                    ..self
                }),
            _ => after == self,
        }
    }
}

/// A running simulation of the loop.
pub struct Simulation<V, R, C, P> {
    reference: R,
    controller: C,
    plant: P,
    reference_data: SampleWindow<(V, V)>,
    controller_data: SampleWindow<(V, V)>,
    plant_data: SampleWindow<(V, V)>,
    window_shift: usize,
    simulation_on: bool,
    editing: Editing,
    is_controller_active: bool,
    rest_output: V,
}

impl<V, R, C, P> View for Simulation<V, R, C, P> {
    type V = SimulationView<V, R, C, P>;

    closed spec fn view(&self) -> SimulationView<V, R, C, P> {
        SimulationView {
            reference: self.reference,
            controller: self.controller,
            plant: self.plant,
            reference_samples: self.reference_data.pushed(),
            controller_samples: self.controller_data.pushed(),
            plant_samples: self.plant_data.pushed(),
            samples_per_window: self.plant_data.spec_capacity(),
            window_shift: self.window_shift,
            simulation_on: self.simulation_on,
            editing: self.editing,
            controller_active: self.is_controller_active,
            rest_output: self.rest_output,
        }
    }
}

impl<V: Copy, R: Reference<V>, C: Controller<V>, P: Plant<V>> Simulation<V, R, C, P> {
    /// The three histories are windows of one capacity over the samples
    /// since the last reset, and the view is consistent.
    pub closed spec fn wf(&self) -> bool {
        &&& self.reference_data.wf()
        &&& self.controller_data.wf()
        &&& self.plant_data.wf()
        &&& self.reference_data.spec_capacity() == self.plant_data.spec_capacity()
        &&& self.controller_data.spec_capacity() == self.plant_data.spec_capacity()
        &&& self@.consistent()
    }

    /// A simulation that is well formed has a consistent view.
    pub proof fn lemma_wf(&self)
        requires
            self.wf(),
        ensures
            self@.consistent(),
    {
    }

    /// A simulation of the three components with empty histories of
    /// `samples_per_window` samples each. It is stopped, nothing is being
    /// edited, and the controller is active.
    pub fn new(
        reference: R,
        controller: C,
        plant: P,
        samples_per_window: usize,
        rest_output: V,
    ) -> (simulation: Self)
        requires
            samples_per_window >= 1,
        ensures
            simulation.wf(),
            simulation@ == (SimulationView {
                reference,
                controller,
                plant,
                reference_samples: Seq::empty(),
                controller_samples: Seq::empty(),
                plant_samples: Seq::empty(),
                samples_per_window,
                window_shift: 0,
                simulation_on: false,
                editing: Editing::Nothing,
                controller_active: true,
                rest_output,
            }),
    {
        Simulation {
            reference,
            controller,
            plant,
            reference_data: SampleWindow::new(samples_per_window),
            controller_data: SampleWindow::new(samples_per_window),
            plant_data: SampleWindow::new(samples_per_window),
            window_shift: 0,
            simulation_on: false,
            editing: Editing::Nothing,
            is_controller_active: true,
            rest_output,
        }
    }

    /// The reference signal.
    pub fn reference(&self) -> (reference: &R)
        ensures
            *reference == self@.reference,
    {
        &self.reference
    }

    /// The controller.
    pub fn controller(&self) -> (controller: &C)
        ensures
            *controller == self@.controller,
    {
        &self.controller
    }

    /// The plant.
    pub fn plant(&self) -> (plant: &P)
        ensures
            *plant == self@.plant,
    {
        &self.plant
    }

    /// The latest samples of the reference signal, oldest first: as many as
    /// a history holds, or all since the last reset while they are fewer.
    pub fn reference_data(&self) -> (samples: &[(V, V)])
        requires
            self.wf(),
        ensures
            samples@ == self@.reference_data(),
    {
        self.reference_data.as_slice()
    }

    /// The latest samples of the controller output, oldest first.
    pub fn controller_data(&self) -> (samples: &[(V, V)])
        requires
            self.wf(),
        ensures
            samples@ == self@.controller_data(),
    {
        self.controller_data.as_slice()
    }

    /// The latest samples of the plant output, oldest first.
    pub fn plant_data(&self) -> (samples: &[(V, V)])
        requires
            self.wf(),
        ensures
            samples@ == self@.plant_data(),
    {
        self.plant_data.as_slice()
    }

    /// The number of samples that each history holds at most.
    pub fn samples_per_window(&self) -> (capacity: usize)
        ensures
            capacity == self@.samples_per_window,
    {
        self.plant_data.capacity()
    }

    /// By how many sampling intervals the displayed time window has slid
    /// since the last reset.
    pub fn window_shift(&self) -> (shift: usize)
        ensures
            shift == self@.window_shift,
    {
        self.window_shift
    }

    /// Whether the simulation is running, that is, whether time that passes
    /// is to advance it.
    pub fn is_running(&self) -> (running: bool)
        ensures
            running == self@.simulation_on,
    {
        self.simulation_on
    }

    /// Whether the controller is in the loop; otherwise it is bypassed.
    pub fn is_controller_active(&self) -> (active: bool)
        ensures
            active == self@.controller_active,
    {
        self.is_controller_active
    }

    /// What the keyboard is bound to.
    pub fn editing(&self) -> (editing: Editing)
        ensures
            editing == self@.editing,
    {
        self.editing
    }

    /// Starts the simulation over: resets the three components, empties the
    /// three histories and puts the time window back at the start.
    pub fn reset(&mut self)
        requires
            old(self).wf(),
        ensures
            final(self).wf(),
            old(self)@.restarts_to(final(self)@),
            final(self)@.ticks() == 0,
            final(self)@.reference_data() == Seq::<(V, V)>::empty(),
            final(self)@.controller_data() == Seq::<(V, V)>::empty(),
            final(self)@.plant_data() == Seq::<(V, V)>::empty(),
    {
        self.reference.reset();
        self.plant.reset();
        self.controller.reset();
        self.reference_data.clear();
        self.plant_data.clear();
        self.controller_data.clear();
        self.window_shift = 0;
    }

    /// Advances the loop by one tick.
    pub fn on_tick(&mut self)
        requires
            old(self).wf(),
        ensures
            final(self).wf(),
            old(self)@.ticks_to(final(self)@),
    {
        let reference_sample = self.reference.advance();
        self.reference_data.push(reference_sample);
        let set_point = reference_sample.1;
        if self.is_controller_active {
            self.controller.set_set_point(set_point);
            let controller_sample = self.controller.advance();
            self.controller_data.push(controller_sample);
            self.plant.set_input(controller_sample.1);
            let plant_sample = self.plant.advance();
            self.plant_data.push(plant_sample);
            self.controller.set_plant_output(plant_sample.1);
            assert(SimulationView::<V, R, C, P>::controller_steps(
                old(self)@.controller,
                set_point,
                controller_sample,
                plant_sample.1,
                self@.controller,
            ));
            assert(SimulationView::<V, R, C, P>::plant_steps(
                old(self)@.plant,
                controller_sample.1,
                plant_sample,
                self@.plant,
            ));
        } else {
            let held = match self.controller_data.last() {
                Some(sample) => sample.1,
                None => self.rest_output,
            };
            let controller_sample = self.controller.advance();
            self.controller_data.push((controller_sample.0, held));
            self.plant.set_input(set_point);
            let plant_sample = self.plant.advance();
            self.plant_data.push(plant_sample);
            assert(SimulationView::<V, R, C, P>::controller_idles(
                old(self)@.controller,
                held,
                (controller_sample.0, held),
                self@.controller,
            ));
            assert(SimulationView::<V, R, C, P>::plant_steps(
                old(self)@.plant,
                set_point,
                plant_sample,
                self@.plant,
            ));
        }
        if self.plant_data.is_full() && self.window_shift < usize::MAX {
            self.window_shift += 1;
        }
    }

    /// Puts `reference` in the place of the reference signal and starts the simulation
    /// over: all three histories are emptied and all three components reset,
    /// so that no sample of the time before remains.
    pub fn swap_reference(&mut self, reference: R)
        requires
            old(self).wf(),
        ensures
            final(self).wf(),
            (SimulationView { reference, ..old(self)@ }).restarts_to(final(self)@),
            final(self)@.ticks() == 0,
            final(self)@.reference_data() == Seq::<(V, V)>::empty(),
            final(self)@.controller_data() == Seq::<(V, V)>::empty(),
            final(self)@.plant_data() == Seq::<(V, V)>::empty(),
    {
        self.reference = reference;
        self.reset();
    }

    /// Puts `controller` in the place of the controller and starts the simulation
    /// over: all three histories are emptied and all three components reset,
    /// so that no sample of the time before remains.
    pub fn swap_controller(&mut self, controller: C)
        requires
            old(self).wf(),
        ensures
            final(self).wf(),
            (SimulationView { controller, ..old(self)@ }).restarts_to(final(self)@),
            final(self)@.ticks() == 0,
            final(self)@.reference_data() == Seq::<(V, V)>::empty(),
            final(self)@.controller_data() == Seq::<(V, V)>::empty(),
            final(self)@.plant_data() == Seq::<(V, V)>::empty(),
    {
        self.controller = controller;
        self.reset();
    }

    /// Puts `plant` in the place of the plant and starts the simulation
    /// over: all three histories are emptied and all three components reset,
    /// so that no sample of the time before remains.
    pub fn swap_plant(&mut self, plant: P)
        requires
            old(self).wf(),
        ensures
            final(self).wf(),
            (SimulationView { plant, ..old(self)@ }).restarts_to(final(self)@),
            final(self)@.ticks() == 0,
            final(self)@.reference_data() == Seq::<(V, V)>::empty(),
            final(self)@.controller_data() == Seq::<(V, V)>::empty(),
            final(self)@.plant_data() == Seq::<(V, V)>::empty(),
    {
        self.plant = plant;
        self.reset();
    }

    /// Handles a key press in the list of the variants of the reference signal.
    fn choose_reference<F: Fn() -> R>(
        &mut self,
        key: Key,
        selected: Option<usize>,
        references: &Registry<F>,
    )
        requires
            old(self).wf(),
            all_callable(references@),
            can_move(selected, key, references@.len()),
        ensures
            final(self).wf(),
            old(self)@.reference_chosen(key, selected, references@, final(self)@),
    {
        match key {
            Key::Esc => {
                self.editing = Editing::Nothing;
            },
            Key::Down | Key::Up => {
                let row = move_selection(selected, key, references.len());
                self.editing = Editing::ReferenceType(row);
            },
            Key::Enter => {
                let name = self.reference.name();
                if let Some(row) = selected {
                    let in_use = match references.position(name) {
                        Some(found) => found,
                        None => 0,
                    };
                    if row != in_use {
                        if let Some(factory) = references.get_by_index(row) {
                            let fresh = factory();
                            self.editing = Editing::Nothing;
                            self.swap_reference(fresh);
                            assert(old(self)@.reference_swapped(*factory, self@));
                        }
                    }
                }
                self.editing = Editing::Nothing;
                assert(old(self)@.reference_entered(selected, references@, name@, self@));
            },
            _ => {},
        }
    }

    /// Handles a key press in the list of the variants of the plant.
    fn choose_plant<F: Fn() -> P>(
        &mut self,
        key: Key,
        selected: Option<usize>,
        plants: &Registry<F>,
    )
        requires
            old(self).wf(),
            all_callable(plants@),
            can_move(selected, key, plants@.len()),
        ensures
            final(self).wf(),
            old(self)@.plant_chosen(key, selected, plants@, final(self)@),
    {
        match key {
            Key::Esc => {
                self.editing = Editing::Nothing;
            },
            Key::Down | Key::Up => {
                let row = move_selection(selected, key, plants.len());
                self.editing = Editing::PlantType(row);
            },
            Key::Enter => {
                let name = self.plant.name();
                if let Some(row) = selected {
                    let in_use = match plants.position(name) {
                        Some(found) => found,
                        None => 0,
                    };
                    if row != in_use {
                        if let Some(factory) = plants.get_by_index(row) {
                            let fresh = factory();
                            self.editing = Editing::Nothing;
                            self.swap_plant(fresh);
                            assert(old(self)@.plant_swapped(*factory, self@));
                        }
                    }
                }
                self.editing = Editing::Nothing;
                assert(old(self)@.plant_entered(selected, plants@, name@, self@));
            },
            _ => {},
        }
    }

    /// Handles a key press in the list of the variants of the controller.
    fn choose_controller<F: Fn() -> C>(
        &mut self,
        key: Key,
        selected: Option<usize>,
        controllers: &Registry<F>,
    )
        requires
            old(self).wf(),
            all_callable(controllers@),
            can_move(selected, key, controllers@.len()),
        ensures
            final(self).wf(),
            old(self)@.controller_chosen(key, selected, controllers@, final(self)@),
    {
        match key {
            Key::Esc => {
                self.editing = Editing::Nothing;
            },
            Key::Down | Key::Up => {
                let row = move_selection(selected, key, controllers.len());
                self.editing = Editing::ControllerType(row);
            },
            Key::Enter => {
                let name = self.controller.name();
                if let Some(row) = selected {
                    let in_use = match controllers.position(name) {
                        Some(found) => found,
                        None => 0,
                    };
                    if row != in_use {
                        if let Some(factory) = controllers.get_by_index(row) {
                            let fresh = factory();
                            self.editing = Editing::Nothing;
                            self.swap_controller(fresh);
                            assert(old(self)@.controller_swapped(*factory, self@));
                        }
                    }
                }
                self.editing = Editing::Nothing;
                assert(old(self)@.controller_entered(selected, controllers@, name@, self@));
            },
            _ => {},
        }
    }

    /// Whether `handle_key` can take `key`: while a list of variants is open,
    /// whether the list can make the move that the key asks for.
    pub fn accepts_key<FR, FC, FP>(
        &self,
        key: Key,
        references: &Registry<FR>,
        controllers: &Registry<FC>,
        plants: &Registry<FP>,
    ) -> (accepts: bool)
        ensures
            accepts == self@.accepts_key(key, references@.len(), controllers@.len(), plants@.len()),
    {
        match self.editing {
            Editing::ReferenceType(selected) => can_move_selection(selected, key, references.len()),
            Editing::ControllerType(selected) => can_move_selection(
                selected,
                key,
                controllers.len(),
            ),
            Editing::PlantType(selected) => can_move_selection(selected, key, plants.len()),
            _ => true,
        }
    }

    /// Handles a key press. While nothing is being edited the key is a
    /// command; while the parameters of a component are being edited it goes
    /// to that component; while a list of variants is open it moves the
    /// highlight, closes the list, or puts the highlighted variant in place.
    /// Returns whether the key asks to leave the program.
    pub fn handle_key<FR: Fn() -> R, FC: Fn() -> C, FP: Fn() -> P>(
        &mut self,
        key: Key,
        references: &Registry<FR>,
        controllers: &Registry<FC>,
        plants: &Registry<FP>,
    ) -> (quit: bool)
        requires
            old(self).wf(),
            all_callable(references@),
            all_callable(controllers@),
            all_callable(plants@),
            old(self)@.accepts_key(key, references@.len(), controllers@.len(), plants@.len()),
        ensures
            final(self).wf(),
            quit == old(self)@.quits(key),
            old(self)@.handles(key, references@, controllers@, plants@, final(self)@),
    {
        match self.editing {
            Editing::Nothing => match key {
                Key::Char(c) => {
                    if c == 'q' || c == 'Q' {
                        return true;
                    } else if c == 's' || c == 'S' {
                        self.simulation_on = !self.simulation_on;
                    } else if c == ' ' {
                        self.is_controller_active = !self.is_controller_active;
                    } else if c == 'i' {
                        self.editing = Editing::Reference;
                        self.reference.set_edit();
                    } else if c == 'I' {
                        self.editing = Editing::ReferenceType(None);
                    } else if c == 'p' {
                        self.editing = Editing::Plant;
                        self.plant.set_edit();
                    } else if c == 'P' {
                        self.editing = Editing::PlantType(None);
                    } else if c == 'c' {
                        self.editing = Editing::Controller;
                        self.controller.set_edit();
                    } else if c == 'C' {
                        self.editing = Editing::ControllerType(None);
                    }
                },
                _ => {},
            },
            Editing::Reference => {
                self.reference.edit(&mut self.editing, key);
            },
            Editing::Plant => {
                self.plant.edit(&mut self.editing, key);
            },
            Editing::Controller => {
                self.controller.edit(&mut self.editing, key);
            },
            Editing::ReferenceType(selected) => {
                self.choose_reference(key, selected, references);
            },
            Editing::PlantType(selected) => {
                self.choose_plant(key, selected, plants);
            },
            Editing::ControllerType(selected) => {
                self.choose_controller(key, selected, controllers);
            },
        }
        false
    }

    /// Sets the highlight of an open list of variants before it is drawn:
    /// where no row is highlighted yet, the row of the variant in use is.
    /// Returns the highlighted row; `None` where no list is open or nothing is
    /// highlighted.
    pub fn resolve_selection<FR, FC, FP>(
        &mut self,
        references: &Registry<FR>,
        controllers: &Registry<FC>,
        plants: &Registry<FP>,
    ) -> (selected: Option<usize>)
        requires
            old(self).wf(),
        ensures
            final(self).wf(),
            old(self)@.selection_shown(references@, controllers@, plants@, final(self)@),
            selected == match final(self)@.editing {
                Editing::ReferenceType(row) => row,
                Editing::ControllerType(row) => row,
                Editing::PlantType(row) => row,
                _ => None,
            },
    {
        match self.editing {
            Editing::ReferenceType(selected) => {
                let row = match selected {
                    Some(row) => Some(row),
                    None => references.position(self.reference.name()),
                };
                self.editing = Editing::ReferenceType(row);
                row
            },
            Editing::ControllerType(selected) => {
                let row = match selected {
                    Some(row) => Some(row),
                    None => controllers.position(self.controller.name()),
                };
                self.editing = Editing::ControllerType(row);
                row
            },
            Editing::PlantType(selected) => {
                let row = match selected {
                    Some(row) => Some(row),
                    None => plants.position(self.plant.name()),
                };
                self.editing = Editing::PlantType(row);
                row
            },
            _ => None,
        }
    }
}

} // verus!
