use std::cell::RefCell;
use std::rc::Rc;

use control_sim::controllers::pid_0::{PIDController, PidField, CONTROLLER_NAME};
use control_sim::controllers::Controller;
use control_sim::inputs::square::{SquareField, SquareSignal};
use control_sim::inputs::step::StepSignal;
use control_sim::inputs::Reference;
use control_sim::param::{Coefficients, Param, Update};
use control_sim::plants::first_order::{FirstOrderField, FirstOrderSystem};
use control_sim::plants::second_order::{SecondOrderField, SecondOrderSystem};
use control_sim::plants::Plant;
use control_sim::registry::Registry;
use control_sim::simulation::Simulation;
use control_sim::{Editing, Key};

fn param(value: f64) -> Param<f64> {
    Param::new(value, value.to_string()).unwrap()
}

fn parse(text: &str) -> Option<Param<f64>> {
    text.parse::<f64>().ok().map(param)
}

fn fraction(text: &str) -> bool {
    text.parse::<f64>().map(|v| (0.0..=1.0).contains(&v)).unwrap_or(false)
}

fn square_is_high(square: &SquareSignal<f64>, t: f64) -> bool {
    let period = *square.settings().param(SquareField::Period).value();
    let local = (t + square.phase()) % period;
    local < *square.settings().param(SquareField::Duty).value() * period
}

fn square_value_at(square: &SquareSignal<f64>, t: f64) -> f64 {
    square.value_at(square_is_high(square, t))
}

fn step(ts: f64, amplitude: f64) -> StepSignal<f64> {
    StepSignal::new(ts, param(amplitude), 0.0)
}

fn square(ts: f64, period: f64, amplitude: f64, duty: f64) -> SquareSignal<f64> {
    SquareSignal::new(ts, param(period), param(amplitude), param(duty), 0.0, 0.0)
}

enum Source {
    Step(StepSignal<f64>),
    Square(SquareSignal<f64>),
}

impl Reference<f64> for Source {
    fn advance(&mut self) -> (f64, f64) {
        match self {
            Source::Step(signal) => {
                let next = signal.clock() + signal.ts();
                signal.advance(next)
            }
            Source::Square(signal) => {
                let x = signal.clock();
                let high = square_is_high(signal, x);
                signal.advance(high, x + signal.ts())
            }
        }
    }

    fn reset(&mut self) {
        match self {
            Source::Step(signal) => signal.reset(),
            Source::Square(signal) => signal.reset(),
        }
    }

    fn set_edit(&mut self) {
        match self {
            Source::Step(signal) => signal.set_edit(),
            Source::Square(signal) => signal.set_edit(),
        }
    }

    fn edit(&mut self, editing: &mut Editing, key: Key) {
        match self {
            Source::Step(signal) => {
                let parsed = parse(signal.settings().input_text());
                signal.edit(editing, key, parsed);
            }
            Source::Square(signal) => {
                let parsed = parse(signal.settings().input_text());
                let unit = fraction(signal.settings().input_text());
                signal.edit(editing, key, parsed, unit);
            }
        }
    }

    fn name(&self) -> &'static str {
        match self {
            Source::Step(signal) => signal.name(),
            Source::Square(signal) => signal.name(),
        }
    }
}

fn second_order_coefficients(zeta: f64, wn: f64, ts: f64, prewarp: bool) -> Coefficients<f64> {
    let wn_eff = if prewarp { (2.0 / ts) * (0.5 * wn * ts).tan() } else { wn };
    let k = 2.0 / ts;
    let a0 = k * k + 2.0 * zeta * wn_eff * k + wn_eff * wn_eff;
    let a1 = 2.0 * (wn_eff * wn_eff - k * k);
    let a2 = k * k - 2.0 * zeta * wn_eff * k + wn_eff * wn_eff;
    let b0 = (wn_eff * wn_eff) / a0;
    let b1 = 2.0 * (wn_eff * wn_eff) / a0;
    let b2 = (wn_eff * wn_eff) / a0;
    Coefficients { feedback: (a1 / a0, a2 / a0), forward: (b0, b1, b2) }
}

fn first_order(ts: f64, a: f64, b: f64) -> FirstOrderSystem<f64> {
    FirstOrderSystem::new(ts, param(a), param(b), None, 0.0)
}

fn second_order(zeta: f64, wn: f64, ts: f64) -> SecondOrderSystem<f64> {
    SecondOrderSystem::new(
        param(zeta),
        param(wn),
        ts,
        None,
        second_order_coefficients(zeta, wn, ts, true),
        0.0,
    )
}

enum Process {
    First(FirstOrderSystem<f64>),
    Second(SecondOrderSystem<f64>),
}

impl Plant<f64> for Process {
    fn set_input(&mut self, u: f64) {
        match self {
            Process::First(plant) => plant.set_input(u),
            Process::Second(plant) => plant.set_input(u),
        }
    }

    fn advance(&mut self) -> (f64, f64) {
        match self {
            Process::First(plant) => {
                let a = *plant.settings().param(FirstOrderField::A).value();
                let b = *plant.settings().param(FirstOrderField::B).value();
                let y = a * plant.output() + b * plant.input();
                let next = plant.clock() + plant.ts();
                plant.advance(y, next)
            }
            Process::Second(plant) => {
                let (a, b) = (plant.coefficients().feedback, plant.coefficients().forward);
                let (u, y_k) = (plant.inputs(), plant.outputs());
                let y = -a.0 * y_k.0 - a.1 * y_k.1 + b.0 * u.0 + b.1 * u.1 + b.2 * u.2;
                let next = plant.clock() + plant.ts();
                plant.advance(y, next)
            }
        }
    }

    fn reset(&mut self) {
        match self {
            Process::First(plant) => plant.reset(),
            Process::Second(plant) => plant.reset(),
        }
    }

    fn set_edit(&mut self) {
        match self {
            Process::First(plant) => plant.set_edit(),
            Process::Second(plant) => plant.set_edit(),
        }
    }

    fn edit(&mut self, editing: &mut Editing, key: Key) {
        match self {
            Process::First(plant) => {
                let parsed = parse(plant.settings().input_text());
                plant.edit(editing, key, parsed);
            }
            Process::Second(plant) => {
                let update = plant.settings().input_text().parse::<f64>().ok().map(|value| {
                    let (zeta, wn) = match plant.settings().pending_field() {
                        SecondOrderField::Zeta => (value, plant.get_wn()),
                        SecondOrderField::Wn => (plant.get_zeta(), value),
                    };
                    Update {
                        param: param(value),
                        coefficients: second_order_coefficients(zeta, wn, plant.ts(), true),
                    }
                });
                plant.edit(editing, key, update);
            }
        }
    }

    fn name(&self) -> &'static str {
        match self {
            Process::First(plant) => plant.name(),
            Process::Second(plant) => plant.name(),
        }
    }
}

struct Pid(PIDController<f64>);

fn pid_coefficients(kp: f64, ki: f64, kd: f64, n: f64, ts: f64) -> Coefficients<f64> {
    let a0 = 1.0 + n * ts;
    let a1 = -(2.0 + n * ts);
    let a2 = 1.0;
    let b0 = kp * (1.0 + n * ts) + ki * ts * (1.0 + n * ts) + kd * n;
    let b1 = -(kp * (2.0 + n * ts) + ki * ts + 2.0 * kd * n);
    let b2 = kp + kd * n;
    Coefficients { feedback: (a1 / a0, a2 / a0), forward: (b0 / a0, b1 / a0, b2 / a0) }
}

impl Pid {
    fn new(kp: f64, ki: f64, kd: f64, n: f64, ts: f64) -> Self {
        Pid(PIDController::new(
            param(kp),
            param(ki),
            param(kd),
            param(n),
            ts,
            pid_coefficients(kp, ki, kd, n, ts),
            0.0,
        ))
    }

    fn gain(&self, field: PidField) -> f64 {
        *self.0.settings().param(field).value()
    }
}

impl Controller<f64> for Pid {
    fn set_set_point(&mut self, r: f64) {
        self.0.set_set_point(r);
    }

    fn set_plant_output(&mut self, y: f64) {
        self.0.set_plant_output(y);
    }

    fn advance(&mut self) -> (f64, f64) {
        let (ku, ke) = (self.0.coefficients().feedback, self.0.coefficients().forward);
        let (e, u) = (self.0.errors(), self.0.outputs());
        let error = self.0.set_point() - self.0.plant_output();
        let output = -ku.0 * u.0 - ku.1 * u.1 + ke.0 * error + ke.1 * e.0 + ke.2 * e.1;
        let next = self.0.clock() + self.0.ts();
        self.0.advance(error, output, next)
    }

    fn reset(&mut self) {
        self.0.reset();
    }

    fn set_edit(&mut self) {
        self.0.set_edit();
    }

    fn edit(&mut self, editing: &mut Editing, key: Key) {
        let update = self.0.settings().input_text().parse::<f64>().ok().map(|value| {
            let field = self.0.settings().pending_field();
            let pick = |other: PidField| if other == field { value } else { self.gain(other) };
            Update {
                param: param(value),
                coefficients: pid_coefficients(
                    pick(PidField::Kp),
                    pick(PidField::Ki),
                    pick(PidField::Kd),
                    pick(PidField::N),
                    self.0.ts(),
                ),
            }
        });
        self.0.edit(editing, key, update);
    }

    fn name(&self) -> &'static str {
        self.0.name()
    }
}

type Loop = Simulation<f64, Source, Pid, Process>;

fn make_step() -> Source {
    Source::Step(step(0.1, 1.0))
}

fn make_square() -> Source {
    Source::Square(square(0.1, 10.0, 10.0, 0.5))
}

fn make_first_order() -> Process {
    Process::First(first_order(0.1, 0.95, 0.05))
}

fn make_second_order() -> Process {
    Process::Second(second_order(0.5, 2.0, 0.1))
}

fn make_pid() -> Pid {
    Pid::new(0.8, 2.0, 2.0, 5.0, 0.1)
}

struct Tables {
    references: Registry<fn() -> Source>,
    controllers: Registry<fn() -> Pid>,
    plants: Registry<fn() -> Process>,
}

fn tables() -> Tables {
    let mut references: Registry<fn() -> Source> = Registry::new();
    references.register("StepSignal", make_step);
    references.register("SquareSignal", make_square);
    let mut controllers: Registry<fn() -> Pid> = Registry::new();
    controllers.register(CONTROLLER_NAME, make_pid);
    let mut plants: Registry<fn() -> Process> = Registry::new();
    plants.register("SecondOrderSystem", make_second_order);
    plants.register("FirstOrderSystem", make_first_order);
    Tables { references, controllers, plants }
}

fn press(simulation: &mut Loop, tables: &Tables, keys: &[Key]) -> bool {
    let mut quit = false;
    for key in keys {
        quit = simulation.handle_key(*key, &tables.references, &tables.controllers, &tables.plants);
    }
    quit
}

fn default_loop(samples_per_window: usize) -> Loop {
    Simulation::new(make_step(), make_pid(), make_second_order(), samples_per_window, 0.0)
}

fn values(samples: &[(f64, f64)]) -> Vec<f64> {
    samples.iter().map(|sample| sample.1).collect()
}

fn times(samples: &[(f64, f64)]) -> Vec<f64> {
    samples.iter().map(|sample| sample.0).collect()
}

#[test]
fn new_simulation_is_stopped_and_empty() {
    let simulation = default_loop(200);
    assert!(!simulation.is_running());
    assert!(simulation.is_controller_active());
    assert_eq!(simulation.editing(), Editing::Nothing);
    assert_eq!(simulation.samples_per_window(), 200);
    assert_eq!(simulation.window_shift(), 0);
    assert!(simulation.reference_data().is_empty());
    assert!(simulation.controller_data().is_empty());
    assert!(simulation.plant_data().is_empty());
    assert_eq!(simulation.reference().name(), "StepSignal");
    assert_eq!(simulation.plant().name(), "SecondOrderSystem");
    assert_eq!(simulation.controller().name(), CONTROLLER_NAME);
}

#[test]
fn step_reference_is_constant_and_its_clock_moves_by_one_interval() {
    let mut simulation = Simulation::new(
        Source::Step(step(0.1, 2.5)),
        make_pid(),
        make_second_order(),
        50,
        0.0,
    );
    for _ in 0..40 {
        simulation.on_tick();
    }
    let samples = simulation.reference_data();
    assert_eq!(samples.len(), 40);
    assert_eq!(samples[0], (0.0, 2.5));
    for pair in samples.windows(2) {
        assert_eq!(pair[1].1, 2.5);
        assert_eq!(pair[1].0, pair[0].0 + 0.1);
    }
}

#[test]
fn rectangular_reference_is_high_for_the_duty_fraction_of_each_period() {
    let signal = square(0.25, 1.0, 3.0, 0.5);
    for (t, expected) in [(0.0, 3.0), (0.25, 3.0), (0.5, 0.0), (0.75, 0.0), (1.0, 3.0), (1.25, 3.0), (1.5, 0.0)] {
        assert_eq!(square_value_at(&signal, t), expected);
        assert_eq!(square_value_at(&signal, t), expected);
    }
    assert_eq!(signal.clock(), 0.0);
    let mut simulation =
        Simulation::new(Source::Square(signal), make_pid(), make_first_order(), 8, 0.0);
    for _ in 0..7 {
        simulation.on_tick();
    }
    assert_eq!(
        simulation.reference_data(),
        &[(0.0, 3.0), (0.25, 3.0), (0.5, 0.0), (0.75, 0.0), (1.0, 3.0), (1.25, 3.0), (1.5, 0.0)]
    );
}

#[test]
fn pid_coefficients_of_the_default_gains() {
    let k = pid_coefficients(0.8, 2.0, 2.0, 5.0, 0.1);
    let ((ku1, ku2), (ke0, ke1, ke2)) = (k.feedback, k.forward);
    assert!((ku1 + 2.5 / 1.5).abs() < 1e-12);
    assert!((ku2 - 1.0 / 1.5).abs() < 1e-12);
    assert!((ke0 - 11.5 / 1.5).abs() < 1e-12);
    assert!((ke1 + 22.2 / 1.5).abs() < 1e-12);
    assert!((ke2 - 10.8 / 1.5).abs() < 1e-12);
}

#[test]
fn zero_gain_controller_never_actuates() {
    for (n, ts) in [(5.0, 0.1), (0.5, 0.01), (100.0, 1.0)] {
        assert_eq!(pid_coefficients(0.0, 0.0, 0.0, n, ts).forward, (0.0, 0.0, 0.0));
    }
    let mut simulation = Simulation::new(
        Source::Square(square(0.1, 1.0, 7.0, 0.5)),
        Pid::new(0.0, 0.0, 0.0, 5.0, 0.1),
        make_second_order(),
        100,
        0.0,
    );
    for _ in 0..60 {
        simulation.on_tick();
    }
    assert_eq!(simulation.controller_data().len(), 60);
    assert!(values(simulation.controller_data()).iter().all(|u| *u == 0.0));
    assert!(values(simulation.plant_data()).iter().all(|y| *y == 0.0));
    assert!(values(simulation.reference_data()).iter().any(|r| *r == 7.0));
}

#[test]
fn critically_damped_plant_settles_on_a_step_without_overshoot() {
    let tables = tables();
    let mut simulation = Simulation::new(
        Source::Step(step(0.1, 1.0)),
        make_pid(),
        Process::Second(second_order(1.0, 2.0, 0.1)),
        400,
        0.0,
    );
    press(&mut simulation, &tables, &[Key::Char(' ')]);
    assert!(!simulation.is_controller_active());
    for _ in 0..400 {
        simulation.on_tick();
    }
    let output = values(simulation.plant_data());
    assert_eq!(output.len(), 400);
    for pair in output.windows(2) {
        assert!(pair[1] >= pair[0] - 1e-12);
    }
    assert!(output.iter().all(|y| *y <= 1.0 + 1e-9));
    assert!(output[0] > 0.0);
    assert!((output[399] - 1.0).abs() < 1e-6);
}

#[test]
fn histories_hold_the_latest_samples_in_order() {
    let samples_per_window = 5;
    for extra in 0..4 {
        let total = samples_per_window + extra;
        let mut simulation = default_loop(samples_per_window);
        let mut recorder = default_loop(1000);
        for _ in 0..total {
            simulation.on_tick();
            recorder.on_tick();
        }
        assert_eq!(recorder.plant_data().len(), total);
        assert_eq!(simulation.reference_data().len(), samples_per_window);
        assert_eq!(simulation.controller_data().len(), samples_per_window);
        assert_eq!(simulation.plant_data().len(), samples_per_window);
        assert_eq!(simulation.reference_data(), &recorder.reference_data()[extra..]);
        assert_eq!(simulation.controller_data(), &recorder.controller_data()[extra..]);
        assert_eq!(simulation.plant_data(), &recorder.plant_data()[extra..]);
    }
}

#[test]
fn histories_grow_until_they_are_full() {
    let mut simulation = default_loop(3);
    let mut lengths = Vec::new();
    let mut shifts = Vec::new();
    for _ in 0..6 {
        simulation.on_tick();
        lengths.push(simulation.plant_data().len());
        shifts.push(simulation.window_shift());
    }
    assert_eq!(lengths, vec![1, 2, 3, 3, 3, 3]);
    assert_eq!(shifts, vec![0, 0, 1, 2, 3, 4]);
}

#[test]
fn closed_loop_feeds_the_plant_with_the_controller_output() {
    let mut simulation = Simulation::new(
        Source::Step(step(0.1, 1.0)),
        make_pid(),
        Process::First(first_order(0.1, 0.95, 0.05)),
        10,
        0.0,
    );
    simulation.on_tick();
    simulation.on_tick();
    let controller = values(simulation.controller_data());
    let plant = values(simulation.plant_data());
    let ke0 = 11.5 / 1.5;
    assert!((controller[0] - ke0).abs() < 1e-12);
    assert!((plant[0] - 0.05 * controller[0]).abs() < 1e-12);
    assert!((plant[1] - (0.95 * plant[0] + 0.05 * controller[1])).abs() < 1e-12);
    let e1 = 1.0 - plant[0];
    let expected = (2.5 / 1.5) * controller[0] + ke0 * e1 + (-22.2 / 1.5) * 1.0;
    assert!((controller[1] - expected).abs() < 1e-9);
    assert_eq!(times(simulation.controller_data()), times(simulation.plant_data()));
    assert_eq!(times(simulation.reference_data()), vec![0.0, 0.1]);
}

#[test]
fn bypassed_controller_holds_its_output_and_keeps_its_clock_running() {
    let tables = tables();
    let mut simulation = Simulation::new(
        Source::Step(step(0.1, 1.0)),
        make_pid(),
        Process::First(first_order(0.1, 0.95, 0.05)),
        50,
        0.0,
    );
    for _ in 0..3 {
        simulation.on_tick();
    }
    let held = simulation.controller_data()[2].1;
    press(&mut simulation, &tables, &[Key::Char(' ')]);
    for _ in 0..4 {
        simulation.on_tick();
    }
    let controller = simulation.controller_data().to_vec();
    let plant = values(simulation.plant_data());
    assert_eq!(&values(&controller)[3..], &[held, held, held, held]);
    assert_eq!(times(&controller), times(simulation.plant_data()));
    for k in 3..7 {
        assert!((plant[k] - (0.95 * plant[k - 1] + 0.05 * 1.0)).abs() < 1e-12);
    }
    press(&mut simulation, &tables, &[Key::Char(' ')]);
    assert!(simulation.is_controller_active());
    simulation.on_tick();
    assert_eq!(simulation.controller_data().len(), 8);
    assert_eq!(times(simulation.controller_data()), times(simulation.reference_data()));
}

#[test]
fn bypass_from_the_start_holds_the_rest_output() {
    let tables = tables();
    let mut simulation = Simulation::new(make_step(), make_pid(), make_first_order(), 1, 0.25);
    press(&mut simulation, &tables, &[Key::Char(' ')]);
    simulation.on_tick();
    assert_eq!(simulation.controller_data(), &[(0.0, 0.25)]);
    simulation.on_tick();
    assert_eq!(simulation.controller_data(), &[(0.1, 0.25)]);
}

#[test]
fn resuming_from_a_set_point_sees_no_error() {
    let mut used = make_pid();
    used.set_set_point(1.0);
    for y in [0.0, 0.3, 0.6] {
        used.set_plant_output(y);
        used.advance();
    }
    used.0.reset_to_setpoint(0.6);
    let mut fresh = make_pid();
    fresh.reset();
    fresh.0.reset_to_setpoint(0.6);
    assert_eq!(used.0.set_point(), 0.6);
    assert_eq!(used.0.plant_output(), 0.6);
    assert_eq!((fresh.0.set_point(), fresh.0.plant_output()), (0.6, 0.6));
    assert_eq!((used.0.errors().1, used.0.errors().2), (0.0, 0.0));
    assert_eq!((used.0.outputs().1, used.0.outputs().2), (0.0, 0.0));
    used.advance();
    fresh.advance();
    assert_eq!(used.0.errors().0, 0.0);
    assert_eq!(fresh.0.errors().0, 0.0);
    assert_eq!(fresh.0.outputs().0, 0.0);
}

#[test]
fn swapping_the_plant_restarts_the_simulation() {
    let mut simulation = default_loop(5);
    for _ in 0..8 {
        simulation.on_tick();
    }
    assert_eq!(simulation.window_shift(), 4);
    simulation.swap_plant(make_first_order());
    assert!(simulation.reference_data().is_empty());
    assert!(simulation.controller_data().is_empty());
    assert!(simulation.plant_data().is_empty());
    assert_eq!(simulation.window_shift(), 0);
    assert_eq!(simulation.plant().name(), "FirstOrderSystem");
    simulation.on_tick();
    assert_eq!(times(simulation.reference_data()), vec![0.0]);
    assert_eq!(times(simulation.controller_data()), vec![0.0]);
    assert_eq!(times(simulation.plant_data()), vec![0.0]);
    assert_eq!(values(simulation.reference_data()), vec![1.0]);
}

#[test]
fn swapping_reference_or_controller_restarts_the_simulation() {
    let mut simulation = default_loop(5);
    for _ in 0..3 {
        simulation.on_tick();
    }
    simulation.swap_reference(make_square());
    assert!(simulation.plant_data().is_empty());
    assert_eq!(simulation.reference().name(), "SquareSignal");
    simulation.on_tick();
    assert_eq!(simulation.reference_data(), &[(0.0, 10.0)]);
    simulation.swap_controller(Pid::new(0.0, 0.0, 0.0, 5.0, 0.1));
    assert!(simulation.reference_data().is_empty());
    simulation.on_tick();
    assert_eq!(simulation.controller_data(), &[(0.0, 0.0)]);
}

#[test]
fn reset_keeps_what_is_being_edited() {
    let tables = tables();
    let mut simulation = default_loop(5);
    press(&mut simulation, &tables, &[Key::Char('s'), Key::Char(' '), Key::Char('P')]);
    simulation.on_tick();
    simulation.reset();
    assert!(simulation.plant_data().is_empty());
    assert!(simulation.is_running());
    assert!(!simulation.is_controller_active());
    assert_eq!(simulation.editing(), Editing::PlantType(None));
    assert_eq!(simulation.samples_per_window(), 5);
}

#[test]
fn commands_start_stop_and_bypass() {
    let tables = tables();
    let mut simulation = default_loop(5);
    assert!(!press(&mut simulation, &tables, &[Key::Char('s')]));
    assert!(simulation.is_running());
    press(&mut simulation, &tables, &[Key::Char('S')]);
    assert!(!simulation.is_running());
    press(&mut simulation, &tables, &[Key::Char(' ')]);
    assert!(!simulation.is_controller_active());
    press(&mut simulation, &tables, &[Key::Char(' ')]);
    assert!(simulation.is_controller_active());
    press(&mut simulation, &tables, &[Key::Char('x'), Key::Enter, Key::Esc, Key::Up]);
    assert_eq!(simulation.editing(), Editing::Nothing);
}

#[test]
fn q_quits_only_while_nothing_is_edited() {
    let tables = tables();
    let mut simulation = default_loop(5);
    assert!(press(&mut simulation, &tables, &[Key::Char('q')]));
    assert!(press(&mut simulation, &tables, &[Key::Char('Q')]));
    assert!(!press(&mut simulation, &tables, &[Key::Char('i'), Key::Char('q')]));
    assert_eq!(simulation.editing(), Editing::Reference);
    assert!(!press(&mut simulation, &tables, &[Key::Esc, Key::Char('P'), Key::Char('q')]));
    assert_eq!(simulation.editing(), Editing::PlantType(None));
}

#[test]
fn commands_open_parameters_and_lists() {
    let tables = tables();
    for (key, editing) in [
        ('i', Editing::Reference),
        ('I', Editing::ReferenceType(None)),
        ('p', Editing::Plant),
        ('P', Editing::PlantType(None)),
        ('c', Editing::Controller),
        ('C', Editing::ControllerType(None)),
    ] {
        let mut simulation = default_loop(5);
        press(&mut simulation, &tables, &[Key::Char(key)]);
        assert_eq!(simulation.editing(), editing);
    }
}

#[test]
fn editing_the_reference_changes_its_samples() {
    let tables = tables();
    let mut simulation = default_loop(5);
    simulation.on_tick();
    press(
        &mut simulation,
        &tables,
        &[Key::Char('i'), Key::Char('.'), Key::Char('5'), Key::Enter],
    );
    assert_eq!(simulation.editing(), Editing::Nothing);
    simulation.on_tick();
    assert_eq!(simulation.reference_data(), &[(0.0, 1.0), (0.1, 1.5)]);
}

#[test]
fn editing_the_controller_changes_its_gains() {
    let tables = tables();
    let mut simulation = default_loop(5);
    press(&mut simulation, &tables, &[Key::Char('c')]);
    for _ in 0..3 {
        press(
            &mut simulation,
            &tables,
            &[Key::Backspace, Key::Backspace, Key::Backspace, Key::Char('0'), Key::Down],
        );
    }
    press(&mut simulation, &tables, &[Key::Enter]);
    assert_eq!(simulation.editing(), Editing::Nothing);
    let gains = simulation.controller().0.settings();
    assert_eq!(simulation.controller().0.coefficients().forward, (0.0, 0.0, 0.0));
    assert_eq!(*gains.param(PidField::Kp).value(), 0.0);
    assert_eq!(*gains.param(PidField::Ki).value(), 0.0);
    assert_eq!(*gains.param(PidField::Kd).value(), 0.0);
    assert_eq!(*gains.param(PidField::N).value(), 5.0);
    for _ in 0..5 {
        simulation.on_tick();
    }
    assert_eq!(values(simulation.controller_data()), vec![0.0; 5]);
}

#[test]
fn editing_the_plant_ends_with_esc() {
    let tables = tables();
    let mut simulation = default_loop(5);
    press(&mut simulation, &tables, &[Key::Char('p'), Key::Char('9')]);
    assert_eq!(simulation.editing(), Editing::Plant);
    press(&mut simulation, &tables, &[Key::Esc]);
    assert_eq!(simulation.editing(), Editing::Nothing);
}

#[test]
fn list_of_variants_moves_its_highlight_in_a_circle() {
    let tables = tables();
    let mut simulation = default_loop(5);
    press(&mut simulation, &tables, &[Key::Char('I'), Key::Down]);
    assert_eq!(simulation.editing(), Editing::ReferenceType(Some(0)));
    press(&mut simulation, &tables, &[Key::Down]);
    assert_eq!(simulation.editing(), Editing::ReferenceType(Some(1)));
    press(&mut simulation, &tables, &[Key::Down]);
    assert_eq!(simulation.editing(), Editing::ReferenceType(Some(0)));
    press(&mut simulation, &tables, &[Key::Up]);
    assert_eq!(simulation.editing(), Editing::ReferenceType(Some(1)));
    press(&mut simulation, &tables, &[Key::Char('z')]);
    assert_eq!(simulation.editing(), Editing::ReferenceType(Some(1)));
    press(&mut simulation, &tables, &[Key::Esc]);
    assert_eq!(simulation.editing(), Editing::Nothing);
    assert_eq!(simulation.reference().name(), "StepSignal");
}

#[test]
fn choosing_another_plant_puts_it_in_place_and_restarts() {
    let tables = tables();
    let mut simulation = default_loop(5);
    for _ in 0..7 {
        simulation.on_tick();
    }
    press(&mut simulation, &tables, &[Key::Char('P'), Key::Down, Key::Down, Key::Enter]);
    assert_eq!(simulation.editing(), Editing::Nothing);
    assert_eq!(simulation.plant().name(), "FirstOrderSystem");
    assert!(simulation.reference_data().is_empty());
    assert!(simulation.controller_data().is_empty());
    assert!(simulation.plant_data().is_empty());
    assert_eq!(simulation.window_shift(), 0);
    simulation.on_tick();
    assert_eq!(times(simulation.plant_data()), vec![0.0]);
}

#[test]
fn choosing_the_variant_in_use_changes_nothing() {
    let tables = tables();
    let mut simulation = default_loop(5);
    for _ in 0..3 {
        simulation.on_tick();
    }
    press(&mut simulation, &tables, &[Key::Char('P'), Key::Down, Key::Enter]);
    assert_eq!(simulation.editing(), Editing::Nothing);
    assert_eq!(simulation.plant().name(), "SecondOrderSystem");
    assert_eq!(simulation.plant_data().len(), 3);
    press(&mut simulation, &tables, &[Key::Char('C'), Key::Enter]);
    assert_eq!(simulation.editing(), Editing::Nothing);
    assert_eq!(simulation.plant_data().len(), 3);
}

#[test]
fn choosing_another_reference_puts_it_in_place() {
    let tables = tables();
    let mut simulation = default_loop(5);
    simulation.on_tick();
    press(&mut simulation, &tables, &[Key::Char('I'), Key::Up, Key::Up, Key::Enter]);
    assert_eq!(simulation.reference().name(), "SquareSignal");
    assert!(simulation.reference_data().is_empty());
    simulation.on_tick();
    assert_eq!(simulation.reference_data(), &[(0.0, 10.0)]);
}

#[test]
fn a_row_that_the_list_does_not_have_is_not_chosen() {
    let mut simulation = default_loop(5);
    let tables = tables();
    simulation.on_tick();
    press(&mut simulation, &tables, &[Key::Char('C'), Key::Down]);
    let empty = Tables {
        references: Registry::new(),
        controllers: Registry::new(),
        plants: Registry::new(),
    };
    press(&mut simulation, &empty, &[Key::Down]);
    assert_eq!(simulation.editing(), Editing::ControllerType(Some(0)));
    let mut simulation = default_loop(5);
    simulation.on_tick();
    press(&mut simulation, &tables, &[Key::Char('P'), Key::Down, Key::Down]);
    assert_eq!(simulation.editing(), Editing::PlantType(Some(1)));
    press(&mut simulation, &empty, &[Key::Enter]);
    assert_eq!(simulation.editing(), Editing::Nothing);
    assert_eq!(simulation.plant().name(), "SecondOrderSystem");
    assert_eq!(simulation.plant_data().len(), 1);
}

#[test]
fn keys_are_accepted_unless_a_list_cannot_move() {
    let tables = tables();
    let empty = Tables {
        references: Registry::new(),
        controllers: Registry::new(),
        plants: Registry::new(),
    };
    let mut simulation = default_loop(5);
    let accepts = |simulation: &Loop, key: Key, tables: &Tables| {
        simulation.accepts_key(key, &tables.references, &tables.controllers, &tables.plants)
    };
    assert!(accepts(&simulation, Key::Up, &empty));
    press(&mut simulation, &tables, &[Key::Char('I'), Key::Down]);
    assert_eq!(simulation.editing(), Editing::ReferenceType(Some(0)));
    assert!(accepts(&simulation, Key::Up, &tables));
    assert!(accepts(&simulation, Key::Down, &empty));
    assert!(accepts(&simulation, Key::Enter, &empty));
    assert!(!accepts(&simulation, Key::Up, &empty));
}

#[test]
fn open_list_highlights_the_variant_in_use() {
    let tables = tables();
    let mut simulation = Simulation::new(make_square(), make_pid(), make_first_order(), 5, 0.0);
    assert_eq!(
        simulation.resolve_selection(&tables.references, &tables.controllers, &tables.plants),
        None
    );
    press(&mut simulation, &tables, &[Key::Char('I')]);
    assert_eq!(
        simulation.resolve_selection(&tables.references, &tables.controllers, &tables.plants),
        Some(1)
    );
    assert_eq!(simulation.editing(), Editing::ReferenceType(Some(1)));
    press(&mut simulation, &tables, &[Key::Up]);
    assert_eq!(
        simulation.resolve_selection(&tables.references, &tables.controllers, &tables.plants),
        Some(0)
    );
    press(&mut simulation, &tables, &[Key::Esc, Key::Char('P')]);
    assert_eq!(
        simulation.resolve_selection(&tables.references, &tables.controllers, &tables.plants),
        Some(1)
    );
    press(&mut simulation, &tables, &[Key::Esc, Key::Char('C')]);
    assert_eq!(
        simulation.resolve_selection(&tables.references, &tables.controllers, &tables.plants),
        Some(0)
    );
    assert_eq!(simulation.editing(), Editing::ControllerType(Some(0)));
}

#[test]
fn open_list_without_the_variant_in_use_highlights_nothing() {
    let tables = tables();
    let empty: Registry<fn() -> Process> = Registry::new();
    let mut simulation = default_loop(5);
    press(&mut simulation, &tables, &[Key::Char('P')]);
    assert_eq!(
        simulation.resolve_selection(&tables.references, &tables.controllers, &empty),
        None
    );
    assert_eq!(simulation.editing(), Editing::PlantType(None));
}

struct Spy {
    who: &'static str,
    log: Rc<RefCell<Vec<String>>>,
    count: u32,
}

impl Spy {
    fn note(&self, what: String) {
        self.log.borrow_mut().push(format!("{} {}", self.who, what));
    }

    fn step(&mut self) -> (f64, f64) {
        self.count += 1;
        self.note("advance".to_string());
        let base = match self.who {
            "reference" => 100.0,
            "controller" => 200.0,
            _ => 300.0,
        };
        (self.count as f64, base + self.count as f64)
    }
}

impl Reference<f64> for Spy {
    fn advance(&mut self) -> (f64, f64) {
        self.step()
    }

    fn reset(&mut self) {
        self.count = 0;
        self.note("reset".to_string());
    }

    fn set_edit(&mut self) {
        self.note("set_edit".to_string());
    }

    fn edit(&mut self, editing: &mut Editing, key: Key) {
        self.note(format!("edit {:?}", key));
        if key == Key::Enter {
            *editing = Editing::Nothing;
        }
    }

    fn name(&self) -> &'static str {
        self.who
    }
}

impl Controller<f64> for Spy {
    fn set_set_point(&mut self, r: f64) {
        self.note(format!("set_set_point {}", r));
    }

    fn set_plant_output(&mut self, y: f64) {
        self.note(format!("set_plant_output {}", y));
    }

    fn advance(&mut self) -> (f64, f64) {
        self.step()
    }

    fn reset(&mut self) {
        self.count = 0;
        self.note("reset".to_string());
    }

    fn set_edit(&mut self) {
        self.note("set_edit".to_string());
    }

    fn edit(&mut self, editing: &mut Editing, key: Key) {
        self.note(format!("edit {:?}", key));
        if key == Key::Enter {
            *editing = Editing::Nothing;
        }
    }

    fn name(&self) -> &'static str {
        self.who
    }
}

impl Plant<f64> for Spy {
    fn set_input(&mut self, u: f64) {
        self.note(format!("set_input {}", u));
    }

    fn advance(&mut self) -> (f64, f64) {
        self.step()
    }

    fn reset(&mut self) {
        self.count = 0;
        self.note("reset".to_string());
    }

    fn set_edit(&mut self) {
        self.note("set_edit".to_string());
    }

    fn edit(&mut self, editing: &mut Editing, key: Key) {
        self.note(format!("edit {:?}", key));
        if key == Key::Enter {
            *editing = Editing::Nothing;
        }
    }

    fn name(&self) -> &'static str {
        self.who
    }
}

fn spies(samples_per_window: usize) -> (Simulation<f64, Spy, Spy, Spy>, Rc<RefCell<Vec<String>>>) {
    let log = Rc::new(RefCell::new(Vec::new()));
    let spy = |who| Spy { who, log: log.clone(), count: 0 };
    let simulation = Simulation::new(
        spy("reference"),
        spy("controller"),
        spy("plant"),
        samples_per_window,
        -1.0,
    );
    (simulation, log)
}

fn spy_tables() -> (Registry<fn() -> Spy>, Registry<fn() -> Spy>, Registry<fn() -> Spy>) {
    (Registry::new(), Registry::new(), Registry::new())
}

#[test]
fn tick_advances_the_components_in_causal_order() {
    let (mut simulation, log) = spies(4);
    simulation.on_tick();
    assert_eq!(
        *log.borrow(),
        vec![
            "reference advance",
            "controller set_set_point 101",
            "controller advance",
            "plant set_input 201",
            "plant advance",
            "controller set_plant_output 301",
        ]
    );
    assert_eq!(simulation.reference_data(), &[(1.0, 101.0)]);
    assert_eq!(simulation.controller_data(), &[(1.0, 201.0)]);
    assert_eq!(simulation.plant_data(), &[(1.0, 301.0)]);
}

#[test]
fn bypassed_tick_feeds_the_plant_with_the_reference() {
    let (mut simulation, log) = spies(4);
    let (references, controllers, plants) = spy_tables();
    simulation.on_tick();
    simulation.handle_key(Key::Char(' '), &references, &controllers, &plants);
    log.borrow_mut().clear();
    simulation.on_tick();
    assert_eq!(
        *log.borrow(),
        vec![
            "reference advance",
            "controller advance",
            "plant set_input 102",
            "plant advance",
        ]
    );
    assert_eq!(simulation.controller_data(), &[(1.0, 201.0), (2.0, 201.0)]);
    assert_eq!(simulation.plant_data(), &[(1.0, 301.0), (2.0, 302.0)]);
}

#[test]
fn bypassed_tick_holds_the_output_that_a_window_of_one_lets_go() {
    let (mut simulation, _log) = spies(1);
    let (references, controllers, plants) = spy_tables();
    simulation.on_tick();
    simulation.handle_key(Key::Char(' '), &references, &controllers, &plants);
    simulation.on_tick();
    assert_eq!(simulation.controller_data(), &[(2.0, 201.0)]);
}

#[test]
fn reset_resets_every_component() {
    let (mut simulation, log) = spies(4);
    simulation.on_tick();
    log.borrow_mut().clear();
    simulation.reset();
    let mut calls = log.borrow().clone();
    calls.sort();
    assert_eq!(calls, vec!["controller reset", "plant reset", "reference reset"]);
    simulation.on_tick();
    assert_eq!(simulation.plant_data(), &[(1.0, 301.0)]);
}

#[test]
fn keys_go_to_the_component_that_is_being_edited() {
    let (mut simulation, log) = spies(4);
    let (references, controllers, plants) = spy_tables();
    for key in [Key::Char('p'), Key::Char('7'), Key::Left, Key::Enter, Key::Char('c'), Key::Enter, Key::Char('i'), Key::Down] {
        simulation.handle_key(key, &references, &controllers, &plants);
    }
    assert_eq!(
        *log.borrow(),
        vec![
            "plant set_edit",
            "plant edit Char('7')",
            "plant edit Left",
            "plant edit Enter",
            "controller set_edit",
            "controller edit Enter",
            "reference set_edit",
            "reference edit Down",
        ]
    );
    assert_eq!(simulation.editing(), Editing::Reference);
}
