//! A discrete-time closed-loop control simulation: a reference signal feeds a
//! controller, the controller drives a plant, and the plant's output is fed
//! back into the controller.
//!
//! The crate holds the bookkeeping of that loop: the tick scheduler with its
//! bounded sample histories ([`simulation`], [`window`]), the state of each
//! component ([`inputs`], [`controllers`], [`plants`]), the tables of
//! component variants ([`registry`]), and the editing of component
//! parameters ([`utils`], [`param`], [`form`], [`menu`]).
//!
//! The crate is generic over the number type `V` and never computes with
//! numbers. Where a new number is needed (the next output of a difference
//! equation, the next value of a clock, the number that a text stands for),
//! the caller computes it and hands it in.

use vstd::prelude::*;

pub mod controllers;
pub mod form;
pub mod inputs;
pub mod menu;
pub mod param;
pub mod plants;
pub mod registry;
pub mod simulation;
pub mod utils;
pub mod window;

verus! {

/// What the keyboard is currently bound to: nothing, the parameters of one
/// component, or the list from which a component's variant is chosen (with
/// the highlighted row, once one is).
#[derive(Clone, Copy, Debug, PartialEq, Eq, Structural)]
pub enum Editing {
    Nothing,
    Reference,
    ReferenceType(Option<usize>),
    Plant,
    PlantType(Option<usize>),
    Controller,
    ControllerType(Option<usize>),
}

/// A key press, reduced to what the simulation tells apart.
#[derive(Clone, Copy, Debug, PartialEq, Eq, Structural)]
pub enum Key {
    Esc,
    Char(char),
    Backspace,
    Delete,
    Left,
    Right,
    Up,
    Down,
    Enter,
    Other,
}

/// Whether `key` ends the edit of a form: `Esc` gives it up, `Enter`
/// completes it.
pub open spec fn ends_edit(key: Key) -> bool {
    key == Key::Esc || key == Key::Enter
}

} // verus!
