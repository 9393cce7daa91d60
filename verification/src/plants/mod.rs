//! Plants: the systems under control.

use vstd::prelude::*;
use crate::registry::{all_callable, position_of, registered, Registry};
use crate::{Editing, Key};

pub mod first_order;
pub mod second_order;

verus! {

/// A system that turns a sequence of inputs into a sequence of output
/// samples. A sample is a pair of time and value; the number type `V` is the
/// implementor's.
///
/// What a method computes is the implementor's business. An implementor
/// that wants it known overrides the matching predicate below; by default a
/// predicate holds of every outcome, so that nothing is promised.
pub trait Plant<V>: Sized {
    /// Whether `advance` may return `sample` and leave the plant as `after`.
    open spec fn advances(&self, sample: (V, V), after: Self) -> bool {
        true
    }

    /// Whether `reset` may leave the plant as `after`.
    open spec fn resets(&self, after: Self) -> bool {
        true
    }

    /// Whether `set_edit` may leave the plant as `after`.
    open spec fn opens_edit(&self, after: Self) -> bool {
        true
    }

    /// Whether `edit`, called on `key` while the keyboard is bound to
    /// `editing`, may leave the plant as `after` and the keyboard bound to
    /// `editing_after`.
    open spec fn edits(
        &self,
        editing: Editing,
        key: Key,
        after: Self,
        editing_after: Editing,
    ) -> bool {
        true
    }

    /// Whether `name` may return `name`.
    open spec fn named(&self, name: Seq<char>) -> bool {
        true
    }

    /// Whether `set_input(u)` may leave the plant as `after`.
    open spec fn takes_input(&self, u: V, after: Self) -> bool {
        true
    }

    /// Takes `u` as the input from which the next output is computed.
    fn set_input(&mut self, u: V)
        ensures
            old(self).takes_input(u, *final(self)),
    ;

    /// Computes the next output from the difference equation and moves the
    /// clock on by one sampling interval.
    fn advance(&mut self) -> (sample: (V, V))
        ensures
            old(self).advances(sample, *final(self)),
    ;

    /// Puts clock and state back to zero and leaves the parameters as they
    /// are.
    fn reset(&mut self)
        ensures
            old(self).resets(*final(self)),
    ;

    /// Opens the first parameter for editing.
    fn set_edit(&mut self)
        ensures
            old(self).opens_edit(*final(self)),
    ;

    /// Applies a key press to the parameter that is being edited. An edit
    /// that ends sets `editing` to `Editing::Nothing`.
    fn edit(&mut self, editing: &mut Editing, key: Key)
        ensures
            old(self).edits(*old(editing), key, *final(self), *final(editing)),
    ;

    /// The name under which the variant is registered.
    fn name(&self) -> (name: &'static str)
        ensures
            self.named(name@),
    ;
}

/// Registers `factory` under `name` as a variant of the plant. A
/// name that is already there keeps its place and gets the new factory.
pub fn register_plant<F>(registry: &mut Registry<F>, name: &'static str, factory: F)
    ensures
        final(registry)@ == registered(old(registry)@, name@, factory),
        old(registry).wf() ==> final(registry).wf(),
{
    registry.register(name, factory);
}

/// A fresh plant of the variant registered as `name`; `None` if
/// there is no such variant.
pub fn get_plant_by_name<P, F: Fn() -> P>(registry: &Registry<F>, name: &str) -> (made: Option<
    P,
>)
    requires
        all_callable(registry@),
    ensures
        match position_of(registry@, name@) {
            Some(i) => 0 <= i < registry@.len() && made is Some && call_ensures(
                registry@[i].1,
                (),
                made->0,
            ),
            None => made is None,
        },
{
    match registry.get_by_name(name) {
        Some(factory) => Some(factory()),
        None => None,
    }
}

/// A fresh plant of the variant at `idx` in the table; `None` past
/// its end.
pub fn get_plant_by_index<P, F: Fn() -> P>(registry: &Registry<F>, idx: usize) -> (made: Option<
    P,
>)
    requires
        all_callable(registry@),
    ensures
        idx < registry@.len() ==> made is Some && call_ensures(
            registry@[idx as int].1,
            (),
            made->0,
        ),
        idx >= registry@.len() ==> made is None,
{
    match registry.get_by_index(idx) {
        Some(factory) => Some(factory()),
        None => None,
    }
}

} // verus!
