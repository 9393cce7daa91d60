//! Controllers: they turn the error between set-point and plant output into
//! the input of the plant.

use vstd::prelude::*;
use crate::registry::{all_callable, position_of, registered, Registry};
use crate::{Editing, Key};

pub mod pid_0;

verus! {

/// A control law that produces one output sample per tick from the set-point
/// and the plant output it was last given. A sample is a pair of time and
/// value; the number type `V` is the implementor's.
///
/// What a method computes is the implementor's business. An implementor
/// that wants it known overrides the matching predicate below; by default a
/// predicate holds of every outcome, so that nothing is promised.
pub trait Controller<V>: Sized {
    /// Whether `advance` may return `sample` and leave the controller as `after`.
    open spec fn advances(&self, sample: (V, V), after: Self) -> bool {
        true
    }

    /// Whether `reset` may leave the controller as `after`.
    open spec fn resets(&self, after: Self) -> bool {
        true
    }

    /// Whether `set_edit` may leave the controller as `after`.
    open spec fn opens_edit(&self, after: Self) -> bool {
        true
    }

    /// Whether `edit`, called on `key` while the keyboard is bound to
    /// `editing`, may leave the controller as `after` and the keyboard bound to
    /// `editing_after`.
    open spec fn edits(
        &self,
        editing: Editing,
        key: Key,
        after: Self,
        editing_after: Editing,
    ) -> bool {
        true
    }

    /// Whether `name` may return `name`.
    open spec fn named(&self, name: Seq<char>) -> bool {
        true
    }

    /// Whether `set_set_point(r)` may leave the controller as `after`.
    open spec fn takes_set_point(&self, r: V, after: Self) -> bool {
        true
    }

    /// Whether `set_plant_output(y)` may leave the controller as `after`.
    open spec fn takes_plant_output(&self, y: V, after: Self) -> bool {
        true
    }

    /// Takes `r` as the set-point.
    fn set_set_point(&mut self, r: V)
        ensures
            old(self).takes_set_point(r, *final(self)),
    ;

    /// Takes `y` as the latest output of the plant.
    fn set_plant_output(&mut self, y: V)
        ensures
            old(self).takes_plant_output(y, *final(self)),
    ;

    /// Computes the next output from the error between set-point and plant
    /// output and moves the clock on by one sampling interval.
    fn advance(&mut self) -> (sample: (V, V))
        ensures
            old(self).advances(sample, *final(self)),
    ;

    /// Puts clock, set-point and histories back to zero and leaves the
    /// parameters as they are.
    fn reset(&mut self)
        ensures
            old(self).resets(*final(self)),
    ;

    /// Opens the first parameter for editing.
    fn set_edit(&mut self)
        ensures
            old(self).opens_edit(*final(self)),
    ;

    /// Applies a key press to the parameter that is being edited. An edit
    /// that ends sets `editing` to `Editing::Nothing`.
    fn edit(&mut self, editing: &mut Editing, key: Key)
        ensures
            old(self).edits(*old(editing), key, *final(self), *final(editing)),
    ;

    /// The name under which the variant is registered.
    fn name(&self) -> (name: &'static str)
        ensures
            self.named(name@),
    ;
}

/// Registers `factory` under `name` as a variant of the controller. A
/// name that is already there keeps its place and gets the new factory.
pub fn register_controller<F>(registry: &mut Registry<F>, name: &'static str, factory: F)
    ensures
        final(registry)@ == registered(old(registry)@, name@, factory),
        old(registry).wf() ==> final(registry).wf(),
{
    registry.register(name, factory);
}

/// A fresh controller of the variant registered as `name`; `None` if
/// there is no such variant.
pub fn get_controller_by_name<C, F: Fn() -> C>(registry: &Registry<F>, name: &str) -> (made: Option<
    C,
>)
    requires
        all_callable(registry@),
    ensures
        match position_of(registry@, name@) {
            Some(i) => 0 <= i < registry@.len() && made is Some && call_ensures(
                registry@[i].1,
                (),
                made->0,
            ),
            None => made is None,
        },
{
    match registry.get_by_name(name) {
        Some(factory) => Some(factory()),
        None => None,
    }
}

/// A fresh controller of the variant at `idx` in the table; `None` past
/// its end.
pub fn get_controller_by_index<C, F: Fn() -> C>(registry: &Registry<F>, idx: usize) -> (made: Option<
    C,
>)
    requires
        all_callable(registry@),
    ensures
        idx < registry@.len() ==> made is Some && call_ensures(
            registry@[idx as int].1,
            (),
            made->0,
        ),
        idx >= registry@.len() ==> made is None,
{
    match registry.get_by_index(idx) {
        Some(factory) => Some(factory()),
        None => None,
    }
}

} // verus!
