use control_sim::controllers::{get_controller_by_index, get_controller_by_name, register_controller};
use control_sim::inputs::{get_reference_by_index, get_reference_by_name, register_reference};
use control_sim::plants::{get_plant_by_index, get_plant_by_name, register_plant};
use control_sim::registry::Registry;

type Factory = fn() -> u32;

fn one() -> u32 {
    1
}

fn two() -> u32 {
    2
}

fn three() -> u32 {
    3
}

fn sample() -> Registry<Factory> {
    let mut registry: Registry<Factory> = Registry::new();
    registry.register("step", one);
    registry.register("sine", two);
    registry
}

#[test]
fn new_registry_is_empty() {
    let registry: Registry<Factory> = Registry::new();
    assert_eq!(registry.len(), 0);
    assert_eq!(registry.position("step"), None);
    assert_eq!(registry.name_at(0), None);
    assert!(registry.get_by_index(0).is_none());
    assert!(registry.get_by_name("step").is_none());
}

#[test]
fn registry_keeps_the_order_of_registration() {
    let registry = sample();
    assert_eq!(registry.len(), 2);
    assert_eq!(registry.name_at(0), Some("step"));
    assert_eq!(registry.name_at(1), Some("sine"));
    assert_eq!(registry.name_at(2), None);
    assert_eq!(registry.position("step"), Some(0));
    assert_eq!(registry.position("sine"), Some(1));
    assert_eq!(registry.position("square"), None);
}

#[test]
fn registry_lists_its_names_in_order() {
    assert_eq!(sample().names(), vec!["step", "sine"]);
    let empty: Registry<Factory> = Registry::new();
    assert!(empty.names().is_empty());
}

#[test]
fn registry_finds_factories_by_index_and_name() {
    let registry = sample();
    assert_eq!(registry.get_by_index(0).map(|f| f()), Some(1));
    assert_eq!(registry.get_by_index(1).map(|f| f()), Some(2));
    assert!(registry.get_by_index(2).is_none());
    assert_eq!(registry.get_by_name("sine").map(|f| f()), Some(2));
    assert!(registry.get_by_name("Sine").is_none());
}

#[test]
fn registering_a_name_again_replaces_its_factory_in_place() {
    let mut registry = sample();
    registry.register("step", three);
    assert_eq!(registry.len(), 2);
    assert_eq!(registry.name_at(0), Some("step"));
    assert_eq!(registry.get_by_index(0).map(|f| f()), Some(3));
    assert_eq!(registry.get_by_index(1).map(|f| f()), Some(2));
}

#[test]
fn reference_variants_are_made_by_index_and_name() {
    let mut registry: Registry<Factory> = Registry::new();
    register_reference(&mut registry, "step", one);
    register_reference(&mut registry, "sine", two);
    assert_eq!(get_reference_by_index(&registry, 0), Some(1));
    assert_eq!(get_reference_by_index(&registry, 1), Some(2));
    assert_eq!(get_reference_by_index(&registry, 2), None);
    assert_eq!(get_reference_by_name(&registry, "sine"), Some(2));
    assert_eq!(get_reference_by_name(&registry, "square"), None);
}

#[test]
fn plant_variants_are_made_by_index_and_name() {
    let mut registry: Registry<Factory> = Registry::new();
    register_plant(&mut registry, "first", one);
    register_plant(&mut registry, "second", two);
    register_plant(&mut registry, "first", three);
    assert_eq!(get_plant_by_index(&registry, 0), Some(3));
    assert_eq!(get_plant_by_index(&registry, 1), Some(2));
    assert_eq!(get_plant_by_index(&registry, usize::MAX), None);
    assert_eq!(get_plant_by_name(&registry, "first"), Some(3));
    assert_eq!(get_plant_by_name(&registry, ""), None);
}

#[test]
fn controller_variants_are_made_by_index_and_name() {
    let mut registry: Registry<Factory> = Registry::new();
    assert_eq!(get_controller_by_index(&registry, 0), None);
    register_controller(&mut registry, "pid", one);
    assert_eq!(get_controller_by_index(&registry, 0), Some(1));
    assert_eq!(get_controller_by_index(&registry, 1), None);
    assert_eq!(get_controller_by_name(&registry, "pid"), Some(1));
    assert_eq!(get_controller_by_name(&registry, "pi"), None);
}

#[test]
fn position_is_that_of_the_first_entry_of_a_name() {
    let mut registry: Registry<Factory> = Registry::new();
    registry.register("a", one);
    registry.register("b", two);
    registry.register("c", three);
    registry.register("b", one);
    assert_eq!(registry.names(), vec!["a", "b", "c"]);
    assert_eq!(registry.position("b"), Some(1));
    assert_eq!(registry.position("c"), Some(2));
    assert_eq!(registry.get_by_name("b").map(|f| f()), Some(1));
}
