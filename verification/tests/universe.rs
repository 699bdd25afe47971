use else_model::descriptor::{BuildableDescriptor, DescriptorBuilder};
use else_model::error::Error;
use else_model::identity::{Identifiable, UID};
use else_model::interface::{Interface, InterfaceBuilder};
use else_model::modeling::{BuildableUID, Builder};
use else_model::universe::action::{Auth, UniverseAction};
use else_model::universe::{Universe, UniverseBuilder};

fn create_universe() -> (Universe, Interface) {
    let mut universe_creator = UniverseBuilder::creator();
    universe_creator.uid(1000).unwrap();
    universe_creator.descriptor({
        let mut descriptor = DescriptorBuilder::creator();
        descriptor.key("unit_test_universe".to_string()).unwrap();
        descriptor.name("Unit Test Universe".to_string()).unwrap();
        descriptor
    }).unwrap();
    universe_creator.add_world_uid(2000).unwrap();
    let (_, universe) = universe_creator.create().unwrap().split();

    let mut interface_creator = InterfaceBuilder::creator();
    interface_creator.uid(3000).unwrap();
    let (_, interface) = interface_creator.create().unwrap().split();

    (universe, interface)
}

#[test]
fn test_authenticate() {
    let (mut universe, interface) = create_universe();
    let auth = Auth::Password("sh4d0wf4x".to_string());

    UniverseAction::authenticate(&mut universe, interface.uid(), auth).unwrap();
    assert_eq!(universe.active_interface_uids().last().unwrap(), &interface.uid());
}

#[test]
fn wrong_password_fails_and_changes_nothing() {
    let (mut universe, interface) = create_universe();
    let auth = Auth::Password("guess".to_string());

    let result = UniverseAction::authenticate(&mut universe, interface.uid(), auth);
    assert!(matches!(result, Err(Error::AuthenticationFailed)));
    assert!(universe.active_interface_uids().is_empty());
}

#[test]
fn authenticating_twice_lists_the_interface_once() {
    let (mut universe, interface) = create_universe();
    UniverseAction::authenticate(&mut universe, interface.uid(), Auth::Password("sh4d0wf4x".to_string())).unwrap();
    UniverseAction::authenticate(&mut universe, interface.uid(), Auth::Password("sh4d0wf4x".to_string())).unwrap();
    let expected: Vec<UID> = vec![interface.uid()];
    assert_eq!(universe.active_interface_uids(), &expected);
    assert_eq!(universe.world_uids(), &vec![2000]);
}

#[test]
fn universe_requires_a_descriptor() {
    let mut universe_creator = UniverseBuilder::creator();
    universe_creator.uid(1).unwrap();
    assert!(matches!(universe_creator.create(), Err(Error::FieldNotSet { class: "Universe", field: "descriptor" })));
}
