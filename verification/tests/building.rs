use else_model::area::{Area, AreaBuilder};
use else_model::character::{Character, CharacterBuilder};
use else_model::cortex::awareness::Awareness;
use else_model::cortex::intelligence::{IntelligenceLobeBuilder, Intelligent};
use else_model::cortex::routine::{Habitual, RoutineLobeBuilder, Sensory};
use else_model::cortex::{BuildableCortex, CortexBuilder, Sensitive};
use else_model::descriptor::{BuildableDescriptor, Descriptive, Descriptor, DescriptorBuilder, DescriptorField};
use else_model::entity::{BuildableEntity, EntityBuilder, Exists};
use else_model::error::Error;
use else_model::identity::{Identifiable, Keyed, MaybeIdentifiable};
use else_model::interface::InterfaceBuilder;
use else_model::location::{Located, Location};
use else_model::modeling::fields_changed::ChangeOp;
use else_model::modeling::{BuildableUID, Builder, BuilderMode, CloneBuilding, Fields};
use else_model::route::BuildableRouteUIDList;
use else_model::session::SessionBuilder;
use else_model::thing::{Thing, ThingBuilderVariant};

fn descriptor(key: &str, name: &str) -> DescriptorBuilder {
    let mut d = DescriptorBuilder::creator();
    d.key(key.to_string()).unwrap();
    d.name(name.to_string()).unwrap();
    d
}

fn create_area(uid: u128, key: &str) -> Area {
    let mut area = AreaBuilder::creator();
    area.uid(uid).unwrap();
    area.descriptor(descriptor(key, "An Area")).unwrap();
    area.create().unwrap().split().1
}

fn create_character(uid: u128) -> Character {
    let mut character = CharacterBuilder::creator();
    let entity = character.entity_builder();
    entity.uid(uid).unwrap();
    entity.location(Location::Area(7)).unwrap();
    entity.descriptor(descriptor("black_cat", "Black Cat")).unwrap();
    character.routine_lobe({
        let mut lobe = RoutineLobeBuilder::creator();
        lobe.routine_uid(1).unwrap();
        lobe.routine_awareness(Awareness::Conscious).unwrap();
        lobe
    }).unwrap();
    character.create().unwrap().split().1
}

#[test]
fn descriptor_requires_a_name() {
    let mut d = DescriptorBuilder::creator();
    d.key("k".to_string()).unwrap();
    assert!(matches!(d.create(), Err(Error::FieldNotSet { class: "Descriptor", field: "name" })));
}

#[test]
fn descriptor_description_falls_back_to_short_description() {
    let mut d = descriptor("k", "Name");
    d.short_description("short".to_string()).unwrap();
    let descriptor: Descriptor = d.create().unwrap().split().1;
    assert_eq!(descriptor.description().unwrap(), "short");
    assert_eq!(descriptor.key(), Some("k"));
    assert!(descriptor.keywords().is_empty());
}

#[test]
fn descriptor_set_by_field_name() {
    let mut d = DescriptorBuilder::creator();
    d.set("name", "Cat House".to_string()).unwrap();
    d.set("keywords", "  cat   house ".to_string()).unwrap();
    let descriptor = d.create().unwrap().split().1;
    assert_eq!(descriptor.name(), "Cat House");
    assert_eq!(descriptor.keywords(), &vec!["cat".to_string(), "house".to_string()]);
    let mut other = DescriptorBuilder::creator();
    assert!(matches!(other.set("colour", "red".to_string()), Err(Error::UnknownField { class: "Descriptor", .. })));
}

#[test]
fn descriptor_editor_changes_every_field_set_on_it() {
    let mut existing = descriptor("k", "Old").create().unwrap().split().1;
    let mut editor = DescriptorBuilder::editor();
    editor.name("New".to_string()).unwrap();
    editor.key("changed".to_string()).unwrap();
    editor.notes("n".to_string()).unwrap();
    let modification = editor.modify(&mut existing).unwrap();
    assert_eq!(modification.fields_changed().root.op, ChangeOp::Modify);
    assert_eq!(existing.name(), "New");
    assert_eq!(existing.key(), Some("changed"));
    assert_eq!(existing.notes().unwrap(), "n");
}

#[test]
fn descriptor_editor_leaves_what_is_not_set() {
    let mut existing = descriptor("k", "Old").create().unwrap().split().1;
    let mut editor = DescriptorBuilder::editor();
    editor.notes("n".to_string()).unwrap();
    editor.modify(&mut existing).unwrap();
    assert_eq!(existing.name(), "Old");
    assert_eq!(existing.key(), Some("k"));
}

#[test]
fn descriptor_clone_recreates_it() {
    let existing = descriptor("k", "Name").create().unwrap().split().1;
    let copy = DescriptorBuilder::clone_model(BuilderMode::Creator, &existing).create().unwrap().split().1;
    assert_eq!(copy.name(), "Name");
    assert_eq!(copy.key(), Some("k"));
}

#[test]
fn entity_fields_are_required_in_order() {
    let mut entity = EntityBuilder::creator();
    assert!(matches!(entity.try_uid(), Err(Error::IdentityNotGenerated)));
    assert!(matches!(EntityBuilder::creator().create(), Err(Error::FieldNotSet { class: "Entity", field: "uid" })));
    entity.uid(5).unwrap();
    entity.descriptor(descriptor("k", "E")).unwrap();
    assert!(matches!(entity.create(), Err(Error::FieldNotSet { class: "Entity", field: "location" })));
}

#[test]
fn character_is_created_with_its_entity_and_cortex() {
    let character = create_character(42);
    assert_eq!(character.uid(), 42);
    assert_eq!(character.name(), "Black Cat");
    assert_eq!(character.key(), Some("black_cat"));
    assert!(matches!(character.location(), Location::Area(7)));
    assert_eq!(character.entity().uid(), 42);
    let lobe = character.cortex().routine_lobe();
    assert_eq!(Sensory::routine_uid(lobe), 1);
    assert_eq!(Sensory::routine_awareness(lobe), Awareness::Conscious);
    assert!(!character.cortex().is_intelligent());
}

#[test]
fn character_editor_moves_the_character() {
    let mut character = create_character(42);
    let mut editor = CharacterBuilder::editor();
    editor.entity_builder().location(Location::Route(9)).unwrap();
    let modification = editor.modify(&mut character).unwrap();
    assert!(matches!(character.location(), Location::Route(9)));
    assert_eq!(modification.builder().get_uid(), Some(&42));
    assert_eq!(modification.fields_changed().root.children.len(), 1);
}

#[test]
fn character_cortex_creator_adds_an_intelligence_lobe() {
    let mut character = create_character(42);
    let mut editor = CharacterBuilder::editor();
    let mut cortex = CortexBuilder::creator();
    cortex.routine_lobe({
        let mut lobe = RoutineLobeBuilder::creator();
        lobe.routine_uid(0).unwrap();
        lobe.routine_awareness(Awareness::Subconscious).unwrap();
        lobe
    }).unwrap();
    cortex.set_intelligence_lobe({
        let mut lobe = IntelligenceLobeBuilder::creator();
        lobe.interface_uid(3000).unwrap();
        lobe
    }).unwrap();
    editor.cortex(cortex).unwrap();
    editor.modify(&mut character).unwrap();
    assert_eq!(character.cortex().intelligent_interface_uid(), Some(3000));
    assert_eq!(Sensory::routine_awareness(character.cortex().routine_lobe()), Awareness::Subconscious);
}

#[test]
fn thing_wraps_a_character() {
    let mut thing_builder = {
        let mut character = CharacterBuilder::creator();
        let entity = character.entity_builder();
        entity.uid(8).unwrap();
        entity.location(Location::Area(1)).unwrap();
        entity.descriptor(descriptor("dog", "Dog")).unwrap();
        character.routine_lobe({
            let mut lobe = RoutineLobeBuilder::creator();
            lobe.routine_uid(0).unwrap();
            lobe.routine_awareness(Awareness::Unconscious).unwrap();
            lobe
        }).unwrap();
        character.thing_builder()
    };
    assert_eq!(thing_builder.try_uid().unwrap(), 8);
    thing_builder.uid(9).unwrap();
    let thing: Thing = thing_builder.create().unwrap().split().1;
    assert_eq!(thing.uid(), 9);
    assert_eq!(thing.try_character().unwrap().name(), "Dog");
}

#[test]
fn area_occupants_follow_their_operations() {
    let mut area = create_area(10, "backyard");
    let mut editor = AreaBuilder::editor();
    editor.add_occupant_uid(1).unwrap();
    editor.add_occupant_uid(2).unwrap();
    editor.add_occupant_uid(1).unwrap();
    editor.modify(&mut area).unwrap();
    assert_eq!(area.occupant_uids(), &vec![1, 2]);

    let mut editor = AreaBuilder::editor();
    editor.remove_occupant_uid(1).unwrap();
    editor.remove_occupant_uid(3).unwrap();
    let modification = editor.modify(&mut area).unwrap();
    assert_eq!(area.occupant_uids(), &vec![2]);
    assert_eq!(modification.builder().get_uid(), Some(&10));
}

#[test]
fn area_rejects_adding_what_is_being_removed() {
    let mut editor = AreaBuilder::editor();
    editor.remove_occupant_uid(4).unwrap();
    match editor.add_occupant_uid(4) {
        Err(Error::ListOpRace { op, model, uid, whiled }) => {
            assert_eq!((op, model, uid, whiled), ("add", "Area", 4, "removed"));
        },
        _ => panic!("expected a race"),
    }
    let mut editor = AreaBuilder::editor();
    editor.add_route_uid(4).unwrap();
    assert!(matches!(editor.remove_route_uid(4), Err(Error::ListOpRace { op: "remove", .. })));
}

#[test]
fn area_routes_are_created_from_their_operations() {
    let mut creator = AreaBuilder::creator();
    creator.uid(11).unwrap();
    creator.descriptor(descriptor("cat_house", "Cat House")).unwrap();
    creator.add_route_uid(100).unwrap();
    creator.add_route_uid(101).unwrap();
    let area = creator.create().unwrap().split().1;
    assert_eq!(area.route_uids(), &vec![100, 101]);
    assert!(area.occupant_uids().is_empty());
}

#[test]
fn interface_downlink_is_set_and_unset() {
    let mut creator = InterfaceBuilder::creator();
    creator.uid(3000).unwrap();
    creator.downlink_uid(42).unwrap();
    let mut interface = creator.create().unwrap().split().1;
    assert!(interface.linked());
    assert_eq!(interface.downlink_uid(), Some(42));
    let mut editor = InterfaceBuilder::editor();
    editor.unset_downlink_uid().unwrap();
    editor.modify(&mut interface).unwrap();
    assert!(!interface.linked());
}

#[test]
fn session_editor_only_extends_the_expiration() {
    let mut creator = SessionBuilder::creator();
    creator.uid(1).unwrap();
    assert!(matches!(creator.create(), Err(Error::FieldNotSet { class: "Session", field: "interface_uid" })));
}

#[test]
fn routine_lobe_requires_both_fields() {
    let mut lobe = RoutineLobeBuilder::creator();
    lobe.routine_uid(1).unwrap();
    assert!(matches!(lobe.create(), Err(Error::FieldNotSet { class: "RoutineCortex", field: "routine_awareness" })));
}

#[test]
fn descriptor_fields_are_found_by_their_names() {
    use_field_names();
}

fn use_field_names() {
    for f in [
        DescriptorField::Name,
        DescriptorField::Keywords,
        DescriptorField::Key,
        DescriptorField::ShortDescription,
        DescriptorField::Description,
        DescriptorField::Notes,
    ] {
        assert_eq!(DescriptorField::try_from(f.field().name()), Ok(f));
    }
    assert!(matches!(
        DescriptorField::try_from("title"),
        Err(Error::UnknownField { class: "Descriptor", .. })
    ));
}
