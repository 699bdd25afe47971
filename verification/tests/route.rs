use else_model::descriptor::{BuildableDescriptor, DescriptorBuilder};
use else_model::error::Error;
use else_model::identity::Identifiable;
use else_model::modeling::{BuildableUID, Builder, BuilderMode, CloneBuilding};
use else_model::route::direction::Direction;
use else_model::route::end::EndBuilder;
use else_model::route::endpoint::EndpointBuilder;
use else_model::route::junction::JunctionBuilder;
use else_model::route::point::{Point, PointBuilderVariant};
use else_model::route::{Route, RouteBuilder};

fn descriptor(name: &str) -> DescriptorBuilder {
    let mut d = DescriptorBuilder::creator();
    d.name(name.to_string()).unwrap();
    d
}

fn end(area_uid: u128, direction: Direction) -> EndBuilder {
    let mut end = EndBuilder::creator();
    end.area_uid(area_uid).unwrap().direction(direction).unwrap();
    end.descriptor(descriptor("portal")).unwrap();
    end
}

fn endpoint(area_uid: u128) -> EndpointBuilder {
    let mut point = EndpointBuilder::creator();
    point.end(end(area_uid, Direction::up())).unwrap();
    point
}

fn create_route() -> Route {
    let mut route = RouteBuilder::creator();
    route.uid(500).unwrap();
    route.descriptor(descriptor("Portal between Cat House and Dog House")).unwrap();
    route.point_a(endpoint(1).point_builder()).unwrap();
    route.point_b(endpoint(2).point_builder()).unwrap();
    assert_eq!(route.creation_area_uids().unwrap(), vec![1, 2]);
    route.create().unwrap().split().1
}

#[test]
fn route_connects_the_areas_of_its_points() {
    let route = create_route();
    assert_eq!(route.uid(), 500);
    assert_eq!(route.area_uids(), vec![1, 2]);
    assert_eq!(route.end_for_area(2).unwrap().area_uid(), 2);
    assert!(route.end_for_area(3).is_none());
    match route.point_a() {
        Point::Endpoint(endpoint) => assert_eq!(endpoint.end().area_uid(), 1),
        _ => panic!("Route Point A should be an Endpoint"),
    }
}

#[test]
fn route_editor_replaces_point_b() {
    let mut route = create_route();
    let mut editor = RouteBuilder::editor();
    let mut point_b = EndpointBuilder::creator();
    point_b.end(end(3, Direction::down())).unwrap();
    editor.point_b(point_b.point_builder()).unwrap();
    assert_eq!(editor.modification_area_uids(&route).unwrap(), vec![1, 3]);
    editor.modify(&mut route).unwrap();
    assert_eq!(route.area_uids(), vec![1, 3]);
    assert_eq!(route.end_for_area(3).unwrap().direction(), Direction::down());
}

#[test]
fn route_requires_its_points() {
    let mut route = RouteBuilder::creator();
    route.uid(1).unwrap();
    route.descriptor(descriptor("r")).unwrap();
    assert!(matches!(route.create(), Err(Error::FieldNotSet { class: "Route", field: "point_a" })));
}

#[test]
fn end_requires_a_direction() {
    let mut end = EndBuilder::creator();
    end.area_uid(1).unwrap();
    end.descriptor(descriptor("d")).unwrap();
    assert!(matches!(end.create(), Err(Error::FieldNotSet { class: "End", field: "direction" })));
}

#[test]
fn junction_needs_an_entrance_and_lists_its_areas() {
    let junction = JunctionBuilder::creator();
    assert!(matches!(junction.create(), Err(Error::FieldNotSet { class: "Junction", field: "entrances" })));

    let mut junction = JunctionBuilder::creator();
    junction.add_entrance(end(4, Direction::up())).unwrap();
    junction.add_entrance(end(5, Direction::up())).unwrap();
    junction.exit(end(6, Direction::down())).unwrap();
    let point_builder = junction.point_builder();
    assert_eq!(point_builder.area_uids().unwrap(), vec![4, 5]);
    let point = point_builder.create().unwrap().split().1;
    assert_eq!(point.area_uids(), vec![4, 5]);
    assert_eq!(point.end_for_area(5).unwrap().area_uid(), 5);
    assert!(point.end_for_area(6).is_none());
}

#[test]
fn junction_editor_removes_an_entrance() {
    let mut junction = JunctionBuilder::creator();
    junction.add_entrance(end(4, Direction::up())).unwrap();
    junction.add_entrance(end(5, Direction::up())).unwrap();
    junction.exit(end(6, Direction::down())).unwrap();
    let mut junction = junction.create().unwrap().split().1;
    let mut editor = JunctionBuilder::editor();
    editor.remove_entrance(4).unwrap();
    editor.modify(&mut junction).unwrap();
    assert_eq!(junction.entrances().len(), 1);
    assert_eq!(junction.entrances()[0].area_uid(), 5);

    let mut editor = JunctionBuilder::editor();
    editor.remove_entrance(9).unwrap();
    assert!(matches!(editor.modify(&mut junction), Err(Error::ModelNotFound { model: "End", uid: 9 })));
}

#[test]
fn route_clone_keeps_its_identity() {
    let route = create_route();
    let copy = RouteBuilder::clone_model(BuilderMode::Editor, &route);
    assert_eq!(copy.get_uid(), Some(&500));
}

#[test]
fn route_rebuilt_from_its_clone_is_the_same() {
    let route = create_route();
    let copy = RouteBuilder::clone_model(BuilderMode::Creator, &route);
    let rebuilt = copy.create().unwrap().split().1;
    assert_eq!(rebuilt.uid(), 500);
    assert_eq!(rebuilt.area_uids(), vec![1, 2]);
    assert_eq!(rebuilt.end_for_area(1).unwrap().area_uid(), 1);
}

#[test]
fn route_edited_with_its_clone_is_unchanged() {
    let mut route = create_route();
    let editor = RouteBuilder::clone_model(BuilderMode::Editor, &route);
    editor.modify(&mut route).unwrap();
    assert_eq!(route.uid(), 500);
    assert_eq!(route.area_uids(), vec![1, 2]);
    assert_eq!(route.end_for_area(2).unwrap().area_uid(), 2);
}
