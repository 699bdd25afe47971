use else_model::error::Error;
use else_model::route::direction::{Direction, HorizontalDirection, VerticalDirection};

#[test]
fn test_direction_from_str() {
    let d: Direction = "North".parse().unwrap();
    assert_eq!(d.horizontal(), HorizontalDirection::North);
    assert_eq!(d.vertical(), VerticalDirection::Level);

    let d: Direction = "North & Up".parse().unwrap();
    assert_eq!(d.horizontal(), HorizontalDirection::North);
    assert_eq!(d.vertical(), VerticalDirection::Up);

    let d: Direction = "North & Down".parse().unwrap();
    assert_eq!(d.horizontal(), HorizontalDirection::North);
    assert_eq!(d.vertical(), VerticalDirection::Down);
}

#[test]
fn direction_names_ignore_ascii_case_and_surrounding_space() {
    let d = Direction::parse("  nOrThEaSt&uP ").unwrap();
    assert_eq!(d.h(), HorizontalDirection::Northeast);
    assert_eq!(d.v(), VerticalDirection::Up);
    assert_eq!(d.name(), "Up Northeast");
    assert_eq!(d.name_lowercase(), "up northeast");
}

#[test]
fn southwest_is_parsed_from_its_name() {
    let d = Direction::parse("Southwest").unwrap();
    assert_eq!(d.horizontal(), HorizontalDirection::Southwest);
    assert!(d.is_level());
    assert!(Direction::parse("Soutwest").is_err());
}

#[test]
fn every_direction_name_parses_back() {
    let bearings = [
        HorizontalDirection::Vertical,
        HorizontalDirection::North,
        HorizontalDirection::Northeast,
        HorizontalDirection::East,
        HorizontalDirection::Southeast,
        HorizontalDirection::South,
        HorizontalDirection::Southwest,
        HorizontalDirection::West,
        HorizontalDirection::Northwest,
    ];
    for h in bearings {
        for v in [VerticalDirection::Down, VerticalDirection::Level, VerticalDirection::Up] {
            let d = Direction::new(h, v);
            assert_eq!(Direction::parse(d.name()).unwrap(), d, "name {}", d.name());
            assert_eq!(Direction::parse(d.name_lowercase()).unwrap(), d);
            assert_eq!(d.name().to_ascii_lowercase(), d.name_lowercase());
        }
    }
    let d = Direction::parse("  down   nOrTh ").unwrap();
    assert_eq!(d, Direction::new(HorizontalDirection::North, VerticalDirection::Down));
    assert!(Direction::parse("Level North").is_err());
    assert!(Direction::parse("Up Sideways").is_err());
}

#[test]
fn unknown_horizontal_direction_is_a_parsing_error() {
    match Direction::parse("Nowhere & Up") {
        Err(Error::Parsing { what, src }) => {
            assert_eq!(what, "HorizontalDirection");
            assert_eq!(src, "Nowhere & Up");
        },
        other => panic!("unexpected: {:?}", other),
    }
}

#[test]
fn unknown_vertical_direction_is_a_parsing_error() {
    match Direction::parse("West & Sideways") {
        Err(Error::Parsing { what, src }) => {
            assert_eq!(what, "VerticalDirection");
            assert_eq!(src, "West & Sideways");
        },
        other => panic!("unexpected: {:?}", other),
    }
}

#[test]
fn only_the_first_two_parts_are_read() {
    let d = Direction::parse("East & Down & Level").unwrap();
    assert_eq!(d.horizontal(), HorizontalDirection::East);
    assert_eq!(d.vertical(), VerticalDirection::Down);
}

#[test]
fn direction_names() {
    assert_eq!(Direction::up().name(), "Up");
    assert_eq!(Direction::down().name_lowercase(), "down");
    assert_eq!(Direction::level(HorizontalDirection::West).name(), "West");
    assert_eq!(Direction::new(HorizontalDirection::South, VerticalDirection::Down).name(), "Down South");
    assert_eq!(HorizontalDirection::Northwest.name_lowercase(), "northwest");
    assert_eq!(VerticalDirection::Level.name(), "Level");
}
