use else_model::action::Action;
use else_model::client::cmd::{Cli, GoCmd, LookCmd};
use else_model::client::error::Error;
use else_model::client::target::{RouteSight, Surroundings, Target, TargetType, ThingSight};
use else_model::identity::parse_uid;
use else_model::route::direction::{Direction, HorizontalDirection};
use else_model::text::contains_str;

fn cat_house() -> Surroundings {
    Surroundings {
        frame: 12,
        viewer_uid: 900,
        area_uid: 100,
        area_name: String::from("Cat House"),
        area_description: Some(String::from("A large playhouse for cats")),
        routes: vec![
            RouteSight {
                uid: 7,
                direction: Direction::level(HorizontalDirection::West),
                end_name: String::from("Path to Backyard"),
                end_description: Some(String::from("A dirt path")),
                end_keywords: vec![String::from("path")],
                indexed_name: String::from("Path to Backyard"),
            },
            RouteSight {
                uid: 8,
                direction: Direction::up(),
                end_name: String::from("Portal"),
                end_description: Some(String::from("A portal swirling above")),
                end_keywords: vec![String::from("portal"), String::from("swirl")],
                indexed_name: String::from("Portal"),
            },
        ],
        occupants: vec![
            ThingSight {
                uid: 50,
                name: String::from("Black Cat"),
                description: Some(String::from("A cheerful cat with a shiny black coat")),
                keywords: vec![String::from("cat")],
                indexed_name: String::from("Black Cat"),
            },
            ThingSight {
                uid: 51,
                name: String::from("Gray Cat"),
                description: None,
                keywords: vec![String::from("cat"), String::from("kitty")],
                indexed_name: String::from("Gray Cat"),
            },
        ],
    }
}

fn all() -> Vec<TargetType> {
    vec![TargetType::Area, TargetType::Route, TargetType::Thing]
}

#[test]
fn test_parse_uid() {
    assert_eq!(parse_uid("42"), Some(42));
    assert_eq!(parse_uid("+42"), Some(42));
    assert_eq!(parse_uid("007"), Some(7));
    assert_eq!(parse_uid("340282366920938463463374607431768211455"), Some(u128::MAX));
    assert_eq!(parse_uid("340282366920938463463374607431768211456"), None);
    assert_eq!(parse_uid(""), None);
    assert_eq!(parse_uid("+"), None);
    assert_eq!(parse_uid("-1"), None);
    assert_eq!(parse_uid("12a"), None);
    assert_eq!(parse_uid(" 12"), None);
}

#[test]
fn test_contains_str() {
    assert!(contains_str("hello", "ll"));
    assert!(contains_str("hello", "hello"));
    assert!(contains_str("hello", ""));
    assert!(!contains_str("hello", "lo!"));
    assert!(!contains_str("", "a"));
}

#[test]
fn test_search_by_direction() {
    let s = cat_house();
    let found = Target::search("west", &s, &all());
    assert_eq!(found, vec![(String::from("West"), Target::Route(7), true)]);
    // the text is compared in lower case; a part of the direction's name is no exact match
    let found = Target::search("WE", &s, &[TargetType::Route]);
    assert_eq!(found, vec![(String::from("West"), Target::Route(7), false)]);
    let found = Target::search("WEST", &s, &[TargetType::Route]);
    assert_eq!(found, vec![(String::from("West"), Target::Route(7), true)]);
    let found = Target::search("up", &s, &[TargetType::Route]);
    assert_eq!(found, vec![(String::from("Up"), Target::Route(8), true)]);
}

#[test]
fn test_search_by_name_and_keyword() {
    let s = cat_house();
    let found = Target::search("Path", &s, &[TargetType::Route]);
    assert_eq!(found, vec![(String::from("Path to Backyard"), Target::Route(7), false)]);
    let found = Target::search("swirl", &s, &[TargetType::Route]);
    assert_eq!(found, vec![(String::from("Portal"), Target::Route(8), false)]);
    let found = Target::search("portal", &s, &[TargetType::Route]);
    assert_eq!(found, vec![(String::from("Portal"), Target::Route(8), true)]);
    let found = Target::search("cat", &s, &[TargetType::Thing]);
    assert_eq!(found, vec![
        (String::from("Black Cat"), Target::Thing(50), false),
        (String::from("Gray Cat"), Target::Thing(51), false),
    ]);
    let found = Target::search("kitty", &s, &all());
    assert_eq!(found, vec![(String::from("Gray Cat"), Target::Thing(51), false)]);
    // routes are not searched when only things are asked for
    let found = Target::search("path", &s, &[TargetType::Thing]);
    assert!(found.is_empty());
}

#[test]
fn test_search_by_uid() {
    let s = cat_house();
    assert_eq!(Target::search("50", &s, &all()), vec![(String::from("Black Cat"), Target::Thing(50), true)]);
    assert_eq!(Target::search("8", &s, &all()), vec![(String::from("Portal"), Target::Route(8), true)]);
    assert_eq!(Target::search("100", &s, &all()), vec![(String::from("Cat House"), Target::Area(100), true)]);
    assert!(Target::search("100", &s, &[TargetType::Route]).is_empty());
    assert!(Target::search("7", &s, &[TargetType::Thing]).is_empty());
    assert!(Target::search("12345", &s, &all()).is_empty());
}

#[test]
fn test_find() {
    let s = cat_house();
    assert_eq!(Target::find("black cat", &s, &all(), "Subject"), Ok(Target::Thing(50)));
    assert_eq!(Target::find("black", &s, &all(), "Subject"), Ok(Target::Thing(50)));
    assert_eq!(
        Target::find("cat", &s, &all(), "Subject"),
        Err(Error::TargetNotUnique { target: "Subject", search: String::from("cat") })
    );
    assert_eq!(
        Target::find("dog", &s, &all(), "Subject"),
        Err(Error::TargetNotFound { target: "Subject", search: String::from("dog") })
    );
}

#[test]
fn test_target_type_split() {
    assert_eq!(TargetType::split(&[TargetType::Thing, TargetType::Area]), (true, false, true));
    assert_eq!(TargetType::split(&[]), (false, false, false));
    assert_eq!(TargetType::split(&TargetType::all()), (true, true, true));
}

#[test]
fn test_go_process_and_run() {
    let s = cat_house();
    let mut go = GoCmd::new(String::from("west"));
    assert_eq!(go.process(&s), Ok(()));
    assert_eq!(go.processed().unwrap().destination, Target::Route(7));
    match go.run(&s) {
        Action::Go(action) => {
            assert_eq!(action.base.frame, 12);
            assert_eq!(action.base.thing_uid, 900);
            assert_eq!(action.origin_area_id, 100);
            assert_eq!(action.route_uid, 7);
        },
        _ => panic!("expected a go action"),
    }
    // a thing is no destination
    let mut go = GoCmd::new(String::from("black cat"));
    assert_eq!(
        go.process(&s),
        Err(Error::TargetNotFound { target: "Destination", search: String::from("black cat") })
    );
    assert!(go.processed().is_none());
}

#[test]
fn test_look_process_and_run() {
    let s = cat_house();
    let mut look = LookCmd::new(None);
    assert_eq!(look.process(&s), Ok(()));
    assert_eq!(look.processed().unwrap().subject, Target::Area(100));
    assert_eq!(look.run(&s), vec![String::from("Cat House"), String::from("A large playhouse for cats")]);

    let mut look = LookCmd::new(Some(String::from("black")));
    assert_eq!(look.process(&s), Ok(()));
    assert_eq!(look.run(&s), vec![String::from("Black Cat"), String::from("A cheerful cat with a shiny black coat")]);

    let mut look = LookCmd::new(Some(String::from("path")));
    assert_eq!(look.process(&s), Ok(()));
    assert_eq!(look.run(&s), vec![String::from("Path to Backyard"), String::from("A dirt path")]);

    let mut look = LookCmd::new(Some(String::from("cat")));
    assert_eq!(
        look.process(&s),
        Err(Error::TargetNotUnique { target: "Destination", search: String::from("cat") })
    );
}
