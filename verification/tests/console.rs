use else_model::action::Action;
use else_model::client::cmd::{Cmd, GoCmd, LookCmd};
use else_model::client::error::Error;
use else_model::client::input::{Command, TextInput};
use else_model::client::target::{RouteSight, Surroundings, ThingSight};
use else_model::client::terminal::{answer_challenge, arrival_texts_of, Console, EntryCategory, Stats};
use else_model::message::auth::{AuthAnswerMsg, AuthChallengeMsg, Web3AuthChallenge, Web3Blockchain};
use else_model::route::direction::{Direction, HorizontalDirection};
use else_model::text::{decimal_string, split_lines};

fn described_house() -> Surroundings {
    Surroundings {
        frame: 3,
        viewer_uid: 77,
        area_uid: 10,
        area_name: String::from("Cat House"),
        area_description: Some(String::from("A playhouse.\nIt has windows.")),
        routes: vec![RouteSight {
            uid: 20,
            direction: Direction::level(HorizontalDirection::East),
            end_name: String::from("Path to Backyard"),
            end_description: Some(String::from("A dirt path")),
            end_keywords: vec![],
            indexed_name: String::from("Path to Backyard"),
        }],
        occupants: vec![ThingSight {
            uid: 30,
            name: String::from("Black Cat"),
            description: Some(String::from("A cheerful cat")),
            keywords: vec![String::from("cat")],
            indexed_name: String::from("Black Cat"),
        }],
    }
}

fn texts(console: &Console) -> Vec<(String, EntryCategory)> {
    console.entries.iter().map(|(t, c)| (t.clone(), *c)).collect()
}

#[test]
fn test_split_lines() {
    assert_eq!(split_lines("a\nb"), vec![String::from("a"), String::from("b")]);
    assert_eq!(split_lines(""), vec![String::new()]);
    assert_eq!(split_lines("a\n"), vec![String::from("a"), String::new()]);
    assert_eq!(split_lines("\n\n"), vec![String::new(), String::new(), String::new()]);
}

#[test]
fn test_decimal_string() {
    assert_eq!(decimal_string(0), "0");
    assert_eq!(decimal_string(7), "7");
    assert_eq!(decimal_string(1234), "1234");
    assert_eq!(decimal_string(u64::MAX), "18446744073709551615");
}

#[test]
fn test_stats_and_create() {
    let console = Console::create();
    assert_eq!(console.title, "Terminal");
    assert!(console.entries.is_empty());
    assert!(!console.ready);
    assert_eq!(console.frame, 0);
    let stats = Stats::new();
    assert_eq!(stats.device, "/dev/tty/a0f24d3e");
    assert_eq!(stats.frame, "syncing");
}

#[test]
fn test_terminal_output_splits_lines() {
    let mut console = Console::create();
    console.to_terminal_output("one\ntwo", EntryCategory::Warning);
    console.terminal_output(String::from("three\nfour"), EntryCategory::Error);
    console.terminal_newline();
    console.to_terminal_outputs(&vec![String::from("a\nb"), String::from("c")], EntryCategory::Debug);
    assert_eq!(texts(&console), vec![
        (String::from("one"), EntryCategory::Warning),
        (String::from("two"), EntryCategory::Warning),
        (String::from("three\nfour"), EntryCategory::Error),
        (String::new(), EntryCategory::Standard),
        (String::from("a"), EntryCategory::Debug),
        (String::from("b"), EntryCategory::Debug),
        (String::from("c"), EntryCategory::Debug),
    ]);
}

#[test]
fn test_arrival_texts() {
    let s = described_house();
    assert_eq!(arrival_texts_of(&s), vec![
        String::from("A playhouse."),
        String::from("It has windows."),
        String::new(),
        String::from("East : Path to Backyard"),
    ]);
}

#[test]
fn test_console_lifecycle() {
    let mut console = Console::create();
    console.on_connected();
    assert!(console.on_synchronized(described_house(), 42, String::from("device-1")));
    assert!(console.ready);
    assert_eq!(console.stats_output[0], "device-1");
    // becoming ready happens once
    assert!(!console.on_synchronized(described_house(), 43, String::from("device-1")));
    console.on_ready("Surroundings");
    assert_eq!(console.title, "Cat House");
    assert_eq!(texts(&console), vec![
        (String::from("Synchronizing with zone server."), EntryCategory::Technical),
        (String::from("Integrated into world at frame 43."), EntryCategory::Technical),
        (String::from("Surroundings."), EntryCategory::Debug),
        (String::new(), EntryCategory::Standard),
        (String::from("A playhouse."), EntryCategory::Standard),
        (String::from("It has windows."), EntryCategory::Standard),
        (String::new(), EntryCategory::Standard),
        (String::from("East : Path to Backyard"), EntryCategory::Standard),
    ]);
    console.on_frame(44);
    assert_eq!(console.frame, 44);
    assert_eq!(console.stats.frame, "44");
    assert_eq!(console.stats_output[4], "44");
    console.on_disconnected();
    assert!(!console.ready);
    assert!(console.stats_output.is_empty());
}

#[test]
fn test_handle_command() {
    let mut console = Console::create();
    console.on_synchronized(described_house(), 5, String::from("d"));

    let look = Command::new(Cmd::Look(LookCmd::new(Some(String::from("cat")))));
    assert_eq!(console.handle_command(look).unwrap().is_none(), true);
    assert_eq!(texts(&console), vec![
        (String::from("Black Cat"), EntryCategory::Standard),
        (String::from("A cheerful cat"), EntryCategory::Standard),
    ]);

    let go = Command::new(Cmd::Go(GoCmd::new(String::from("east"))));
    match console.handle_command(go) {
        Ok(Some(Action::Go(action))) => {
            assert_eq!(action.route_uid, 20);
            assert_eq!(action.origin_area_id, 10);
            assert_eq!(action.base.thing_uid, 77);
            assert_eq!(action.base.frame, 3);
        },
        _ => panic!("expected a go action"),
    }

    let nowhere = Command::new(Cmd::Go(GoCmd::new(String::from("north"))));
    match console.handle_command(nowhere) {
        Err(e) => assert_eq!(e, Error::TargetNotFound { target: "Destination", search: String::from("north") }),
        _ => panic!("expected no destination"),
    }
    assert_eq!(console.entries.len(), 3);
    assert_eq!(texts(&console)[2], (String::from("Destination not found: north"), EntryCategory::Error));

    let parsed = Cmd::parse(&TextInput::parse(String::from("look")).unwrap()).unwrap();
    assert!(console.handle_command(Command::new(parsed)).unwrap().is_none());
    assert_eq!(console.entries.len(), 5);
    assert_eq!(console.entries[3].0, "Cat House");
}

#[test]
fn looking_at_an_undescribed_thing_shows_its_name() {
    let mut house = described_house();
    house.occupants[0].description = None;
    let mut console = Console::create();
    console.on_synchronized(house, 5, String::from("d"));
    let look = Command::new(Cmd::Look(LookCmd::new(Some(String::from("black")))));
    assert!(console.handle_command(look).unwrap().is_none());
    assert_eq!(texts(&console), vec![(String::from("Black Cat"), EntryCategory::Standard)]);
    // going still works beside the undescribed thing
    let go = Command::new(Cmd::Go(GoCmd::new(String::from("east"))));
    assert!(matches!(console.handle_command(go), Ok(Some(Action::Go(_)))));
}

#[test]
fn error_messages() {
    assert_eq!(Error::Test.message(), "This is a testing error");
    assert_eq!(Error::UnknownCommand(String::from("fly")).message(), "Unknown command: fly");
    assert_eq!(Error::GenericInputParsing(String::from("x")).message(), "Unable to parse text input: x");
    assert_eq!(
        Error::InputParsing { text: String::from("a"), cause: String::from("b") }.message(),
        "Unable to parse text input: a :> b"
    );
    assert_eq!(
        Error::TargetNotUnique { target: "Subject", search: String::from("cat") }.message(),
        "Subject is not unique: cat"
    );
    assert_eq!(Error::CommandUsage { usage: "Usage: x" }.message(), "Usage: x");
}

#[test]
fn test_answer_challenge() {
    let challenge = AuthChallengeMsg::Web3(Web3AuthChallenge {
        blockchain: Web3Blockchain::Solana,
        server_public_key: [1; 32],
        server_challenge: [2; 64],
    });
    match answer_challenge(&challenge) {
        AuthAnswerMsg::Web3(answer) => assert_eq!(answer.signature, [0u8; 64]),
    }
}
