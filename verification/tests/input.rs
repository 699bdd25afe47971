use else_model::client::cmd::{Cmd, GoCmd, LookCmd};
use else_model::client::error::{Error, Result};
use else_model::client::input::{split_arguments, Command, Context, ParsedInput, Parser, Talk, TextInput};

#[test]
fn test_talk() {
    let tests: Vec<(&'static str, Result<Talk>)> = vec![
        ("'hello", Ok(Talk::new(String::from("hello")))),
        ("'hello there!", Ok(Talk::new(String::from("hello there!")))),
        ("command param", Err(Error::Test)),
        (".context", Err(Error::Test)),
    ];

    for test in tests {
        let input = test.0;
        let expected = test.1;
        let actual = Talk::parse(TextInput::parse(input.to_string()).unwrap());
        assert_eq!(expected.is_ok(), actual.is_ok(), "Failed on: {input}");
        if expected.is_ok() {
            assert_eq!(expected.unwrap(), actual.unwrap());
        }
    }
}

#[test]
fn test_context() {
    let tests: Vec<(&'static str, Result<Context>)> = vec![
        (".inventory", Ok(Context::new(String::from("inventory")))),
        ("'hello there!", Err(Error::Test)),
        ("command style", Err(Error::Test)),
    ];

    for test in tests {
        let input = test.0;
        let expected = test.1;
        let actual = Context::parse(TextInput::parse(input.to_string()).unwrap());
        assert_eq!(expected.is_ok(), actual.is_ok(), "Failed on: {input}");
        if expected.is_ok() {
            assert_eq!(expected.unwrap(), actual.unwrap());
        }
    }
}

#[test]
fn test_command() {
    let tests: Vec<(&'static str, Result<Command>)> = vec![
        ("go there", Ok(Command::new(Cmd::Go(GoCmd::new(String::from("there")))))),
        ("go", Err(Error::Test)),
    ];

    for test in tests {
        let input = test.0;
        let expected = test.1;
        let actual = Command::parse(TextInput::parse(input.to_string()).unwrap());
        assert_eq!(expected.is_ok(), actual.is_ok(), "Failed on: {input}");
        if expected.is_ok() {
            assert_eq!(expected.unwrap(), actual.unwrap());
        }
    }
}

#[test]
fn test_input_parse() {
    let tests: Vec<(&'static str, Result<ParsedInput>)> = vec![
        (".inventory", Ok(ParsedInput::Context(Context::new(String::from("inventory"))))),
        ("'hello there!", Ok(ParsedInput::Talk(Talk::new(String::from("hello there!"))))),
        ("go there", Ok(ParsedInput::Command(Command::new(Cmd::Go(GoCmd::new(String::from("there"))))))),
    ];

    for test in tests {
        let input = test.0;
        let expected = test.1;
        let actual = ParsedInput::parse(input.to_string());
        assert_eq!(expected.is_ok(), actual.is_ok(), "Failed on: {input}");
        if expected.is_ok() {
            assert_eq!(expected.unwrap(), actual.unwrap());
        }
    }
}

#[test]
fn test_split_arguments() {
    let tests: Vec<(&'static str, Result<Vec<&'static str>>)> = vec![
        ("go", Ok(vec!["go"])),
        ("go there", Ok(vec!["go", "there"])),
        ("go \"there again\"", Ok(vec!["go", "there again"])),
        ("go \"there\" \"again\"", Ok(vec!["go", "there", "again"])),
        ("go --there \"again\"", Ok(vec!["go", "--there", "again"])),
        ("greet \"There are some who call me ... \\\"Tim\\\".\"",
            Ok(vec!["greet", "There are some who call me ... \"Tim\"."])),
    ];

    for test in tests {
        let input = test.0;
        let expected = test.1;
        let actual = split_arguments(input);
        assert_eq!(expected.is_ok(), actual.is_ok(), "Failed on: {input}");
        if expected.is_ok() {
            assert_eq!(expected.unwrap(), actual.unwrap());
        }
    }
}

#[test]
fn split_arguments_rejects_an_open_quote() {
    let actual = split_arguments("  say \"hello  ");
    assert_eq!(actual, Err(Error::GenericInputParsing(String::from("say \"hello"))));
}

#[test]
fn split_arguments_of_blank_input_is_empty() {
    assert_eq!(split_arguments("   ").unwrap(), Vec::<String>::new());
}

#[test]
fn parse_look_with_and_without_subject() {
    let look = ParsedInput::parse(String::from("look cat")).unwrap();
    assert_eq!(look, ParsedInput::Command(Command::new(Cmd::Look(LookCmd::new(Some(String::from("cat")))))));
    let look = ParsedInput::parse(String::from("look")).unwrap();
    assert_eq!(look, ParsedInput::Command(Command::new(Cmd::Look(LookCmd::new(None)))));
}

#[test]
fn parse_reports_usage_and_unknown_commands() {
    let help = ParsedInput::parse(String::from("go --help"));
    assert!(matches!(help, Err(Error::CommandUsage { .. })));
    let too_many = ParsedInput::parse(String::from("look at cat"));
    assert!(matches!(too_many, Err(Error::CommandUsage { .. })));
    let unknown = ParsedInput::parse(String::from("dance now"));
    assert_eq!(unknown, Err(Error::UnknownCommand(String::from("dance now"))));
    let empty = ParsedInput::parse(String::from(""));
    assert_eq!(empty, Err(Error::GenericInputParsing(String::from(""))));
}

#[test]
fn context_requires_the_period_at_the_very_start() {
    let parsed = ParsedInput::parse(String::from(" .inventory"));
    assert_eq!(parsed, Err(Error::GenericInputParsing(String::from(" .inventory"))));
}

#[test]
fn help_anywhere_among_the_arguments_asks_for_usage() {
    for text in ["go -h", "go there -h", "go --help there", "look -h", "look at --help"] {
        let input = TextInput::parse(text.to_string()).unwrap();
        match Cmd::parse(&input) {
            Err(Error::CommandUsage { usage }) => assert!(usage.starts_with("Usage: "), "Failed on: {text}"),
            other => panic!("Failed on: {text}: {:?}", other),
        }
    }
    let input = TextInput::parse("go there".to_string()).unwrap();
    assert_eq!(Cmd::parse(&input).unwrap(), Cmd::Go(GoCmd::new(String::from("there"))));
    let input = TextInput::parse("".to_string());
    assert!(input.is_err() || matches!(Cmd::parse(&input.unwrap()), Err(Error::GenericInputParsing(_))));
}

#[test]
fn split_arguments_fails_only_on_an_odd_number_of_unescaped_quotes() {
    assert_eq!(split_arguments("say \\\"hi").unwrap(), vec![String::from("say"), String::from("\"hi")]);
    assert_eq!(
        split_arguments("say \\\\\"hi"),
        Err(Error::GenericInputParsing(String::from("say \\\\\"hi")))
    );
    assert_eq!(
        split_arguments("a \"b\" \"c"),
        Err(Error::GenericInputParsing(String::from("a \"b\" \"c")))
    );
    assert_eq!(
        split_arguments("a \"b\" c").unwrap(),
        vec![String::from("a"), String::from("b"), String::from("c")]
    );
}

#[test]
fn split_arguments_of_plain_text_gives_its_words() {
    assert_eq!(
        split_arguments("  go   north  east ").unwrap(),
        vec![String::from("go"), String::from("north"), String::from("east")]
    );
}
