use vstd::prelude::*;
use crate::text::{append_str, string_of};

verus! {

/// Errors raised while parsing and running the client's text input.
#[allow(inconsistent_fields)]
#[derive(Debug, PartialEq, Eq)]
pub enum Error {
    Test,
    Generic(String),
    GenericInputParsing(String),
    InputParsing { text: String, cause: String },
    CommandUsage { usage: &'static str },
    UnknownCommand(String),
    TargetNotFound { target: &'static str, search: String },
    TargetNotUnique { target: &'static str, search: String },
}

pub type Result<T> = core::result::Result<T, Error>;

/// The message that an error shows.
pub open spec fn error_message(e: Error) -> Seq<char> {
    match e {
        Error::Test => "This is a testing error"@,
        Error::Generic(s) => s@,
        Error::GenericInputParsing(s) => "Unable to parse text input: "@ + s@,
        Error::InputParsing { text, cause } => "Unable to parse text input: "@ + text@ + " :> "@ + cause@,
        Error::CommandUsage { usage } => usage@,
        Error::UnknownCommand(s) => "Unknown command: "@ + s@,
        Error::TargetNotFound { target, search } => target@ + " not found: "@ + search@,
        Error::TargetNotUnique { target, search } => target@ + " is not unique: "@ + search@,
    }
}

impl Error {
    /// The message that the error shows.
    pub fn message(&self) -> (r: String)
        ensures
            r@ == error_message(*self),
    {
        match self {
            Error::Test => string_of("This is a testing error"),
            Error::Generic(s) => string_of(s.as_str()),
            Error::GenericInputParsing(s) => {
                let mut m = string_of("Unable to parse text input: ");
                append_str(&mut m, s.as_str());
                m
            },
            Error::InputParsing { text, cause } => {
                let mut m = string_of("Unable to parse text input: ");
                append_str(&mut m, text.as_str());
                append_str(&mut m, " :> ");
                append_str(&mut m, cause.as_str());
                m
            },
            Error::CommandUsage { usage } => string_of(usage),
            Error::UnknownCommand(s) => {
                let mut m = string_of("Unknown command: ");
                append_str(&mut m, s.as_str());
                m
            },
            Error::TargetNotFound { target, search } => {
                let mut m = string_of(target);
                append_str(&mut m, " not found: ");
                append_str(&mut m, search.as_str());
                m
            },
            Error::TargetNotUnique { target, search } => {
                let mut m = string_of(target);
                append_str(&mut m, " is not unique: ");
                append_str(&mut m, search.as_str());
                m
            },
        }
    }
}

} // verus!
