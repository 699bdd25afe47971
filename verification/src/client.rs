//! The web client's command-line input: tokenizing, parsing into commands, and command targets.
pub mod error;
pub mod input;
pub mod cmd;
pub mod target;
pub mod net;
pub mod terminal;
