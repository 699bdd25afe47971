use vstd::prelude::*;

verus! {

/// Errors raised by the model while building, modifying or looking up data.
#[allow(inconsistent_fields)]
#[derive(Debug, PartialEq, Eq)]
pub enum Error {
    UnknownField { class: &'static str, field: String },
    FieldNotSet { class: &'static str, field: &'static str },
    FieldNotSetFirst { class: &'static str, field: &'static str, required_field: &'static str },
    ModelNotFound { model: &'static str, uid: u128 },
    ModelKeyNotFound { model: &'static str, key: String },
    ModelNotFoundFor { model: &'static str, uid: u128, op: &'static str },
    IdentityNotGenerated,
    IllegalAddOp { model: &'static str, uid: u128, context: &'static str },
    /// "Unable to {op} {model} ({uid}) while its being {whiled}"
    ListOpRace { op: &'static str, model: &'static str, uid: u128, whiled: &'static str },
    IllegalEditOp { model: &'static str, uid: u128, context: &'static str },
    IllegalRemoveOp { model: &'static str, uid: u128, context: &'static str },
    Parsing { what: &'static str, src: String },
    InterfaceAlreadyLinked { interface_uid: u128, character_uid: u128, linked_character_uid: u128 },
    CharacterAlreadyLinked { interface_uid: u128, character_uid: u128, linked_interface_uid: u128 },
    UnexpectedModelType { expected: &'static str, found: &'static str },
    AuthenticationFailed,
}

pub type Result<T> = core::result::Result<T, Error>;

} // verus!
