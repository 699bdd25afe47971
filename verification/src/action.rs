pub mod go;
pub mod multiply;

use vstd::prelude::*;
use crate::identity::UID;
use crate::timeframe::Frame;
use crate::action::go::GoAction;
use crate::action::multiply::MultiplyAction;

verus! {

/// Actions are simple immutable structs that represent an attempt by a Thing to mutate the World.
/// Only one action can be taken per Thing per Frame.
#[derive(Debug, Clone)]
pub enum Action {
    /// For testing only.
    Multiply(MultiplyAction),
    /// Move from one area to another.
    Go(GoAction),
}

/// As only one action is allowed per Thing per Frame, this acts as a unique identifier for actions.
#[derive(Debug, Clone, Copy, PartialEq, Eq, Structural)]
pub struct BaseAction {
    pub frame: Frame,
    pub thing_uid: UID,
}

/// An action, identified by its base.
pub trait BasicAction {
    spec fn spec_base(&self) -> BaseAction;

    fn base(&self) -> (r: &BaseAction)
        ensures
            *r == self.spec_base(),
    ;

    fn thing_uid(&self) -> (r: UID)
        ensures
            r == self.spec_base().thing_uid,
    {
        self.base().thing_uid
    }

    fn frame(&self) -> (r: Frame)
        ensures
            r == self.spec_base().frame,
    {
        self.base().frame
    }
}

impl BasicAction for Action {
    open spec fn spec_base(&self) -> BaseAction {
        match self {
            Action::Multiply(a) => a.base,
            Action::Go(a) => a.base,
        }
    }

    fn base(&self) -> (r: &BaseAction) {
        match self {
            Action::Multiply(a) => &a.base,
            Action::Go(a) => &a.base,
        }
    }
}

} // verus!
