use vstd::prelude::*;
use crate::action::{BaseAction, BasicAction};

verus! {

/// An action for testing: the thing multiplies.
#[derive(Debug, Clone, Copy, PartialEq, Eq, Structural)]
pub struct MultiplyAction {
    pub base: BaseAction,
}

impl BasicAction for MultiplyAction {
    open spec fn spec_base(&self) -> BaseAction {
        self.base
    }

    fn base(&self) -> (r: &BaseAction) {
        &self.base
    }
}

} // verus!
