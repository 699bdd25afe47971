use vstd::prelude::*;
use crate::identity::UID;
use crate::action::{BaseAction, BasicAction};

verus! {

/// Move from one area to another, along a route.
#[derive(Debug, Clone, Copy, PartialEq, Eq, Structural)]
pub struct GoAction {
    pub base: BaseAction,
    pub origin_area_id: UID,
    pub route_uid: UID,
}

impl BasicAction for GoAction {
    open spec fn spec_base(&self) -> BaseAction {
        self.base
    }

    fn base(&self) -> (r: &BaseAction) {
        &self.base
    }
}

} // verus!
