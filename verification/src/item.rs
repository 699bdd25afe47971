use vstd::prelude::*;
use crate::entity::{Entity, EntityView};
use crate::descriptor::{Descriptive, Descriptor};

verus! {

/// An inanimate thing of the World.
#[derive(Debug)]
pub struct Item {
    entity: Entity,
}

/// The plain contents of an item.
pub struct ItemView {
    pub entity: EntityView,
}

impl View for Item {
    type V = ItemView;

    closed spec fn view(&self) -> ItemView {
        ItemView { entity: self.entity@ }
    }
}

impl Item {
    /// The descriptor of the item's entity.
    pub closed spec fn spec_entity_descriptor(&self) -> Descriptor {
        self.entity.spec_descriptor()
    }

    pub fn entity(&self) -> (r: &Entity)
        ensures
            r@ == self@.entity,
            r.spec_descriptor() == self.spec_entity_descriptor(),
    {
        &self.entity
    }
}

} // verus!
