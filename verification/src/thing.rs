use vstd::prelude::*;
use crate::error::{Error, Result};
use crate::identity::{UID, Identifiable, Keyed, MaybeIdentifiable};
use crate::modeling::{Builder, BuilderMode, BuildableUID, Built, Class, ClassIdent, CodebaseClassID, Creation,
    ListOp, Modification, uid_or_not_generated};
use crate::descriptor::{Descriptive, Descriptor};
use crate::entity::{BuildableEntity, Entity, EntityBuilder, EntityBuilderView, EntityView, Exists};
use crate::location::{Located, Location};
use crate::character::{Character, CharacterBuilder, CharacterBuilderView, CharacterField, CharacterView,
    character_builder_uid};
use crate::item::{Item, ItemView};

verus! {

/// Something of the World that exists at a location: a character or an item.
#[derive(Debug)]
pub enum Thing {
    Character(Character),
    Item(Item),
}

/// The plain contents of a thing.
pub enum ThingView {
    Character(CharacterView),
    Item(ItemView),
}

impl View for Thing {
    type V = ThingView;

    open spec fn view(&self) -> ThingView {
        match self {
            Thing::Character(c) => ThingView::Character(c@),
            Thing::Item(i) => ThingView::Item(i@),
        }
    }
}

/// The entity of a thing.
pub open spec fn thing_entity(t: ThingView) -> EntityView {
    match t {
        ThingView::Character(c) => c.entity,
        ThingView::Item(i) => i.entity,
    }
}

impl Keyed for Thing {
    open spec fn spec_key(&self) -> Option<Seq<char>> {
        thing_entity(self@).descriptor.key
    }

    fn key(&self) -> (r: Option<&str>) {
        self.entity().key()
    }
}

impl Identifiable for Thing {
    open spec fn spec_uid_of(v: ThingView) -> UID {
        thing_entity(v).uid
    }

    fn uid(&self) -> (r: UID) {
        self.entity().uid()
    }
}

impl Descriptive for Thing {
    closed spec fn spec_descriptor(&self) -> Descriptor {
        match self {
            Thing::Character(c) => c.spec_descriptor(),
            Thing::Item(i) => i.spec_entity_descriptor(),
        }
    }

    fn descriptor(&self) -> (r: &Descriptor)
        ensures
            r@ == thing_entity(self@).descriptor,
    {
        match self {
            Thing::Character(c) => c.descriptor(),
            Thing::Item(i) => i.entity().descriptor(),
        }
    }
}

impl Located for Thing {
    open spec fn spec_location(&self) -> Location {
        thing_entity(self@).location
    }

    fn location(&self) -> (r: Location) {
        self.entity().location()
    }
}

impl Exists for Thing {
    open spec fn spec_entity(&self) -> EntityView {
        thing_entity(self@)
    }

    fn entity(&self) -> (r: &Entity) {
        match self {
            Thing::Character(character) => character.entity(),
            Thing::Item(item) => item.entity(),
        }
    }
}

impl Built for Thing {
    type BuilderType = ThingBuilder;
}

/// A model builder that is one of the variants of `ThingBuilder`.
pub trait ThingBuilderVariant: Builder + BuildableEntity {
    spec fn spec_thing_builder(self) -> ThingBuilderView;

    fn thing_builder(self) -> (r: ThingBuilder)
        ensures
            r@ == self.spec_thing_builder(),
    ;
}

impl Thing {
    pub open spec fn spec_class_ident_const() -> ClassIdent {
        ClassIdent { class_id: CodebaseClassID::Thing.spec_class_id(), classname: "Thing" }
    }

    pub fn class_ident_const() -> (r: ClassIdent)
        ensures
            r == Self::spec_class_ident_const(),
    {
        ClassIdent::new(CodebaseClassID::Thing.class_id(), "Thing")
    }

    /// The character that this thing is, or `UnexpectedModelType`.
    pub fn try_character(&self) -> (r: Result<&Character>)
        ensures
            match self {
                Thing::Character(c) => r == Ok::<&Character, Error>(c),
                Thing::Item(_) => r == Err::<&Character, Error>(Error::UnexpectedModelType { expected: "Character", found: "Item" }),
            },
    {
        match self {
            Thing::Character(character) => Ok(character),
            Thing::Item(_) => Err(Error::UnexpectedModelType { expected: CharacterField::classname(), found: "Item" }),
        }
    }
}

/// Creates and modifies a `Thing`, through the builder of its variant.
#[derive(Debug)]
pub enum ThingBuilder {
    Character(CharacterBuilder),
}

/// The plain contents of a thing builder.
pub enum ThingBuilderView {
    Character(CharacterBuilderView),
}

impl View for ThingBuilder {
    type V = ThingBuilderView;

    open spec fn view(&self) -> ThingBuilderView {
        match self {
            ThingBuilder::Character(b) => ThingBuilderView::Character(b@),
        }
    }
}

impl Builder for ThingBuilder {
    type ModelType = Thing;

    open spec fn spec_mode(&self) -> BuilderMode {
        match self {
            ThingBuilder::Character(b) => b.spec_mode(),
        }
    }

    open spec fn spec_class_ident(&self) -> ClassIdent {
        match self {
            ThingBuilder::Character(b) => b.spec_class_ident(),
        }
    }

    /// A thing builder is made from the builder of one of its variants.
    open spec fn spec_has_constructors() -> bool {
        false
    }

    open spec fn spec_creatable(&self) -> bool {
        match self {
            ThingBuilder::Character(b) => b.spec_creatable(),
        }
    }

    open spec fn spec_create(self) -> Result<(ThingBuilderView, ThingView)> {
        match self {
            ThingBuilder::Character(b) => match b.spec_create() {
                Ok((bv, cv)) => Ok((ThingBuilderView::Character(bv), ThingView::Character(cv))),
                Err(e) => Err(e),
            },
        }
    }

    /// The existing thing must be of the builder's variant.
    open spec fn spec_modifiable(&self, existing: ThingView) -> bool {
        match self {
            ThingBuilder::Character(b) => existing matches ThingView::Character(c) && b.spec_modifiable(c),
        }
    }

    open spec fn spec_modify(self, existing: ThingView) -> (ThingView, Result<ThingBuilderView>) {
        match self {
            ThingBuilder::Character(b) => match existing {
                ThingView::Character(c) => {
                    let (c2, res) = b.spec_modify(c);
                    (ThingView::Character(c2), match res {
                        Ok(bv) => Ok(ThingBuilderView::Character(bv)),
                        Err(e) => Err(e),
                    })
                },
                ThingView::Item(_) => (existing, Err(Error::IdentityNotGenerated)),
            },
        }
    }

    open spec fn spec_changed(self, existing: ThingView) -> Seq<ClassIdent> {
        match self {
            ThingBuilder::Character(b) => match existing {
                ThingView::Character(c) => b.spec_changed(c),
                ThingView::Item(_) => Seq::empty(),
            },
        }
    }

    fn creator() -> (r: Self) {
        vstd::pervasive::unreached()
    }

    fn editor() -> (r: Self) {
        vstd::pervasive::unreached()
    }

    fn builder_mode(&self) -> (r: BuilderMode) {
        match self {
            ThingBuilder::Character(b) => b.builder_mode(),
        }
    }

    fn class_ident(&self) -> (r: ClassIdent) {
        match self {
            Self::Character(b) => b.class_ident(),
        }
    }

    fn create(self) -> (r: Result<Creation<Self, Thing>>) {
        match self {
            ThingBuilder::Character(b) => {
                let creation = b.create()?;
                let (builder, character) = creation.split();
                Ok(Creation::new(ThingBuilder::Character(builder), Thing::Character(character)))
            },
        }
    }

    fn modify(self, existing: &mut Thing) -> (r: Result<Modification<Self>>) {
        match self {
            ThingBuilder::Character(character_builder) => {
                match existing {
                    Thing::Character(character) => {
                        let modification = character_builder.modify(character)?;
                        let (builder, fields_changed) = modification.split();
                        Ok(Modification::new(ThingBuilder::Character(builder), fields_changed))
                    },
                    Thing::Item(_) => vstd::pervasive::unreached(),
                }
            },
        }
    }
}

impl BuildableEntity for ThingBuilder {
    open spec fn spec_get_entity(&self) -> Option<EntityBuilderView> {
        match self {
            ThingBuilder::Character(b) => b.spec_get_entity(),
        }
    }

    open spec fn spec_with_entity(self, entity: EntityBuilder) -> Self {
        match self {
            ThingBuilder::Character(b) => ThingBuilder::Character(b.spec_with_entity(entity)),
        }
    }

    fn entity(&mut self, entity_builder: EntityBuilder) -> (r: Result<()>) {
        match self {
            ThingBuilder::Character(character_builder) => character_builder.entity(entity_builder),
        }
    }

    fn entity_builder(&mut self) -> (r: &mut EntityBuilder) {
        match self {
            ThingBuilder::Character(character_builder) => character_builder.entity_builder(),
        }
    }

    fn get_entity(&self) -> (r: Option<&EntityBuilder>) {
        match self {
            ThingBuilder::Character(character_builder) => character_builder.get_entity(),
        }
    }
}

impl MaybeIdentifiable for ThingBuilder {
    open spec fn spec_try_uid(&self) -> Result<UID> {
        match self@ {
            ThingBuilderView::Character(b) => uid_or_not_generated(character_builder_uid(b)),
        }
    }

    fn try_uid(&self) -> (r: Result<UID>) {
        match self {
            ThingBuilder::Character(b) => b.try_uid(),
        }
    }
}

impl BuildableUID for ThingBuilder {
    open spec fn spec_get_uid(&self) -> Option<UID> {
        match self@ {
            ThingBuilderView::Character(b) => character_builder_uid(b),
        }
    }

    open spec fn spec_with_uid(self, uid: UID) -> Self {
        match self {
            ThingBuilder::Character(b) => ThingBuilder::Character(b.spec_with_uid(uid)),
        }
    }

    fn uid(&mut self, uid: UID) -> (r: Result<&mut Self>) {
        match self {
            ThingBuilder::Character(b) => {
                let ghost b0 = *b;
                let _ = b.uid(uid);
                assert(b0.spec_with_uid(uid).spec_get_uid() == Some(uid));
                assert(character_builder_uid(b0.spec_with_uid(uid)@) == Some(uid));
                assert(old(self).spec_with_uid(uid) == ThingBuilder::Character(b0.spec_with_uid(uid)));
                assert(old(self).spec_with_uid(uid)@ == ThingBuilderView::Character(b0.spec_with_uid(uid)@));
                assert(old(self).spec_with_uid(uid).spec_get_uid() == Some(uid));
            },
        }
        Ok(self)
    }

    fn get_uid(&self) -> (r: Option<&UID>) {
        match self {
            ThingBuilder::Character(b) => b.get_uid(),
        }
    }
}

impl ThingBuilderVariant for CharacterBuilder {
    open spec fn spec_thing_builder(self) -> ThingBuilderView {
        ThingBuilderView::Character(self@)
    }

    fn thing_builder(self) -> (r: ThingBuilder) {
        ThingBuilder::Character(self)
    }
}

/// A builder that holds a list of thing operations.
pub trait BuildableThingList: Sized {
    /// The thing operations that the builder holds, in order.
    spec fn spec_thing_ops(&self) -> Seq<ListOp<ThingBuilder, UID>>;

    /// The builder's list of thing operations, to change in place.
    fn thing_ops(&mut self) -> (r: &mut Vec<ListOp<ThingBuilder, UID>>)
        ensures
            r@ == old(self).spec_thing_ops(),
            final(self).spec_thing_ops() == final(r)@,
    ;

    fn get_thing_ops(&self) -> (r: &Vec<ListOp<ThingBuilder, UID>>)
        ensures
            r@ == self.spec_thing_ops(),
    ;

    /// Appends an operation that adds the thing; it always succeeds.
    fn add_thing(&mut self, thing: ThingBuilder) -> (r: Result<&mut Self>)
        ensures
            r matches Ok(s) && s.spec_thing_ops() == old(self).spec_thing_ops().push(ListOp::Add(thing))
                && *final(self) == *final(s),
    {
        self.thing_ops().push(ListOp::Add(thing));
        Ok(self)
    }

    /// Appends an operation that edits the thing; it always succeeds.
    fn edit_thing(&mut self, thing: ThingBuilder) -> (r: Result<&mut Self>)
        ensures
            r matches Ok(s) && s.spec_thing_ops() == old(self).spec_thing_ops().push(ListOp::Edit(thing))
                && *final(self) == *final(s),
    {
        self.thing_ops().push(ListOp::Edit(thing));
        Ok(self)
    }

    /// Appends an operation that removes the thing with the given UID; it always succeeds.
    fn remove_thing(&mut self, thing_uid: UID) -> (r: Result<&mut Self>)
        ensures
            r matches Ok(s) && s.spec_thing_ops() == old(self).spec_thing_ops().push(ListOp::Remove(thing_uid))
                && *final(self) == *final(s),
    {
        self.thing_ops().push(ListOp::Remove(thing_uid));
        Ok(self)
    }
}

/// A builder that holds a list of occupant UID operations.
pub trait BuildableOccupantList {
    fn add_occupant_uid(&mut self, thing_uid: UID) -> Result<&mut Self>;

    fn remove_occupant_uid(&mut self, thing_uid: UID) -> Result<&mut Self>;
}

} // verus!
