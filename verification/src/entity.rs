use vstd::prelude::*;
use crate::error::{Error, Result};
use crate::identity::{UID, Identifiable, Keyed, MaybeIdentifiable};
use crate::modeling::{Builder, BuilderMode, BuildableUID, Built, Class, ClassIdent, CodebaseClassID, Creation, Field,
    FieldValueType, Fields, Modification, option_view, uid_or_not_generated};
use crate::modeling::building::{Build, lemma_reports_from_fresh};
use crate::modeling::fields_changed::{ChangeOp, FieldsChanged};
use crate::descriptor::{BuildableDescriptor, Descriptive, Descriptor, DescriptorBuilder, DescriptorBuilderView,
    DescriptorField, DescriptorView, created_descriptor, descriptor_changes, edited_descriptor, empty_descriptor_builder};
use crate::location::{Located, Location};

verus! {

/// Something that exists in the World: an identity, a descriptor and a location.
#[derive(Debug)]
pub struct Entity {
    uid: UID,
    descriptor: Descriptor,
    location: Location,
}

/// The plain contents of an entity.
pub struct EntityView {
    pub uid: UID,
    pub descriptor: DescriptorView,
    pub location: Location,
}

impl View for Entity {
    type V = EntityView;

    closed spec fn view(&self) -> EntityView {
        EntityView { uid: self.uid, descriptor: self.descriptor@, location: self.location }
    }
}

impl Keyed for Entity {
    open spec fn spec_key(&self) -> Option<Seq<char>> {
        self@.descriptor.key
    }

    fn key(&self) -> (r: Option<&str>) {
        self.descriptor.key()
    }
}

impl Identifiable for Entity {
    open spec fn spec_uid_of(v: EntityView) -> UID {
        v.uid
    }

    fn uid(&self) -> (r: UID) {
        assert(self@.uid == self.uid);
        assert(Self::spec_uid_of(self@) == self.uid);
        self.uid
    }
}

impl Built for Entity {
    type BuilderType = EntityBuilder;
}

impl Descriptive for Entity {
    closed spec fn spec_descriptor(&self) -> Descriptor {
        self.descriptor
    }

    fn descriptor(&self) -> (r: &Descriptor)
        ensures
            r@ == self@.descriptor,
    {
        &self.descriptor
    }
}

impl Located for Entity {
    open spec fn spec_location(&self) -> Location {
        self@.location
    }

    fn location(&self) -> (r: Location) {
        self.location
    }
}

/// A model that is an entity of the World.
pub trait Exists: Identifiable + Descriptive + Located {
    spec fn spec_entity(&self) -> EntityView;

    fn entity(&self) -> (r: &Entity)
        ensures
            r@ == self.spec_entity(),
    ;
}

/// The fields of an `Entity`.
#[derive(Debug, Clone, Copy, PartialEq, Eq, Structural)]
pub enum EntityField {
    Identity,
    Descriptor,
    Location,
}

impl EntityField {
    pub open spec fn spec_class_ident_const() -> ClassIdent {
        ClassIdent { class_id: CodebaseClassID::Entity.spec_class_id(), classname: "Entity" }
    }

    pub fn class_ident_const() -> (r: ClassIdent)
        ensures
            r == Self::spec_class_ident_const(),
    {
        ClassIdent::new(CodebaseClassID::Entity.class_id(), "Entity")
    }
}

impl Fields for EntityField {
    open spec fn spec_field(&self) -> Field {
        let ci = EntityField::spec_class_ident_const();
        match self {
            EntityField::Identity => Field { class_ident: ci, name: "uid", value_type: FieldValueType::UID(ci) },
            EntityField::Descriptor => Field {
                class_ident: ci,
                name: "descriptor",
                value_type: FieldValueType::Model(DescriptorField::spec_class_ident_const()),
            },
            EntityField::Location => Field {
                class_ident: ci,
                name: "location",
                value_type: FieldValueType::UID(Location::spec_class_ident_const()),
            },
        }
    }

    fn field(&self) -> (r: Field) {
        let ci = Self::class_ident_const();
        match self {
            Self::Identity => Field::new(ci, "uid", FieldValueType::UID(ci)),
            Self::Descriptor => Field::new(ci, "descriptor", FieldValueType::Model(DescriptorField::class_ident_const())),
            Self::Location => Field::new(ci, "location", FieldValueType::UID(Location::class_ident_const())),
        }
    }
}

impl Class for EntityField {
    open spec fn spec_class_ident() -> ClassIdent {
        EntityField::spec_class_ident_const()
    }

    fn class_ident() -> (r: ClassIdent) {
        Self::class_ident_const()
    }
}

/// Creates and modifies an `Entity`.
#[derive(Debug)]
pub struct EntityBuilder {
    builder_mode: BuilderMode,
    identity: Option<UID>,
    location: Option<Location>,
    descriptor: Option<DescriptorBuilder>,
}

/// The plain contents of an entity builder.
pub struct EntityBuilderView {
    pub builder_mode: BuilderMode,
    pub identity: Option<UID>,
    pub location: Option<Location>,
    pub descriptor: Option<DescriptorBuilderView>,
}

impl View for EntityBuilder {
    type V = EntityBuilderView;

    closed spec fn view(&self) -> EntityBuilderView {
        EntityBuilderView {
            builder_mode: self.builder_mode,
            identity: self.identity,
            location: self.location,
            descriptor: option_view(self.descriptor),
        }
    }
}

/// An entity builder view with nothing set.
pub open spec fn empty_entity_builder(mode: BuilderMode) -> EntityBuilderView {
    EntityBuilderView { builder_mode: mode, identity: None, location: None, descriptor: None }
}

/// The entity that a builder creates: identity, descriptor and location are required, in that order.
pub open spec fn created_entity(b: EntityBuilderView) -> Result<EntityView> {
    match b.identity {
        None => Err(Error::FieldNotSet { class: "Entity", field: "uid" }),
        Some(uid) => match b.descriptor {
            None => Err(Error::FieldNotSet { class: "Entity", field: "descriptor" }),
            Some(db) => match created_descriptor(db) {
                None => Err(Error::FieldNotSet { class: "Descriptor", field: "name" }),
                Some(descriptor) => match b.location {
                    None => Err(Error::FieldNotSet { class: "Entity", field: "location" }),
                    Some(location) => Ok(EntityView { uid, descriptor, location }),
                },
            },
        },
    }
}

/// The entity after a builder's changes: the descriptor is edited or replaced, the location reassigned.
pub open spec fn modified_entity(b: EntityBuilderView, e: EntityView) -> (EntityView, Result<EntityBuilderView>) {
    match edited_descriptor(b.descriptor, e.descriptor) {
        Err(err) => (e, Err(err)),
        Ok(descriptor) => (
            EntityView {
                uid: e.uid,
                descriptor,
                location: match b.location {
                    Some(l) => l,
                    None => e.location,
                },
            },
            Ok(EntityBuilderView { identity: Some(e.uid), ..b }),
        ),
    }
}

impl Builder for EntityBuilder {
    type ModelType = Entity;

    open spec fn spec_mode(&self) -> BuilderMode {
        self@.builder_mode
    }

    open spec fn spec_class_ident(&self) -> ClassIdent {
        EntityField::spec_class_ident_const()
    }

    open spec fn spec_has_constructors() -> bool {
        true
    }

    open spec fn spec_creatable(&self) -> bool {
        true
    }

    open spec fn spec_create(self) -> Result<(EntityBuilderView, EntityView)> {
        match created_entity(self@) {
            Ok(e) => Ok((self@, e)),
            Err(err) => Err(err),
        }
    }

    /// A UID that was set must be the existing entity's.
    open spec fn spec_modifiable(&self, existing: EntityView) -> bool {
        self@.identity matches Some(u) ==> u == existing.uid
    }

    open spec fn spec_modify(self, existing: EntityView) -> (EntityView, Result<EntityBuilderView>) {
        modified_entity(self@, existing)
    }

    open spec fn spec_changed(self, existing: EntityView) -> Seq<ClassIdent> {
        descriptor_changes(self@.descriptor)
    }

    fn creator() -> (r: Self)
        ensures
            r@ == empty_entity_builder(BuilderMode::Creator),
            r == EntityBuilder::spec_empty(BuilderMode::Creator),
    {
        Self { builder_mode: BuilderMode::Creator, identity: None, descriptor: None, location: None }
    }

    fn editor() -> (r: Self)
        ensures
            r@ == empty_entity_builder(BuilderMode::Editor),
            r == EntityBuilder::spec_empty(BuilderMode::Editor),
    {
        Self { builder_mode: BuilderMode::Editor, identity: None, descriptor: None, location: None }
    }

    fn builder_mode(&self) -> (r: BuilderMode) {
        self.builder_mode
    }

    fn class_ident(&self) -> (r: ClassIdent) {
        EntityField::class_ident_const()
    }

    fn create(self) -> (r: Result<Creation<Self, Entity>>) {
        let mut s = self;
        let op = match s.builder_mode {
            BuilderMode::Creator => ChangeOp::Create,
            BuilderMode::Editor => ChangeOp::Modify,
        };
        let mut fields_changed = FieldsChanged::new(EntityField::class_ident_const(), op);
        let uid = Build::create_value(&s.identity, &mut fields_changed, EntityField::Identity)?;
        let descriptor = Build::create(&mut s.descriptor, &mut fields_changed, EntityField::Descriptor)?;
        let location = Build::create_value(&s.location, &mut fields_changed, EntityField::Location)?;
        let entity = Entity { uid, descriptor, location };
        assert(s@ == self@);
        Ok(Creation::new(s, entity))
    }

    fn modify(self, existing: &mut Entity) -> (r: Result<Modification<Self>>) {
        let mut s = self;
        if s.identity.is_none() {
            s.identity = Some(existing.uid);
        }
        let op = match s.builder_mode {
            BuilderMode::Creator => ChangeOp::Create,
            BuilderMode::Editor => ChangeOp::Modify,
        };
        let mut fields_changed = FieldsChanged::new(EntityField::class_ident_const(), op);
        let ghost fresh = fields_changed;
        Build::modify(&mut s.descriptor, &mut existing.descriptor, &mut fields_changed, EntityField::Descriptor)?;
        Build::modify_value(&s.location, &mut existing.location, &mut fields_changed, EntityField::Location)?;
        proof {
            lemma_reports_from_fresh(fresh, fields_changed, descriptor_changes(self@.descriptor));
        }
        Ok(Modification::new(s, fields_changed))
    }
}

/// A model builder that holds an entity builder.
pub trait BuildableEntity: Builder {
    spec fn spec_get_entity(&self) -> Option<EntityBuilderView>;

    /// `self` with the given entity builder.
    spec fn spec_with_entity(self, entity: EntityBuilder) -> Self;

    fn entity(&mut self, entity: EntityBuilder) -> (r: Result<()>)
        ensures
            r is Ok,
            *final(self) == old(self).spec_with_entity(entity),
            old(self).spec_with_entity(entity).spec_get_entity() == Some(entity@),
    ;

    /// The entity builder, made (in this builder's mode) when there is none.
    fn entity_builder(&mut self) -> (r: &mut EntityBuilder)
        ensures
            r@ == match old(self).spec_get_entity() {
                Some(e) => e,
                None => empty_entity_builder(old(self).spec_mode()),
            },
            *final(self) == old(self).spec_with_entity(*final(r)),
    ;

    fn get_entity(&self) -> (r: Option<&EntityBuilder>)
        ensures
            match r {
                Some(e) => self.spec_get_entity() == Some(e@),
                None => self.spec_get_entity() is None,
            },
    ;
}

impl MaybeIdentifiable for EntityBuilder {
    open spec fn spec_try_uid(&self) -> Result<UID> {
        uid_or_not_generated(self@.identity)
    }

    fn try_uid(&self) -> (r: Result<UID>) {
        match self.identity {
            Some(uid) => Ok(uid),
            None => Err(Error::IdentityNotGenerated),
        }
    }
}

impl BuildableUID for EntityBuilder {
    open spec fn spec_get_uid(&self) -> Option<UID> {
        self@.identity
    }

    closed spec fn spec_with_uid(self, uid: UID) -> Self {
        EntityBuilder { identity: Some(uid), ..self }
    }

    fn uid(&mut self, uid: UID) -> (r: Result<&mut Self>)
        ensures
            r matches Ok(s) && s@ == (EntityBuilderView { identity: Some(uid), ..old(self)@ }),
    {
        proof {
            let w = old(self).spec_with_uid(uid);
            assert(w.identity == Some(uid));
            assert(w@.identity == Some(uid));
            assert(w.spec_get_uid() == Some(uid));
            assert(w.spec_mode() == old(self).spec_mode());
        }
        self.identity = Some(uid);
        Ok(self)
    }

    fn get_uid(&self) -> (r: Option<&UID>) {
        self.identity.as_ref()
    }
}

impl BuildableDescriptor for EntityBuilder {
    open spec fn spec_new_descriptor_mode(&self) -> BuilderMode {
        self@.builder_mode
    }

    open spec fn spec_get_descriptor(&self) -> Option<DescriptorBuilderView> {
        self@.descriptor
    }

    closed spec fn spec_with_descriptor(self, descriptor: DescriptorBuilder) -> Self {
        EntityBuilder { descriptor: Some(descriptor), ..self }
    }

    fn descriptor(&mut self, descriptor: DescriptorBuilder) -> (r: Result<&mut Self>)
        ensures
            r matches Ok(s) && s@ == (EntityBuilderView { descriptor: Some(descriptor@), ..old(self)@ }),
    {
        self.descriptor = Some(descriptor);
        Ok(self)
    }

    fn descriptor_builder(&mut self) -> (r: &mut DescriptorBuilder) {
        if self.descriptor.is_none() {
            self.descriptor = Some(match self.builder_mode {
                BuilderMode::Creator => DescriptorBuilder::creator(),
                BuilderMode::Editor => DescriptorBuilder::editor(),
            });
        }
        self.descriptor.as_mut().unwrap()
    }
}

impl EntityBuilder {
    /// Gives the builder the UID of the entity it edits, keeping one that was already set.
    pub fn identity_from(&mut self, uid: UID)
        ensures
            final(self)@ == (EntityBuilderView {
                identity: Some(match old(self)@.identity {
                    Some(u) => u,
                    None => uid,
                }),
                ..old(self)@
            }),
    {
        if self.get_uid().is_none() {
            let _ = self.uid(uid);
        }
    }

    /// An entity builder with nothing set.
    pub closed spec fn spec_empty(mode: BuilderMode) -> EntityBuilder {
        EntityBuilder { builder_mode: mode, identity: None, location: None, descriptor: None }
    }

    pub proof fn lemma_empty_view(mode: BuilderMode)
        ensures
            Self::spec_empty(mode)@ == empty_entity_builder(mode),
    {
    }

    pub proof fn lemma_with_uid_view(self, uid: UID)
        ensures
            self.spec_with_uid(uid)@ == (EntityBuilderView { identity: Some(uid), ..self@ }),
    {
    }

    pub fn location(&mut self, location: Location) -> (r: Result<&mut Self>)
        ensures
            r matches Ok(s) && s@ == (EntityBuilderView { location: Some(location), ..old(self)@ })
                && *final(self) == *final(s),
    {
        self.location = Some(location);
        Ok(self)
    }

    pub fn get_location(&self) -> (r: Option<Location>)
        ensures
            r == self@.location,
    {
        self.location
    }
}

/// An editor with nothing set leaves an entity as it is, and only takes its UID.
pub proof fn lemma_empty_editor_keeps_entity(e: EntityView)
    ensures
        modified_entity(empty_entity_builder(BuilderMode::Editor), e).0 == e,
        modified_entity(empty_entity_builder(BuilderMode::Editor), e).1
            == Ok::<EntityBuilderView, Error>(EntityBuilderView { identity: Some(e.uid), ..empty_entity_builder(BuilderMode::Editor) }),
{
}

/// Moving by editing: after an editor with a location set modifies an entity, the entity is exactly at the
/// location set, whatever its previous location, and keeps its UID; the edit fails only by its descriptor builder.
pub proof fn lemma_editor_moves_entity(b: EntityBuilderView, e: EntityView, l: Location)
    requires
        b.location == Some(l),
    ensures
        modified_entity(b, e).1 is Ok ==> modified_entity(b, e).0.location == l && modified_entity(b, e).0.uid == e.uid,
        b.descriptor is None ==> modified_entity(b, e).1 is Ok,
{
}

} // verus!
