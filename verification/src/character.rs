use vstd::prelude::*;
use crate::error::{Error, Result};
use crate::identity::{UID, Identifiable, Keyed, MaybeIdentifiable};
use crate::modeling::{Builder, BuilderMode, BuildableUID, Built, Class, ClassIdent, CodebaseClassID, Creation, Field,
    FieldValueType, Fields, Modification, option_view, uid_or_not_generated};
use crate::modeling::building::{Build, lemma_reports_extended_refl, lemma_reports_extended_trans, lemma_reports_from_fresh};
use crate::modeling::fields_changed::{ChangeOp, FieldsChanged};
use crate::descriptor::{Descriptive, Descriptor};
use crate::entity::{BuildableEntity, Entity, EntityBuilder, EntityBuilderView, EntityField, EntityView, Exists,
    created_entity, empty_entity_builder, modified_entity};
use crate::location::{Located, Location};
use crate::cortex::{BuildableCortex, Cortex, CortexBuilder, CortexBuilderView, CortexView, Sensitive, created_cortex,
    empty_cortex_builder};
use crate::cortex::routine::RoutineLobeField;

verus! {

/// A being of the World: an entity with a cortex that drives its behavior.
#[derive(Debug)]
pub struct Character {
    entity: Entity,
    cortex: Cortex,
}

/// The plain contents of a character.
pub struct CharacterView {
    pub entity: EntityView,
    pub cortex: CortexView,
}

impl View for Character {
    type V = CharacterView;

    closed spec fn view(&self) -> CharacterView {
        CharacterView { entity: self.entity@, cortex: self.cortex@ }
    }
}

impl Built for Character {
    type BuilderType = CharacterBuilder;
}

impl Keyed for Character {
    open spec fn spec_key(&self) -> Option<Seq<char>> {
        self@.entity.descriptor.key
    }

    fn key(&self) -> (r: Option<&str>) {
        self.entity.key()
    }
}

impl Identifiable for Character {
    open spec fn spec_uid_of(v: CharacterView) -> UID {
        v.entity.uid
    }

    fn uid(&self) -> (r: UID) {
        self.entity.uid()
    }
}

impl Descriptive for Character {
    closed spec fn spec_descriptor(&self) -> Descriptor {
        self.entity.spec_descriptor()
    }

    fn descriptor(&self) -> (r: &Descriptor)
        ensures
            r@ == self@.entity.descriptor,
    {
        self.entity.descriptor()
    }
}

impl Located for Character {
    open spec fn spec_location(&self) -> Location {
        self@.entity.location
    }

    fn location(&self) -> (r: Location) {
        self.entity.location()
    }
}

impl Exists for Character {
    open spec fn spec_entity(&self) -> EntityView {
        self@.entity
    }

    fn entity(&self) -> (r: &Entity) {
        &self.entity
    }
}

impl Sensitive for Character {
    open spec fn spec_cortex(&self) -> CortexView {
        self@.cortex
    }

    fn cortex(&self) -> (r: &Cortex) {
        &self.cortex
    }
}

/// The fields of a `Character`.
#[derive(Debug, Clone, Copy, PartialEq, Eq, Structural)]
pub enum CharacterField {
    Entity,
    Cortex,
}

impl CharacterField {
    pub open spec fn spec_class_ident_const() -> ClassIdent {
        ClassIdent { class_id: CodebaseClassID::Character.spec_class_id(), classname: "Character" }
    }

    pub fn class_ident_const() -> (r: ClassIdent)
        ensures
            r == Self::spec_class_ident_const(),
    {
        ClassIdent::new(CodebaseClassID::Character.class_id(), "Character")
    }
}

impl Fields for CharacterField {
    /// The cortex field names the routine lobe's class as the model it holds.
    open spec fn spec_field(&self) -> Field {
        let ci = CharacterField::spec_class_ident_const();
        match self {
            CharacterField::Entity => Field {
                class_ident: ci,
                name: "entity",
                value_type: FieldValueType::Model(EntityField::spec_class_ident_const()),
            },
            CharacterField::Cortex => Field {
                class_ident: ci,
                name: "cortex",
                value_type: FieldValueType::Model(RoutineLobeField::spec_class_ident_const()),
            },
        }
    }

    fn field(&self) -> (r: Field) {
        let ci = Self::class_ident_const();
        match self {
            Self::Entity => Field::new(ci, "entity", FieldValueType::Model(EntityField::class_ident_const())),
            Self::Cortex => Field::new(ci, "cortex", FieldValueType::Model(RoutineLobeField::class_ident_const())),
        }
    }
}

impl Class for CharacterField {
    open spec fn spec_class_ident() -> ClassIdent {
        CharacterField::spec_class_ident_const()
    }

    fn class_ident() -> (r: ClassIdent) {
        Self::class_ident_const()
    }
}

/// Creates and modifies a `Character`.
#[derive(Debug)]
pub struct CharacterBuilder {
    builder_mode: BuilderMode,
    entity: Option<EntityBuilder>,
    cortex: Option<CortexBuilder>,
}

/// The plain contents of a character builder.
pub struct CharacterBuilderView {
    pub builder_mode: BuilderMode,
    pub entity: Option<EntityBuilderView>,
    pub cortex: Option<CortexBuilderView>,
}

impl View for CharacterBuilder {
    type V = CharacterBuilderView;

    closed spec fn view(&self) -> CharacterBuilderView {
        CharacterBuilderView {
            builder_mode: self.builder_mode,
            entity: option_view(self.entity),
            cortex: option_view(self.cortex),
        }
    }
}

/// A character builder view with nothing set.
pub open spec fn empty_character_builder(mode: BuilderMode) -> CharacterBuilderView {
    CharacterBuilderView { builder_mode: mode, entity: None, cortex: None }
}

/// The entity builder that a character builder holds, or an empty one in the given mode.
pub open spec fn entity_or_empty(e: Option<EntityBuilderView>, mode: BuilderMode) -> EntityBuilderView {
    match e {
        Some(e) => e,
        None => empty_entity_builder(mode),
    }
}

/// The UID that a character builder was given, through its entity builder.
pub open spec fn character_builder_uid(b: CharacterBuilderView) -> Option<UID> {
    match b.entity {
        Some(e) => e.identity,
        None => None,
    }
}

/// The character that a builder creates: the entity, then the cortex, are required.
pub open spec fn created_character(b: CharacterBuilderView) -> Result<CharacterView> {
    match b.entity {
        None => Err(Error::FieldNotSet { class: "Character", field: "entity" }),
        Some(eb) => match created_entity(eb) {
            Err(e) => Err(e),
            Ok(entity) => match b.cortex {
                None => Err(Error::FieldNotSet { class: "Character", field: "cortex" }),
                Some(cb) => match created_cortex(cb) {
                    Err(e) => Err(e),
                    Ok(cortex) => Ok(CharacterView { entity, cortex }),
                },
            },
        },
    }
}

/// The character after a builder's changes. The builder first takes the existing character's UID, which makes
/// an entity builder when it has none; the entity is then edited or replaced, and a cortex creator replaces the cortex.
pub open spec fn modified_character(b: CharacterBuilderView, c: CharacterView) -> (CharacterView, Result<CharacterBuilderView>) {
    let eb = EntityBuilderView { identity: Some(c.entity.uid), ..entity_or_empty(b.entity, b.builder_mode) };
    let prepared = CharacterBuilderView { entity: Some(eb), ..b };
    let (entity, entity_result) = if eb.builder_mode == BuilderMode::Editor {
        modified_entity(eb, c.entity)
    } else {
        match created_entity(eb) {
            Ok(e) => (e, Ok(eb)),
            Err(err) => (c.entity, Err(err)),
        }
    };
    match entity_result {
        Err(err) => (c, Err(err)),
        Ok(eb2) => match b.cortex {
            None => (CharacterView { entity, ..c }, Ok(CharacterBuilderView { entity: Some(eb2), ..prepared })),
            Some(cb) => match created_cortex(cb) {
                Err(err) => (CharacterView { entity, ..c }, Err(err)),
                Ok(cortex) => (CharacterView { entity, cortex }, Ok(CharacterBuilderView { entity: Some(eb2), ..prepared })),
            },
        },
    }
}

/// The nested models reported by a character modification: the entity's, when its builder is an editor.
pub open spec fn character_changes(b: CharacterBuilderView) -> Seq<ClassIdent> {
    if entity_or_empty(b.entity, b.builder_mode).builder_mode == BuilderMode::Editor {
        seq![EntityField::spec_class_ident_const()]
    } else {
        Seq::empty()
    }
}

impl Builder for CharacterBuilder {
    type ModelType = Character;

    open spec fn spec_mode(&self) -> BuilderMode {
        self@.builder_mode
    }

    open spec fn spec_class_ident(&self) -> ClassIdent {
        CharacterField::spec_class_ident_const()
    }

    open spec fn spec_has_constructors() -> bool {
        true
    }

    /// An intelligence lobe can only be set, not edited or unset, on creation.
    open spec fn spec_creatable(&self) -> bool {
        self@.cortex matches Some(cb) ==> !(cb.intelligence_lobe is Edit) && !(cb.intelligence_lobe is Unset)
    }

    open spec fn spec_create(self) -> Result<(CharacterBuilderView, CharacterView)> {
        match created_character(self@) {
            Ok(c) => Ok((self@, c)),
            Err(e) => Err(e),
        }
    }

    /// A UID that was set must be the existing character's, and a cortex can only be replaced by a creator (the
    /// cortex field does not hold the cortex's class, so an editor's report cannot be nested).
    open spec fn spec_modifiable(&self, existing: CharacterView) -> bool {
        &&& character_builder_uid(self@) matches Some(u) ==> u == existing.entity.uid
        &&& self@.cortex matches Some(cb) ==> cb.builder_mode == BuilderMode::Creator
            && !(cb.intelligence_lobe is Edit) && !(cb.intelligence_lobe is Unset)
    }

    open spec fn spec_modify(self, existing: CharacterView) -> (CharacterView, Result<CharacterBuilderView>) {
        modified_character(self@, existing)
    }

    open spec fn spec_changed(self, existing: CharacterView) -> Seq<ClassIdent> {
        character_changes(self@)
    }

    fn creator() -> (r: Self)
        ensures
            r@ == empty_character_builder(BuilderMode::Creator),
    {
        Self { builder_mode: BuilderMode::Creator, entity: None, cortex: None }
    }

    fn editor() -> (r: Self)
        ensures
            r@ == empty_character_builder(BuilderMode::Editor),
    {
        Self { builder_mode: BuilderMode::Editor, entity: None, cortex: None }
    }

    fn builder_mode(&self) -> (r: BuilderMode) {
        self.builder_mode
    }

    fn class_ident(&self) -> (r: ClassIdent) {
        CharacterField::class_ident_const()
    }

    fn create(self) -> (r: Result<Creation<Self, Character>>) {
        let mut s = self;
        let op = match s.builder_mode {
            BuilderMode::Creator => ChangeOp::Create,
            BuilderMode::Editor => ChangeOp::Modify,
        };
        let mut fields_changed = FieldsChanged::new(CharacterField::class_ident_const(), op);
        let entity = Build::create(&mut s.entity, &mut fields_changed, CharacterField::Entity)?;
        let cortex = Build::create(&mut s.cortex, &mut fields_changed, CharacterField::Cortex)?;
        let character = Character { entity, cortex };
        assert(s@ == self@);
        Ok(Creation::new(s, character))
    }

    fn modify(self, existing: &mut Character) -> (r: Result<Modification<Self>>) {
        let mut s = self;
        let uid = existing.entity.uid();
        let entity_builder = s.entity_builder();
        entity_builder.identity_from(uid);
        let op = match s.builder_mode {
            BuilderMode::Creator => ChangeOp::Create,
            BuilderMode::Editor => ChangeOp::Modify,
        };
        let mut fields_changed = FieldsChanged::new(CharacterField::class_ident_const(), op);
        let ghost fresh = fields_changed;
        let ghost prepared = s;
        Build::modify(&mut s.entity, &mut existing.entity, &mut fields_changed, CharacterField::Entity)?;
        let ghost middle = fields_changed;
        if s.cortex.is_some() {
            Build::modify(&mut s.cortex, &mut existing.cortex, &mut fields_changed, CharacterField::Cortex)?;
        } else {
            proof { lemma_reports_extended_refl(fields_changed); }
        }
        proof {
            let x = Build::modify_reported(prepared.entity, old(existing)@.entity, CharacterField::Entity.spec_field());
            lemma_reports_extended_trans(fresh, middle, fields_changed, x, Seq::empty());
            assert(x + Seq::<ClassIdent>::empty() == character_changes(self@));
            lemma_reports_from_fresh(fresh, fields_changed, character_changes(self@));
        }
        Ok(Modification::new(s, fields_changed))
    }
}

impl BuildableCortex for CharacterBuilder {
    open spec fn spec_get_cortex(&self) -> Option<CortexBuilderView> {
        self@.cortex
    }

    closed spec fn spec_with_cortex(self, cortex: CortexBuilder) -> Self {
        CharacterBuilder { cortex: Some(cortex), ..self }
    }

    fn cortex(&mut self, cortex: CortexBuilder) -> (r: Result<&mut Self>)
        ensures
            r matches Ok(s) && s@ == (CharacterBuilderView { cortex: Some(cortex@), ..old(self)@ }),
    {
        proof {
            assert(old(self).spec_with_cortex(cortex).spec_get_cortex() == Some(cortex@));
        }
        self.cortex = Some(cortex);
        Ok(self)
    }

    fn cortex_builder(&mut self) -> (r: &mut CortexBuilder) {
        if self.cortex.is_none() {
            self.cortex = Some(match self.builder_mode {
                BuilderMode::Creator => CortexBuilder::creator(),
                BuilderMode::Editor => CortexBuilder::editor(),
            });
        }
        proof {
            assert(forall|c: CortexBuilder| #[trigger] old(self).spec_with_cortex(c)
                == CharacterBuilder { cortex: Some(c), ..*old(self) });
        }
        self.cortex.as_mut().unwrap()
    }

    fn get_cortex_builder(&self) -> (r: Option<&CortexBuilder>) {
        self.cortex.as_ref()
    }
}

impl BuildableEntity for CharacterBuilder {
    open spec fn spec_get_entity(&self) -> Option<EntityBuilderView> {
        self@.entity
    }

    closed spec fn spec_with_entity(self, entity: EntityBuilder) -> Self {
        CharacterBuilder { entity: Some(entity), ..self }
    }

    fn entity(&mut self, entity: EntityBuilder) -> (r: Result<()>) {
        proof {
            assert(old(self).spec_with_entity(entity).spec_get_entity() == Some(entity@));
        }
        self.entity = Some(entity);
        Ok(())
    }

    fn entity_builder(&mut self) -> (r: &mut EntityBuilder) {
        if self.entity.is_none() {
            let e = match self.builder_mode {
                BuilderMode::Creator => EntityBuilder::creator(),
                BuilderMode::Editor => EntityBuilder::editor(),
            };
            assert(e@ == empty_entity_builder(self.builder_mode));
            self.entity = Some(e);
            assert(self@.entity == Some(empty_entity_builder(old(self).spec_mode())));
        }
        assert(self@.entity == Some(match old(self).spec_get_entity() {
                Some(e) => e,
                None => empty_entity_builder(old(self).spec_mode()),
            }));
        proof {
            assert(forall|c: EntityBuilder| #[trigger] old(self).spec_with_entity(c)
                == CharacterBuilder { entity: Some(c), ..*old(self) });
        }
        self.entity.as_mut().unwrap()
    }

    fn get_entity(&self) -> (r: Option<&EntityBuilder>) {
        self.entity.as_ref()
    }
}

impl MaybeIdentifiable for CharacterBuilder {
    open spec fn spec_try_uid(&self) -> Result<UID> {
        uid_or_not_generated(character_builder_uid(self@))
    }

    fn try_uid(&self) -> (r: Result<UID>) {
        match &self.entity {
            Some(entity) => entity.try_uid(),
            None => Err(Error::IdentityNotGenerated),
        }
    }
}

impl BuildableUID for CharacterBuilder {
    open spec fn spec_get_uid(&self) -> Option<UID> {
        character_builder_uid(self@)
    }

    closed spec fn spec_with_uid(self, uid: UID) -> Self {
        CharacterBuilder {
            entity: Some(match self.entity {
                Some(e) => e.spec_with_uid(uid),
                None => EntityBuilder::spec_empty(self.builder_mode).spec_with_uid(uid),
            }),
            ..self
        }
    }

    fn uid(&mut self, uid: UID) -> (r: Result<&mut Self>)
        ensures
            r matches Ok(s) && s@ == (CharacterBuilderView {
                entity: Some(EntityBuilderView { identity: Some(uid), ..entity_or_empty(old(self)@.entity, old(self)@.builder_mode) }),
                ..old(self)@
            }),
    {
        proof {
            EntityBuilder::lemma_empty_view(old(self).builder_mode);
            EntityBuilder::spec_empty(old(self).builder_mode).lemma_with_uid_view(uid);
            if let Some(e) = old(self).entity {
                e.lemma_with_uid_view(uid);
            }
            assert(forall|u: UID| #[trigger] old(self).spec_with_uid(u) == CharacterBuilder {
                entity: Some(match old(self).entity {
                    Some(e) => e.spec_with_uid(u),
                    None => EntityBuilder::spec_empty(old(self).builder_mode).spec_with_uid(u),
                }),
                ..*old(self)
            });
            let w = old(self).spec_with_uid(uid);
            assert(w@.entity == Some(w.entity.unwrap()@));
            assert(w.entity.unwrap()@.identity == Some(uid));
            assert(w.spec_get_uid() == Some(uid));
        }
        if self.entity.is_none() {
            self.entity = Some(match self.builder_mode {
                BuilderMode::Creator => EntityBuilder::creator(),
                BuilderMode::Editor => EntityBuilder::editor(),
            });
        }
        let entity = self.entity.as_mut().unwrap();
        let _ = entity.uid(uid);
        Ok(self)
    }

    fn get_uid(&self) -> (r: Option<&UID>) {
        match &self.entity {
            Some(entity) => entity.get_uid(),
            None => None,
        }
    }
}

/// An editor with nothing set leaves a character as it is (it only makes an entity editor that holds the
/// character's UID).
pub proof fn lemma_empty_editor_keeps_character(c: CharacterView)
    ensures
        modified_character(empty_character_builder(BuilderMode::Editor), c).0 == c,
        modified_character(empty_character_builder(BuilderMode::Editor), c).1 is Ok,
{
}

/// Moving a character by editing: with an entity editor whose location is set and no descriptor or cortex
/// change, modifying a character succeeds and leaves it exactly at that location, whatever its previous one.
pub proof fn lemma_editor_moves_character(b: CharacterBuilderView, c: CharacterView, eb: EntityBuilderView, l: Location)
    requires
        b.entity == Some(eb),
        eb.builder_mode == BuilderMode::Editor,
        eb.location == Some(l),
        eb.descriptor is None,
        b.cortex is None,
    ensures
        modified_character(b, c).1 is Ok,
        modified_character(b, c).0.entity.location == l,
        modified_character(b, c).0.entity.uid == c.entity.uid,
{
}

} // verus!
