pub mod action;

use vstd::prelude::*;
use crate::error::{Error, Result};
use crate::identity::{UID, Identifiable, Keyed, MaybeIdentifiable};
use crate::modeling::{Builder, BuilderMode, BuildableUID, Built, Class, ClassIdent, CodebaseClassID, Creation, Field,
    FieldValueType, Fields, ListOp, Modification, option_view, uid_or_not_generated};
use crate::modeling::building::{Build, apply_uid_ops, no_edits, lemma_reports_from_fresh};
use crate::modeling::fields_changed::{ChangeOp, FieldsChanged};
use crate::descriptor::{BuildableDescriptor, Descriptive, Descriptor, DescriptorBuilder, DescriptorBuilderView,
    DescriptorField, DescriptorView, created_descriptor, descriptor_changes, edited_descriptor};
use crate::interface::InterfaceField;

verus! {

/// The whole of the game: its worlds and the interfaces that are connected to it.
#[derive(Debug)]
pub struct Universe {
    uid: UID,
    descriptor: Descriptor,
    world_uids: Vec<UID>,
    active_interfaces: Vec<UID>,
}

/// The plain contents of a universe.
pub struct UniverseView {
    pub uid: UID,
    pub descriptor: DescriptorView,
    pub world_uids: Seq<UID>,
    pub active_interfaces: Seq<UID>,
}

impl View for Universe {
    type V = UniverseView;

    closed spec fn view(&self) -> UniverseView {
        UniverseView {
            uid: self.uid,
            descriptor: self.descriptor@,
            world_uids: self.world_uids@,
            active_interfaces: self.active_interfaces@,
        }
    }
}

impl Universe {
    pub fn world_uids(&self) -> (r: &Vec<UID>)
        ensures
            r@ == self@.world_uids,
    {
        &self.world_uids
    }

    pub fn active_interface_uids(&self) -> (r: &Vec<UID>)
        ensures
            r@ == self@.active_interfaces,
    {
        &self.active_interfaces
    }
}

impl Keyed for Universe {
    open spec fn spec_key(&self) -> Option<Seq<char>> {
        self@.descriptor.key
    }

    fn key(&self) -> (r: Option<&str>) {
        self.descriptor.key()
    }
}

impl Identifiable for Universe {
    open spec fn spec_uid_of(v: UniverseView) -> UID {
        v.uid
    }

    fn uid(&self) -> (r: UID) {
        assert(Self::spec_uid_of(self@) == self.uid);
        self.uid
    }
}

impl Descriptive for Universe {
    closed spec fn spec_descriptor(&self) -> Descriptor {
        self.descriptor
    }

    fn descriptor(&self) -> (r: &Descriptor)
        ensures
            r@ == self@.descriptor,
    {
        &self.descriptor
    }
}

impl Built for Universe {
    type BuilderType = UniverseBuilder;
}

/// The fields of a `Universe`.
#[derive(Debug, Clone, Copy, PartialEq, Eq, Structural)]
pub enum UniverseField {
    UID,
    Descriptor,
    WorldUIDs,
    ActiveInterfaceUIDs,
}

/// The class of the worlds that a universe lists.
pub open spec fn world_class_ident() -> ClassIdent {
    ClassIdent { class_id: CodebaseClassID::World.spec_class_id(), classname: "World" }
}

impl UniverseField {
    pub open spec fn spec_class_ident_const() -> ClassIdent {
        ClassIdent { class_id: CodebaseClassID::Universe.spec_class_id(), classname: "Universe" }
    }

    pub fn class_ident_const() -> (r: ClassIdent)
        ensures
            r == Self::spec_class_ident_const(),
    {
        ClassIdent::new(CodebaseClassID::Universe.class_id(), "Universe")
    }
}

impl Fields for UniverseField {
    open spec fn spec_field(&self) -> Field {
        let ci = UniverseField::spec_class_ident_const();
        match self {
            UniverseField::UID => Field { class_ident: ci, name: "uid", value_type: FieldValueType::UID(ci) },
            UniverseField::Descriptor => Field {
                class_ident: ci,
                name: "descriptor",
                value_type: FieldValueType::Model(DescriptorField::spec_class_ident_const()),
            },
            UniverseField::WorldUIDs => Field {
                class_ident: ci,
                name: "world_uids",
                value_type: FieldValueType::UIDList(world_class_ident()),
            },
            UniverseField::ActiveInterfaceUIDs => Field {
                class_ident: ci,
                name: "active_interface_uids",
                value_type: FieldValueType::UIDList(InterfaceField::spec_class_ident_const()),
            },
        }
    }

    fn field(&self) -> (r: Field) {
        let ci = Self::class_ident_const();
        match self {
            Self::UID => Field::new(ci, "uid", FieldValueType::UID(ci)),
            Self::Descriptor => Field::new(ci, "descriptor", FieldValueType::Model(DescriptorField::class_ident_const())),
            Self::WorldUIDs => Field::new(ci, "world_uids",
                FieldValueType::UIDList(ClassIdent::new(CodebaseClassID::World.class_id(), "World"))),
            Self::ActiveInterfaceUIDs => Field::new(ci, "active_interface_uids",
                FieldValueType::UIDList(InterfaceField::class_ident_const())),
        }
    }
}

impl Class for UniverseField {
    open spec fn spec_class_ident() -> ClassIdent {
        UniverseField::spec_class_ident_const()
    }

    fn class_ident() -> (r: ClassIdent) {
        Self::class_ident_const()
    }
}

/// Creates and modifies a `Universe`.
pub struct UniverseBuilder {
    builder_mode: BuilderMode,
    uid: Option<UID>,
    descriptor: Option<DescriptorBuilder>,
    world_uids: Vec<ListOp<UID, UID>>,
    active_interface_uids: Vec<ListOp<UID, UID>>,
}

/// The plain contents of a universe builder.
pub struct UniverseBuilderView {
    pub builder_mode: BuilderMode,
    pub uid: Option<UID>,
    pub descriptor: Option<DescriptorBuilderView>,
    pub world_uids: Seq<ListOp<UID, UID>>,
    pub active_interface_uids: Seq<ListOp<UID, UID>>,
}

impl View for UniverseBuilder {
    type V = UniverseBuilderView;

    closed spec fn view(&self) -> UniverseBuilderView {
        UniverseBuilderView {
            builder_mode: self.builder_mode,
            uid: self.uid,
            descriptor: option_view(self.descriptor),
            world_uids: self.world_uids@,
            active_interface_uids: self.active_interface_uids@,
        }
    }
}

/// A universe builder view with nothing set.
pub open spec fn empty_universe_builder(mode: BuilderMode) -> UniverseBuilderView {
    UniverseBuilderView {
        builder_mode: mode,
        uid: None,
        descriptor: None,
        world_uids: Seq::empty(),
        active_interface_uids: Seq::empty(),
    }
}

/// The universe that a builder creates: its UID and descriptor are required; its worlds and active interfaces are
/// what the builder's operations make of none.
pub open spec fn created_universe(b: UniverseBuilderView) -> Result<(UniverseBuilderView, UniverseView)> {
    match b.uid {
        None => Err(Error::FieldNotSet { class: "Universe", field: "uid" }),
        Some(uid) => match b.descriptor {
            None => Err(Error::FieldNotSet { class: "Universe", field: "descriptor" }),
            Some(db) => match created_descriptor(db) {
                None => Err(Error::FieldNotSet { class: "Descriptor", field: "name" }),
                Some(descriptor) => {
                    let (world_uids, world_ops) = apply_uid_ops(b.world_uids, Seq::empty());
                    let (active_interfaces, active_ops) = apply_uid_ops(b.active_interface_uids, Seq::empty());
                    Ok((
                        UniverseBuilderView { world_uids: world_ops, active_interface_uids: active_ops, ..b },
                        UniverseView { uid, descriptor, world_uids, active_interfaces },
                    ))
                },
            },
        },
    }
}

/// The universe after a builder's changes: the descriptor is edited or replaced, then the world and interface
/// operations are applied in order.
pub open spec fn modified_universe(b: UniverseBuilderView, u: UniverseView) -> (UniverseView, Result<UniverseBuilderView>) {
    match edited_descriptor(b.descriptor, u.descriptor) {
        Err(e) => (u, Err(e)),
        Ok(descriptor) => {
            let (world_uids, world_ops) = apply_uid_ops(b.world_uids, u.world_uids);
            let (active_interfaces, active_ops) = apply_uid_ops(b.active_interface_uids, u.active_interfaces);
            (
                UniverseView { descriptor, world_uids, active_interfaces, ..u },
                Ok(UniverseBuilderView { world_uids: world_ops, active_interface_uids: active_ops, ..b }),
            )
        },
    }
}

impl Builder for UniverseBuilder {
    type ModelType = Universe;

    open spec fn spec_mode(&self) -> BuilderMode {
        self@.builder_mode
    }

    open spec fn spec_class_ident(&self) -> ClassIdent {
        UniverseField::spec_class_ident_const()
    }

    open spec fn spec_has_constructors() -> bool {
        true
    }

    /// UID list operations never edit.
    open spec fn spec_creatable(&self) -> bool {
        no_edits(self@.world_uids) && no_edits(self@.active_interface_uids)
    }

    open spec fn spec_create(self) -> Result<(UniverseBuilderView, UniverseView)> {
        created_universe(self@)
    }

    /// UID list operations never edit.
    open spec fn spec_modifiable(&self, existing: UniverseView) -> bool {
        no_edits(self@.world_uids) && no_edits(self@.active_interface_uids)
    }

    open spec fn spec_modify(self, existing: UniverseView) -> (UniverseView, Result<UniverseBuilderView>) {
        modified_universe(self@, existing)
    }

    open spec fn spec_changed(self, existing: UniverseView) -> Seq<ClassIdent> {
        descriptor_changes(self@.descriptor)
    }

    fn creator() -> (r: Self)
        ensures
            r@ == empty_universe_builder(BuilderMode::Creator),
    {
        Self {
            builder_mode: BuilderMode::Creator,
            uid: None,
            descriptor: None,
            world_uids: Vec::new(),
            active_interface_uids: Vec::new(),
        }
    }

    fn editor() -> (r: Self)
        ensures
            r@ == empty_universe_builder(BuilderMode::Editor),
    {
        Self {
            builder_mode: BuilderMode::Editor,
            uid: None,
            descriptor: None,
            world_uids: Vec::new(),
            active_interface_uids: Vec::new(),
        }
    }

    fn builder_mode(&self) -> (r: BuilderMode) {
        self.builder_mode
    }

    fn class_ident(&self) -> (r: ClassIdent) {
        UniverseField::class_ident_const()
    }

    fn create(self) -> (r: Result<Creation<Self, Universe>>) {
        let mut s = self;
        let op = match s.builder_mode {
            BuilderMode::Creator => ChangeOp::Create,
            BuilderMode::Editor => ChangeOp::Modify,
        };
        let mut fields_changed = FieldsChanged::new(UniverseField::class_ident_const(), op);
        let uid = Build::create_uid(&mut s.uid, &mut fields_changed, UniverseField::UID)?;
        let descriptor = Build::create(&mut s.descriptor, &mut fields_changed, UniverseField::Descriptor)?;
        let world_uids = Build::create_uid_vec(&mut s.world_uids, &mut fields_changed, UniverseField::WorldUIDs)?;
        let active_interfaces = Build::create_uid_vec(&mut s.active_interface_uids, &mut fields_changed,
            UniverseField::ActiveInterfaceUIDs)?;
        let universe = Universe { uid, descriptor, world_uids, active_interfaces };
        assert(universe@ == UniverseView { uid, descriptor: descriptor@, world_uids: world_uids@,
            active_interfaces: active_interfaces@ });
        Ok(Creation::new(s, universe))
    }

    fn modify(self, existing: &mut Universe) -> (r: Result<Modification<Self>>) {
        let mut s = self;
        let op = match s.builder_mode {
            BuilderMode::Creator => ChangeOp::Create,
            BuilderMode::Editor => ChangeOp::Modify,
        };
        let mut fields_changed = FieldsChanged::new(UniverseField::class_ident_const(), op);
        let ghost fresh = fields_changed;
        Build::modify(&mut s.descriptor, &mut existing.descriptor, &mut fields_changed, UniverseField::Descriptor)?;
        Build::modify_uid_vec(&mut s.world_uids, &mut existing.world_uids, &mut fields_changed, UniverseField::WorldUIDs)?;
        Build::modify_uid_vec(&mut s.active_interface_uids, &mut existing.active_interfaces, &mut fields_changed,
            UniverseField::ActiveInterfaceUIDs)?;
        proof {
            lemma_reports_from_fresh(fresh, fields_changed, descriptor_changes(self@.descriptor));
        }
        assert(existing@ == UniverseView { uid: existing.uid, descriptor: existing.descriptor@,
            world_uids: existing.world_uids@, active_interfaces: existing.active_interfaces@ });
        Ok(Modification::new(s, fields_changed))
    }
}

impl MaybeIdentifiable for UniverseBuilder {
    open spec fn spec_try_uid(&self) -> Result<UID> {
        uid_or_not_generated(self@.uid)
    }

    fn try_uid(&self) -> (r: Result<UID>) {
        match self.uid {
            Some(uid) => Ok(uid),
            None => Err(Error::IdentityNotGenerated),
        }
    }
}

impl BuildableUID for UniverseBuilder {
    open spec fn spec_get_uid(&self) -> Option<UID> {
        self@.uid
    }

    closed spec fn spec_with_uid(self, uid: UID) -> Self {
        UniverseBuilder { uid: Some(uid), ..self }
    }

    fn uid(&mut self, uid: UID) -> (r: Result<&mut Self>)
        ensures
            r matches Ok(s) && s@ == (UniverseBuilderView { uid: Some(uid), ..old(self)@ }),
    {
        proof {
            let w = old(self).spec_with_uid(uid);
            assert(w.spec_get_uid() == Some(uid));
            assert(w.spec_mode() == old(self).spec_mode());
        }
        self.uid = Some(uid);
        Ok(self)
    }

    fn get_uid(&self) -> (r: Option<&UID>) {
        self.uid.as_ref()
    }
}

impl BuildableDescriptor for UniverseBuilder {
    open spec fn spec_new_descriptor_mode(&self) -> BuilderMode {
        BuilderMode::Creator
    }

    open spec fn spec_get_descriptor(&self) -> Option<DescriptorBuilderView> {
        self@.descriptor
    }

    closed spec fn spec_with_descriptor(self, descriptor: DescriptorBuilder) -> Self {
        UniverseBuilder { descriptor: Some(descriptor), ..self }
    }

    fn descriptor(&mut self, descriptor: DescriptorBuilder) -> (r: Result<&mut Self>)
        ensures
            r matches Ok(s) && s@ == (UniverseBuilderView { descriptor: Some(descriptor@), ..old(self)@ }),
    {
        self.descriptor = Some(descriptor);
        Ok(self)
    }

    /// The descriptor builder, made as a creator (whatever this builder's mode) when there is none.
    fn descriptor_builder(&mut self) -> (r: &mut DescriptorBuilder) {
        if self.descriptor.is_none() {
            self.descriptor = Some(DescriptorBuilder::creator());
        }
        proof {
            assert(forall|d: DescriptorBuilder| #[trigger] old(self).spec_with_descriptor(d)
                == UniverseBuilder { descriptor: Some(d), ..*old(self) });
        }
        self.descriptor.as_mut().unwrap()
    }
}

impl UniverseBuilder {
    pub fn add_world_uid(&mut self, uid: UID) -> (r: Result<&mut Self>)
        ensures
            r matches Ok(s) && s@ == (UniverseBuilderView { world_uids: old(self)@.world_uids.push(ListOp::Add(uid)), ..old(self)@ })
                && *final(self) == *final(s),
    {
        self.world_uids.push(ListOp::Add(uid));
        Ok(self)
    }

    pub fn remove_world_uid(&mut self, uid: UID) -> (r: Result<&mut Self>)
        ensures
            r matches Ok(s) && s@ == (UniverseBuilderView { world_uids: old(self)@.world_uids.push(ListOp::Remove(uid)), ..old(self)@ })
                && *final(self) == *final(s),
    {
        self.world_uids.push(ListOp::Remove(uid));
        Ok(self)
    }

    pub fn add_active_interface_uid(&mut self, uid: UID) -> (r: Result<&mut Self>)
        ensures
            r matches Ok(s) && s@ == (UniverseBuilderView {
                active_interface_uids: old(self)@.active_interface_uids.push(ListOp::Add(uid)),
                ..old(self)@
            }) && *final(self) == *final(s),
    {
        self.active_interface_uids.push(ListOp::Add(uid));
        Ok(self)
    }

    pub fn remove_active_interface_uid(&mut self, uid: UID) -> (r: Result<&mut Self>)
        ensures
            r matches Ok(s) && s@ == (UniverseBuilderView {
                active_interface_uids: old(self)@.active_interface_uids.push(ListOp::Remove(uid)),
                ..old(self)@
            }) && *final(self) == *final(s),
    {
        self.active_interface_uids.push(ListOp::Remove(uid));
        Ok(self)
    }
}

/// An editor with nothing set leaves a universe as it is: mutation occurs only against what is set.
pub proof fn lemma_empty_editor_keeps_universe(u: UniverseView)
    ensures
        modified_universe(empty_universe_builder(BuilderMode::Editor), u).0 == u,
        modified_universe(empty_universe_builder(BuilderMode::Editor), u).1 is Ok,
{
}

} // verus!
