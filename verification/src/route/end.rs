use vstd::prelude::*;
use crate::error::{Error, Result};
use crate::identity::{UID, Identifiable, IdentityField, Keyed, MaybeIdentifiable};
use crate::modeling::{Builder, BuilderMode, Built, Class, ClassIdent, CloneBuilding, CodebaseClassID, Creation, Field,
    FieldValueType, Fields, Modification, option_view};
use crate::modeling::building::{Build, lemma_reports_from_fresh};
use crate::modeling::fields_changed::{ChangeOp, FieldsChanged};
use crate::descriptor::{BuildableDescriptor, Descriptive, Descriptor, DescriptorBuilder, DescriptorBuilderView,
    DescriptorField, DescriptorView, cloned_descriptor, created_descriptor, descriptor_changes, edited_descriptor};
use crate::route::direction::Direction;

verus! {

/// Connects a single Area to a Route.
/// All fields are from the point-of-view of the Area, describing the Route that this connects to.
#[derive(Debug)]
pub struct End {
    /// The Area that this end provides an exit/entrance for.
    area_uid: UID,
    /// The description of the Route that this end connects to, from the point-of-view of the Area.
    descriptor: Descriptor,
    /// The direction that this end is found at, from the point-of-view of the Area.
    direction: Direction,
}

/// The plain contents of an end.
pub struct EndView {
    pub area_uid: UID,
    pub descriptor: DescriptorView,
    pub direction: Direction,
}

impl View for End {
    type V = EndView;

    closed spec fn view(&self) -> EndView {
        EndView { area_uid: self.area_uid, descriptor: self.descriptor@, direction: self.direction }
    }
}

impl Keyed for End {
    open spec fn spec_key(&self) -> Option<Seq<char>> {
        self@.descriptor.key
    }

    fn key(&self) -> (r: Option<&str>) {
        self.descriptor.key()
    }
}

impl Identifiable for End {
    /// An end is identified by its area.
    open spec fn spec_uid_of(v: EndView) -> UID {
        v.area_uid
    }

    fn uid(&self) -> (r: UID) {
        assert(Self::spec_uid_of(self@) == self.area_uid);
        self.area_uid
    }
}

impl Descriptive for End {
    closed spec fn spec_descriptor(&self) -> Descriptor {
        self.descriptor
    }

    /// The description of the Route that this end connects to, from the point-of-view of the Area.
    fn descriptor(&self) -> (r: &Descriptor)
        ensures
            r@ == self@.descriptor,
    {
        &self.descriptor
    }
}

impl Built for End {
    type BuilderType = EndBuilder;
}

impl End {
    pub fn area_uid(&self) -> (r: UID)
        ensures
            r == self@.area_uid,
    {
        self.area_uid
    }

    pub fn direction(&self) -> (r: Direction)
        ensures
            r == self@.direction,
    {
        self.direction
    }
}

/// The fields of an `End`.
#[derive(Debug, Clone, Copy, PartialEq, Eq, Structural)]
pub enum EndField {
    AreaIdentity,
    Descriptor,
    Direction,
}

impl EndField {
    pub open spec fn spec_class_ident_const() -> ClassIdent {
        ClassIdent { class_id: CodebaseClassID::End.spec_class_id(), classname: "End" }
    }

    pub fn class_ident_const() -> (r: ClassIdent)
        ensures
            r == Self::spec_class_ident_const(),
    {
        ClassIdent::new(CodebaseClassID::End.class_id(), "End")
    }
}

impl Fields for EndField {
    open spec fn spec_field(&self) -> Field {
        let ci = EndField::spec_class_ident_const();
        match self {
            EndField::AreaIdentity => Field {
                class_ident: ci,
                name: "area_identity",
                value_type: FieldValueType::Model(IdentityField::spec_class_ident_const()),
            },
            EndField::Descriptor => Field {
                class_ident: ci,
                name: "descriptor",
                value_type: FieldValueType::Model(DescriptorField::spec_class_ident_const()),
            },
            EndField::Direction => Field {
                class_ident: ci,
                name: "direction",
                value_type: FieldValueType::NonPrimitive(Direction::spec_class_ident_const()),
            },
        }
    }

    fn field(&self) -> (r: Field) {
        let ci = Self::class_ident_const();
        match self {
            Self::AreaIdentity => Field::new(ci, "area_identity", FieldValueType::Model(IdentityField::class_ident_const())),
            Self::Descriptor => Field::new(ci, "descriptor", FieldValueType::Model(DescriptorField::class_ident_const())),
            Self::Direction => Field::new(ci, "direction", FieldValueType::NonPrimitive(Direction::class_ident_const())),
        }
    }
}

impl Class for EndField {
    open spec fn spec_class_ident() -> ClassIdent {
        EndField::spec_class_ident_const()
    }

    fn class_ident() -> (r: ClassIdent) {
        Self::class_ident_const()
    }
}

/// Creates and modifies an `End`.
#[derive(Debug)]
pub struct EndBuilder {
    builder_mode: BuilderMode,
    area_uid: Option<UID>,
    descriptor: Option<DescriptorBuilder>,
    direction: Option<Direction>,
}

/// The plain contents of an end builder.
pub struct EndBuilderView {
    pub builder_mode: BuilderMode,
    pub area_uid: Option<UID>,
    pub descriptor: Option<DescriptorBuilderView>,
    pub direction: Option<Direction>,
}

impl View for EndBuilder {
    type V = EndBuilderView;

    closed spec fn view(&self) -> EndBuilderView {
        EndBuilderView {
            builder_mode: self.builder_mode,
            area_uid: self.area_uid,
            descriptor: option_view(self.descriptor),
            direction: self.direction,
        }
    }
}

/// An end builder view with nothing set.
pub open spec fn empty_end_builder(mode: BuilderMode) -> EndBuilderView {
    EndBuilderView { builder_mode: mode, area_uid: None, descriptor: None, direction: None }
}

/// The end that a builder creates: the area, descriptor and direction are required, in that order.
pub open spec fn created_end(b: EndBuilderView) -> Result<EndView> {
    match b.area_uid {
        None => Err(Error::FieldNotSet { class: "End", field: "area_identity" }),
        Some(area_uid) => match b.descriptor {
            None => Err(Error::FieldNotSet { class: "End", field: "descriptor" }),
            Some(db) => match created_descriptor(db) {
                None => Err(Error::FieldNotSet { class: "Descriptor", field: "name" }),
                Some(descriptor) => match b.direction {
                    None => Err(Error::FieldNotSet { class: "End", field: "direction" }),
                    Some(direction) => Ok(EndView { area_uid, descriptor, direction }),
                },
            },
        },
    }
}

/// The end after a builder's changes: the descriptor is edited or replaced, the direction reassigned; the area stays.
pub open spec fn modified_end(b: EndBuilderView, e: EndView) -> (EndView, Result<EndBuilderView>) {
    match edited_descriptor(b.descriptor, e.descriptor) {
        Err(err) => (e, Err(err)),
        Ok(descriptor) => (
            EndView {
                descriptor,
                direction: match b.direction {
                    Some(d) => d,
                    None => e.direction,
                },
                ..e
            },
            Ok(b),
        ),
    }
}

/// A builder that rebuilds the end `e`.
pub open spec fn cloned_end(mode: BuilderMode, e: EndView) -> EndBuilderView {
    EndBuilderView {
        builder_mode: mode,
        area_uid: Some(e.area_uid),
        descriptor: Some(cloned_descriptor(mode, e.descriptor)),
        direction: Some(e.direction),
    }
}

impl Builder for EndBuilder {
    type ModelType = End;

    open spec fn spec_mode(&self) -> BuilderMode {
        self@.builder_mode
    }

    open spec fn spec_class_ident(&self) -> ClassIdent {
        EndField::spec_class_ident_const()
    }

    open spec fn spec_has_constructors() -> bool {
        true
    }

    open spec fn spec_creatable(&self) -> bool {
        true
    }

    open spec fn spec_create(self) -> Result<(EndBuilderView, EndView)> {
        match created_end(self@) {
            Ok(e) => Ok((self@, e)),
            Err(err) => Err(err),
        }
    }

    open spec fn spec_modifiable(&self, existing: EndView) -> bool {
        true
    }

    open spec fn spec_modify(self, existing: EndView) -> (EndView, Result<EndBuilderView>) {
        modified_end(self@, existing)
    }

    open spec fn spec_changed(self, existing: EndView) -> Seq<ClassIdent> {
        descriptor_changes(self@.descriptor)
    }

    fn creator() -> (r: Self)
        ensures
            r@ == empty_end_builder(BuilderMode::Creator),
    {
        Self { builder_mode: BuilderMode::Creator, area_uid: None, descriptor: None, direction: None }
    }

    fn editor() -> (r: Self)
        ensures
            r@ == empty_end_builder(BuilderMode::Editor),
    {
        Self { builder_mode: BuilderMode::Editor, area_uid: None, descriptor: None, direction: None }
    }

    fn builder_mode(&self) -> (r: BuilderMode) {
        self.builder_mode
    }

    fn class_ident(&self) -> (r: ClassIdent) {
        EndField::class_ident_const()
    }

    fn create(self) -> (r: Result<Creation<Self, End>>) {
        let mut s = self;
        let op = match s.builder_mode {
            BuilderMode::Creator => ChangeOp::Create,
            BuilderMode::Editor => ChangeOp::Modify,
        };
        let mut fields_changed = FieldsChanged::new(EndField::class_ident_const(), op);
        let area_uid = Build::create_uid(&mut s.area_uid, &mut fields_changed, EndField::AreaIdentity)?;
        let descriptor = Build::create(&mut s.descriptor, &mut fields_changed, EndField::Descriptor)?;
        let direction = Build::create_value(&s.direction, &mut fields_changed, EndField::Direction)?;
        let end = End { area_uid, descriptor, direction };
        assert(s@ == self@);
        Ok(Creation::new(s, end))
    }

    fn modify(self, existing: &mut End) -> (r: Result<Modification<Self>>) {
        let mut s = self;
        let op = match s.builder_mode {
            BuilderMode::Creator => ChangeOp::Create,
            BuilderMode::Editor => ChangeOp::Modify,
        };
        let mut fields_changed = FieldsChanged::new(EndField::class_ident_const(), op);
        let ghost fresh = fields_changed;
        Build::modify(&mut s.descriptor, &mut existing.descriptor, &mut fields_changed, EndField::Descriptor)?;
        Build::modify_value(&s.direction, &mut existing.direction, &mut fields_changed, EndField::Descriptor)?;
        proof {
            lemma_reports_from_fresh(fresh, fields_changed, descriptor_changes(self@.descriptor));
        }
        assert(s@ == self@);
        Ok(Modification::new(s, fields_changed))
    }
}

impl BuildableDescriptor for EndBuilder {
    open spec fn spec_new_descriptor_mode(&self) -> BuilderMode {
        self@.builder_mode
    }

    open spec fn spec_get_descriptor(&self) -> Option<DescriptorBuilderView> {
        self@.descriptor
    }

    closed spec fn spec_with_descriptor(self, descriptor: DescriptorBuilder) -> Self {
        EndBuilder { descriptor: Some(descriptor), ..self }
    }

    fn descriptor(&mut self, descriptor: DescriptorBuilder) -> (r: Result<&mut Self>)
        ensures
            r matches Ok(s) && s@ == (EndBuilderView { descriptor: Some(descriptor@), ..old(self)@ }),
    {
        self.descriptor = Some(descriptor);
        Ok(self)
    }

    fn descriptor_builder(&mut self) -> (r: &mut DescriptorBuilder) {
        if self.descriptor.is_none() {
            self.descriptor = Some(match self.builder_mode {
                BuilderMode::Creator => DescriptorBuilder::creator(),
                BuilderMode::Editor => DescriptorBuilder::editor(),
            });
        }
        proof {
            assert(forall|d: DescriptorBuilder| #[trigger] old(self).spec_with_descriptor(d)
                == EndBuilder { descriptor: Some(d), ..*old(self) });
        }
        self.descriptor.as_mut().unwrap()
    }
}

impl MaybeIdentifiable for EndBuilder {
    /// An end builder is identified by its area.
    open spec fn spec_try_uid(&self) -> Result<UID> {
        match self@.area_uid {
            Some(uid) => Ok(uid),
            None => Err(Error::IdentityNotGenerated),
        }
    }

    fn try_uid(&self) -> (r: Result<UID>) {
        match &self.area_uid {
            Some(uid) => uid.try_uid(),
            None => Err(Error::IdentityNotGenerated),
        }
    }
}

impl CloneBuilding for EndBuilder {
    fn clone_model(builder_mode: BuilderMode, existing: &End) -> (r: Self)
        ensures
            r@ == cloned_end(builder_mode, existing@),
    {
        Self {
            builder_mode,
            area_uid: Some(existing.area_uid),
            descriptor: Some(DescriptorBuilder::clone_model(builder_mode, &existing.descriptor)),
            direction: Some(existing.direction),
        }
    }
}

impl EndBuilder {
    pub fn area_uid(&mut self, uid: UID) -> (r: Result<&mut Self>)
        ensures
            r matches Ok(s) && s@ == (EndBuilderView { area_uid: Some(uid), ..old(self)@ }) && *final(self) == *final(s),
    {
        self.area_uid = Some(uid);
        Ok(self)
    }

    pub fn get_area_uid(&self) -> (r: Option<&UID>)
        ensures
            match r {
                Some(u) => self@.area_uid == Some(*u),
                None => self@.area_uid is None,
            },
    {
        self.area_uid.as_ref()
    }

    pub fn direction(&mut self, direction: Direction) -> (r: Result<&mut Self>)
        ensures
            r matches Ok(s) && s@ == (EndBuilderView { direction: Some(direction), ..old(self)@ }) && *final(self) == *final(s),
    {
        self.direction = Some(direction);
        Ok(self)
    }
}

/// An editor with nothing set leaves an end as it is: mutation occurs only against what is set.
pub proof fn lemma_empty_editor_keeps_end(e: EndView)
    ensures
        modified_end(empty_end_builder(BuilderMode::Editor), e).0 == e,
        modified_end(empty_end_builder(BuilderMode::Editor), e).1 is Ok,
{
}

/// A builder cloned from an end creates that same end, in either mode.
pub proof fn lemma_clone_recreates_end(mode: BuilderMode, e: EndView)
    ensures
        created_end(cloned_end(mode, e)) == Ok::<EndView, Error>(e),
{
}

/// Editing an end with an editor cloned from it changes nothing.
pub proof fn lemma_cloned_editor_keeps_end(e: EndView)
    ensures
        modified_end(cloned_end(BuilderMode::Editor, e), e).0 == e,
        modified_end(cloned_end(BuilderMode::Editor, e), e).1 is Ok,
{
    crate::descriptor::lemma_cloned_editor_keeps_descriptor(e.descriptor);
}

} // verus!
