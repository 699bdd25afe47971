use vstd::prelude::*;
use crate::error::Result;
use crate::identity::UID;
use crate::modeling::{Builder, BuilderMode, Class, ClassIdent, CodebaseClassID, Creation, Field, FieldValueType, Fields,
    Modification};
use crate::cortex::awareness::Awareness;
use crate::cortex::routine::{RoutineLobeField, Sensory};
use crate::interface::InterfaceField;

verus! {

/// A cortex that is controlled through an interface, with the routine that it overrides.
#[derive(Debug)]
pub struct IntelligentCortex {
    interface_uid: UID,
    routine_uid: UID,
    routine_awareness: Awareness,
}

/// The plain contents of an intelligent cortex.
pub struct IntelligentCortexView {
    pub interface_uid: UID,
    pub routine_uid: UID,
    pub routine_awareness: Awareness,
}

impl View for IntelligentCortex {
    type V = IntelligentCortexView;

    closed spec fn view(&self) -> IntelligentCortexView {
        IntelligentCortexView {
            interface_uid: self.interface_uid,
            routine_uid: self.routine_uid,
            routine_awareness: self.routine_awareness,
        }
    }
}

impl Sensory for IntelligentCortex {
    open spec fn spec_routine_uid(&self) -> UID {
        self@.routine_uid
    }

    open spec fn spec_routine_awareness(&self) -> Awareness {
        self@.routine_awareness
    }

    fn routine_uid(&self) -> (r: UID) {
        self.routine_uid
    }

    fn routine_awareness(&self) -> (r: Awareness) {
        self.routine_awareness
    }
}

impl IntelligentCortex {
    pub fn interface_id(&self) -> (r: UID)
        ensures
            r == self@.interface_uid,
    {
        self.interface_uid
    }

    pub fn routine_id(&mut self, routine_id: UID) -> (r: Result<()>)
        ensures
            r is Ok,
            final(self)@ == (IntelligentCortexView { routine_uid: routine_id, ..old(self)@ }),
    {
        self.routine_uid = routine_id;
        Ok(())
    }

    pub fn routine_awareness(&mut self, routine_awarness: Awareness) -> (r: Result<()>)
        ensures
            r is Ok,
            final(self)@ == (IntelligentCortexView { routine_awareness: routine_awarness, ..old(self)@ }),
    {
        self.routine_awareness = routine_awarness;
        Ok(())
    }
}

/// The fields of an `IntelligentCortex`.
#[derive(Debug, Clone, Copy, PartialEq, Eq, Structural)]
pub enum IntelligentCortexField {
    InterfaceID,
    RoutineID,
    RoutineAwareness,
}

impl IntelligentCortexField {
    pub open spec fn spec_class_ident_const() -> ClassIdent {
        ClassIdent { class_id: CodebaseClassID::IntelligentCortex.spec_class_id(), classname: "IntelligentCortex" }
    }

    pub fn class_ident_const() -> (r: ClassIdent)
        ensures
            r == Self::spec_class_ident_const(),
    {
        ClassIdent::new(CodebaseClassID::IntelligentCortex.class_id(), "IntelligentCortex")
    }

    pub open spec fn spec_interface_uid_field() -> Field {
        Field {
            class_ident: IntelligentCortexField::spec_class_ident_const(),
            name: "interface_uid",
            value_type: FieldValueType::UID(InterfaceField::spec_class_ident_const()),
        }
    }

    /// The schema entry of the interface UID; no variant maps to it.
    pub fn interface_uid_field() -> (r: Field)
        ensures
            r == Self::spec_interface_uid_field(),
    {
        Field::new(Self::class_ident_const(), "interface_uid", FieldValueType::UID(InterfaceField::class_ident_const()))
    }
}

impl Fields for IntelligentCortexField {
    /// Both `InterfaceID` and `RoutineID` map to the routine UID's field.
    open spec fn spec_field(&self) -> Field {
        let ci = IntelligentCortexField::spec_class_ident_const();
        match self {
            IntelligentCortexField::RoutineAwareness => Field {
                class_ident: ci,
                name: "routine_awareness",
                value_type: FieldValueType::Enum(Awareness::spec_class_ident_const()),
            },
            _ => Field {
                class_ident: ci,
                name: "routine_uid",
                value_type: FieldValueType::UID(RoutineLobeField::spec_class_ident_const()),
            },
        }
    }

    fn field(&self) -> (r: Field) {
        let ci = Self::class_ident_const();
        match self {
            Self::RoutineAwareness => Field::new(ci, "routine_awareness", FieldValueType::Enum(Awareness::class_ident_const())),
            _ => Field::new(ci, "routine_uid", FieldValueType::UID(RoutineLobeField::class_ident_const())),
        }
    }
}

impl Class for IntelligentCortexField {
    open spec fn spec_class_ident() -> ClassIdent {
        IntelligentCortexField::spec_class_ident_const()
    }

    fn class_ident() -> (r: ClassIdent) {
        Self::class_ident_const()
    }
}

/// The builder of an `IntelligentCortex`: it holds the fields, but cannot yet create or modify one.
#[derive(Debug)]
pub struct IntelligentCortexBuilder {
    builder_mode: BuilderMode,
    interface_uid: Option<UID>,
    routine_uid: Option<UID>,
    routine_awareness: Option<Awareness>,
}

/// The plain contents of an intelligent cortex builder.
pub struct IntelligentCortexBuilderView {
    pub builder_mode: BuilderMode,
    pub interface_uid: Option<UID>,
    pub routine_uid: Option<UID>,
    pub routine_awareness: Option<Awareness>,
}

impl View for IntelligentCortexBuilder {
    type V = IntelligentCortexBuilderView;

    closed spec fn view(&self) -> IntelligentCortexBuilderView {
        IntelligentCortexBuilderView {
            builder_mode: self.builder_mode,
            interface_uid: self.interface_uid,
            routine_uid: self.routine_uid,
            routine_awareness: self.routine_awareness,
        }
    }
}

impl Builder for IntelligentCortexBuilder {
    type ModelType = IntelligentCortex;

    open spec fn spec_mode(&self) -> BuilderMode {
        self@.builder_mode
    }

    open spec fn spec_class_ident(&self) -> ClassIdent {
        IntelligentCortexField::spec_class_ident_const()
    }

    open spec fn spec_has_constructors() -> bool {
        true
    }

    /// Creation is not implemented: it never runs.
    open spec fn spec_creatable(&self) -> bool {
        false
    }

    open spec fn spec_create(self) -> Result<(IntelligentCortexBuilderView, IntelligentCortexView)> {
        Err(crate::error::Error::IdentityNotGenerated)
    }

    /// Modification is not implemented: it never runs.
    open spec fn spec_modifiable(&self, existing: IntelligentCortexView) -> bool {
        false
    }

    open spec fn spec_modify(self, existing: IntelligentCortexView) -> (IntelligentCortexView, Result<IntelligentCortexBuilderView>) {
        (existing, Ok(self@))
    }

    open spec fn spec_changed(self, existing: IntelligentCortexView) -> Seq<ClassIdent> {
        Seq::empty()
    }

    fn creator() -> (r: Self)
        ensures
            r@ == (IntelligentCortexBuilderView {
                builder_mode: BuilderMode::Creator,
                interface_uid: None,
                routine_uid: None,
                routine_awareness: None,
            }),
    {
        Self { builder_mode: BuilderMode::Creator, interface_uid: None, routine_uid: None, routine_awareness: None }
    }

    fn editor() -> (r: Self)
        ensures
            r@ == (IntelligentCortexBuilderView {
                builder_mode: BuilderMode::Editor,
                interface_uid: None,
                routine_uid: None,
                routine_awareness: None,
            }),
    {
        Self { builder_mode: BuilderMode::Editor, interface_uid: None, routine_uid: None, routine_awareness: None }
    }

    fn builder_mode(&self) -> (r: BuilderMode) {
        self.builder_mode
    }

    fn class_ident(&self) -> (r: ClassIdent) {
        IntelligentCortexField::class_ident_const()
    }

    fn create(self) -> (r: Result<Creation<Self, IntelligentCortex>>) {
        vstd::pervasive::unreached()
    }

    fn modify(self, existing: &mut IntelligentCortex) -> (r: Result<Modification<Self>>) {
        vstd::pervasive::unreached()
    }
}

} // verus!
