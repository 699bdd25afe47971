use vstd::prelude::*;
use crate::error::{Error, Result};
use crate::identity::UID;
use crate::modeling::{Builder, BuilderMode, Built, Class, ClassIdent, CodebaseClassID, Creation, Field, FieldValueType,
    Fields, Modification};
use crate::modeling::building::{Build, lemma_reports_extended_refl, lemma_reports_from_fresh};
use crate::modeling::fields_changed::{ChangeOp, FieldsChanged};
use crate::cortex::awareness::Awareness;

verus! {

/// The omnipresent lobe of a cortex: the routine that drives a character and its awareness.
#[derive(Debug)]
pub struct RoutineLobe {
    routine_uid: UID,
    routine_awareness: Awareness,
}

/// The plain contents of a routine lobe.
pub struct RoutineLobeView {
    pub routine_uid: UID,
    pub routine_awareness: Awareness,
}

impl View for RoutineLobe {
    type V = RoutineLobeView;

    closed spec fn view(&self) -> RoutineLobeView {
        RoutineLobeView { routine_uid: self.routine_uid, routine_awareness: self.routine_awareness }
    }
}

/// Access to the routine that drives a character.
pub trait Sensory {
    spec fn spec_routine_uid(&self) -> UID;

    spec fn spec_routine_awareness(&self) -> Awareness;

    fn routine_uid(&self) -> (r: UID)
        ensures
            r == self.spec_routine_uid(),
    ;

    fn routine_awareness(&self) -> (r: Awareness)
        ensures
            r == self.spec_routine_awareness(),
    ;
}

/// Composition trait for RoutineLobe
pub trait Habitual {
    spec fn spec_routine_lobe(&self) -> RoutineLobeView;

    fn routine_lobe(&self) -> (r: &RoutineLobe)
        ensures
            r@ == self.spec_routine_lobe(),
    ;
}

impl Sensory for RoutineLobe {
    open spec fn spec_routine_uid(&self) -> UID {
        self@.routine_uid
    }

    open spec fn spec_routine_awareness(&self) -> Awareness {
        self@.routine_awareness
    }

    fn routine_uid(&self) -> (r: UID) {
        self.routine_uid
    }

    fn routine_awareness(&self) -> (r: Awareness) {
        self.routine_awareness
    }
}

impl Built for RoutineLobe {
    type BuilderType = RoutineLobeBuilder;
}

impl RoutineLobe {
    pub fn routine_uid(&mut self, routine_id: UID) -> (r: Result<()>)
        ensures
            r is Ok,
            final(self)@ == (RoutineLobeView { routine_uid: routine_id, ..old(self)@ }),
    {
        self.routine_uid = routine_id;
        Ok(())
    }

    pub fn routine_awareness(&mut self, routine_awarness: Awareness) -> (r: Result<()>)
        ensures
            r is Ok,
            final(self)@ == (RoutineLobeView { routine_awareness: routine_awarness, ..old(self)@ }),
    {
        self.routine_awareness = routine_awarness;
        Ok(())
    }
}

/// The fields of a `RoutineLobe`.
#[derive(Debug, Clone, Copy, PartialEq, Eq, Structural)]
pub enum RoutineLobeField {
    RoutineUID,
    RoutineAwareness,
}

impl RoutineLobeField {
    pub open spec fn spec_class_ident_const() -> ClassIdent {
        ClassIdent { class_id: CodebaseClassID::RoutineLobe.spec_class_id(), classname: "RoutineCortex" }
    }

    pub fn class_ident_const() -> (r: ClassIdent)
        ensures
            r == Self::spec_class_ident_const(),
    {
        ClassIdent::new(CodebaseClassID::RoutineLobe.class_id(), "RoutineCortex")
    }
}

impl Fields for RoutineLobeField {
    open spec fn spec_field(&self) -> Field {
        let ci = RoutineLobeField::spec_class_ident_const();
        match self {
            RoutineLobeField::RoutineUID => Field { class_ident: ci, name: "routine_id", value_type: FieldValueType::UID(ci) },
            RoutineLobeField::RoutineAwareness => Field {
                class_ident: ci,
                name: "routine_awareness",
                value_type: FieldValueType::Enum(Awareness::spec_class_ident_const()),
            },
        }
    }

    fn field(&self) -> (r: Field) {
        let ci = Self::class_ident_const();
        match self {
            Self::RoutineUID => Field::new(ci, "routine_id", FieldValueType::UID(ci)),
            Self::RoutineAwareness => Field::new(ci, "routine_awareness", FieldValueType::Enum(Awareness::class_ident_const())),
        }
    }
}

impl Class for RoutineLobeField {
    open spec fn spec_class_ident() -> ClassIdent {
        RoutineLobeField::spec_class_ident_const()
    }

    fn class_ident() -> (r: ClassIdent) {
        Self::class_ident_const()
    }
}

/// Creates and modifies a `RoutineLobe`.
#[derive(Debug)]
pub struct RoutineLobeBuilder {
    builder_mode: BuilderMode,
    routine_uid: Option<UID>,
    routine_awareness: Option<Awareness>,
}

/// The plain contents of a routine lobe builder.
pub struct RoutineLobeBuilderView {
    pub builder_mode: BuilderMode,
    pub routine_uid: Option<UID>,
    pub routine_awareness: Option<Awareness>,
}

impl View for RoutineLobeBuilder {
    type V = RoutineLobeBuilderView;

    closed spec fn view(&self) -> RoutineLobeBuilderView {
        RoutineLobeBuilderView {
            builder_mode: self.builder_mode,
            routine_uid: self.routine_uid,
            routine_awareness: self.routine_awareness,
        }
    }
}

/// A routine lobe builder view with nothing set.
pub open spec fn empty_routine_lobe_builder(mode: BuilderMode) -> RoutineLobeBuilderView {
    RoutineLobeBuilderView { builder_mode: mode, routine_uid: None, routine_awareness: None }
}

/// The routine lobe that a builder creates: both fields are required.
pub open spec fn created_routine_lobe(b: RoutineLobeBuilderView) -> Result<RoutineLobeView> {
    match b.routine_uid {
        None => Err(Error::FieldNotSet { class: "RoutineCortex", field: "routine_id" }),
        Some(routine_uid) => match b.routine_awareness {
            None => Err(Error::FieldNotSet { class: "RoutineCortex", field: "routine_awareness" }),
            Some(routine_awareness) => Ok(RoutineLobeView { routine_uid, routine_awareness }),
        },
    }
}

/// The routine lobe after a builder's changes: each field that was set is replaced.
pub open spec fn modified_routine_lobe(b: RoutineLobeBuilderView, l: RoutineLobeView) -> RoutineLobeView {
    RoutineLobeView {
        routine_uid: match b.routine_uid {
            Some(u) => u,
            None => l.routine_uid,
        },
        routine_awareness: match b.routine_awareness {
            Some(a) => a,
            None => l.routine_awareness,
        },
    }
}

impl Builder for RoutineLobeBuilder {
    type ModelType = RoutineLobe;

    open spec fn spec_mode(&self) -> BuilderMode {
        self@.builder_mode
    }

    open spec fn spec_class_ident(&self) -> ClassIdent {
        RoutineLobeField::spec_class_ident_const()
    }

    open spec fn spec_has_constructors() -> bool {
        true
    }

    open spec fn spec_creatable(&self) -> bool {
        true
    }

    open spec fn spec_create(self) -> Result<(RoutineLobeBuilderView, RoutineLobeView)> {
        match created_routine_lobe(self@) {
            Ok(l) => Ok((self@, l)),
            Err(e) => Err(e),
        }
    }

    open spec fn spec_modifiable(&self, existing: RoutineLobeView) -> bool {
        true
    }

    open spec fn spec_modify(self, existing: RoutineLobeView) -> (RoutineLobeView, Result<RoutineLobeBuilderView>) {
        (modified_routine_lobe(self@, existing), Ok(self@))
    }

    open spec fn spec_changed(self, existing: RoutineLobeView) -> Seq<ClassIdent> {
        Seq::empty()
    }

    fn creator() -> (r: Self)
        ensures
            r@ == empty_routine_lobe_builder(BuilderMode::Creator),
    {
        Self { builder_mode: BuilderMode::Creator, routine_uid: None, routine_awareness: None }
    }

    fn editor() -> (r: Self)
        ensures
            r@ == empty_routine_lobe_builder(BuilderMode::Editor),
    {
        Self { builder_mode: BuilderMode::Editor, routine_uid: None, routine_awareness: None }
    }

    fn builder_mode(&self) -> (r: BuilderMode) {
        self.builder_mode
    }

    fn class_ident(&self) -> (r: ClassIdent) {
        RoutineLobeField::class_ident_const()
    }

    fn create(self) -> (r: Result<Creation<Self, RoutineLobe>>) {
        let op = match self.builder_mode {
            BuilderMode::Creator => ChangeOp::Create,
            BuilderMode::Editor => ChangeOp::Modify,
        };
        let mut fields_changed = FieldsChanged::new(RoutineLobeField::class_ident_const(), op);
        let routine_uid = Build::create_value(&self.routine_uid, &mut fields_changed, RoutineLobeField::RoutineUID)?;
        let routine_awareness = Build::create_value(&self.routine_awareness, &mut fields_changed,
            RoutineLobeField::RoutineAwareness)?;
        let routine_lobe = RoutineLobe { routine_uid, routine_awareness };
        Ok(Creation::new(self, routine_lobe))
    }

    fn modify(self, existing: &mut RoutineLobe) -> (r: Result<Modification<Self>>) {
        let op = match self.builder_mode {
            BuilderMode::Creator => ChangeOp::Create,
            BuilderMode::Editor => ChangeOp::Modify,
        };
        let mut fields_changed = FieldsChanged::new(RoutineLobeField::class_ident_const(), op);
        let ghost fresh = fields_changed;
        Build::modify_value(&self.routine_uid, &mut existing.routine_uid, &mut fields_changed, RoutineLobeField::RoutineUID)?;
        Build::modify_value(&self.routine_awareness, &mut existing.routine_awareness, &mut fields_changed,
            RoutineLobeField::RoutineAwareness)?;
        proof {
            lemma_reports_extended_refl(fresh);
            lemma_reports_from_fresh(fresh, fields_changed, Seq::empty());
        }
        Ok(Modification::new(self, fields_changed))
    }
}

impl RoutineLobeBuilder {
    pub fn routine_uid(&mut self, routine_id: UID) -> (r: Result<()>)
        ensures
            r is Ok,
            final(self)@ == (RoutineLobeBuilderView { routine_uid: Some(routine_id), ..old(self)@ }),
    {
        self.routine_uid = Some(routine_id);
        Ok(())
    }

    pub fn routine_awareness(&mut self, awareness: Awareness) -> (r: Result<()>)
        ensures
            r is Ok,
            final(self)@ == (RoutineLobeBuilderView { routine_awareness: Some(awareness), ..old(self)@ }),
    {
        self.routine_awareness = Some(awareness);
        Ok(())
    }
}

/// An editor with nothing set leaves a routine lobe as it is: mutation occurs only against what is set.
pub proof fn lemma_empty_editor_keeps_routine_lobe(l: RoutineLobeView)
    ensures
        modified_routine_lobe(empty_routine_lobe_builder(BuilderMode::Editor), l) == l,
{
}

} // verus!
