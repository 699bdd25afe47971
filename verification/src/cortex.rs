//! Cortex and Lobes
//! A Cortex represents the core behavioral interface of a Character as a whole. It receives stimulus and outputs
//! actions, passing stimulus between its lobes (event processing layers):
//! - Routine: Typical simulated behavior, local
//! - Intelligence: Human control via UI
//!
//! The Routine lobe is the most basic and is always present; the others exist only while the Character is downlinked
//! into.
pub mod awareness;
pub mod routine;
pub mod intelligence;
pub mod intelligent;

use vstd::prelude::*;
use crate::error::{Error, Result};
use crate::identity::UID;
use crate::modeling::{Builder, BuilderMode, Built, Class, ClassIdent, CodebaseClassID, Creation, Field, FieldValueType,
    Fields, Modification, OptionOp, option_view, option_op_view};
use crate::modeling::building::{Build, lemma_reports_extended_trans, lemma_reports_from_fresh};
use crate::modeling::fields_changed::{ChangeOp, FieldsChanged};
use crate::cortex::awareness::Awareness;
use crate::cortex::routine::{Habitual, RoutineLobe, RoutineLobeBuilder, RoutineLobeBuilderView, RoutineLobeField,
    RoutineLobeView, created_routine_lobe, modified_routine_lobe};
use crate::cortex::intelligence::{IntelligenceLobe, IntelligenceLobeBuilder, IntelligenceLobeBuilderView,
    IntelligenceLobeField, IntelligenceLobeView, Intelligent};

verus! {

/// The behavioral interface of a character: its routine lobe, and an intelligence lobe while it is downlinked.
#[derive(Debug)]
pub struct Cortex {
    routine_lobe: RoutineLobe,
    intelligence_lobe: Option<IntelligenceLobe>,
}

/// The plain contents of a cortex.
pub struct CortexView {
    pub routine_lobe: RoutineLobeView,
    pub intelligence_lobe: Option<IntelligenceLobeView>,
}

impl View for Cortex {
    type V = CortexView;

    closed spec fn view(&self) -> CortexView {
        CortexView { routine_lobe: self.routine_lobe@, intelligence_lobe: option_view(self.intelligence_lobe) }
    }
}

/// Composition trait for Cortex
pub trait Sensitive {
    spec fn spec_cortex(&self) -> CortexView;

    fn cortex(&self) -> (r: &Cortex)
        ensures
            r@ == self.spec_cortex(),
    ;
}

/// Composition trait for a productive lobe.
pub trait Productive {
}

/// Composition trait for a psuedo-intelligence lobe.
pub trait PsuedoIntelligent {
}

impl Sensitive for Cortex {
    open spec fn spec_cortex(&self) -> CortexView {
        self@
    }

    fn cortex(&self) -> (r: &Cortex) {
        self
    }
}

impl Habitual for Cortex {
    open spec fn spec_routine_lobe(&self) -> RoutineLobeView {
        self@.routine_lobe
    }

    fn routine_lobe(&self) -> (r: &RoutineLobe) {
        &self.routine_lobe
    }
}

impl Intelligent for Cortex {
    open spec fn spec_intelligence_lobe(&self) -> Option<IntelligenceLobeView> {
        self@.intelligence_lobe
    }

    fn intelligence_lobe(&self) -> (r: Option<&IntelligenceLobe>) {
        self.intelligence_lobe.as_ref()
    }
}

impl Built for Cortex {
    type BuilderType = CortexBuilder;
}

/// A cortex that a psuedo-intelligence controls through an interface.
#[derive(Debug)]
pub struct PsuedoIntelligentCortex {
    pub interface_id: UID,
    pub routine_id: UID,
    pub routine_awareness: Awareness,
}

/// The fields of a `Cortex`.
#[derive(Debug, Clone, Copy, PartialEq, Eq, Structural)]
pub enum CortexField {
    RoutineLobe,
    IntelligenceLobe,
}

impl CortexField {
    pub open spec fn spec_class_ident_const() -> ClassIdent {
        ClassIdent { class_id: CodebaseClassID::Cortex.spec_class_id(), classname: "Cortex" }
    }

    pub fn class_ident_const() -> (r: ClassIdent)
        ensures
            r == Self::spec_class_ident_const(),
    {
        ClassIdent::new(CodebaseClassID::Cortex.class_id(), "Cortex")
    }
}

impl Fields for CortexField {
    open spec fn spec_field(&self) -> Field {
        let ci = CortexField::spec_class_ident_const();
        match self {
            CortexField::RoutineLobe => Field {
                class_ident: ci,
                name: "routine_lobe",
                value_type: FieldValueType::Model(RoutineLobeField::spec_class_ident_const()),
            },
            CortexField::IntelligenceLobe => Field {
                class_ident: ci,
                name: "intelligence_lobe",
                value_type: FieldValueType::Model(IntelligenceLobeField::spec_class_ident_const()),
            },
        }
    }

    fn field(&self) -> (r: Field) {
        let ci = Self::class_ident_const();
        match self {
            Self::RoutineLobe => Field::new(ci, "routine_lobe", FieldValueType::Model(RoutineLobeField::class_ident_const())),
            Self::IntelligenceLobe => Field::new(ci, "intelligence_lobe",
                FieldValueType::Model(IntelligenceLobeField::class_ident_const())),
        }
    }
}

impl Class for CortexField {
    open spec fn spec_class_ident() -> ClassIdent {
        CortexField::spec_class_ident_const()
    }

    fn class_ident() -> (r: ClassIdent) {
        Self::class_ident_const()
    }
}

/// Creates and modifies a `Cortex`.
#[derive(Debug)]
pub struct CortexBuilder {
    builder_mode: BuilderMode,
    routine_lobe: Option<RoutineLobeBuilder>,
    intelligence_lobe: OptionOp<IntelligenceLobeBuilder>,
}

/// The plain contents of a cortex builder.
pub struct CortexBuilderView {
    pub builder_mode: BuilderMode,
    pub routine_lobe: Option<RoutineLobeBuilderView>,
    pub intelligence_lobe: OptionOp<IntelligenceLobeBuilderView>,
}

impl View for CortexBuilder {
    type V = CortexBuilderView;

    closed spec fn view(&self) -> CortexBuilderView {
        CortexBuilderView {
            builder_mode: self.builder_mode,
            routine_lobe: option_view(self.routine_lobe),
            intelligence_lobe: option_op_view(self.intelligence_lobe),
        }
    }
}

/// A cortex builder view with nothing set.
pub open spec fn empty_cortex_builder(mode: BuilderMode) -> CortexBuilderView {
    CortexBuilderView { builder_mode: mode, routine_lobe: None, intelligence_lobe: OptionOp::NoOp }
}

/// The intelligence lobe that an intelligence lobe builder creates.
pub open spec fn created_intelligence_lobe(b: IntelligenceLobeBuilderView) -> Result<IntelligenceLobeView> {
    match b.interface_uid {
        None => Err(Error::FieldNotSet { class: "IntelligenceLobe", field: "interface_uid" }),
        Some(u) => Ok(IntelligenceLobeView { interface_uid: u }),
    }
}

/// The cortex that a builder creates: the routine lobe is required; an intelligence lobe is made when one was set.
pub open spec fn created_cortex(b: CortexBuilderView) -> Result<CortexView> {
    match b.routine_lobe {
        None => Err(Error::FieldNotSet { class: "Cortex", field: "routine_lobe" }),
        Some(rb) => match created_routine_lobe(rb) {
            Err(e) => Err(e),
            Ok(routine_lobe) => match b.intelligence_lobe {
                OptionOp::Assign(ib) => match created_intelligence_lobe(ib) {
                    Err(e) => Err(e),
                    Ok(l) => Ok(CortexView { routine_lobe, intelligence_lobe: Some(l) }),
                },
                _ => Ok(CortexView { routine_lobe, intelligence_lobe: None }),
            },
        },
    }
}

/// What becomes of the routine lobe under an optional routine lobe builder: an editor edits it, a creator
/// replaces it.
pub open spec fn edited_routine_lobe(b: Option<RoutineLobeBuilderView>, l: RoutineLobeView) -> Result<RoutineLobeView> {
    match b {
        None => Ok(l),
        Some(rb) => if rb.builder_mode == BuilderMode::Editor {
            Ok(modified_routine_lobe(rb, l))
        } else {
            created_routine_lobe(rb)
        },
    }
}

/// What becomes of the optional intelligence lobe under its operation: set, edited (left as it is), or unset.
pub open spec fn edited_intelligence_lobe(op: OptionOp<IntelligenceLobeBuilderView>, l: Option<IntelligenceLobeView>)
    -> Result<Option<IntelligenceLobeView>>
{
    match op {
        OptionOp::NoOp => Ok(l),
        OptionOp::Assign(ib) => match created_intelligence_lobe(ib) {
            Err(e) => Err(e),
            Ok(n) => Ok(Some(n)),
        },
        OptionOp::Edit(_) => Ok(l),
        OptionOp::Unset => Ok(None),
    }
}

/// The cortex after a builder's changes, and the error that stopped them (the routine lobe is changed first).
pub open spec fn modified_cortex(b: CortexBuilderView, c: CortexView) -> (CortexView, Result<CortexBuilderView>) {
    match edited_routine_lobe(b.routine_lobe, c.routine_lobe) {
        Err(e) => (c, Err(e)),
        Ok(routine_lobe) => match edited_intelligence_lobe(b.intelligence_lobe, c.intelligence_lobe) {
            Err(e) => (CortexView { routine_lobe, ..c }, Err(e)),
            Ok(intelligence_lobe) => (CortexView { routine_lobe, intelligence_lobe }, Ok(b)),
        },
    }
}

/// The nested models reported by a cortex modification: the routine lobe's and intelligence lobe's, for editors.
pub open spec fn cortex_changes(b: CortexBuilderView) -> Seq<ClassIdent> {
    (if b.routine_lobe matches Some(rb) && rb.builder_mode == BuilderMode::Editor {
        seq![RoutineLobeField::spec_class_ident_const()]
    } else {
        Seq::empty()
    }) + (if b.intelligence_lobe is Edit {
        seq![IntelligenceLobeField::spec_class_ident_const()]
    } else {
        Seq::empty()
    })
}

impl Builder for CortexBuilder {
    type ModelType = Cortex;

    open spec fn spec_mode(&self) -> BuilderMode {
        self@.builder_mode
    }

    open spec fn spec_class_ident(&self) -> ClassIdent {
        CortexField::spec_class_ident_const()
    }

    open spec fn spec_has_constructors() -> bool {
        true
    }

    /// An intelligence lobe can only be set, not edited or unset, on creation.
    open spec fn spec_creatable(&self) -> bool {
        !(self@.intelligence_lobe is Edit) && !(self@.intelligence_lobe is Unset)
    }

    open spec fn spec_create(self) -> Result<(CortexBuilderView, CortexView)> {
        match created_cortex(self@) {
            Ok(c) => Ok((self@, c)),
            Err(e) => Err(e),
        }
    }

    /// An intelligence lobe can only be edited where there is one.
    open spec fn spec_modifiable(&self, existing: CortexView) -> bool {
        self@.intelligence_lobe is Edit ==> existing.intelligence_lobe is Some
    }

    open spec fn spec_modify(self, existing: CortexView) -> (CortexView, Result<CortexBuilderView>) {
        modified_cortex(self@, existing)
    }

    open spec fn spec_changed(self, existing: CortexView) -> Seq<ClassIdent> {
        cortex_changes(self@)
    }

    fn creator() -> (r: Self)
        ensures
            r@ == empty_cortex_builder(BuilderMode::Creator),
    {
        Self { builder_mode: BuilderMode::Creator, routine_lobe: None, intelligence_lobe: OptionOp::NoOp }
    }

    fn editor() -> (r: Self)
        ensures
            r@ == empty_cortex_builder(BuilderMode::Editor),
    {
        Self { builder_mode: BuilderMode::Editor, routine_lobe: None, intelligence_lobe: OptionOp::NoOp }
    }

    fn builder_mode(&self) -> (r: BuilderMode) {
        self.builder_mode
    }

    fn class_ident(&self) -> (r: ClassIdent) {
        CortexField::class_ident_const()
    }

    fn create(self) -> (r: Result<Creation<Self, Cortex>>) {
        let mut s = self;
        let op = match s.builder_mode {
            BuilderMode::Creator => ChangeOp::Create,
            BuilderMode::Editor => ChangeOp::Modify,
        };
        let mut fields_changed = FieldsChanged::new(CortexField::class_ident_const(), op);
        let routine_lobe = Build::create(&mut s.routine_lobe, &mut fields_changed, CortexField::RoutineLobe)?;
        let intelligence_lobe = Build::create_option(&mut s.intelligence_lobe, &mut fields_changed, CortexField::IntelligenceLobe)?;
        let cortex = Cortex { routine_lobe, intelligence_lobe };
        assert(s@ == self@);
        Ok(Creation::new(s, cortex))
    }

    fn modify(self, existing: &mut Cortex) -> (r: Result<Modification<Self>>) {
        let mut s = self;
        let op = match s.builder_mode {
            BuilderMode::Creator => ChangeOp::Create,
            BuilderMode::Editor => ChangeOp::Modify,
        };
        let mut fields_changed = FieldsChanged::new(CortexField::class_ident_const(), op);
        let ghost fresh = fields_changed;
        Build::modify(&mut s.routine_lobe, &mut existing.routine_lobe, &mut fields_changed, CortexField::RoutineLobe)?;
        let ghost middle = fields_changed;
        Build::modify_option(&mut s.intelligence_lobe, &mut existing.intelligence_lobe, &mut fields_changed,
            CortexField::IntelligenceLobe)?;
        proof {
            let x = Build::modify_reported(self.routine_lobe, old(existing)@.routine_lobe, CortexField::RoutineLobe.spec_field());
            let y = Build::modify_option_reported(self.intelligence_lobe, option_view(old(existing).intelligence_lobe),
                CortexField::IntelligenceLobe.spec_field());
            lemma_reports_extended_trans(fresh, middle, fields_changed, x, y);
            assert(x + y == cortex_changes(self@));
            lemma_reports_from_fresh(fresh, fields_changed, x + y);
        }
        Ok(Modification::new(s, fields_changed))
    }
}

/// A model builder that holds a cortex builder.
pub trait BuildableCortex: Builder {
    spec fn spec_get_cortex(&self) -> Option<CortexBuilderView>;

    /// `self` with the given cortex builder.
    spec fn spec_with_cortex(self, cortex: CortexBuilder) -> Self;

    fn cortex(&mut self, cortex: CortexBuilder) -> (r: Result<&mut Self>)
        ensures
            r matches Ok(s) && *s == old(self).spec_with_cortex(cortex) && *final(self) == *final(s),
            old(self).spec_with_cortex(cortex).spec_get_cortex() == Some(cortex@),
    ;

    /// The cortex builder, made (in this builder's mode) when there is none.
    fn cortex_builder(&mut self) -> (r: &mut CortexBuilder)
        ensures
            r@ == match old(self).spec_get_cortex() {
                Some(c) => c,
                None => empty_cortex_builder(old(self).spec_mode()),
            },
            *final(self) == old(self).spec_with_cortex(*final(r)),
            final(self).spec_get_cortex() == Some(final(r)@),
    ;

    fn get_cortex_builder(&self) -> (r: Option<&CortexBuilder>)
        ensures
            match r {
                Some(c) => self.spec_get_cortex() == Some(c@),
                None => self.spec_get_cortex() is None,
            },
    ;

    fn routine_lobe(&mut self, routine_lobe: RoutineLobeBuilder) -> (r: Result<&mut Self>)
        ensures
            r matches Ok(s) && s.spec_get_cortex() == Some(CortexBuilderView {
                routine_lobe: Some(routine_lobe@),
                ..cortex_or_empty(old(self).spec_get_cortex(), old(self).spec_mode())
            }) && *final(self) == *final(s),
    {
        let cortex = self.cortex_builder();
        cortex.routine_lobe = Some(routine_lobe);
        Ok(self)
    }

    fn set_intelligence_lobe(&mut self, intelligence_lobe: IntelligenceLobeBuilder) -> (r: Result<&mut Self>)
        ensures
            r matches Ok(s) && s.spec_get_cortex() == Some(CortexBuilderView {
                intelligence_lobe: OptionOp::Assign(intelligence_lobe@),
                ..cortex_or_empty(old(self).spec_get_cortex(), old(self).spec_mode())
            }) && *final(self) == *final(s),
    {
        let cortex = self.cortex_builder();
        cortex.intelligence_lobe = OptionOp::Assign(intelligence_lobe);
        Ok(self)
    }

    fn edit_intelligence_lob(&mut self, intelligence_lobe: IntelligenceLobeBuilder) -> (r: Result<&mut Self>)
        ensures
            r matches Ok(s) && s.spec_get_cortex() == Some(CortexBuilderView {
                intelligence_lobe: OptionOp::Edit(intelligence_lobe@),
                ..cortex_or_empty(old(self).spec_get_cortex(), old(self).spec_mode())
            }) && *final(self) == *final(s),
    {
        let cortex = self.cortex_builder();
        cortex.intelligence_lobe = OptionOp::Edit(intelligence_lobe);
        Ok(self)
    }

    fn unset_intelligence_lobe(&mut self) -> (r: Result<&mut Self>)
        ensures
            r matches Ok(s) && s.spec_get_cortex() == Some(CortexBuilderView {
                intelligence_lobe: OptionOp::Unset,
                ..cortex_or_empty(old(self).spec_get_cortex(), old(self).spec_mode())
            }) && *final(self) == *final(s),
    {
        let cortex = self.cortex_builder();
        cortex.intelligence_lobe = OptionOp::Unset;
        Ok(self)
    }
}

/// The cortex builder that a model builder holds, or an empty one in the given mode.
pub open spec fn cortex_or_empty(c: Option<CortexBuilderView>, mode: BuilderMode) -> CortexBuilderView {
    match c {
        Some(c) => c,
        None => empty_cortex_builder(mode),
    }
}

impl BuildableCortex for CortexBuilder {
    open spec fn spec_get_cortex(&self) -> Option<CortexBuilderView> {
        Some(self@)
    }

    open spec fn spec_with_cortex(self, cortex: CortexBuilder) -> Self {
        cortex
    }

    fn cortex(&mut self, cortex: CortexBuilder) -> (r: Result<&mut Self>) {
        *self = cortex;
        Ok(self)
    }

    fn cortex_builder(&mut self) -> (r: &mut CortexBuilder) {
        proof {
            assert(forall|c: CortexBuilder| #[trigger] old(self).spec_with_cortex(c) == c);
        }
        self
    }

    fn get_cortex_builder(&self) -> (r: Option<&CortexBuilder>) {
        Some(self)
    }
}

/// An editor with nothing set leaves a cortex as it is: mutation occurs only against what is set.
pub proof fn lemma_empty_editor_keeps_cortex(c: CortexView)
    ensures
        modified_cortex(empty_cortex_builder(BuilderMode::Editor), c).0 == c,
        modified_cortex(empty_cortex_builder(BuilderMode::Editor), c).1 is Ok,
{
}

} // verus!
