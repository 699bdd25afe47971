use vstd::prelude::*;
use crate::error::{Error, Result};
use crate::identity::UID;
use crate::modeling::{Builder, BuilderMode, Built, Class, ClassIdent, CodebaseClassID, Creation, Field, FieldValueType,
    Fields, Modification};
use crate::modeling::building::{Build, lemma_reports_extended_refl, lemma_reports_from_fresh};
use crate::modeling::fields_changed::{ChangeOp, FieldsChanged};
use crate::interface::InterfaceField;

verus! {

/// The lobe of a cortex through which a player, at an interface, controls a character.
#[derive(Debug)]
pub struct IntelligenceLobe {
    interface_uid: UID,
}

/// The plain contents of an intelligence lobe.
pub struct IntelligenceLobeView {
    pub interface_uid: UID,
}

impl View for IntelligenceLobe {
    type V = IntelligenceLobeView;

    closed spec fn view(&self) -> IntelligenceLobeView {
        IntelligenceLobeView { interface_uid: self.interface_uid }
    }
}

/// Composition trait for IntelligenceLobe
pub trait Intelligent {
    spec fn spec_intelligence_lobe(&self) -> Option<IntelligenceLobeView>;

    fn intelligence_lobe(&self) -> (r: Option<&IntelligenceLobe>)
        ensures
            match r {
                Some(l) => self.spec_intelligence_lobe() == Some(l@),
                None => self.spec_intelligence_lobe() is None,
            },
    ;

    /// The interface of the intelligence lobe, if there is one.
    fn intelligent_interface_uid(&self) -> (r: Option<UID>)
        ensures
            r == match self.spec_intelligence_lobe() {
                Some(l) => Some(l.interface_uid),
                None => None,
            },
    {
        match self.intelligence_lobe() {
            Some(lobe) => Some(lobe.interface_uid()),
            None => None,
        }
    }

    fn is_intelligent(&self) -> (r: bool)
        ensures
            r == self.spec_intelligence_lobe() is Some,
    {
        self.intelligence_lobe().is_some()
    }
}

impl Intelligent for IntelligenceLobe {
    open spec fn spec_intelligence_lobe(&self) -> Option<IntelligenceLobeView> {
        Some(self@)
    }

    fn intelligence_lobe(&self) -> (r: Option<&IntelligenceLobe>) {
        Some(self)
    }
}

impl Built for IntelligenceLobe {
    type BuilderType = IntelligenceLobeBuilder;
}

impl IntelligenceLobe {
    pub fn interface_uid(&self) -> (r: UID)
        ensures
            r == self@.interface_uid,
    {
        self.interface_uid
    }

    /// The interface of this lobe (another name for `interface_uid`).
    pub fn interface_id(&self) -> (r: UID)
        ensures
            r == self@.interface_uid,
    {
        self.interface_uid
    }
}

/// The fields of an `IntelligenceLobe`.
#[derive(Debug, Clone, Copy, PartialEq, Eq, Structural)]
pub enum IntelligenceLobeField {
    InterfaceUID,
}

impl IntelligenceLobeField {
    pub open spec fn spec_class_ident_const() -> ClassIdent {
        ClassIdent { class_id: CodebaseClassID::IntelligenceLobe.spec_class_id(), classname: "IntelligenceLobe" }
    }

    pub fn class_ident_const() -> (r: ClassIdent)
        ensures
            r == Self::spec_class_ident_const(),
    {
        ClassIdent::new(CodebaseClassID::IntelligenceLobe.class_id(), "IntelligenceLobe")
    }
}

impl Fields for IntelligenceLobeField {
    open spec fn spec_field(&self) -> Field {
        Field {
            class_ident: IntelligenceLobeField::spec_class_ident_const(),
            name: "interface_uid",
            value_type: FieldValueType::UID(InterfaceField::spec_class_ident_const()),
        }
    }

    fn field(&self) -> (r: Field) {
        Field::new(Self::class_ident_const(), "interface_uid", FieldValueType::UID(InterfaceField::class_ident_const()))
    }
}

impl Class for IntelligenceLobeField {
    open spec fn spec_class_ident() -> ClassIdent {
        IntelligenceLobeField::spec_class_ident_const()
    }

    fn class_ident() -> (r: ClassIdent) {
        Self::class_ident_const()
    }
}

/// Creates and modifies an `IntelligenceLobe`.
#[derive(Debug)]
pub struct IntelligenceLobeBuilder {
    builder_mode: BuilderMode,
    interface_uid: Option<UID>,
}

/// The plain contents of an intelligence lobe builder.
pub struct IntelligenceLobeBuilderView {
    pub builder_mode: BuilderMode,
    pub interface_uid: Option<UID>,
}

impl View for IntelligenceLobeBuilder {
    type V = IntelligenceLobeBuilderView;

    closed spec fn view(&self) -> IntelligenceLobeBuilderView {
        IntelligenceLobeBuilderView { builder_mode: self.builder_mode, interface_uid: self.interface_uid }
    }
}

impl Builder for IntelligenceLobeBuilder {
    type ModelType = IntelligenceLobe;

    open spec fn spec_mode(&self) -> BuilderMode {
        self@.builder_mode
    }

    open spec fn spec_class_ident(&self) -> ClassIdent {
        IntelligenceLobeField::spec_class_ident_const()
    }

    open spec fn spec_has_constructors() -> bool {
        true
    }

    open spec fn spec_creatable(&self) -> bool {
        true
    }

    open spec fn spec_create(self) -> Result<(IntelligenceLobeBuilderView, IntelligenceLobeView)> {
        match self@.interface_uid {
            None => Err(Error::FieldNotSet { class: "IntelligenceLobe", field: "interface_uid" }),
            Some(u) => Ok((self@, IntelligenceLobeView { interface_uid: u })),
        }
    }

    open spec fn spec_modifiable(&self, existing: IntelligenceLobeView) -> bool {
        true
    }

    /// The interface UID is assigned to a copy of the existing one, so the lobe itself is left as it is.
    open spec fn spec_modify(self, existing: IntelligenceLobeView) -> (IntelligenceLobeView, Result<IntelligenceLobeBuilderView>) {
        (existing, Ok(self@))
    }

    open spec fn spec_changed(self, existing: IntelligenceLobeView) -> Seq<ClassIdent> {
        Seq::empty()
    }

    fn creator() -> (r: Self)
        ensures
            r@ == (IntelligenceLobeBuilderView { builder_mode: BuilderMode::Creator, interface_uid: None }),
    {
        Self { builder_mode: BuilderMode::Creator, interface_uid: None }
    }

    fn editor() -> (r: Self)
        ensures
            r@ == (IntelligenceLobeBuilderView { builder_mode: BuilderMode::Editor, interface_uid: None }),
    {
        Self { builder_mode: BuilderMode::Editor, interface_uid: None }
    }

    fn builder_mode(&self) -> (r: BuilderMode) {
        self.builder_mode
    }

    fn class_ident(&self) -> (r: ClassIdent) {
        IntelligenceLobeField::class_ident_const()
    }

    fn create(self) -> (r: Result<Creation<Self, IntelligenceLobe>>) {
        let mut s = self;
        let op = match s.builder_mode {
            BuilderMode::Creator => ChangeOp::Create,
            BuilderMode::Editor => ChangeOp::Modify,
        };
        let mut fields_changed = FieldsChanged::new(IntelligenceLobeField::class_ident_const(), op);
        let interface_uid = Build::create_uid(&mut s.interface_uid, &mut fields_changed, IntelligenceLobeField::InterfaceUID)?;
        let intelligence_lobe = IntelligenceLobe { interface_uid };
        Ok(Creation::new(s, intelligence_lobe))
    }

    fn modify(self, existing: &mut IntelligenceLobe) -> (r: Result<Modification<Self>>) {
        let op = match self.builder_mode {
            BuilderMode::Creator => ChangeOp::Create,
            BuilderMode::Editor => ChangeOp::Modify,
        };
        let mut fields_changed = FieldsChanged::new(IntelligenceLobeField::class_ident_const(), op);
        let ghost fresh = fields_changed;
        let mut interface_uid = existing.interface_uid();
        Build::modify_uid(&self.interface_uid, &mut interface_uid, &mut fields_changed, IntelligenceLobeField::InterfaceUID)?;
        proof {
            lemma_reports_extended_refl(fresh);
            lemma_reports_from_fresh(fresh, fields_changed, Seq::empty());
        }
        Ok(Modification::new(self, fields_changed))
    }
}

impl IntelligenceLobeBuilder {
    pub fn interface_uid(&mut self, interface_uid: UID) -> (r: Result<&mut Self>)
        ensures
            r matches Ok(s) && s@ == (IntelligenceLobeBuilderView { interface_uid: Some(interface_uid), ..old(self)@ })
                && *final(self) == *final(s),
    {
        self.interface_uid = Some(interface_uid);
        Ok(self)
    }
}

} // verus!
