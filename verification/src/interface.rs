use vstd::prelude::*;
use crate::error::{Error, Result};
use crate::identity::{UID, Identifiable, Keyed, MaybeIdentifiable};
use crate::modeling::{Builder, BuilderMode, BuildableUID, Built, Class, ClassIdent, CodebaseClassID, Creation, Field,
    FieldValueType, Fields, Modification, OptionOp, uid_or_not_generated};
use crate::modeling::building::{Build, lemma_reports_extended_refl, lemma_reports_from_fresh};
use crate::modeling::fields_changed::{ChangeOp, FieldsChanged};

verus! {

/// A terminal through which a player can be downlinked into a character.
#[derive(Debug, PartialEq, Eq, Structural)]
pub struct Interface {
    uid: UID,
    downlink_uid: Option<UID>,
}

/// The plain contents of an interface.
pub struct InterfaceView {
    pub uid: UID,
    pub downlink_uid: Option<UID>,
}

impl View for Interface {
    type V = InterfaceView;

    closed spec fn view(&self) -> InterfaceView {
        InterfaceView { uid: self.uid, downlink_uid: self.downlink_uid }
    }
}

impl Keyed for Interface {
    open spec fn spec_key(&self) -> Option<Seq<char>> {
        None
    }

    fn key(&self) -> (r: Option<&str>) {
        None
    }
}

impl Identifiable for Interface {
    open spec fn spec_uid_of(v: InterfaceView) -> UID {
        v.uid
    }

    fn uid(&self) -> (r: UID) {
        self.uid
    }
}

impl Built for Interface {
    type BuilderType = InterfaceBuilder;
}

impl Interface {
    /// The character that this interface is downlinked into, if any.
    pub fn downlink_uid(&self) -> (r: Option<UID>)
        ensures
            r == self@.downlink_uid,
    {
        self.downlink_uid
    }

    /// Whether this interface is downlinked into a character.
    pub fn linked(&self) -> (r: bool)
        ensures
            r == self@.downlink_uid is Some,
    {
        self.downlink_uid.is_some()
    }
}

/// The fields of an `Interface`.
#[derive(Debug, Clone, Copy, PartialEq, Eq, Structural)]
pub enum InterfaceField {
    UID,
    DownlinkUID,
}

impl InterfaceField {
    pub open spec fn spec_class_ident_const() -> ClassIdent {
        ClassIdent { class_id: CodebaseClassID::Interface.spec_class_id(), classname: "Interface" }
    }

    pub fn class_ident_const() -> (r: ClassIdent)
        ensures
            r == Self::spec_class_ident_const(),
    {
        ClassIdent::new(CodebaseClassID::Interface.class_id(), "Interface")
    }
}

/// The class of the things that an interface is downlinked into.
pub open spec fn downlink_class_ident() -> ClassIdent {
    ClassIdent { class_id: CodebaseClassID::Thing.spec_class_id(), classname: "Thing" }
}

impl Fields for InterfaceField {
    open spec fn spec_field(&self) -> Field {
        let ci = InterfaceField::spec_class_ident_const();
        match self {
            InterfaceField::UID => Field { class_ident: ci, name: "uid", value_type: FieldValueType::UID(ci) },
            InterfaceField::DownlinkUID => Field {
                class_ident: ci,
                name: "downlink_uid",
                value_type: FieldValueType::UID(downlink_class_ident()),
            },
        }
    }

    fn field(&self) -> (r: Field) {
        let ci = Self::class_ident_const();
        match self {
            Self::UID => Field::new(ci, "uid", FieldValueType::UID(ci)),
            Self::DownlinkUID => Field::new(ci, "downlink_uid",
                FieldValueType::UID(ClassIdent::new(CodebaseClassID::Thing.class_id(), "Thing"))),
        }
    }
}

impl Class for InterfaceField {
    open spec fn spec_class_ident() -> ClassIdent {
        InterfaceField::spec_class_ident_const()
    }

    fn class_ident() -> (r: ClassIdent) {
        Self::class_ident_const()
    }
}

/// Creates and modifies an `Interface`.
#[derive(Debug)]
pub struct InterfaceBuilder {
    builder_mode: BuilderMode,
    uid: Option<UID>,
    downlink_uid: OptionOp<UID>,
}

/// The plain contents of an interface builder.
pub struct InterfaceBuilderView {
    pub builder_mode: BuilderMode,
    pub uid: Option<UID>,
    pub downlink_uid: OptionOp<UID>,
}

impl View for InterfaceBuilder {
    type V = InterfaceBuilderView;

    closed spec fn view(&self) -> InterfaceBuilderView {
        InterfaceBuilderView { builder_mode: self.builder_mode, uid: self.uid, downlink_uid: self.downlink_uid }
    }
}

/// An interface builder view with nothing set.
pub open spec fn empty_interface_builder(mode: BuilderMode) -> InterfaceBuilderView {
    InterfaceBuilderView { builder_mode: mode, uid: None, downlink_uid: OptionOp::NoOp }
}

/// The optional UID after an operation on it.
pub open spec fn uid_option_after(op: OptionOp<UID>, existing: Option<UID>) -> Option<UID> {
    match op {
        OptionOp::Assign(uid) => Some(uid),
        OptionOp::Unset => None,
        _ => existing,
    }
}

/// The interface after a builder's changes: the downlink is set, unset or left; the builder takes the UID.
pub open spec fn modified_interface(b: InterfaceBuilderView, i: InterfaceView) -> (InterfaceView, Result<InterfaceBuilderView>) {
    (
        InterfaceView { downlink_uid: uid_option_after(b.downlink_uid, i.downlink_uid), ..i },
        Ok(InterfaceBuilderView { uid: Some(i.uid), ..b }),
    )
}

impl Builder for InterfaceBuilder {
    type ModelType = Interface;

    open spec fn spec_mode(&self) -> BuilderMode {
        self@.builder_mode
    }

    open spec fn spec_class_ident(&self) -> ClassIdent {
        InterfaceField::spec_class_ident_const()
    }

    open spec fn spec_has_constructors() -> bool {
        true
    }

    /// The downlink can only be set, not edited or unset, on creation.
    open spec fn spec_creatable(&self) -> bool {
        !(self@.downlink_uid is Edit) && !(self@.downlink_uid is Unset)
    }

    open spec fn spec_create(self) -> Result<(InterfaceBuilderView, InterfaceView)> {
        match self@.uid {
            None => Err(Error::FieldNotSet { class: "Interface", field: "uid" }),
            Some(uid) => Ok((self@, InterfaceView {
                uid,
                downlink_uid: match self@.downlink_uid {
                    OptionOp::Assign(d) => Some(d),
                    _ => None,
                },
            })),
        }
    }

    /// A UID that was set must be the existing interface's; a downlink cannot be edited.
    open spec fn spec_modifiable(&self, existing: InterfaceView) -> bool {
        &&& self@.uid matches Some(u) ==> u == existing.uid
        &&& !(self@.downlink_uid is Edit)
    }

    open spec fn spec_modify(self, existing: InterfaceView) -> (InterfaceView, Result<InterfaceBuilderView>) {
        modified_interface(self@, existing)
    }

    open spec fn spec_changed(self, existing: InterfaceView) -> Seq<ClassIdent> {
        Seq::empty()
    }

    fn creator() -> (r: Self)
        ensures
            r@ == empty_interface_builder(BuilderMode::Creator),
    {
        Self { builder_mode: BuilderMode::Creator, uid: None, downlink_uid: OptionOp::NoOp }
    }

    fn editor() -> (r: Self)
        ensures
            r@ == empty_interface_builder(BuilderMode::Editor),
    {
        Self { builder_mode: BuilderMode::Editor, uid: None, downlink_uid: OptionOp::NoOp }
    }

    fn builder_mode(&self) -> (r: BuilderMode) {
        self.builder_mode
    }

    fn class_ident(&self) -> (r: ClassIdent) {
        InterfaceField::class_ident_const()
    }

    fn create(self) -> (r: Result<Creation<Self, Interface>>) {
        let mut s = self;
        let op = match s.builder_mode {
            BuilderMode::Creator => ChangeOp::Create,
            BuilderMode::Editor => ChangeOp::Modify,
        };
        let mut fields_changed = FieldsChanged::new(InterfaceField::class_ident_const(), op);
        let uid = Build::create_uid(&mut s.uid, &mut fields_changed, InterfaceField::UID)?;
        let downlink_uid = Build::create_uid_option(&mut s.downlink_uid, &mut fields_changed, InterfaceField::DownlinkUID)?;
        let interface = Interface { uid, downlink_uid };
        assert(s@ == self@);
        assert(self@.uid == Some(uid));
        assert(interface@.downlink_uid == (match self@.downlink_uid { OptionOp::Assign(d) => Some(d), _ => None }));
        Ok(Creation::new(s, interface))
    }

    fn modify(self, existing: &mut Interface) -> (r: Result<Modification<Self>>) {
        let mut s = self;
        if s.uid.is_none() {
            s.uid = Some(existing.uid);
        }
        let op = match s.builder_mode {
            BuilderMode::Creator => ChangeOp::Create,
            BuilderMode::Editor => ChangeOp::Modify,
        };
        let mut fields_changed = FieldsChanged::new(InterfaceField::class_ident_const(), op);
        let ghost fresh = fields_changed;
        Build::modify_uid_option(&mut s.downlink_uid, &mut existing.downlink_uid, &mut fields_changed, InterfaceField::DownlinkUID)?;
        proof {
            lemma_reports_extended_refl(fresh);
            lemma_reports_from_fresh(fresh, fields_changed, Seq::empty());
        }
        Ok(Modification::new(s, fields_changed))
    }
}

impl MaybeIdentifiable for InterfaceBuilder {
    open spec fn spec_try_uid(&self) -> Result<UID> {
        uid_or_not_generated(self@.uid)
    }

    fn try_uid(&self) -> (r: Result<UID>) {
        match self.uid {
            Some(uid) => Ok(uid),
            None => Err(Error::IdentityNotGenerated),
        }
    }
}

impl BuildableUID for InterfaceBuilder {
    open spec fn spec_get_uid(&self) -> Option<UID> {
        self@.uid
    }

    closed spec fn spec_with_uid(self, uid: UID) -> Self {
        InterfaceBuilder { uid: Some(uid), ..self }
    }

    fn uid(&mut self, uid: UID) -> (r: Result<&mut Self>)
        ensures
            r matches Ok(s) && s@ == (InterfaceBuilderView { uid: Some(uid), ..old(self)@ }),
    {
        proof {
            let w = old(self).spec_with_uid(uid);
            assert(w.spec_get_uid() == Some(uid));
            assert(w.spec_mode() == old(self).spec_mode());
        }
        self.uid = Some(uid);
        Ok(self)
    }

    fn get_uid(&self) -> (r: Option<&UID>) {
        self.uid.as_ref()
    }
}

impl InterfaceBuilder {
    pub fn downlink_uid(&mut self, downlink_uid: UID) -> (r: Result<&mut Self>)
        ensures
            r matches Ok(s) && s@ == (InterfaceBuilderView { downlink_uid: OptionOp::Assign(downlink_uid), ..old(self)@ })
                && *final(self) == *final(s),
    {
        self.downlink_uid = OptionOp::Assign(downlink_uid);
        Ok(self)
    }

    pub fn unset_downlink_uid(&mut self) -> (r: Result<&mut Self>)
        ensures
            r matches Ok(s) && s@ == (InterfaceBuilderView { downlink_uid: OptionOp::Unset, ..old(self)@ })
                && *final(self) == *final(s),
    {
        self.downlink_uid = OptionOp::Unset;
        Ok(self)
    }

    pub fn get_downlink_uid_op(&self) -> (r: OptionOp<&UID>)
        ensures
            match self@.downlink_uid {
                OptionOp::NoOp => r is NoOp,
                OptionOp::Assign(v) => r matches OptionOp::Assign(x) && *x == v,
                OptionOp::Edit(v) => r matches OptionOp::Edit(x) && *x == v,
                OptionOp::Unset => r is Unset,
            },
    {
        self.downlink_uid.as_ref()
    }
}

/// A builder that holds a list of interface operations.
pub trait BuildableInterfaceList {
    fn add_interface(&mut self, interface: InterfaceBuilder) -> Result<&mut Self>;

    fn edit_interface(&mut self, interface: InterfaceBuilder) -> Result<&mut Self>;

    fn remove_interface(&mut self, interface_uid: UID) -> Result<&mut Self>;
}

/// An editor with nothing set leaves an interface as it is: mutation occurs only against what is set.
pub proof fn lemma_empty_editor_keeps_interface(i: InterfaceView)
    ensures
        modified_interface(empty_interface_builder(BuilderMode::Editor), i).0 == i,
{
}

} // verus!
