use vstd::prelude::*;
use crate::error::{Error, Result};
use crate::identity::{UID, Identifiable, Keyed, MaybeIdentifiable};
use crate::modeling::{Builder, BuilderMode, BuildableUID, Built, ClassIdent, CodebaseClassID, Creation, Field,
    FieldValueType, Fields, Modification, uid_or_not_generated};
use crate::modeling::building::{Build, lemma_reports_extended_refl, lemma_reports_from_fresh};
use crate::modeling::fields_changed::{ChangeOp, FieldsChanged};

verus! {

/// A Universe stores each active session as such
#[derive(Debug)]
pub struct Session {
    uid: UID,
    interface_uid: UID,
    /// Timestamp of when the session expires
    expiration: u64,
}

/// The plain contents of a session.
pub struct SessionView {
    pub uid: UID,
    pub interface_uid: UID,
    pub expiration: u64,
}

impl View for Session {
    type V = SessionView;

    closed spec fn view(&self) -> SessionView {
        SessionView { uid: self.uid, interface_uid: self.interface_uid, expiration: self.expiration }
    }
}

impl Keyed for Session {
    open spec fn spec_key(&self) -> Option<Seq<char>> {
        None
    }

    fn key(&self) -> (r: Option<&str>) {
        None
    }
}

impl Identifiable for Session {
    open spec fn spec_uid_of(v: SessionView) -> UID {
        v.uid
    }

    fn uid(&self) -> (r: UID) {
        assert(Self::spec_uid_of(self@) == self.uid);
        self.uid
    }
}

impl Session {
    pub fn interface_uid(&self) -> (r: UID)
        ensures
            r == self@.interface_uid,
    {
        self.interface_uid
    }

    pub fn expiration(&self) -> (r: u64)
        ensures
            r == self@.expiration,
    {
        self.expiration
    }
}

/// The fields of a `Session`.
#[derive(Debug, Clone, Copy, PartialEq, Eq, Structural)]
pub enum SessionField {
    UID,
    InterfaceUID,
    Expiration,
}

impl SessionField {
    pub open spec fn spec_class_ident_const() -> ClassIdent {
        ClassIdent { class_id: CodebaseClassID::Session.spec_class_id(), classname: "Session" }
    }

    pub fn class_ident_const() -> (r: ClassIdent)
        ensures
            r == Self::spec_class_ident_const(),
    {
        ClassIdent::new(CodebaseClassID::Session.class_id(), "Session")
    }
}

impl Fields for SessionField {
    /// The interface UID's field names the session's own class.
    open spec fn spec_field(&self) -> Field {
        let ci = SessionField::spec_class_ident_const();
        match self {
            SessionField::UID => Field { class_ident: ci, name: "uid", value_type: FieldValueType::UID(ci) },
            SessionField::InterfaceUID => Field { class_ident: ci, name: "interface_uid", value_type: FieldValueType::UID(ci) },
            SessionField::Expiration => Field { class_ident: ci, name: "expiration", value_type: FieldValueType::U64 },
        }
    }

    fn field(&self) -> (r: Field) {
        let ci = Self::class_ident_const();
        match self {
            Self::UID => Field::new(ci, "uid", FieldValueType::UID(ci)),
            Self::InterfaceUID => Field::new(ci, "interface_uid", FieldValueType::UID(ci)),
            Self::Expiration => Field::new(ci, "expiration", FieldValueType::U64),
        }
    }
}

impl Built for Session {
    type BuilderType = SessionBuilder;
}

/// Creates and modifies a `Session`.
#[derive(Debug)]
pub struct SessionBuilder {
    builder_mode: BuilderMode,
    uid: Option<UID>,
    interface_uid: Option<UID>,
    expiration: Option<u64>,
}

/// The plain contents of a session builder.
pub struct SessionBuilderView {
    pub builder_mode: BuilderMode,
    pub uid: Option<UID>,
    pub interface_uid: Option<UID>,
    pub expiration: Option<u64>,
}

impl View for SessionBuilder {
    type V = SessionBuilderView;

    closed spec fn view(&self) -> SessionBuilderView {
        SessionBuilderView {
            builder_mode: self.builder_mode,
            uid: self.uid,
            interface_uid: self.interface_uid,
            expiration: self.expiration,
        }
    }
}

/// A session builder view with nothing set.
pub open spec fn empty_session_builder(mode: BuilderMode) -> SessionBuilderView {
    SessionBuilderView { builder_mode: mode, uid: None, interface_uid: None, expiration: None }
}

/// The session that a builder creates: all three fields are required, in order.
pub open spec fn created_session(b: SessionBuilderView) -> Result<SessionView> {
    match b.uid {
        None => Err(Error::FieldNotSet { class: "Session", field: "uid" }),
        Some(uid) => match b.interface_uid {
            None => Err(Error::FieldNotSet { class: "Session", field: "interface_uid" }),
            Some(interface_uid) => match b.expiration {
                None => Err(Error::FieldNotSet { class: "Session", field: "expiration" }),
                Some(expiration) => Ok(SessionView { uid, interface_uid, expiration }),
            },
        },
    }
}

impl Builder for SessionBuilder {
    type ModelType = Session;

    open spec fn spec_mode(&self) -> BuilderMode {
        self@.builder_mode
    }

    open spec fn spec_class_ident(&self) -> ClassIdent {
        SessionField::spec_class_ident_const()
    }

    open spec fn spec_has_constructors() -> bool {
        true
    }

    open spec fn spec_creatable(&self) -> bool {
        true
    }

    open spec fn spec_create(self) -> Result<(SessionBuilderView, SessionView)> {
        match created_session(self@) {
            Ok(v) => Ok((self@, v)),
            Err(e) => Err(e),
        }
    }

    /// A UID that was set must be the existing session's.
    open spec fn spec_modifiable(&self, existing: SessionView) -> bool {
        self@.uid matches Some(u) ==> u == existing.uid
    }

    /// Only the expiration changes; the interface stays.
    open spec fn spec_modify(self, existing: SessionView) -> (SessionView, Result<SessionBuilderView>) {
        (
            SessionView {
                expiration: match self@.expiration {
                    Some(e) => e,
                    None => existing.expiration,
                },
                ..existing
            },
            Ok(SessionBuilderView { uid: Some(existing.uid), ..self@ }),
        )
    }

    open spec fn spec_changed(self, existing: SessionView) -> Seq<ClassIdent> {
        Seq::empty()
    }

    fn creator() -> (r: Self)
        ensures
            r@ == empty_session_builder(BuilderMode::Creator),
    {
        Self { builder_mode: BuilderMode::Creator, uid: None, interface_uid: None, expiration: None }
    }

    fn editor() -> (r: Self)
        ensures
            r@ == empty_session_builder(BuilderMode::Editor),
    {
        Self { builder_mode: BuilderMode::Editor, uid: None, interface_uid: None, expiration: None }
    }

    fn builder_mode(&self) -> (r: BuilderMode) {
        self.builder_mode
    }

    fn class_ident(&self) -> (r: ClassIdent) {
        SessionField::class_ident_const()
    }

    fn create(self) -> (r: Result<Creation<Self, Session>>) {
        let mut s = self;
        let op = match s.builder_mode {
            BuilderMode::Creator => ChangeOp::Create,
            BuilderMode::Editor => ChangeOp::Modify,
        };
        let mut fields_changed = FieldsChanged::new(SessionField::class_ident_const(), op);
        let uid = Build::create_uid(&mut s.uid, &mut fields_changed, SessionField::UID)?;
        let interface_uid = Build::create_uid(&mut s.interface_uid, &mut fields_changed, SessionField::InterfaceUID)?;
        let expiration = Build::create_value(&s.expiration, &mut fields_changed, SessionField::Expiration)?;
        let session = Session { uid, interface_uid, expiration };
        assert(session@ == SessionView { uid, interface_uid, expiration });
        assert(s@ == self@);
        Ok(Creation::new(s, session))
    }

    fn modify(self, existing: &mut Session) -> (r: Result<Modification<Self>>) {
        let mut s = self;
        if s.uid.is_none() {
            s.uid = Some(existing.uid);
        }
        let op = match s.builder_mode {
            BuilderMode::Creator => ChangeOp::Create,
            BuilderMode::Editor => ChangeOp::Modify,
        };
        let mut fields_changed = FieldsChanged::new(SessionField::class_ident_const(), op);
        let ghost fresh = fields_changed;
        Build::modify_value(&s.expiration, &mut existing.expiration, &mut fields_changed, SessionField::Expiration)?;
        proof {
            lemma_reports_extended_refl(fresh);
            lemma_reports_from_fresh(fresh, fields_changed, Seq::empty());
        }
        assert(existing@ == SessionView { uid: existing.uid, interface_uid: existing.interface_uid,
            expiration: existing.expiration });
        assert(s@ == SessionBuilderView { uid: Some(old(existing)@.uid), ..self@ });
        Ok(Modification::new(s, fields_changed))
    }
}

impl MaybeIdentifiable for SessionBuilder {
    open spec fn spec_try_uid(&self) -> Result<UID> {
        uid_or_not_generated(self@.uid)
    }

    fn try_uid(&self) -> (r: Result<UID>) {
        match self.uid {
            Some(uid) => Ok(uid),
            None => Err(Error::IdentityNotGenerated),
        }
    }
}

impl BuildableUID for SessionBuilder {
    open spec fn spec_get_uid(&self) -> Option<UID> {
        self@.uid
    }

    closed spec fn spec_with_uid(self, uid: UID) -> Self {
        SessionBuilder { uid: Some(uid), ..self }
    }

    fn uid(&mut self, uid: UID) -> (r: Result<&mut Self>)
        ensures
            r matches Ok(s) && s@ == (SessionBuilderView { uid: Some(uid), ..old(self)@ }),
    {
        proof {
            let w = old(self).spec_with_uid(uid);
            assert(w.spec_get_uid() == Some(uid));
            assert(w.spec_mode() == old(self).spec_mode());
        }
        self.uid = Some(uid);
        Ok(self)
    }

    fn get_uid(&self) -> (r: Option<&UID>) {
        self.uid.as_ref()
    }
}

} // verus!
