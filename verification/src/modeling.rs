//! # Else Modeling
//! The core system that all models are built upon. Each model has an accompanying [Builder] and schema
//! ([Class], [Fields]).
//!
//! A builder creates and modifies its model type: direct mutation of a model is performed solely through
//! [Builder::modify]. The result of [Builder::create] or [Builder::modify] is a [Creation] or [Modification],
//! holding the processed builder and, for a modification, a [FieldsChanged] report.
pub mod fields_changed;
pub mod building;
pub mod assign;

use vstd::prelude::*;
use crate::error::{Error, Result};
use crate::identity::{ClassID, UID, Identifiable, MaybeIdentifiable, uid_of};
use crate::modeling::fields_changed::{FieldsChanged, op_of_mode, reports_modification};

verus! {

/// The class ids of the codebase's model classes.
#[derive(Clone, Copy, Debug, PartialEq, Eq, Structural)]
pub enum CodebaseClassID {
    Invalid,
    Identity,
    Universe,
    World,
    Area,
    Route,
    Endpoint,
    Junction,
    End,
    Direction,
    Descriptor,
    Entity,
    Thing,
    Character,
    Item,
    Cortex,
    RoutineLobe,
    IntelligenceLobe,
    IntelligentCortex,
    Awareness,
    Interface,
    Session,
    Location,
}

impl CodebaseClassID {
    pub open spec fn spec_class_id(self) -> ClassID {
        match self {
            CodebaseClassID::Invalid => 0,
            CodebaseClassID::Identity => 1,
            CodebaseClassID::Universe => 2,
            CodebaseClassID::World => 3,
            CodebaseClassID::Area => 4,
            CodebaseClassID::Route => 5,
            CodebaseClassID::Endpoint => 6,
            CodebaseClassID::Junction => 7,
            CodebaseClassID::End => 8,
            CodebaseClassID::Direction => 9,
            CodebaseClassID::Descriptor => 10,
            CodebaseClassID::Entity => 11,
            CodebaseClassID::Thing => 12,
            CodebaseClassID::Character => 13,
            CodebaseClassID::Item => 14,
            CodebaseClassID::Cortex => 15,
            CodebaseClassID::RoutineLobe => 16,
            CodebaseClassID::IntelligenceLobe => 17,
            CodebaseClassID::IntelligentCortex => 18,
            CodebaseClassID::Awareness => 19,
            CodebaseClassID::Interface => 20,
            CodebaseClassID::Session => 21,
            CodebaseClassID::Location => 22,
        }
    }

    pub fn class_id(self) -> (r: ClassID)
        ensures
            r == self.spec_class_id(),
    {
        match self {
            CodebaseClassID::Invalid => 0,
            CodebaseClassID::Identity => 1,
            CodebaseClassID::Universe => 2,
            CodebaseClassID::World => 3,
            CodebaseClassID::Area => 4,
            CodebaseClassID::Route => 5,
            CodebaseClassID::Endpoint => 6,
            CodebaseClassID::Junction => 7,
            CodebaseClassID::End => 8,
            CodebaseClassID::Direction => 9,
            CodebaseClassID::Descriptor => 10,
            CodebaseClassID::Entity => 11,
            CodebaseClassID::Thing => 12,
            CodebaseClassID::Character => 13,
            CodebaseClassID::Item => 14,
            CodebaseClassID::Cortex => 15,
            CodebaseClassID::RoutineLobe => 16,
            CodebaseClassID::IntelligenceLobe => 17,
            CodebaseClassID::IntelligentCortex => 18,
            CodebaseClassID::Awareness => 19,
            CodebaseClassID::Interface => 20,
            CodebaseClassID::Session => 21,
            CodebaseClassID::Location => 22,
        }
    }
}

/// Determines whether a new data object is being created or an existing one is being modified.
#[derive(Clone, Copy, Debug, PartialEq, Eq, Structural)]
pub enum BuilderMode {
    Creator,
    Editor,
}

/// The identification of a model class: its class id and name.
#[derive(Clone, Copy, Debug)]
pub struct ClassIdent {
    pub class_id: ClassID,
    pub classname: &'static str,
}

impl ClassIdent {
    pub fn new(class_id: ClassID, classname: &'static str) -> (r: Self)
        ensures
            r.class_id == class_id,
            r.classname == classname,
    {
        Self { class_id, classname }
    }

    pub fn class_id(&self) -> (r: ClassID)
        ensures
            r == self.class_id,
    {
        self.class_id
    }

    pub fn classname(&self) -> (r: &'static str)
        ensures
            r == self.classname,
    {
        self.classname
    }
}

/// A field value without a builder of its own: it is constructed from and rendered as a string.
pub trait NonPrimitive: Sized {
    spec fn spec_class_ident(&self) -> ClassIdent;

    fn class_ident(&self) -> (r: ClassIdent)
        ensures
            r == self.spec_class_ident(),
    ;
}

/// Synchronizes a domain with changes that came from another system.
pub trait DomainSynchronizer<D>: Sized {
    fn sync(self, domain: &mut D) -> Result<Self>;
}

/// Provides the method for a domain-level model builder to synchronize changes from another system.
pub trait SynchronizedDomainBuilder<D>: Builder {
    fn synchronize(self, domain: &mut D) -> Result<Modification<Self>>;
}

/// Data types for model fields that are available to APIs.
#[derive(Clone, Copy, Debug)]
pub enum FieldValueType {
    /// bool
    Bool,
    /// i64
    I64,
    /// u64
    U64,
    /// a 64-bit floating-point number
    F64,
    /// String
    String,
    /// u128
    UID(ClassIdent),
    /// Fieldless enum
    Enum(ClassIdent),
    /// No builder; constructed from and rendered as a string
    NonPrimitive(ClassIdent),
    /// impl Builder
    Model(ClassIdent),
    /// Vec<UID>
    UIDList(ClassIdent),
    /// Vec<impl Builder>
    ModelList(ClassIdent),
    /// Vec<String>
    StringList,
}

/// A specific field of a model that is available to APIs.
#[derive(Clone, Copy, Debug)]
pub struct Field {
    pub class_ident: ClassIdent,
    pub name: &'static str,
    pub value_type: FieldValueType,
}

/// The class that a field refers to: that of its UID, model or model list; otherwise its own class.
pub open spec fn subject_of(field: Field) -> ClassIdent {
    match field.value_type {
        FieldValueType::UID(ci) => ci,
        FieldValueType::Model(ci) => ci,
        FieldValueType::ModelList(ci) => ci,
        _ => field.class_ident,
    }
}

impl Field {
    pub fn new(class_ident: ClassIdent, name: &'static str, value_type: FieldValueType) -> (r: Self)
        ensures
            r.class_ident == class_ident,
            r.name == name,
            r.value_type == value_type,
    {
        Self { class_ident, name, value_type }
    }

    pub fn class_id(&self) -> (r: ClassID)
        ensures
            r == self.class_ident.class_id,
    {
        self.class_ident.class_id
    }

    pub fn classname(&self) -> (r: &'static str)
        ensures
            r == self.class_ident.classname,
    {
        self.class_ident.classname
    }

    pub fn class_ident(&self) -> (r: ClassIdent)
        ensures
            r == self.class_ident,
    {
        self.class_ident
    }

    pub fn name(&self) -> (r: &'static str)
        ensures
            r == self.name,
    {
        self.name
    }

    pub fn value_type(&self) -> (r: FieldValueType)
        ensures
            r == self.value_type,
    {
        self.value_type
    }

    pub fn subject_class_ident(&self) -> (r: ClassIdent)
        ensures
            r == subject_of(*self),
    {
        match self.value_type {
            FieldValueType::UID(class_ident) => class_ident,
            FieldValueType::Model(class_ident) => class_ident,
            FieldValueType::ModelList(class_ident) => class_ident,
            _ => self.class_ident,
        }
    }

    pub fn subject_classname(&self) -> (r: &'static str)
        ensures
            r == subject_of(*self).classname,
    {
        self.subject_class_ident().classname
    }
}

/// The schema of a model: one value per field.
pub trait Fields {
    spec fn spec_field(&self) -> Field;

    fn field(&self) -> (r: Field)
        ensures
            r == self.spec_field(),
    ;
}

/// The class of a model's schema.
pub trait Class: Fields {
    spec fn spec_class_ident() -> ClassIdent;

    fn class_ident() -> (r: ClassIdent)
        ensures
            r == Self::spec_class_ident(),
    ;

    fn class_id() -> (r: ClassID)
        ensures
            r == Self::spec_class_ident().class_id,
    {
        Self::class_ident().class_id
    }

    fn classname() -> (r: &'static str)
        ensures
            r == Self::spec_class_ident().classname,
    {
        Self::class_ident().classname
    }
}

/// An operation against an `Option` field: leave it, set it, edit it, or unset it.
#[derive(Debug, PartialEq, Eq)]
pub enum OptionOp<T> {
    NoOp,
    Assign(T),
    Edit(T),
    Unset,
}

impl<T> OptionOp<T> {
    pub fn is_none(&self) -> (r: bool)
        ensures
            r == self is NoOp,
    {
        match self {
            Self::NoOp => true,
            _ => false,
        }
    }

    pub fn is_set(&self) -> (r: bool)
        ensures
            r == self is Assign,
    {
        match self {
            Self::Assign(_) => true,
            _ => false,
        }
    }

    pub fn is_edit(&self) -> (r: bool)
        ensures
            r == self is Edit,
    {
        match self {
            Self::Edit(_) => true,
            _ => false,
        }
    }

    pub fn is_unset(&self) -> (r: bool)
        ensures
            r == self is Unset,
    {
        match self {
            Self::Unset => true,
            _ => false,
        }
    }

    pub fn as_ref(&self) -> (r: OptionOp<&T>)
        ensures
            match *self {
                OptionOp::NoOp => r is NoOp,
                OptionOp::Assign(v) => r matches OptionOp::Assign(x) && *x == v,
                OptionOp::Edit(v) => r matches OptionOp::Edit(x) && *x == v,
                OptionOp::Unset => r is Unset,
            },
    {
        match self {
            Self::NoOp => OptionOp::NoOp,
            Self::Assign(value) => OptionOp::Assign(value),
            Self::Edit(value) => OptionOp::Edit(value),
            Self::Unset => OptionOp::Unset,
        }
    }

    /// Takes the value of a `Assign` or `Edit`, leaving `NoOp`.
    pub fn take(&mut self) -> (r: T)
        requires
            *old(self) is Assign || *old(self) is Edit,
        ensures
            *final(self) == OptionOp::<T>::NoOp,
            match *old(self) {
                OptionOp::Assign(v) => r == v,
                OptionOp::Edit(v) => r == v,
                _ => false,
            },
    {
        let mut orig = Self::NoOp;
        std::mem::swap(self, &mut orig);
        match orig {
            Self::Assign(value) => value,
            Self::Edit(value) => value,
            _ => vstd::pervasive::unreached(),
        }
    }
}

/// An Add, Edit, or Remove operation against a list.
#[derive(Debug, PartialEq, Eq)]
pub enum ListOp<T, R> {
    Add(T),
    Edit(T),
    Remove(R),
}

impl<T, R> ListOp<T, R> {
    pub fn is_add(&self) -> (r: bool)
        ensures
            r == self is Add,
    {
        match self {
            Self::Add(_) => true,
            _ => false,
        }
    }

    pub fn is_edit(&self) -> (r: bool)
        ensures
            r == self is Edit,
    {
        match self {
            Self::Edit(_) => true,
            _ => false,
        }
    }

    pub fn is_remove(&self) -> (r: bool)
        ensures
            r == self is Remove,
    {
        match self {
            Self::Remove(_) => true,
            _ => false,
        }
    }

    pub fn added(&self) -> (r: Option<&T>)
        ensures
            match *self {
                ListOp::Add(v) => r matches Some(x) && *x == v,
                _ => r is None,
            },
    {
        match self {
            Self::Add(value) => Some(value),
            _ => None,
        }
    }

    pub fn edited(&self) -> (r: Option<&T>)
        ensures
            match *self {
                ListOp::Edit(v) => r matches Some(x) && *x == v,
                _ => r is None,
            },
    {
        match self {
            Self::Edit(value) => Some(value),
            _ => None,
        }
    }

    pub fn removed(&self) -> (r: Option<&R>)
        ensures
            match *self {
                ListOp::Remove(v) => r matches Some(x) && *x == v,
                _ => r is None,
            },
    {
        match self {
            Self::Remove(value) => Some(value),
            _ => None,
        }
    }
}

/// The result of a `Builder::create()` call: the processed builder and the new model.
#[derive(Debug)]
pub struct Creation<B, M> {
    builder: B,
    model: M,
}

impl<B, M> Creation<B, M> {
    pub closed spec fn spec_builder(self) -> B {
        self.builder
    }

    pub closed spec fn spec_model(self) -> M {
        self.model
    }

    pub fn new(builder: B, model: M) -> (r: Self)
        ensures
            r.spec_builder() == builder,
            r.spec_model() == model,
    {
        Self { builder, model }
    }

    pub fn builder(&self) -> (r: &B)
        ensures
            *r == self.spec_builder(),
    {
        &self.builder
    }

    pub fn model(&self) -> (r: &M)
        ensures
            *r == self.spec_model(),
    {
        &self.model
    }

    pub fn split(self) -> (r: (B, M))
        ensures
            r.0 == self.spec_builder(),
            r.1 == self.spec_model(),
    {
        (self.builder, self.model)
    }

    pub fn split_option(self) -> (r: (Option<B>, M))
        ensures
            r.0 == Some(self.spec_builder()),
            r.1 == self.spec_model(),
    {
        (Some(self.builder), self.model)
    }
}

/// The result of a `Builder::modify()` call: the processed builder and the report of the fields changed.
#[derive(Debug)]
pub struct Modification<B> {
    builder: B,
    fields_changed: FieldsChanged,
}

impl<B> Modification<B> {
    pub closed spec fn spec_builder(self) -> B {
        self.builder
    }

    pub closed spec fn spec_fields_changed(self) -> FieldsChanged {
        self.fields_changed
    }

    pub fn new(builder: B, fields_changed: FieldsChanged) -> (r: Self)
        ensures
            r.spec_builder() == builder,
            r.spec_fields_changed() == fields_changed,
    {
        Self { builder, fields_changed }
    }

    pub fn builder(&self) -> (r: &B)
        ensures
            *r == self.spec_builder(),
    {
        &self.builder
    }

    pub fn fields_changed(&self) -> (r: &FieldsChanged)
        ensures
            *r == self.spec_fields_changed(),
    {
        &self.fields_changed
    }

    pub fn split(self) -> (r: (B, FieldsChanged))
        ensures
            r.0 == self.spec_builder(),
            r.1 == self.spec_fields_changed(),
    {
        (self.builder, self.fields_changed)
    }

    pub fn take_builder(self) -> (r: B)
        ensures
            r == self.spec_builder(),
    {
        self.builder
    }
}

/// The view of an optional value.
pub open spec fn option_view<T: View>(o: Option<T>) -> Option<T::V> {
    match o {
        Some(t) => Some(t@),
        None => None,
    }
}

/// The view of an operation against an `Option` field.
pub open spec fn option_op_view<T: View>(o: OptionOp<T>) -> OptionOp<T::V> {
    match o {
        OptionOp::NoOp => OptionOp::NoOp,
        OptionOp::Assign(t) => OptionOp::Assign(t@),
        OptionOp::Edit(t) => OptionOp::Edit(t@),
        OptionOp::Unset => OptionOp::Unset,
    }
}

/// The view of an operation against a list.
pub open spec fn list_op_view<T: View, R>(o: ListOp<T, R>) -> ListOp<T::V, R> {
    match o {
        ListOp::Add(t) => ListOp::Add(t@),
        ListOp::Edit(t) => ListOp::Edit(t@),
        ListOp::Remove(r) => ListOp::Remove(r),
    }
}

/// Performs all construction and mutation operations for its corresponding model type.
///
/// It operates in one of two modes: [BuilderMode::Creator] constructs and [BuilderMode::Editor] mutates.
/// Setters store an operation for each field; mutation occurs only against what is set.
/// Its contract speaks of the views of the builder and of the model.
pub trait Builder: Sized + View {
    /// The model that this builder creates and modifies.
    type ModelType: Sized + View;

    spec fn spec_mode(&self) -> BuilderMode;

    spec fn spec_class_ident(&self) -> ClassIdent;

    /// Whether `creator()` and `editor()` can be called (an enum of builders has no constructor of its own).
    spec fn spec_has_constructors() -> bool;

    /// Whether `create` runs without panicking on this builder.
    spec fn spec_creatable(&self) -> bool;

    /// What `create` gives: the processed builder and the new model, or the error it stops with.
    spec fn spec_create(self) -> Result<(Self::V, <Self::ModelType as View>::V)>;

    /// Whether `modify` runs without panicking on this builder and model.
    spec fn spec_modifiable(&self, existing: <Self::ModelType as View>::V) -> bool;

    /// What `modify` gives: the model as it is left, and the processed builder or the error it stopped with.
    spec fn spec_modify(self, existing: <Self::ModelType as View>::V) -> (<Self::ModelType as View>::V, Result<Self::V>);

    /// The classes of the nested models that `modify` modifies, in the order it reports them.
    spec fn spec_changed(self, existing: <Self::ModelType as View>::V) -> Seq<ClassIdent>;

    fn creator() -> (r: Self)
        requires
            Self::spec_has_constructors(),
        ensures
            r.spec_mode() == BuilderMode::Creator,
    ;

    fn editor() -> (r: Self)
        requires
            Self::spec_has_constructors(),
        ensures
            r.spec_mode() == BuilderMode::Editor,
    ;

    fn builder_mode(&self) -> (r: BuilderMode)
        ensures
            r == self.spec_mode(),
    ;

    fn class_ident(&self) -> (r: ClassIdent)
        ensures
            r == self.spec_class_ident(),
    ;

    fn create(self) -> (r: Result<Creation<Self, Self::ModelType>>)
        requires
            self.spec_creatable(),
        ensures
            match r {
                Ok(c) => self.spec_create() == Ok::<(Self::V, <Self::ModelType as View>::V), Error>((c.spec_builder()@, c.spec_model()@)),
                Err(e) => self.spec_create() == Err::<(Self::V, <Self::ModelType as View>::V), Error>(e),
            },
    ;

    fn modify(self, existing: &mut Self::ModelType) -> (r: Result<Modification<Self>>)
        requires
            self.spec_modifiable(old(existing)@),
        ensures
            final(existing)@ == self.spec_modify(old(existing)@).0,
            match r {
                Ok(m) => self.spec_modify(old(existing)@).1 == Ok::<Self::V, Error>(m.spec_builder()@)
                    && reports_modification(m.spec_fields_changed(), self.spec_class_ident(), op_of_mode(self.spec_mode()),
                        self.spec_changed(old(existing)@)),
                Err(e) => self.spec_modify(old(existing)@).1 == Err::<Self::V, Error>(e),
            },
    ;

    fn builder(mode: BuilderMode) -> (r: Self)
        requires
            Self::spec_has_constructors(),
        ensures
            r.spec_mode() == mode,
    {
        match mode {
            BuilderMode::Creator => Self::creator(),
            BuilderMode::Editor => Self::editor(),
        }
    }
}

/// Provides the static creator() and editor() methods for a model.
pub trait Built {
    type BuilderType: Builder;

    fn creator() -> (r: Self::BuilderType)
        requires
            Self::BuilderType::spec_has_constructors(),
        ensures
            r.spec_mode() == BuilderMode::Creator,
    {
        Self::BuilderType::creator()
    }

    fn editor() -> (r: Self::BuilderType)
        requires
            Self::BuilderType::spec_has_constructors(),
        ensures
            r.spec_mode() == BuilderMode::Editor,
    {
        Self::BuilderType::editor()
    }

    fn builder(mode: BuilderMode) -> (r: Self::BuilderType)
        requires
            Self::BuilderType::spec_has_constructors(),
        ensures
            r.spec_mode() == mode,
    {
        Self::BuilderType::builder(mode)
    }

    /// An editor of this model, identified by its UID.
    fn edit_self(&self) -> (r: Self::BuilderType)
        where
            Self: Identifiable,
            Self::BuilderType: BuildableUID,
        requires
            Self::BuilderType::spec_has_constructors(),
        ensures
            r.spec_mode() == BuilderMode::Editor,
            r.spec_get_uid() == Some(Self::spec_uid_of(self@)),
    {
        let mut editor = Self::BuilderType::editor();
        let uid = self.uid();
        let _ = editor.uid(uid);
        editor
    }
}

/// A builder that can be given a UID.
pub trait BuildableUID: Builder + MaybeIdentifiable {
    spec fn spec_get_uid(&self) -> Option<UID>;

    /// `self` with its UID set.
    spec fn spec_with_uid(self, uid: UID) -> Self;

    fn uid(&mut self, uid: UID) -> (r: Result<&mut Self>)
        ensures
            r matches Ok(s) && *s == old(self).spec_with_uid(uid) && *final(self) == *final(s),
            old(self).spec_with_uid(uid).spec_get_uid() == Some(uid),
            old(self).spec_with_uid(uid).spec_mode() == old(self).spec_mode(),
            old(self).spec_with_uid(uid).spec_class_ident() == old(self).spec_class_ident(),
    ;

    fn get_uid(&self) -> (r: Option<&UID>)
        ensures
            match r {
                Some(u) => self.spec_get_uid() == Some(*u),
                None => self.spec_get_uid() is None,
            },
    ;

    fn uid_from<I: Identifiable>(&mut self, identifiable: &I) -> (r: Result<&mut Self>)
        ensures
            r matches Ok(s) && *s == old(self).spec_with_uid(uid_of(*identifiable)) && *final(self) == *final(s),
    {
        let uid = identifiable.uid();
        self.uid(uid)
    }

    fn has_uid(&self) -> (r: bool)
        ensures
            r == self.spec_get_uid() is Some,
    {
        self.get_uid().is_some()
    }

    /// The UID that was set, or `IdentityNotGenerated`.
    fn _try_uid(&self) -> (r: Result<UID>)
        ensures
            r == uid_or_not_generated(self.spec_get_uid()),
    {
        match self.get_uid() {
            Some(uid) => Ok(*uid),
            None => Err(Error::IdentityNotGenerated),
        }
    }
}

/// A set UID, or the error that none was generated.
pub open spec fn uid_or_not_generated(uid: Option<UID>) -> Result<UID> {
    match uid {
        Some(u) => Ok(u),
        None => Err(Error::IdentityNotGenerated),
    }
}

/// A builder that can build a copy of an existing model.
/// A builder operation that is to be synchronized with another system: a creation or a modification.
#[derive(Debug)]
pub enum Operation<B, M> {
    Creation(Creation<B, M>),
    Modification(Modification<B>),
}

pub trait CloneBuilding: Builder {
    fn clone_model(builder_mode: BuilderMode, existing: &Self::ModelType) -> (r: Self)
        ensures
            r.spec_mode() == builder_mode,
    ;
}

} // verus!
