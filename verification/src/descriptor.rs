use vstd::prelude::*;
use crate::error::{Error, Result};
use crate::identity::Keyed;
use crate::modeling::{Builder, BuilderMode, Built, Class, ClassIdent, CloneBuilding, CodebaseClassID, Creation, Field,
    FieldValueType, Fields, Modification};
use crate::modeling::fields_changed::{ChangeOp, FieldsChanged, op_of_mode};
use crate::text::{split_words, str_equal, words};

verus! {

/// All descriptive information about an object that can be observed by a player.
/// See also its corresponding trait: `Descriptive`
#[derive(Debug, Clone)]
pub struct Descriptor {
    /// The title
    name: String,
    /// Any term that might be used to reference this
    keywords: Vec<String>,
    /// Unique to the World. Should be used to permanently reference objects (never use ID).
    key: Option<String>,
    /// A one-liner summary. If `description` is not available, this should be used instead.
    short_description: Option<String>,
    /// A detailed and narrative description.
    description: Option<String>,
    /// Development notes from authors and editors. Not seen during normal play.
    notes: Option<String>,
}

/// The plain contents of a descriptor.
pub struct DescriptorView {
    pub name: Seq<char>,
    pub keywords: Seq<Seq<char>>,
    pub key: Option<Seq<char>>,
    pub short_description: Option<Seq<char>>,
    pub description: Option<Seq<char>>,
    pub notes: Option<Seq<char>>,
}

pub open spec fn opt_view(s: Option<String>) -> Option<Seq<char>> {
    match s {
        Some(x) => Some(x@),
        None => None,
    }
}

pub open spec fn strings_view(v: Seq<String>) -> Seq<Seq<char>> {
    v.map_values(|s: String| s@)
}

impl View for Descriptor {
    type V = DescriptorView;

    closed spec fn view(&self) -> DescriptorView {
        DescriptorView {
            name: self.name@,
            keywords: strings_view(self.keywords@),
            key: opt_view(self.key),
            short_description: opt_view(self.short_description),
            description: opt_view(self.description),
            notes: opt_view(self.notes),
        }
    }
}

impl Keyed for Descriptor {
    open spec fn spec_key(&self) -> Option<Seq<char>> {
        self@.key
    }

    fn key(&self) -> (r: Option<&str>) {
        match &self.key {
            Some(k) => Some(k.as_str()),
            None => None,
        }
    }
}

/// Standard immutable access to a `Descriptor`.
pub trait Descriptive: Keyed {
    spec fn spec_descriptor(&self) -> Descriptor;

    /// Fetch the `Descriptor` struct for this object
    fn descriptor(&self) -> (r: &Descriptor)
        ensures
            *r == self.spec_descriptor(),
    ;

    /// The title
    fn name(&self) -> (r: &str)
        ensures
            r@ == self.spec_descriptor()@.name,
    {
        self.descriptor().name_str()
    }

    /// Any term that might be used to reference this
    fn keywords(&self) -> (r: &Vec<String>)
        ensures
            strings_view(r@) == self.spec_descriptor()@.keywords,
    {
        self.descriptor().keywords_vec()
    }

    /// A one-liner summary. If `description` is not available, this will be used instead.
    fn short_description(&self) -> (r: Option<&String>)
        ensures
            match r {
                Some(s) => self.spec_descriptor()@.short_description == Some(s@),
                None => self.spec_descriptor()@.short_description is None,
            },
    {
        self.descriptor().short_description_opt()
    }

    /// A detailed and narrative description. If this doesn't exist, `short_description` is used instead.
    fn description(&self) -> (r: Option<&String>)
        ensures
            match r {
                Some(s) => Some(s@) == (if self.spec_descriptor()@.description is Some {
                    self.spec_descriptor()@.description
                } else {
                    self.spec_descriptor()@.short_description
                }),
                None => self.spec_descriptor()@.description is None && self.spec_descriptor()@.short_description is None,
            },
    {
        match self.descriptor().description_opt() {
            Some(d) => Some(d),
            None => self.short_description(),
        }
    }

    /// Development notes from authors and editors. Not seen during normal play.
    fn notes(&self) -> (r: Option<&String>)
        ensures
            match r {
                Some(s) => self.spec_descriptor()@.notes == Some(s@),
                None => self.spec_descriptor()@.notes is None,
            },
    {
        self.descriptor().notes_opt()
    }
}

impl Descriptor {
    fn name_str(&self) -> (r: &str)
        ensures
            r@ == self@.name,
    {
        self.name.as_str()
    }

    fn keywords_vec(&self) -> (r: &Vec<String>)
        ensures
            strings_view(r@) == self@.keywords,
    {
        &self.keywords
    }

    fn short_description_opt(&self) -> (r: Option<&String>)
        ensures
            match r {
                Some(s) => self@.short_description == Some(s@),
                None => self@.short_description is None,
            },
    {
        self.short_description.as_ref()
    }

    fn description_opt(&self) -> (r: Option<&String>)
        ensures
            match r {
                Some(s) => self@.description == Some(s@),
                None => self@.description is None,
            },
    {
        self.description.as_ref()
    }

    fn notes_opt(&self) -> (r: Option<&String>)
        ensures
            match r {
                Some(s) => self@.notes == Some(s@),
                None => self@.notes is None,
            },
    {
        self.notes.as_ref()
    }
}

impl Descriptive for Descriptor {
    open spec fn spec_descriptor(&self) -> Descriptor {
        *self
    }

    fn descriptor(&self) -> (r: &Descriptor) {
        self
    }
}

/// The field of a `Descriptor` with the given name, if any.
pub open spec fn descriptor_field_named(name: Seq<char>) -> Option<DescriptorField> {
    if name == "name"@ {
        Some(DescriptorField::Name)
    } else if name == "keywords"@ {
        Some(DescriptorField::Keywords)
    } else if name == "key"@ {
        Some(DescriptorField::Key)
    } else if name == "short_description"@ {
        Some(DescriptorField::ShortDescription)
    } else if name == "description"@ {
        Some(DescriptorField::Description)
    } else if name == "notes"@ {
        Some(DescriptorField::Notes)
    } else {
        None
    }
}

/// The fields of a `Descriptor`.
#[derive(Debug, Clone, Copy, PartialEq, Eq, Structural)]
pub enum DescriptorField {
    Name,
    Keywords,
    Key,
    ShortDescription,
    Description,
    Notes,
}

impl DescriptorField {
    pub open spec fn spec_class_ident_const() -> ClassIdent {
        ClassIdent { class_id: CodebaseClassID::Descriptor.spec_class_id(), classname: "Descriptor" }
    }

    pub fn class_ident_const() -> (r: ClassIdent)
        ensures
            r == Self::spec_class_ident_const(),
    {
        ClassIdent::new(CodebaseClassID::Descriptor.class_id(), "Descriptor")
    }

    /// The field with the given name, or `UnknownField`.
    pub fn try_from(name: &str) -> (r: Result<Self>)
        ensures
            match r {
                Ok(f) => name@ == f.spec_field().name@,
                Err(e) => (e matches Error::UnknownField { class, field } && class == "Descriptor" && field@ == name@)
                    && name@ != "name"@ && name@ != "keywords"@ && name@ != "key"@ && name@ != "short_description"@
                    && name@ != "description"@ && name@ != "notes"@,
            },
            match descriptor_field_named(name@) {
                Some(f) => r == Ok::<DescriptorField, Error>(f),
                None => r is Err,
            },
    {
        proof {
            reveal_strlit("name");
            reveal_strlit("keywords");
            reveal_strlit("key");
            reveal_strlit("short_description");
            reveal_strlit("description");
            reveal_strlit("notes");
        }
        if str_equal(name, "name") {
            Ok(Self::Name)
        } else if str_equal(name, "keywords") {
            Ok(Self::Keywords)
        } else if str_equal(name, "key") {
            Ok(Self::Key)
        } else if str_equal(name, "short_description") {
            Ok(Self::ShortDescription)
        } else if str_equal(name, "description") {
            Ok(Self::Description)
        } else if str_equal(name, "notes") {
            Ok(Self::Notes)
        } else {
            Err(Error::UnknownField { class: "Descriptor", field: name.to_owned() })
        }
    }
}

impl Fields for DescriptorField {
    open spec fn spec_field(&self) -> Field {
        let ci = DescriptorField::spec_class_ident_const();
        match self {
            DescriptorField::Name => Field { class_ident: ci, name: "name", value_type: FieldValueType::String },
            DescriptorField::Keywords => Field { class_ident: ci, name: "keywords", value_type: FieldValueType::StringList },
            DescriptorField::Key => Field { class_ident: ci, name: "key", value_type: FieldValueType::String },
            DescriptorField::ShortDescription => Field { class_ident: ci, name: "short_description", value_type: FieldValueType::String },
            DescriptorField::Description => Field { class_ident: ci, name: "description", value_type: FieldValueType::String },
            DescriptorField::Notes => Field { class_ident: ci, name: "notes", value_type: FieldValueType::String },
        }
    }

    fn field(&self) -> (r: Field) {
        let ci = Self::class_ident_const();
        match self {
            Self::Name => Field::new(ci, "name", FieldValueType::String),
            Self::Keywords => Field::new(ci, "keywords", FieldValueType::StringList),
            Self::Key => Field::new(ci, "key", FieldValueType::String),
            Self::ShortDescription => Field::new(ci, "short_description", FieldValueType::String),
            Self::Description => Field::new(ci, "description", FieldValueType::String),
            Self::Notes => Field::new(ci, "notes", FieldValueType::String),
        }
    }
}

impl Class for DescriptorField {
    open spec fn spec_class_ident() -> ClassIdent {
        DescriptorField::spec_class_ident_const()
    }

    fn class_ident() -> (r: ClassIdent) {
        Self::class_ident_const()
    }
}

/// Creates and modifies a `Descriptor`.
#[derive(Debug, Clone)]
pub struct DescriptorBuilder {
    builder_mode: BuilderMode,
    name: Option<String>,
    keywords: Option<Vec<String>>,
    key: Option<String>,
    short_description: Option<String>,
    description: Option<String>,
    notes: Option<String>,
}

/// The plain contents of a descriptor builder.
pub struct DescriptorBuilderView {
    pub builder_mode: BuilderMode,
    pub name: Option<Seq<char>>,
    pub keywords: Option<Seq<Seq<char>>>,
    pub key: Option<Seq<char>>,
    pub short_description: Option<Seq<char>>,
    pub description: Option<Seq<char>>,
    pub notes: Option<Seq<char>>,
}

impl View for DescriptorBuilder {
    type V = DescriptorBuilderView;

    closed spec fn view(&self) -> DescriptorBuilderView {
        DescriptorBuilderView {
            builder_mode: self.builder_mode,
            name: opt_view(self.name),
            keywords: match self.keywords {
                Some(k) => Some(strings_view(k@)),
                None => None,
            },
            key: opt_view(self.key),
            short_description: opt_view(self.short_description),
            description: opt_view(self.description),
            notes: opt_view(self.notes),
        }
    }
}

/// A builder view with nothing set.
pub open spec fn empty_descriptor_builder(mode: BuilderMode) -> DescriptorBuilderView {
    DescriptorBuilderView {
        builder_mode: mode,
        name: None,
        keywords: None,
        key: None,
        short_description: None,
        description: None,
        notes: None,
    }
}

/// The descriptor that a builder creates: the name is required; keywords default to none.
pub open spec fn created_descriptor(b: DescriptorBuilderView) -> Option<DescriptorView> {
    match b.name {
        None => None,
        Some(name) => Some(DescriptorView {
            name,
            keywords: match b.keywords {
                Some(k) => k,
                None => Seq::empty(),
            },
            key: b.key,
            short_description: b.short_description,
            description: b.description,
            notes: b.notes,
        }),
    }
}

/// The descriptor after an editor's changes: every field that was set replaces the existing one; the fields
/// that were not set stay.
pub open spec fn modified_descriptor(b: DescriptorBuilderView, d: DescriptorView) -> DescriptorView {
    DescriptorView {
        name: match b.name {
            Some(n) => n,
            None => d.name,
        },
        keywords: match b.keywords {
            Some(k) => k,
            None => d.keywords,
        },
        key: if b.key is Some { b.key } else { d.key },
        short_description: if b.short_description is Some { b.short_description } else { d.short_description },
        description: if b.description is Some { b.description } else { d.description },
        notes: if b.notes is Some { b.notes } else { d.notes },
    }
}

/// What becomes of a model's descriptor under its optional descriptor builder: an editor edits it, a creator
/// replaces it with a new one (or fails without a name), and no builder leaves it.
pub open spec fn edited_descriptor(b: Option<DescriptorBuilderView>, d: DescriptorView) -> Result<DescriptorView> {
    match b {
        None => Ok(d),
        Some(b) => if b.builder_mode == BuilderMode::Editor {
            Ok(modified_descriptor(b, d))
        } else {
            match created_descriptor(b) {
                Some(n) => Ok(n),
                None => Err(Error::FieldNotSet { class: "Descriptor", field: "name" }),
            }
        },
    }
}

/// The nested-model classes reported when a model's descriptor is handled by `b`: the descriptor's, for an editor.
pub open spec fn descriptor_changes(b: Option<DescriptorBuilderView>) -> Seq<ClassIdent> {
    if b matches Some(d) && d.builder_mode == BuilderMode::Editor {
        seq![DescriptorField::spec_class_ident_const()]
    } else {
        Seq::empty()
    }
}

impl Builder for DescriptorBuilder {
    type ModelType = Descriptor;

    open spec fn spec_mode(&self) -> BuilderMode {
        self@.builder_mode
    }

    open spec fn spec_class_ident(&self) -> ClassIdent {
        DescriptorField::spec_class_ident_const()
    }

    open spec fn spec_has_constructors() -> bool {
        true
    }

    open spec fn spec_creatable(&self) -> bool {
        true
    }

    open spec fn spec_create(self) -> Result<(DescriptorBuilderView, DescriptorView)> {
        match created_descriptor(self@) {
            None => Err(Error::FieldNotSet { class: "Descriptor", field: "name" }),
            Some(v) => Ok((self@, v)),
        }
    }

    open spec fn spec_modifiable(&self, existing: DescriptorView) -> bool {
        true
    }

    open spec fn spec_modify(self, existing: DescriptorView) -> (DescriptorView, Result<DescriptorBuilderView>) {
        (modified_descriptor(self@, existing), Ok(self@))
    }

    open spec fn spec_changed(self, existing: DescriptorView) -> Seq<ClassIdent> {
        Seq::empty()
    }

    fn creator() -> (r: Self)
        ensures
            r@ == empty_descriptor_builder(BuilderMode::Creator),
    {
        Self {
            builder_mode: BuilderMode::Creator,
            name: None,
            keywords: None,
            key: None,
            short_description: None,
            description: None,
            notes: None,
        }
    }

    fn editor() -> (r: Self)
        ensures
            r@ == empty_descriptor_builder(BuilderMode::Editor),
    {
        Self {
            builder_mode: BuilderMode::Editor,
            name: None,
            keywords: None,
            key: None,
            short_description: None,
            description: None,
            notes: None,
        }
    }

    fn builder_mode(&self) -> (r: BuilderMode) {
        self.builder_mode
    }

    fn class_ident(&self) -> (r: ClassIdent) {
        DescriptorField::class_ident_const()
    }

    fn create(self) -> (r: Result<Creation<Self, Descriptor>>) {
        let name = match &self.name {
            Some(name) => name.clone(),
            None => return Err(Error::FieldNotSet { class: "Descriptor", field: "name" }),
        };
        let keywords = match &self.keywords {
            Some(k) => clone_strings(k),
            None => Vec::new(),
        };
        let descriptor = Descriptor {
            name,
            keywords,
            key: clone_opt(&self.key),
            short_description: clone_opt(&self.short_description),
            description: clone_opt(&self.description),
            notes: clone_opt(&self.notes),
        };
        assert(descriptor@.name == self@.name.unwrap());
        assert(descriptor@.keywords == (match self@.keywords { Some(k) => k, None => Seq::empty() }));
        assert(created_descriptor(self@) == Some(descriptor@));
        Ok(Creation::new(self, descriptor))
    }

    fn modify(self, existing: &mut Descriptor) -> (r: Result<Modification<Self>>) {
        let op = match self.builder_mode {
            BuilderMode::Creator => ChangeOp::Create,
            BuilderMode::Editor => ChangeOp::Modify,
        };
        let fields_changed = FieldsChanged::new(DescriptorField::class_ident_const(), op);
        if let Some(name) = &self.name {
            existing.name = name.clone();
        }
        if let Some(keywords) = &self.keywords {
            existing.keywords = clone_strings(keywords);
        }
        if self.key.is_some() {
            existing.key = clone_opt(&self.key);
        }
        if self.short_description.is_some() {
            existing.short_description = clone_opt(&self.short_description);
        }
        if self.description.is_some() {
            existing.description = clone_opt(&self.description);
        }
        if self.notes.is_some() {
            existing.notes = clone_opt(&self.notes);
        }
        Ok(Modification::new(self, fields_changed))
    }
}

impl DescriptorBuilder {
    pub fn key(&mut self, key: String) -> (r: Result<&mut Self>)
        ensures
            r matches Ok(s) && s@ == (DescriptorBuilderView { key: Some(key@), ..old(self)@ }) && *final(self) == *final(s),
    {
        self.key = Some(key);
        Ok(self)
    }

    pub fn keywords(&mut self, keywords: Vec<String>) -> (r: Result<&mut Self>)
        ensures
            r matches Ok(s) && s@ == (DescriptorBuilderView { keywords: Some(strings_view(keywords@)), ..old(self)@ })
                && *final(self) == *final(s),
    {
        self.keywords = Some(keywords);
        Ok(self)
    }

    pub fn name(&mut self, name: String) -> (r: Result<&mut Self>)
        ensures
            r matches Ok(s) && s@ == (DescriptorBuilderView { name: Some(name@), ..old(self)@ }) && *final(self) == *final(s),
    {
        self.name = Some(name);
        Ok(self)
    }

    pub fn description(&mut self, description: String) -> (r: Result<&mut Self>)
        ensures
            r matches Ok(s) && s@ == (DescriptorBuilderView { description: Some(description@), ..old(self)@ })
                && *final(self) == *final(s),
    {
        self.description = Some(description);
        Ok(self)
    }

    pub fn short_description(&mut self, description: String) -> (r: Result<&mut Self>)
        ensures
            r matches Ok(s) && s@ == (DescriptorBuilderView { short_description: Some(description@), ..old(self)@ })
                && *final(self) == *final(s),
    {
        self.short_description = Some(description);
        Ok(self)
    }

    pub fn notes(&mut self, notes: String) -> (r: Result<&mut Self>)
        ensures
            r matches Ok(s) && s@ == (DescriptorBuilderView { notes: Some(notes@), ..old(self)@ }) && *final(self) == *final(s),
    {
        self.notes = Some(notes);
        Ok(self)
    }

    /// Sets a field by its name from a raw string: keywords are the whitespace-separated words of the string.
    pub fn set(&mut self, field_name: &str, raw_value: String) -> (r: Result<()>)
        ensures
            match r {
                Ok(()) => exists|f: DescriptorField| field_name@ == f.spec_field().name@
                    && final(self)@ == set_descriptor_field(old(self)@, f, raw_value@),
                Err(e) => (e matches Error::UnknownField { class, field } && class == "Descriptor" && field@ == field_name@)
                    && final(self)@ == old(self)@,
            },
    {
        let field = DescriptorField::try_from(field_name)?;
        let ghost raw = raw_value@;
        match field {
            DescriptorField::Name => { let _ = self.name(raw_value); },
            DescriptorField::Keywords => {
                let keywords = split_words(raw_value.as_str());
                let _ = self.keywords(keywords);
            },
            DescriptorField::Key => { let _ = self.key(raw_value); },
            DescriptorField::ShortDescription => { let _ = self.short_description(raw_value); },
            DescriptorField::Description => { let _ = self.description(raw_value); },
            DescriptorField::Notes => { let _ = self.notes(raw_value); },
        }
        assert(field_name@ == field.spec_field().name@ && self@ == set_descriptor_field(old(self)@, field, raw));
        Ok(())
    }
}

/// The builder after setting field `f` from the raw string `raw`.
pub open spec fn set_descriptor_field(b: DescriptorBuilderView, f: DescriptorField, raw: Seq<char>) -> DescriptorBuilderView {
    match f {
        DescriptorField::Name => DescriptorBuilderView { name: Some(raw), ..b },
        DescriptorField::Keywords => DescriptorBuilderView { keywords: Some(words(raw)), ..b },
        DescriptorField::Key => DescriptorBuilderView { key: Some(raw), ..b },
        DescriptorField::ShortDescription => DescriptorBuilderView { short_description: Some(raw), ..b },
        DescriptorField::Description => DescriptorBuilderView { description: Some(raw), ..b },
        DescriptorField::Notes => DescriptorBuilderView { notes: Some(raw), ..b },
    }
}

/// A model builder that holds a descriptor builder.
pub trait BuildableDescriptor: Builder {
    spec fn spec_get_descriptor(&self) -> Option<DescriptorBuilderView>;

    /// `self` with the given descriptor builder.
    spec fn spec_with_descriptor(self, descriptor: DescriptorBuilder) -> Self;

    fn descriptor(&mut self, descriptor: DescriptorBuilder) -> (r: Result<&mut Self>)
        ensures
            r matches Ok(s) && *s == old(self).spec_with_descriptor(descriptor) && *final(self) == *final(s),
            old(self).spec_with_descriptor(descriptor).spec_get_descriptor() == Some(descriptor@),
            old(self).spec_with_descriptor(descriptor).spec_mode() == old(self).spec_mode(),
    ;

    /// The mode in which a missing descriptor builder is made.
    spec fn spec_new_descriptor_mode(&self) -> BuilderMode;

    /// The descriptor builder, made when there is none.
    fn descriptor_builder(&mut self) -> (r: &mut DescriptorBuilder)
        ensures
            r@ == match old(self).spec_get_descriptor() {
                Some(d) => d,
                None => empty_descriptor_builder(old(self).spec_new_descriptor_mode()),
            },
            *final(self) == old(self).spec_with_descriptor(*final(r)),
    ;
}

impl Built for Descriptor {
    type BuilderType = DescriptorBuilder;
}

impl CloneBuilding for DescriptorBuilder {
    fn clone_model(builder_mode: BuilderMode, existing: &Descriptor) -> (r: Self)
        ensures
            r@ == cloned_descriptor(builder_mode, existing@),
    {
        Self {
            builder_mode,
            name: Some(existing.name.clone()),
            keywords: Some(clone_strings(&existing.keywords)),
            key: clone_opt(&existing.key),
            short_description: clone_opt(&existing.short_description),
            description: clone_opt(&existing.description),
            notes: clone_opt(&existing.notes),
        }
    }
}

/// A builder that rebuilds the descriptor `d`: every field set to the descriptor's.
pub open spec fn cloned_descriptor(mode: BuilderMode, d: DescriptorView) -> DescriptorBuilderView {
    DescriptorBuilderView {
        builder_mode: mode,
        name: Some(d.name),
        keywords: Some(d.keywords),
        key: d.key,
        short_description: d.short_description,
        description: d.description,
        notes: d.notes,
    }
}

/// A copy of an optional string.
pub fn clone_opt(o: &Option<String>) -> (r: Option<String>)
    ensures
        opt_view(r) == opt_view(*o),
{
    match o {
        Some(s) => Some(s.clone()),
        None => None,
    }
}

/// A copy of a list of strings.
fn clone_strings(v: &Vec<String>) -> (r: Vec<String>)
    ensures
        r@ == v@,
{
    let mut out: Vec<String> = Vec::new();
    let mut i: usize = 0;
    while i < v.len()
        invariant
            i <= v.len(),
            out@ == v@.subrange(0, i as int),
        decreases v.len() - i,
    {
        out.push(v[i].clone());
        assert(v@.subrange(0, i as int).push(v@[i as int]) =~= v@.subrange(0, i + 1));
        i = i + 1;
    }
    assert(v@.subrange(0, v@.len() as int) =~= v@);
    out
}

/// An editor with nothing set leaves a descriptor as it is: mutation occurs only against what is set.
pub proof fn lemma_empty_editor_keeps_descriptor(d: DescriptorView)
    ensures
        modified_descriptor(empty_descriptor_builder(BuilderMode::Editor), d) == d,
{
}

/// A builder cloned from a descriptor creates that same descriptor, in either mode.
pub proof fn lemma_clone_recreates_descriptor(mode: BuilderMode, d: DescriptorView)
    ensures
        created_descriptor(cloned_descriptor(mode, d)) == Some(d),
{
}

/// Editing a descriptor with an editor cloned from it changes nothing.
pub proof fn lemma_cloned_editor_keeps_descriptor(d: DescriptorView)
    ensures
        modified_descriptor(cloned_descriptor(BuilderMode::Editor, d), d) == d,
{
}

/// Each field of a descriptor is found again by its name: `DescriptorField::try_from(f.field().name())` is `f`.
pub proof fn lemma_descriptor_field_named(f: DescriptorField)
    ensures
        descriptor_field_named(f.spec_field().name@) == Some(f),
{
    reveal_strlit("name");
    reveal_strlit("keywords");
    reveal_strlit("key");
    reveal_strlit("short_description");
    reveal_strlit("description");
    reveal_strlit("notes");
    let n = f.spec_field().name@;
    assert(("name"@).len() == 4 && ("keywords"@).len() == 8 && ("key"@).len() == 3);
    assert(("short_description"@).len() == 17 && ("description"@).len() == 11 && ("notes"@).len() == 5);
    match f {
        DescriptorField::Name => assert(n == "name"@),
        DescriptorField::Keywords => assert(n == "keywords"@),
        DescriptorField::Key => assert(n == "key"@),
        DescriptorField::ShortDescription => assert(n == "short_description"@),
        DescriptorField::Description => assert(n == "description"@),
        DescriptorField::Notes => assert(n == "notes"@),
    }
}

/// An editor's set fields win: after an editor modifies any descriptor, each field the editor set holds exactly
/// the value set, whatever the descriptor held before, and each field it left unset keeps its old value.
pub proof fn lemma_editor_sets_what_is_set(b: DescriptorBuilderView, d: DescriptorView)
    ensures
        b.name matches Some(n) ==> modified_descriptor(b, d).name == n,
        b.name is None ==> modified_descriptor(b, d).name == d.name,
        b.keywords matches Some(k) ==> modified_descriptor(b, d).keywords == k,
        b.keywords is None ==> modified_descriptor(b, d).keywords == d.keywords,
        b.key is Some ==> modified_descriptor(b, d).key == b.key,
        b.key is None ==> modified_descriptor(b, d).key == d.key,
        b.short_description is Some ==> modified_descriptor(b, d).short_description == b.short_description,
        b.short_description is None ==> modified_descriptor(b, d).short_description == d.short_description,
        b.description is Some ==> modified_descriptor(b, d).description == b.description,
        b.description is None ==> modified_descriptor(b, d).description == d.description,
        b.notes is Some ==> modified_descriptor(b, d).notes == b.notes,
        b.notes is None ==> modified_descriptor(b, d).notes == d.notes,
{
}

/// Setting a description on an editor and modifying any descriptor with it leaves exactly that description.
pub proof fn lemma_set_description_takes_effect(b: DescriptorBuilderView, d: DescriptorView, description: Seq<char>)
    ensures
        modified_descriptor(set_descriptor_field(b, DescriptorField::Description, description), d).description
            == Some(description),
{
}

} // verus!
