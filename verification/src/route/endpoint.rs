use vstd::prelude::*;
use crate::error::{Error, Result};
use crate::modeling::{Builder, BuilderMode, Built, Class, ClassIdent, CloneBuilding, CodebaseClassID, Creation, Field,
    FieldValueType, Fields, Modification, option_view};
use crate::modeling::building::{Build, lemma_reports_extended_refl, lemma_reports_from_fresh};
use crate::modeling::fields_changed::{ChangeOp, FieldsChanged};
use crate::descriptor::descriptor_changes;
use crate::route::end::{End, EndBuilder, EndBuilderView, EndField, EndView, cloned_end, created_end, empty_end_builder,
    modified_end};

verus! {

/// The point of a route that ends at a single Area.
#[derive(Debug)]
pub struct Endpoint {
    end: End,
}

/// The plain contents of an endpoint.
pub struct EndpointView {
    pub end: EndView,
}

impl View for Endpoint {
    type V = EndpointView;

    closed spec fn view(&self) -> EndpointView {
        EndpointView { end: self.end@ }
    }
}

impl Endpoint {
    pub fn end(&self) -> (r: &End)
        ensures
            r@ == self@.end,
    {
        &self.end
    }
}

/// The fields of an `Endpoint`.
#[derive(Debug, Clone, Copy, PartialEq, Eq, Structural)]
pub enum EndpointField {
    End,
}

impl EndpointField {
    pub open spec fn spec_class_ident_const() -> ClassIdent {
        ClassIdent { class_id: CodebaseClassID::Endpoint.spec_class_id(), classname: "Endpoint" }
    }

    pub fn class_ident_const() -> (r: ClassIdent)
        ensures
            r == Self::spec_class_ident_const(),
    {
        ClassIdent::new(CodebaseClassID::Endpoint.class_id(), "Endpoint")
    }
}

impl Fields for EndpointField {
    open spec fn spec_field(&self) -> Field {
        Field {
            class_ident: EndpointField::spec_class_ident_const(),
            name: "end",
            value_type: FieldValueType::Model(EndField::spec_class_ident_const()),
        }
    }

    fn field(&self) -> (r: Field) {
        Field::new(Self::class_ident_const(), "end", FieldValueType::Model(EndField::class_ident_const()))
    }
}

impl Class for EndpointField {
    open spec fn spec_class_ident() -> ClassIdent {
        EndpointField::spec_class_ident_const()
    }

    fn class_ident() -> (r: ClassIdent) {
        Self::class_ident_const()
    }
}

/// Creates and modifies an `Endpoint`.
#[derive(Debug)]
pub struct EndpointBuilder {
    builder_mode: BuilderMode,
    end: Option<EndBuilder>,
}

/// The plain contents of an endpoint builder.
pub struct EndpointBuilderView {
    pub builder_mode: BuilderMode,
    pub end: Option<EndBuilderView>,
}

impl View for EndpointBuilder {
    type V = EndpointBuilderView;

    closed spec fn view(&self) -> EndpointBuilderView {
        EndpointBuilderView {
            builder_mode: self.builder_mode,
            end: match self.end {
                Some(e) => Some(e@),
                None => None,
            },
        }
    }
}

/// The endpoint that a builder creates: the end is required.
/// The builder that rebuilds an endpoint: its end, rebuilt.
pub open spec fn cloned_endpoint(mode: BuilderMode, e: EndpointView) -> EndpointBuilderView {
    EndpointBuilderView { builder_mode: mode, end: Some(cloned_end(mode, e.end)) }
}

pub open spec fn created_endpoint(b: EndpointBuilderView) -> Result<EndpointView> {
    match b.end {
        None => Err(Error::FieldNotSet { class: "Endpoint", field: "end" }),
        Some(eb) => match created_end(eb) {
            Ok(end) => Ok(EndpointView { end }),
            Err(e) => Err(e),
        },
    }
}

/// What becomes of an end under an optional end builder: an editor edits it, a creator replaces it.
pub open spec fn edited_end(b: Option<EndBuilderView>, e: EndView) -> (EndView, Result<Option<EndBuilderView>>) {
    match b {
        None => (e, Ok(None)),
        Some(eb) => if eb.builder_mode == BuilderMode::Editor {
            let (e2, res) = modified_end(eb, e);
            (e2, match res { Ok(x) => Ok(Some(x)), Err(err) => Err(err) })
        } else {
            match created_end(eb) {
                Ok(e2) => (e2, Ok(Some(eb))),
                Err(err) => (e, Err(err)),
            }
        },
    }
}

/// The nested models reported when an end is handled by `b`: the end's (and, below it, its descriptor's), for an editor.
pub open spec fn end_changes(b: Option<EndBuilderView>, e: EndView) -> Seq<ClassIdent> {
    if b matches Some(eb) && eb.builder_mode == BuilderMode::Editor && modified_end(eb, e).1 is Ok {
        seq![EndField::spec_class_ident_const()]
    } else {
        Seq::empty()
    }
}

impl Builder for EndpointBuilder {
    type ModelType = Endpoint;

    open spec fn spec_mode(&self) -> BuilderMode {
        self@.builder_mode
    }

    open spec fn spec_class_ident(&self) -> ClassIdent {
        EndpointField::spec_class_ident_const()
    }

    open spec fn spec_has_constructors() -> bool {
        true
    }

    open spec fn spec_creatable(&self) -> bool {
        true
    }

    open spec fn spec_create(self) -> Result<(EndpointBuilderView, EndpointView)> {
        match created_endpoint(self@) {
            Ok(e) => Ok((self@, e)),
            Err(err) => Err(err),
        }
    }

    open spec fn spec_modifiable(&self, existing: EndpointView) -> bool {
        true
    }

    open spec fn spec_modify(self, existing: EndpointView) -> (EndpointView, Result<EndpointBuilderView>) {
        let (end, res) = edited_end(self@.end, existing.end);
        (EndpointView { end }, match res {
            Ok(eb) => Ok(EndpointBuilderView { end: eb, ..self@ }),
            Err(err) => Err(err),
        })
    }

    open spec fn spec_changed(self, existing: EndpointView) -> Seq<ClassIdent> {
        end_changes(self@.end, existing.end)
    }

    fn creator() -> (r: Self)
        ensures
            r@ == (EndpointBuilderView { builder_mode: BuilderMode::Creator, end: None }),
    {
        Self { builder_mode: BuilderMode::Creator, end: None }
    }

    fn editor() -> (r: Self)
        ensures
            r@ == (EndpointBuilderView { builder_mode: BuilderMode::Editor, end: None }),
    {
        Self { builder_mode: BuilderMode::Editor, end: None }
    }

    fn builder_mode(&self) -> (r: BuilderMode) {
        self.builder_mode
    }

    fn class_ident(&self) -> (r: ClassIdent) {
        EndpointField::class_ident_const()
    }

    fn create(self) -> (r: Result<Creation<Self, Endpoint>>) {
        let mut s = self;
        let op = match s.builder_mode {
            BuilderMode::Creator => ChangeOp::Create,
            BuilderMode::Editor => ChangeOp::Modify,
        };
        let mut fields_changed = FieldsChanged::new(EndpointField::class_ident_const(), op);
        let end = Build::create(&mut s.end, &mut fields_changed, EndpointField::End)?;
        let endpoint = Endpoint { end };
        assert(endpoint@ == EndpointView { end: end@ });
        assert(created_endpoint(self@) == Ok::<EndpointView, Error>(EndpointView { end: end@ }));
        assert(s@ == self@);
        Ok(Creation::new(s, endpoint))
    }

    fn modify(self, existing: &mut Endpoint) -> (r: Result<Modification<Self>>) {
        let mut s = self;
        let op = match s.builder_mode {
            BuilderMode::Creator => ChangeOp::Create,
            BuilderMode::Editor => ChangeOp::Modify,
        };
        let mut fields_changed = FieldsChanged::new(EndpointField::class_ident_const(), op);
        let ghost fresh = fields_changed;
        if s.end.is_some() {
            Build::modify(&mut s.end, &mut existing.end, &mut fields_changed, EndpointField::End)?;
        } else {
            proof { lemma_reports_extended_refl(fields_changed); }
        }
        proof {
            lemma_reports_from_fresh(fresh, fields_changed, end_changes(self@.end, old(existing)@.end));
        }
        Ok(Modification::new(s, fields_changed))
    }
}

impl Built for Endpoint {
    type BuilderType = EndpointBuilder;
}

impl CloneBuilding for EndpointBuilder {
    fn clone_model(builder_mode: BuilderMode, existing: &Endpoint) -> (r: Self)
        ensures
            r@ == cloned_endpoint(builder_mode, existing@),
    {
        Self { builder_mode, end: Some(EndBuilder::clone_model(builder_mode, &existing.end)) }
    }
}

impl EndpointBuilder {
    pub fn end(&mut self, end: EndBuilder) -> (r: Result<()>)
        ensures
            r is Ok,
            final(self)@ == (EndpointBuilderView { end: Some(end@), ..old(self)@ }),
    {
        self.end = Some(end);
        Ok(())
    }

    /// The end builder, made (in this builder's mode) when there is none.
    pub fn end_builder(&mut self) -> (r: &mut EndBuilder)
        ensures
            r@ == match old(self)@.end {
                Some(e) => e,
                None => empty_end_builder(old(self)@.builder_mode),
            },
            final(self)@ == (EndpointBuilderView { end: Some(final(r)@), ..old(self)@ }),
    {
        if self.end.is_none() {
            self.end = Some(match self.builder_mode {
                BuilderMode::Creator => EndBuilder::creator(),
                BuilderMode::Editor => EndBuilder::editor(),
            });
        }
        self.end.as_mut().unwrap()
    }

    pub fn get_end_builder(&self) -> (r: Option<&EndBuilder>)
        ensures
            match r {
                Some(e) => self@.end == Some(e@),
                None => self@.end is None,
            },
    {
        self.end.as_ref()
    }
}

/// A builder cloned from an endpoint creates that same endpoint, in either mode.
pub proof fn lemma_clone_recreates_endpoint(mode: BuilderMode, e: EndpointView)
    ensures
        created_endpoint(cloned_endpoint(mode, e)) == Ok::<EndpointView, Error>(e),
{
    crate::route::end::lemma_clone_recreates_end(mode, e.end);
}

} // verus!
