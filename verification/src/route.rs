//! Routes link areas: each has two points, an endpoint at one area or a junction of several.
pub mod direction;
pub mod end;
pub mod endpoint;
pub mod junction;
pub mod point;

use vstd::prelude::*;
use crate::error::{Error, Result};
use crate::identity::{UID, Identifiable, IdentityField, Keyed, MaybeIdentifiable};
use crate::modeling::{Builder, BuilderMode, BuildableUID, Built, Class, ClassIdent, CloneBuilding, CodebaseClassID,
    Creation, Field, FieldValueType, Fields, Modification, option_view, uid_or_not_generated};
use crate::modeling::building::{Build, lemma_reports_extended_trans, lemma_reports_from_fresh};
use crate::modeling::fields_changed::{ChangeOp, FieldsChanged};
use crate::descriptor::{BuildableDescriptor, Descriptive, Descriptor, DescriptorBuilder, DescriptorBuilderView,
    DescriptorField, DescriptorView, created_descriptor, descriptor_changes, edited_descriptor};
use crate::route::end::{End, EndView};
use crate::route::endpoint::EndpointField;
use crate::route::endpoint::{cloned_endpoint, lemma_clone_recreates_endpoint};
use crate::route::point::{Point, PointBuilder, PointBuilderView, PointView, cloned_point, point_area_uids, point_builder_area_uids,
    point_builder_areas_set, point_end_for_area};

verus! {

/// A passage between areas.
#[derive(Debug)]
pub struct Route {
    uid: UID,
    descriptor: Descriptor,
    point_a: Point,
    point_b: Point,
}

/// The plain contents of a route.
pub struct RouteView {
    pub uid: UID,
    pub descriptor: DescriptorView,
    pub point_a: PointView,
    pub point_b: PointView,
}

impl View for Route {
    type V = RouteView;

    closed spec fn view(&self) -> RouteView {
        RouteView { uid: self.uid, descriptor: self.descriptor@, point_a: self.point_a@, point_b: self.point_b@ }
    }
}

impl Keyed for Route {
    open spec fn spec_key(&self) -> Option<Seq<char>> {
        self@.descriptor.key
    }

    fn key(&self) -> (r: Option<&str>) {
        self.descriptor.key()
    }
}

impl Identifiable for Route {
    open spec fn spec_uid_of(v: RouteView) -> UID {
        v.uid
    }

    fn uid(&self) -> (r: UID) {
        assert(Self::spec_uid_of(self@) == self.uid);
        self.uid
    }
}

impl Descriptive for Route {
    closed spec fn spec_descriptor(&self) -> Descriptor {
        self.descriptor
    }

    fn descriptor(&self) -> (r: &Descriptor)
        ensures
            r@ == self@.descriptor,
    {
        &self.descriptor
    }
}

impl Built for Route {
    type BuilderType = RouteBuilder;
}

/// The areas that a route connects: those of point A, then those of point B.
pub open spec fn route_area_uids(r: RouteView) -> Seq<UID> {
    point_area_uids(r.point_a) + point_area_uids(r.point_b)
}

/// The end of a route at the given area: point A's, else point B's.
pub open spec fn route_end_for_area(r: RouteView, area_uid: UID) -> Option<EndView> {
    match point_end_for_area(r.point_a, area_uid) {
        Some(e) => Some(e),
        None => point_end_for_area(r.point_b, area_uid),
    }
}

impl Route {
    pub fn point_a(&self) -> (r: &Point)
        ensures
            r@ == self@.point_a,
    {
        &self.point_a
    }

    pub fn point_b(&self) -> (r: &Point)
        ensures
            r@ == self@.point_b,
    {
        &self.point_b
    }

    pub fn area_uids(&self) -> (r: Vec<UID>)
        ensures
            r@ == route_area_uids(self@),
    {
        let mut uids = self.point_a.area_uids();
        let mut others = self.point_b.area_uids();
        uids.append(&mut others);
        uids
    }

    pub fn end_for_area(&self, area_uid: UID) -> (r: Option<&End>)
        ensures
            match r {
                Some(e) => route_end_for_area(self@, area_uid) == Some(e@),
                None => route_end_for_area(self@, area_uid) is None,
            },
    {
        match self.point_a.end_for_area(area_uid) {
            Some(end) => Some(end),
            None => match self.point_b.end_for_area(area_uid) {
                Some(end) => Some(end),
                None => None,
            },
        }
    }
}

/// A model that holds the UIDs of the routes that lead from it.
pub trait Routing {
    spec fn spec_route_uids(&self) -> Seq<UID>;

    fn route_uids(&self) -> (r: &Vec<UID>)
        ensures
            r@ == self.spec_route_uids(),
    ;
}

/// The fields of a `Route`.
#[derive(Debug, Clone, Copy, PartialEq, Eq, Structural)]
pub enum RouteField {
    UID,
    Descriptor,
    PointA,
    PointB,
}

impl RouteField {
    pub open spec fn spec_class_ident_const() -> ClassIdent {
        ClassIdent { class_id: CodebaseClassID::Route.spec_class_id(), classname: "Route" }
    }

    pub fn class_ident_const() -> (r: ClassIdent)
        ensures
            r == Self::spec_class_ident_const(),
    {
        ClassIdent::new(CodebaseClassID::Route.class_id(), "Route")
    }
}

impl Fields for RouteField {
    open spec fn spec_field(&self) -> Field {
        let ci = RouteField::spec_class_ident_const();
        match self {
            RouteField::UID => Field {
                class_ident: ci,
                name: "uid",
                value_type: FieldValueType::Model(IdentityField::spec_class_ident_const()),
            },
            RouteField::Descriptor => Field {
                class_ident: ci,
                name: "descriptor",
                value_type: FieldValueType::Model(DescriptorField::spec_class_ident_const()),
            },
            RouteField::PointA => Field {
                class_ident: ci,
                name: "point_a",
                value_type: FieldValueType::Model(EndpointField::spec_class_ident_const()),
            },
            RouteField::PointB => Field {
                class_ident: ci,
                name: "point_b",
                value_type: FieldValueType::Model(EndpointField::spec_class_ident_const()),
            },
        }
    }

    fn field(&self) -> (r: Field) {
        let ci = Self::class_ident_const();
        match self {
            Self::UID => Field::new(ci, "uid", FieldValueType::Model(IdentityField::class_ident_const())),
            Self::Descriptor => Field::new(ci, "descriptor", FieldValueType::Model(DescriptorField::class_ident_const())),
            Self::PointA => Field::new(ci, "point_a", FieldValueType::Model(EndpointField::class_ident_const())),
            Self::PointB => Field::new(ci, "point_b", FieldValueType::Model(EndpointField::class_ident_const())),
        }
    }
}

impl Class for RouteField {
    open spec fn spec_class_ident() -> ClassIdent {
        RouteField::spec_class_ident_const()
    }

    fn class_ident() -> (r: ClassIdent) {
        Self::class_ident_const()
    }
}

/// Creates and modifies a `Route`.
#[derive(Debug)]
pub struct RouteBuilder {
    builder_mode: BuilderMode,
    identity: Option<UID>,
    descriptor: Option<DescriptorBuilder>,
    point_a: Option<PointBuilder>,
    point_b: Option<PointBuilder>,
}

/// The plain contents of a route builder.
pub struct RouteBuilderView {
    pub builder_mode: BuilderMode,
    pub identity: Option<UID>,
    pub descriptor: Option<DescriptorBuilderView>,
    pub point_a: Option<PointBuilderView>,
    pub point_b: Option<PointBuilderView>,
}

impl View for RouteBuilder {
    type V = RouteBuilderView;

    closed spec fn view(&self) -> RouteBuilderView {
        RouteBuilderView {
            builder_mode: self.builder_mode,
            identity: self.identity,
            descriptor: option_view(self.descriptor),
            point_a: option_view(self.point_a),
            point_b: option_view(self.point_b),
        }
    }
}

/// A route builder view with nothing set.
pub open spec fn empty_route_builder(mode: BuilderMode) -> RouteBuilderView {
    RouteBuilderView { builder_mode: mode, identity: None, descriptor: None, point_a: None, point_b: None }
}

impl RouteBuilder {
    /// The builder of point A, if one was set.
    pub closed spec fn spec_point_a(self) -> Option<PointBuilder> {
        self.point_a
    }

    /// The builder of point B, if one was set.
    pub closed spec fn spec_point_b(self) -> Option<PointBuilder> {
        self.point_b
    }

    /// The view of a route builder shows the views of its point builders.
    pub proof fn lemma_points_view(self)
        ensures
            self@.point_a == option_view(self.spec_point_a()),
            self@.point_b == option_view(self.spec_point_b()),
    {
    }
}

/// The point that an optional point builder creates, or the error for the named field.
pub open spec fn created_point(b: Option<PointBuilder>, field: &'static str) -> Result<(PointBuilderView, PointView)> {
    match b {
        None => Err(Error::FieldNotSet { class: "Route", field }),
        Some(pb) => pb.spec_create(),
    }
}

/// The route that a builder creates: its UID, descriptor, point A and point B are required, in that order.
pub open spec fn created_route(b: RouteBuilder) -> Result<(RouteBuilderView, RouteView)> {
    let bv = b@;
    match bv.identity {
        None => Err(Error::FieldNotSet { class: "Route", field: "uid" }),
        Some(uid) => match bv.descriptor {
            None => Err(Error::FieldNotSet { class: "Route", field: "descriptor" }),
            Some(db) => match created_descriptor(db) {
                None => Err(Error::FieldNotSet { class: "Descriptor", field: "name" }),
                Some(descriptor) => match created_point(b.spec_point_a(), "point_a") {
                    Err(e) => Err(e),
                    Ok((pav, point_a)) => match created_point(b.spec_point_b(), "point_b") {
                        Err(e) => Err(e),
                        Ok((pbv, point_b)) => Ok((
                            RouteBuilderView { point_a: Some(pav), point_b: Some(pbv), ..bv },
                            RouteView { uid, descriptor, point_a, point_b },
                        )),
                    },
                },
            },
        },
    }
}

/// The route after a builder's changes: the descriptor, then point A, then point B are edited or replaced; the
/// first error stops the rest.
pub open spec fn modified_route(b: RouteBuilder, r: RouteView) -> (RouteView, Result<RouteBuilderView>) {
    let bv = b@;
    match edited_descriptor(bv.descriptor, r.descriptor) {
        Err(e) => (r, Err(e)),
        Ok(descriptor) => {
            let (point_a, ra) = Build::modify_spec(b.spec_point_a(), r.point_a);
            match ra {
                Err(e) => (RouteView { descriptor, point_a, ..r }, Err(e)),
                Ok(pav) => {
                    let (point_b, rb) = Build::modify_spec(b.spec_point_b(), r.point_b);
                    match rb {
                        Err(e) => (RouteView { descriptor, point_a, point_b, ..r }, Err(e)),
                        Ok(pbv) => (
                            RouteView { descriptor, point_a, point_b, ..r },
                            Ok(RouteBuilderView { identity: Some(r.uid), point_a: pav, point_b: pbv, ..bv }),
                        ),
                    }
                },
            }
        },
    }
}

impl Builder for RouteBuilder {
    type ModelType = Route;

    open spec fn spec_mode(&self) -> BuilderMode {
        self@.builder_mode
    }

    open spec fn spec_class_ident(&self) -> ClassIdent {
        RouteField::spec_class_ident_const()
    }

    open spec fn spec_has_constructors() -> bool {
        true
    }

    open spec fn spec_creatable(&self) -> bool {
        &&& self.spec_point_a() matches Some(p) ==> p.spec_creatable()
        &&& self.spec_point_b() matches Some(p) ==> p.spec_creatable()
    }

    open spec fn spec_create(self) -> Result<(RouteBuilderView, RouteView)> {
        created_route(self)
    }

    /// A UID that was set must be the existing route's; each point builder must be able to handle its point (an
    /// editor must edit a point of its kind, and the points' fields hold endpoints).
    open spec fn spec_modifiable(&self, existing: RouteView) -> bool {
        &&& self@.identity matches Some(u) ==> u == existing.uid
        &&& Build::modifiable(self.spec_point_a(), existing.point_a, RouteField::PointA.spec_field())
        &&& Build::modifiable(self.spec_point_b(), existing.point_b, RouteField::PointB.spec_field())
    }

    open spec fn spec_modify(self, existing: RouteView) -> (RouteView, Result<RouteBuilderView>) {
        modified_route(self, existing)
    }

    open spec fn spec_changed(self, existing: RouteView) -> Seq<ClassIdent> {
        descriptor_changes(self@.descriptor)
            + Build::modify_reported(self.spec_point_a(), existing.point_a, RouteField::PointA.spec_field())
            + Build::modify_reported(self.spec_point_b(), existing.point_b, RouteField::PointB.spec_field())
    }

    fn creator() -> (r: Self)
        ensures
            r@ == empty_route_builder(BuilderMode::Creator),
    {
        Self { builder_mode: BuilderMode::Creator, identity: None, descriptor: None, point_a: None, point_b: None }
    }

    fn editor() -> (r: Self)
        ensures
            r@ == empty_route_builder(BuilderMode::Editor),
    {
        Self { builder_mode: BuilderMode::Editor, identity: None, descriptor: None, point_a: None, point_b: None }
    }

    fn builder_mode(&self) -> (r: BuilderMode) {
        self.builder_mode
    }

    fn class_ident(&self) -> (r: ClassIdent) {
        RouteField::class_ident_const()
    }

    fn create(self) -> (r: Result<Creation<Self, Route>>) {
        let mut s = self;
        let op = match s.builder_mode {
            BuilderMode::Creator => ChangeOp::Create,
            BuilderMode::Editor => ChangeOp::Modify,
        };
        let mut fields_changed = FieldsChanged::new(RouteField::class_ident_const(), op);
        let uid = Build::create_uid(&mut s.identity, &mut fields_changed, RouteField::UID)?;
        let descriptor = Build::create(&mut s.descriptor, &mut fields_changed, RouteField::Descriptor)?;
        let point_a = Build::create(&mut s.point_a, &mut fields_changed, RouteField::PointA)?;
        let point_b = Build::create(&mut s.point_b, &mut fields_changed, RouteField::PointB)?;
        let route = Route { uid, descriptor, point_a, point_b };
        assert(route@ == RouteView { uid, descriptor: descriptor@, point_a: point_a@, point_b: point_b@ });
        Ok(Creation::new(s, route))
    }

    fn modify(self, existing: &mut Route) -> (r: Result<Modification<Self>>) {
        let mut s = self;
        if s.identity.is_none() {
            s.identity = Some(existing.uid);
        }
        let op = match s.builder_mode {
            BuilderMode::Creator => ChangeOp::Create,
            BuilderMode::Editor => ChangeOp::Modify,
        };
        let mut fields_changed = FieldsChanged::new(RouteField::class_ident_const(), op);
        let ghost fc0 = fields_changed;
        Build::modify(&mut s.descriptor, &mut existing.descriptor, &mut fields_changed, RouteField::Descriptor)?;
        let ghost fc1 = fields_changed;
        Build::modify(&mut s.point_a, &mut existing.point_a, &mut fields_changed, RouteField::PointA)?;
        let ghost fc2 = fields_changed;
        Build::modify(&mut s.point_b, &mut existing.point_b, &mut fields_changed, RouteField::PointB)?;
        proof {
            let x = descriptor_changes(self@.descriptor);
            let y = Build::modify_reported(self.spec_point_a(), old(existing)@.point_a, RouteField::PointA.spec_field());
            let z = Build::modify_reported(self.spec_point_b(), old(existing)@.point_b, RouteField::PointB.spec_field());
            lemma_reports_extended_trans(fc0, fc1, fc2, x, y);
            lemma_reports_extended_trans(fc0, fc2, fields_changed, x + y, z);
            lemma_reports_from_fresh(fc0, fields_changed, x + y + z);
        }
        assert(existing@ == RouteView { uid: existing.uid, descriptor: existing.descriptor@, point_a: existing.point_a@,
            point_b: existing.point_b@ });
        Ok(Modification::new(s, fields_changed))
    }
}

impl MaybeIdentifiable for RouteBuilder {
    open spec fn spec_try_uid(&self) -> Result<UID> {
        uid_or_not_generated(self@.identity)
    }

    fn try_uid(&self) -> (r: Result<UID>) {
        match self.identity {
            Some(uid) => Ok(uid),
            None => Err(Error::IdentityNotGenerated),
        }
    }
}

impl BuildableUID for RouteBuilder {
    open spec fn spec_get_uid(&self) -> Option<UID> {
        self@.identity
    }

    closed spec fn spec_with_uid(self, uid: UID) -> Self {
        RouteBuilder { identity: Some(uid), ..self }
    }

    fn uid(&mut self, uid: UID) -> (r: Result<&mut Self>)
        ensures
            r matches Ok(s) && s@ == (RouteBuilderView { identity: Some(uid), ..old(self)@ }),
    {
        proof {
            let w = old(self).spec_with_uid(uid);
            assert(w.spec_get_uid() == Some(uid));
            assert(w.spec_mode() == old(self).spec_mode());
        }
        self.identity = Some(uid);
        Ok(self)
    }

    fn get_uid(&self) -> (r: Option<&UID>) {
        self.identity.as_ref()
    }
}

impl BuildableDescriptor for RouteBuilder {
    open spec fn spec_new_descriptor_mode(&self) -> BuilderMode {
        self@.builder_mode
    }

    open spec fn spec_get_descriptor(&self) -> Option<DescriptorBuilderView> {
        self@.descriptor
    }

    closed spec fn spec_with_descriptor(self, descriptor: DescriptorBuilder) -> Self {
        RouteBuilder { descriptor: Some(descriptor), ..self }
    }

    fn descriptor(&mut self, descriptor: DescriptorBuilder) -> (r: Result<&mut Self>)
        ensures
            r matches Ok(s) && s@ == (RouteBuilderView { descriptor: Some(descriptor@), ..old(self)@ }),
    {
        self.descriptor = Some(descriptor);
        Ok(self)
    }

    fn descriptor_builder(&mut self) -> (r: &mut DescriptorBuilder) {
        if self.descriptor.is_none() {
            self.descriptor = Some(match self.builder_mode {
                BuilderMode::Creator => DescriptorBuilder::creator(),
                BuilderMode::Editor => DescriptorBuilder::editor(),
            });
        }
        proof {
            assert(forall|d: DescriptorBuilder| #[trigger] old(self).spec_with_descriptor(d)
                == RouteBuilder { descriptor: Some(d), ..*old(self) });
        }
        self.descriptor.as_mut().unwrap()
    }
}

impl RouteBuilder {
    pub fn point_a(&mut self, point_a: PointBuilder) -> (r: Result<&mut Self>)
        ensures
            r matches Ok(s) && s@ == (RouteBuilderView { point_a: Some(point_a@), ..old(self)@ })
                && s.spec_point_a() == Some(point_a) && s.spec_point_b() == old(self).spec_point_b()
                && *final(self) == *final(s),
    {
        self.point_a = Some(point_a);
        Ok(self)
    }

    /// Point B must be an endpoint.
    pub fn point_b(&mut self, point_b: PointBuilder) -> (r: Result<&mut Self>)
        requires
            point_b is Endpoint,
        ensures
            r matches Ok(s) && s@ == (RouteBuilderView { point_b: Some(point_b@), ..old(self)@ })
                && s.spec_point_b() == Some(point_b) && s.spec_point_a() == old(self).spec_point_a()
                && *final(self) == *final(s),
    {
        self.point_b = Some(point_b);
        Ok(self)
    }

    /// The areas of the route that this creator builds: point A's, then point B's.
    pub fn creation_area_uids(&self) -> (r: Result<Vec<UID>>)
        requires
            self@.point_a matches Some(a) && point_builder_areas_set(a),
            self@.point_b matches Some(b) && point_builder_areas_set(b),
        ensures
            r matches Ok(v) && v@ == point_builder_area_uids(self@.point_a.unwrap()) + point_builder_area_uids(self@.point_b.unwrap()),
    {
        let mut uids: Vec<UID> = Vec::new();
        let mut a = match &self.point_a {
            Some(p) => p.area_uids()?,
            None => vstd::pervasive::unreached(),
        };
        let mut b = match &self.point_b {
            Some(p) => p.area_uids()?,
            None => vstd::pervasive::unreached(),
        };
        uids.append(&mut a);
        uids.append(&mut b);
        Ok(uids)
    }

    /// The areas of an existing route once this editor has modified it: for each point, the new point's areas when
    /// one was set, else the existing point's.
    pub fn modification_area_uids(&self, existing: &Route) -> (r: Result<Vec<UID>>)
        requires
            self@.point_a matches Some(a) ==> point_builder_areas_set(a),
            self@.point_b matches Some(b) ==> point_builder_areas_set(b),
        ensures
            r matches Ok(v) && v@ == (match self@.point_a {
                Some(a) => point_builder_area_uids(a),
                None => point_area_uids(existing@.point_a),
            }) + (match self@.point_b {
                Some(b) => point_builder_area_uids(b),
                None => point_area_uids(existing@.point_b),
            }),
    {
        let mut uids: Vec<UID> = Vec::new();
        let mut a = match &self.point_a {
            Some(point_a) => point_a.area_uids()?,
            None => existing.point_a.area_uids(),
        };
        uids.append(&mut a);
        let mut b = match &self.point_b {
            Some(point_b) => point_b.area_uids()?,
            None => existing.point_b.area_uids(),
        };
        uids.append(&mut b);
        Ok(uids)
    }
}

/// A builder that holds a list of route operations.
pub trait BuildableRouteVector {
    fn add_route(&mut self, route: RouteBuilder) -> Result<&mut Self>;

    fn edit_route(&mut self, route: RouteBuilder) -> Result<&mut Self>;

    fn remove_route(&mut self, route_uid: UID) -> Result<&mut Self>;
}

/// A builder that holds a list of route UID operations.
pub trait BuildableRouteUIDList {
    fn add_route_uid(&mut self, uid: UID) -> Result<&mut Self>;

    fn remove_route_uid(&mut self, uid: UID) -> Result<&mut Self>;
}

/// The builder that rebuilds a route: its UID, its descriptor and both of its points, rebuilt.
pub open spec fn cloned_route(mode: BuilderMode, r: RouteView) -> RouteBuilderView {
    RouteBuilderView {
        builder_mode: mode,
        identity: Some(r.uid),
        descriptor: Some(crate::descriptor::cloned_descriptor(mode, r.descriptor)),
        point_a: Some(cloned_point(mode, r.point_a)),
        point_b: Some(cloned_point(mode, r.point_b)),
    }
}

impl CloneBuilding for RouteBuilder {
    fn clone_model(builder_mode: BuilderMode, existing: &Route) -> (r: Self)
        ensures
            r@.builder_mode == builder_mode,
            r@.identity == Some(existing@.uid),
            r@ == cloned_route(builder_mode, existing@),
    {
        Self {
            builder_mode,
            identity: Some(existing.uid),
            descriptor: Some(DescriptorBuilder::clone_model(builder_mode, &existing.descriptor)),
            point_a: Some(PointBuilder::clone_model(builder_mode, &existing.point_a)),
            point_b: Some(PointBuilder::clone_model(builder_mode, &existing.point_b)),
        }
    }
}

/// A builder cloned from a route whose points are endpoints (as a route's points are) creates that same route,
/// in either mode.
pub proof fn lemma_clone_recreates_route(b: RouteBuilder, mode: BuilderMode, r: RouteView)
    requires
        b@ == cloned_route(mode, r),
        r.point_a is Endpoint,
        r.point_b is Endpoint,
    ensures
        created_route(b) matches Ok((_, m)) && m == r,
{
    b.lemma_points_view();
    crate::descriptor::lemma_clone_recreates_descriptor(mode, r.descriptor);
    let pa = b.spec_point_a()->Some_0;
    let pb = b.spec_point_b()->Some_0;
    assert(pa@ == cloned_point(mode, r.point_a));
    assert(pb@ == cloned_point(mode, r.point_b));
    match (pa, r.point_a) {
        (PointBuilder::Endpoint(eb), PointView::Endpoint(e)) => {
            lemma_clone_recreates_endpoint(mode, e);
            assert(eb@ == cloned_endpoint(mode, e));
        },
        _ => {},
    }
    match (pb, r.point_b) {
        (PointBuilder::Endpoint(eb), PointView::Endpoint(e)) => {
            lemma_clone_recreates_endpoint(mode, e);
            assert(eb@ == cloned_endpoint(mode, e));
        },
        _ => {},
    }
}

/// Editing a route whose points are endpoints with an editor cloned from it changes nothing.
pub proof fn lemma_cloned_editor_keeps_route(b: RouteBuilder, r: RouteView)
    requires
        b@ == cloned_route(BuilderMode::Editor, r),
        r.point_a is Endpoint,
        r.point_b is Endpoint,
    ensures
        modified_route(b, r).0 == r,
        modified_route(b, r).1 is Ok,
{
    b.lemma_points_view();
    crate::descriptor::lemma_cloned_editor_keeps_descriptor(r.descriptor);
    let pa = b.spec_point_a()->Some_0;
    let pb = b.spec_point_b()->Some_0;
    assert(pa@ == cloned_point(BuilderMode::Editor, r.point_a));
    assert(pb@ == cloned_point(BuilderMode::Editor, r.point_b));
    match (pa, r.point_a) {
        (PointBuilder::Endpoint(eb), PointView::Endpoint(e)) => {
            crate::route::end::lemma_cloned_editor_keeps_end(e.end);
            assert(eb@ == cloned_endpoint(BuilderMode::Editor, e));
        },
        _ => {},
    }
    match (pb, r.point_b) {
        (PointBuilder::Endpoint(eb), PointView::Endpoint(e)) => {
            crate::route::end::lemma_cloned_editor_keeps_end(e.end);
            assert(eb@ == cloned_endpoint(BuilderMode::Editor, e));
        },
        _ => {},
    }
}

/// A route has an end at an area exactly when the area is among the route's areas; that end is at the area,
/// and it is point A's when both points reach the area.
pub proof fn lemma_route_end_for_area(r: RouteView, area_uid: UID)
    ensures
        route_end_for_area(r, area_uid) is None <==> !route_area_uids(r).contains(area_uid),
        route_end_for_area(r, area_uid) matches Some(e) ==> e.area_uid == area_uid,
        point_end_for_area(r.point_a, area_uid) is Some ==> route_end_for_area(r, area_uid) == point_end_for_area(r.point_a, area_uid),
{
    crate::route::point::lemma_point_end_for_area(r.point_a, area_uid);
    crate::route::point::lemma_point_end_for_area(r.point_b, area_uid);
    let a = point_area_uids(r.point_a);
    let b = point_area_uids(r.point_b);
    let ids = route_area_uids(r);
    if ids.contains(area_uid) {
        let k = choose|k: int| 0 <= k < ids.len() && ids[k] == area_uid;
        if k < a.len() {
            assert(a[k] == ids[k]);
        } else {
            assert(b[k - a.len()] == ids[k]);
        }
    }
    if a.contains(area_uid) {
        let k = choose|k: int| 0 <= k < a.len() && a[k] == area_uid;
        assert(ids[k] == a[k]);
    }
    if b.contains(area_uid) {
        let k = choose|k: int| 0 <= k < b.len() && b[k] == area_uid;
        assert(ids[a.len() + k] == b[k]);
    }
}

} // verus!
