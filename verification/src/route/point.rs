use vstd::prelude::*;
use crate::error::{Error, Result};
use crate::identity::{Identifiable, UID};
use crate::modeling::{Builder, BuilderMode, ClassIdent, CloneBuilding, Creation, ListOp, Modification};
use crate::modeling::building::{index_of_uid, lemma_index_of_uid, position_of_uid, views_of};
use crate::route::end::{End, EndBuilderView, EndView};
use crate::route::endpoint::{Endpoint, EndpointBuilder, EndpointBuilderView, EndpointView, cloned_endpoint};
use crate::route::junction::{Junction, JunctionBuilder, JunctionBuilderView, JunctionView, cloned_junction};

verus! {

/// One of the two points of a route: an endpoint at one area, or a junction of several.
#[derive(Debug)]
pub enum Point {
    Endpoint(Endpoint),
    Junction(Junction),
}

/// The plain contents of a point.
pub enum PointView {
    Endpoint(EndpointView),
    Junction(JunctionView),
}

impl View for Point {
    type V = PointView;

    open spec fn view(&self) -> PointView {
        match self {
            Point::Endpoint(e) => PointView::Endpoint(e@),
            Point::Junction(j) => PointView::Junction(j@),
        }
    }
}

/// The areas that a point leads to: the endpoint's, or each entrance's of a junction.
pub open spec fn point_area_uids(p: PointView) -> Seq<UID> {
    match p {
        PointView::Endpoint(e) => seq![e.end.area_uid],
        PointView::Junction(j) => j.entrances.map_values(|e: EndView| e.area_uid),
    }
}

/// The end of a point at the given area: the endpoint's, or the first such entrance of a junction.
pub open spec fn point_end_for_area(p: PointView, area_uid: UID) -> Option<EndView> {
    match p {
        PointView::Endpoint(e) => if e.end.area_uid == area_uid { Some(e.end) } else { None },
        PointView::Junction(j) => match index_of_uid::<End>(j.entrances, area_uid) {
            Some(i) => Some(j.entrances[i]),
            None => None,
        },
    }
}

impl Point {
    pub fn area_uids(&self) -> (r: Vec<UID>)
        ensures
            r@ == point_area_uids(self@),
    {
        match self {
            Point::Endpoint(endpoint) => vec![endpoint.end().area_uid()],
            Point::Junction(junction) => {
                let entrances = junction.entrances();
                let mut uids: Vec<UID> = Vec::new();
                let mut i: usize = 0;
                while i < entrances.len()
                    invariant
                        i <= entrances.len(),
                        views_of(entrances@) == junction@.entrances,
                        uids@ == junction@.entrances.subrange(0, i as int).map_values(|e: EndView| e.area_uid),
                    decreases entrances.len() - i,
                {
                    assert(junction@.entrances[i as int] == entrances@[i as int]@);
                    uids.push(entrances[i].area_uid());
                    assert(junction@.entrances.subrange(0, i + 1).map_values(|e: EndView| e.area_uid)
                        =~= junction@.entrances.subrange(0, i as int).map_values(|e: EndView| e.area_uid).push(entrances@[i as int]@.area_uid));
                    i = i + 1;
                }
                assert(junction@.entrances.subrange(0, entrances.len() as int) =~= junction@.entrances);
                uids
            },
        }
    }

    pub fn end_for_area(&self, area_uid: UID) -> (r: Option<&End>)
        ensures
            match r {
                Some(e) => point_end_for_area(self@, area_uid) == Some(e@),
                None => point_end_for_area(self@, area_uid) is None,
            },
    {
        match self {
            Point::Endpoint(endpoint) => {
                if endpoint.end().area_uid() == area_uid {
                    Some(endpoint.end())
                } else {
                    None
                }
            },
            Point::Junction(junction) => {
                let entrances = junction.entrances();
                match position_of_uid(entrances, area_uid) {
                    Some(i) => {
                        proof { lemma_index_of_uid::<End>(views_of(entrances@), area_uid); }
                        assert(views_of(entrances@)[i as int] == entrances@[i as int]@);
                        Some(&entrances[i])
                    },
                    None => None,
                }
            },
        }
    }
}

/// Creates and modifies a `Point`, through the builder of its variant.
#[derive(Debug)]
pub enum PointBuilder {
    Endpoint(EndpointBuilder),
    Junction(JunctionBuilder),
}

/// The plain contents of a point builder.
pub enum PointBuilderView {
    Endpoint(EndpointBuilderView),
    Junction(JunctionBuilderView),
}

impl View for PointBuilder {
    type V = PointBuilderView;

    open spec fn view(&self) -> PointBuilderView {
        match self {
            PointBuilder::Endpoint(b) => PointBuilderView::Endpoint(b@),
            PointBuilder::Junction(b) => PointBuilderView::Junction(b@),
        }
    }
}

impl Builder for PointBuilder {
    type ModelType = Point;

    open spec fn spec_mode(&self) -> BuilderMode {
        match self {
            PointBuilder::Endpoint(b) => b.spec_mode(),
            PointBuilder::Junction(b) => b.spec_mode(),
        }
    }

    open spec fn spec_class_ident(&self) -> ClassIdent {
        match self {
            PointBuilder::Endpoint(b) => b.spec_class_ident(),
            PointBuilder::Junction(b) => b.spec_class_ident(),
        }
    }

    /// A point builder is made from the builder of one of its variants.
    open spec fn spec_has_constructors() -> bool {
        false
    }

    open spec fn spec_creatable(&self) -> bool {
        match self {
            PointBuilder::Endpoint(b) => b.spec_creatable(),
            PointBuilder::Junction(b) => b.spec_creatable(),
        }
    }

    open spec fn spec_create(self) -> Result<(PointBuilderView, PointView)> {
        match self {
            PointBuilder::Endpoint(b) => match b.spec_create() {
                Ok((bv, m)) => Ok((PointBuilderView::Endpoint(bv), PointView::Endpoint(m))),
                Err(e) => Err(e),
            },
            PointBuilder::Junction(b) => match b.spec_create() {
                Ok((bv, m)) => Ok((PointBuilderView::Junction(bv), PointView::Junction(m))),
                Err(e) => Err(e),
            },
        }
    }

    /// The existing point must be of the builder's variant.
    open spec fn spec_modifiable(&self, existing: PointView) -> bool {
        match self {
            PointBuilder::Endpoint(b) => existing matches PointView::Endpoint(e) && b.spec_modifiable(e),
            PointBuilder::Junction(b) => existing matches PointView::Junction(j) && b.spec_modifiable(j),
        }
    }

    open spec fn spec_modify(self, existing: PointView) -> (PointView, Result<PointBuilderView>) {
        match (self, existing) {
            (PointBuilder::Endpoint(b), PointView::Endpoint(e)) => {
                let (e2, res) = b.spec_modify(e);
                (PointView::Endpoint(e2), match res { Ok(bv) => Ok(PointBuilderView::Endpoint(bv)), Err(err) => Err(err) })
            },
            (PointBuilder::Junction(b), PointView::Junction(j)) => {
                let (j2, res) = b.spec_modify(j);
                (PointView::Junction(j2), match res { Ok(bv) => Ok(PointBuilderView::Junction(bv)), Err(err) => Err(err) })
            },
            _ => (existing, Err(Error::IdentityNotGenerated)),
        }
    }

    open spec fn spec_changed(self, existing: PointView) -> Seq<ClassIdent> {
        match (self, existing) {
            (PointBuilder::Endpoint(b), PointView::Endpoint(e)) => b.spec_changed(e),
            (PointBuilder::Junction(b), PointView::Junction(j)) => b.spec_changed(j),
            _ => Seq::empty(),
        }
    }

    fn creator() -> (r: Self) {
        vstd::pervasive::unreached()
    }

    fn editor() -> (r: Self) {
        vstd::pervasive::unreached()
    }

    fn builder_mode(&self) -> (r: BuilderMode) {
        match self {
            PointBuilder::Endpoint(b) => b.builder_mode(),
            PointBuilder::Junction(b) => b.builder_mode(),
        }
    }

    fn class_ident(&self) -> (r: ClassIdent) {
        match self {
            Self::Endpoint(b) => b.class_ident(),
            Self::Junction(b) => b.class_ident(),
        }
    }

    fn create(self) -> (r: Result<Creation<Self, Point>>) {
        match self {
            PointBuilder::Endpoint(b) => {
                let (builder, endpoint) = b.create()?.split();
                Ok(Creation::new(PointBuilder::Endpoint(builder), Point::Endpoint(endpoint)))
            },
            PointBuilder::Junction(b) => {
                let (builder, junction) = b.create()?.split();
                Ok(Creation::new(PointBuilder::Junction(builder), Point::Junction(junction)))
            },
        }
    }

    fn modify(self, existing: &mut Point) -> (r: Result<Modification<Self>>) {
        match self {
            PointBuilder::Endpoint(builder) => match existing {
                Point::Endpoint(orig_endpoint) => {
                    let (builder, fields_changed) = builder.modify(orig_endpoint)?.split();
                    Ok(Modification::new(PointBuilder::Endpoint(builder), fields_changed))
                },
                Point::Junction(_) => vstd::pervasive::unreached(),
            },
            PointBuilder::Junction(builder) => match existing {
                Point::Junction(orig_junction) => {
                    let (builder, fields_changed) = builder.modify(orig_junction)?.split();
                    Ok(Modification::new(PointBuilder::Junction(builder), fields_changed))
                },
                Point::Endpoint(_) => vstd::pervasive::unreached(),
            },
        }
    }
}

/// The builder that rebuilds a point, of the same variant.
pub open spec fn cloned_point(mode: BuilderMode, p: PointView) -> PointBuilderView {
    match p {
        PointView::Endpoint(e) => PointBuilderView::Endpoint(cloned_endpoint(mode, e)),
        PointView::Junction(j) => PointBuilderView::Junction(cloned_junction(mode, j)),
    }
}

impl CloneBuilding for PointBuilder {
    fn clone_model(builder_mode: BuilderMode, existing: &Point) -> (r: Self)
        ensures
            existing is Endpoint ==> r is Endpoint,
            existing is Junction ==> r is Junction,
            r@ == cloned_point(builder_mode, existing@),
    {
        match existing {
            Point::Endpoint(m) => PointBuilder::Endpoint(EndpointBuilder::clone_model(builder_mode, m)),
            Point::Junction(m) => PointBuilder::Junction(JunctionBuilder::clone_model(builder_mode, m)),
        }
    }
}

/// Whether every operation that adds or edits an entrance names its area.
pub open spec fn entrance_areas_set(ops: Seq<ListOp<EndBuilderView, UID>>) -> bool {
    forall|i: int| 0 <= i < ops.len() ==> match #[trigger] ops[i] {
        ListOp::Add(e) => e.area_uid is Some,
        ListOp::Edit(e) => e.area_uid is Some,
        ListOp::Remove(_) => true,
    }
}

/// The areas named by the operations that add or edit an entrance, in order.
pub open spec fn entrance_op_area_uids(ops: Seq<ListOp<EndBuilderView, UID>>) -> Seq<UID>
    decreases ops.len(),
{
    if ops.len() == 0 {
        Seq::empty()
    } else {
        let prev = entrance_op_area_uids(ops.drop_last());
        match ops.last() {
            ListOp::Add(e) => prev.push(e.area_uid.unwrap()),
            ListOp::Edit(e) => prev.push(e.area_uid.unwrap()),
            ListOp::Remove(_) => prev,
        }
    }
}

/// Whether a point builder names the areas of its point: the endpoint's end, or every added or edited entrance.
pub open spec fn point_builder_areas_set(b: PointBuilderView) -> bool {
    match b {
        PointBuilderView::Endpoint(e) => e.end matches Some(end) && end.area_uid is Some,
        PointBuilderView::Junction(j) => entrance_areas_set(j.entrances),
    }
}

/// The areas of the point that a point builder builds.
pub open spec fn point_builder_area_uids(b: PointBuilderView) -> Seq<UID> {
    match b {
        PointBuilderView::Endpoint(e) => seq![e.end.unwrap().area_uid.unwrap()],
        PointBuilderView::Junction(j) => entrance_op_area_uids(j.entrances),
    }
}

impl PointBuilder {
    /// Retrieves all upcoming UIDs for the areas associated with this point.
    /// Expects all UIDs to have been set by now.
    pub fn area_uids(&self) -> (r: Result<Vec<UID>>)
        requires
            point_builder_areas_set(self@),
        ensures
            r matches Ok(v) && v@ == point_builder_area_uids(self@),
    {
        match self {
            PointBuilder::Endpoint(b) => {
                let end = match b.get_end_builder() {
                    Some(end) => end,
                    None => vstd::pervasive::unreached(),
                };
                let uid = match end.get_area_uid() {
                    Some(uid) => *uid,
                    None => vstd::pervasive::unreached(),
                };
                Ok(vec![uid])
            },
            PointBuilder::Junction(b) => {
                let ops = b.entrance_ops();
                let ghost opv = list_op_views_of(ops@);
                let mut uids: Vec<UID> = Vec::new();
                let mut i: usize = 0;
                while i < ops.len()
                    invariant
                        i <= ops.len(),
                        opv == b@.entrances,
                        opv.len() == ops@.len(),
                        forall|k: int| 0 <= k < ops@.len() ==> #[trigger] opv[k] == crate::modeling::list_op_view(ops@[k]),
                        entrance_areas_set(opv),
                        uids@ == entrance_op_area_uids(opv.subrange(0, i as int)),
                    decreases ops.len() - i,
                {
                    assert(opv.subrange(0, i + 1).drop_last() =~= opv.subrange(0, i as int));
                    assert(opv.subrange(0, i + 1).last() == opv[i as int]);
                    match &ops[i] {
                        ListOp::Add(end) => {
                            let uid = match end.get_area_uid() {
                                Some(uid) => *uid,
                                None => vstd::pervasive::unreached(),
                            };
                            uids.push(uid);
                        },
                        ListOp::Edit(end) => {
                            let uid = match end.get_area_uid() {
                                Some(uid) => *uid,
                                None => vstd::pervasive::unreached(),
                            };
                            uids.push(uid);
                        },
                        ListOp::Remove(_) => {},
                    }
                    i = i + 1;
                }
                assert(opv.subrange(0, ops.len() as int) =~= opv);
                Ok(uids)
            },
        }
    }
}

/// The views of a list of builder operations.
pub open spec fn list_op_views_of(ops: Seq<ListOp<crate::route::end::EndBuilder, UID>>) -> Seq<ListOp<EndBuilderView, UID>> {
    crate::modeling::building::list_op_views(ops)
}

/// A model builder that is one of the variants of `PointBuilder`.
pub trait PointBuilderVariant: Builder {
    spec fn spec_point_builder(self) -> PointBuilderView;

    fn point_builder(self) -> (r: PointBuilder)
        ensures
            r@ == self.spec_point_builder(),
    ;
}

impl PointBuilderVariant for EndpointBuilder {
    open spec fn spec_point_builder(self) -> PointBuilderView {
        PointBuilderView::Endpoint(self@)
    }

    fn point_builder(self) -> (r: PointBuilder) {
        PointBuilder::Endpoint(self)
    }
}

impl PointBuilderVariant for JunctionBuilder {
    open spec fn spec_point_builder(self) -> PointBuilderView {
        PointBuilderView::Junction(self@)
    }

    fn point_builder(self) -> (r: PointBuilder) {
        PointBuilder::Junction(self)
    }
}

/// A point has an end at an area exactly when the area is among the point's areas, and that end is at the area.
pub proof fn lemma_point_end_for_area(p: PointView, area_uid: UID)
    ensures
        point_end_for_area(p, area_uid) is None <==> !point_area_uids(p).contains(area_uid),
        point_end_for_area(p, area_uid) matches Some(e) ==> e.area_uid == area_uid,
{
    match p {
        PointView::Endpoint(e) => {
            let ids = point_area_uids(p);
            assert(ids[0] == e.end.area_uid);
            if ids.contains(area_uid) {
                let k = choose|k: int| 0 <= k < ids.len() && ids[k] == area_uid;
                assert(k == 0);
            }
        },
        PointView::Junction(j) => {
            lemma_index_of_uid::<End>(j.entrances, area_uid);
            let ids = point_area_uids(p);
            match index_of_uid::<End>(j.entrances, area_uid) {
                Some(i) => {
                    assert(ids[i] == area_uid);
                },
                None => {
                    if ids.contains(area_uid) {
                        let k = choose|k: int| 0 <= k < ids.len() && ids[k] == area_uid;
                        assert(End::spec_uid_of(j.entrances[k]) != area_uid);
                    }
                },
            }
        },
    }
}

} // verus!
