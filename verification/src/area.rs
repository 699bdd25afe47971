use vstd::prelude::*;
use crate::error::{Error, Result};
use crate::identity::{UID, Identifiable, Keyed, MaybeIdentifiable};
use crate::modeling::{Builder, BuilderMode, BuildableUID, Built, Class, ClassIdent, CodebaseClassID, Creation, Field,
    FieldValueType, Fields, ListOp, Modification, option_view, uid_or_not_generated};
use crate::modeling::building::{Build, apply_uid_ops, first_op_for, no_edits, lemma_reports_from_fresh};
use crate::modeling::fields_changed::{ChangeOp, FieldsChanged};
use crate::descriptor::{BuildableDescriptor, Descriptive, Descriptor, DescriptorBuilder, DescriptorBuilderView,
    DescriptorField, DescriptorView, created_descriptor, descriptor_changes, edited_descriptor};
use crate::route::{BuildableRouteUIDList, RouteField};
use crate::thing::Thing;

verus! {

/// Represents an area that things are located in, generally. There is no exact position.
/// Each area has a fixed set of `Route` objects that link it to other areas.
/// There is a dynamic list of `Thing` objects that are current occupants.
#[derive(Debug)]
pub struct Area {
    uid: UID,
    descriptor: Descriptor,
    route_uids: Vec<UID>,
    occupant_uids: Vec<UID>,
}

/// The plain contents of an area.
pub struct AreaView {
    pub uid: UID,
    pub descriptor: DescriptorView,
    pub route_uids: Seq<UID>,
    pub occupant_uids: Seq<UID>,
}

impl View for Area {
    type V = AreaView;

    closed spec fn view(&self) -> AreaView {
        AreaView {
            uid: self.uid,
            descriptor: self.descriptor@,
            route_uids: self.route_uids@,
            occupant_uids: self.occupant_uids@,
        }
    }
}

impl Keyed for Area {
    open spec fn spec_key(&self) -> Option<Seq<char>> {
        self@.descriptor.key
    }

    fn key(&self) -> (r: Option<&str>) {
        self.descriptor.key()
    }
}

impl Identifiable for Area {
    open spec fn spec_uid_of(v: AreaView) -> UID {
        v.uid
    }

    fn uid(&self) -> (r: UID) {
        assert(Self::spec_uid_of(self@) == self.uid);
        self.uid
    }
}

impl Descriptive for Area {
    closed spec fn spec_descriptor(&self) -> Descriptor {
        self.descriptor
    }

    fn descriptor(&self) -> (r: &Descriptor)
        ensures
            r@ == self@.descriptor,
    {
        &self.descriptor
    }
}

impl Area {
    /// Returns all Thing UIDs currently located here.
    pub fn occupant_uids(&self) -> (r: &Vec<UID>)
        ensures
            r@ == self@.occupant_uids,
    {
        &self.occupant_uids
    }

    pub fn route_uids(&self) -> (r: &Vec<UID>)
        ensures
            r@ == self@.route_uids,
    {
        &self.route_uids
    }
}

/// The fields of an `Area`.
#[derive(Debug, Clone, Copy, PartialEq, Eq, Structural)]
pub enum AreaField {
    Identity,
    Descriptor,
    Routes,
    Occupants,
}

impl AreaField {
    pub open spec fn spec_class_ident_const() -> ClassIdent {
        ClassIdent { class_id: CodebaseClassID::Area.spec_class_id(), classname: "Area" }
    }

    pub fn class_ident_const() -> (r: ClassIdent)
        ensures
            r == Self::spec_class_ident_const(),
    {
        ClassIdent::new(CodebaseClassID::Area.class_id(), "Area")
    }
}

impl Fields for AreaField {
    open spec fn spec_field(&self) -> Field {
        let ci = AreaField::spec_class_ident_const();
        match self {
            AreaField::Identity => Field { class_ident: ci, name: "identity", value_type: FieldValueType::UID(ci) },
            AreaField::Descriptor => Field {
                class_ident: ci,
                name: "descriptor",
                value_type: FieldValueType::Model(DescriptorField::spec_class_ident_const()),
            },
            AreaField::Routes => Field {
                class_ident: ci,
                name: "routes",
                value_type: FieldValueType::UIDList(RouteField::spec_class_ident_const()),
            },
            AreaField::Occupants => Field {
                class_ident: ci,
                name: "occupants",
                value_type: FieldValueType::UIDList(Thing::spec_class_ident_const()),
            },
        }
    }

    fn field(&self) -> (r: Field) {
        let ci = Self::class_ident_const();
        match self {
            Self::Identity => Field::new(ci, "identity", FieldValueType::UID(ci)),
            Self::Descriptor => Field::new(ci, "descriptor", FieldValueType::Model(DescriptorField::class_ident_const())),
            Self::Routes => Field::new(ci, "routes", FieldValueType::UIDList(RouteField::class_ident_const())),
            Self::Occupants => Field::new(ci, "occupants", FieldValueType::UIDList(Thing::class_ident_const())),
        }
    }
}

impl Class for AreaField {
    open spec fn spec_class_ident() -> ClassIdent {
        AreaField::spec_class_ident_const()
    }

    fn class_ident() -> (r: ClassIdent) {
        Self::class_ident_const()
    }
}

/// Creates and modifies an `Area`.
#[derive(Debug)]
pub struct AreaBuilder {
    builder_mode: BuilderMode,
    identity: Option<UID>,
    descriptor: Option<DescriptorBuilder>,
    occupant_uids: Vec<ListOp<UID, UID>>,
    route_uids: Vec<ListOp<UID, UID>>,
}

/// The plain contents of an area builder.
pub struct AreaBuilderView {
    pub builder_mode: BuilderMode,
    pub identity: Option<UID>,
    pub descriptor: Option<DescriptorBuilderView>,
    pub occupant_uids: Seq<ListOp<UID, UID>>,
    pub route_uids: Seq<ListOp<UID, UID>>,
}

impl View for AreaBuilder {
    type V = AreaBuilderView;

    closed spec fn view(&self) -> AreaBuilderView {
        AreaBuilderView {
            builder_mode: self.builder_mode,
            identity: self.identity,
            descriptor: option_view(self.descriptor),
            occupant_uids: self.occupant_uids@,
            route_uids: self.route_uids@,
        }
    }
}

/// An area builder view with nothing set.
pub open spec fn empty_area_builder(mode: BuilderMode) -> AreaBuilderView {
    AreaBuilderView {
        builder_mode: mode,
        identity: None,
        descriptor: None,
        occupant_uids: Seq::empty(),
        route_uids: Seq::empty(),
    }
}

/// The area that a builder creates: its UID and descriptor are required; its occupants and routes are what the
/// builder's operations make of none. The processed builder keeps the operations that took effect.
pub open spec fn created_area(b: AreaBuilderView) -> Result<(AreaBuilderView, AreaView)> {
    match b.identity {
        None => Err(Error::FieldNotSet { class: "Area", field: "identity" }),
        Some(uid) => match b.descriptor {
            None => Err(Error::FieldNotSet { class: "Area", field: "descriptor" }),
            Some(db) => match created_descriptor(db) {
                None => Err(Error::FieldNotSet { class: "Descriptor", field: "name" }),
                Some(descriptor) => {
                    let (occupant_uids, occupant_ops) = apply_uid_ops(b.occupant_uids, Seq::empty());
                    let (route_uids, route_ops) = apply_uid_ops(b.route_uids, Seq::empty());
                    Ok((
                        AreaBuilderView { occupant_uids: occupant_ops, route_uids: route_ops, ..b },
                        AreaView { uid, descriptor, route_uids, occupant_uids },
                    ))
                },
            },
        },
    }
}

/// The area after a builder's changes: the descriptor is edited or replaced, then the occupant and route operations
/// are applied in order. The processed builder holds the area's UID and the operations that took effect.
pub open spec fn modified_area(b: AreaBuilderView, a: AreaView) -> (AreaView, Result<AreaBuilderView>) {
    match edited_descriptor(b.descriptor, a.descriptor) {
        Err(e) => (a, Err(e)),
        Ok(descriptor) => {
            let (occupant_uids, occupant_ops) = apply_uid_ops(b.occupant_uids, a.occupant_uids);
            let (route_uids, route_ops) = apply_uid_ops(b.route_uids, a.route_uids);
            (
                AreaView { descriptor, occupant_uids, route_uids, ..a },
                Ok(AreaBuilderView { identity: Some(a.uid), occupant_uids: occupant_ops, route_uids: route_ops, ..b }),
            )
        },
    }
}

impl Builder for AreaBuilder {
    type ModelType = Area;

    open spec fn spec_mode(&self) -> BuilderMode {
        self@.builder_mode
    }

    open spec fn spec_class_ident(&self) -> ClassIdent {
        AreaField::spec_class_ident_const()
    }

    open spec fn spec_has_constructors() -> bool {
        true
    }

    /// UID list operations never edit.
    open spec fn spec_creatable(&self) -> bool {
        no_edits(self@.occupant_uids) && no_edits(self@.route_uids)
    }

    open spec fn spec_create(self) -> Result<(AreaBuilderView, AreaView)> {
        created_area(self@)
    }

    /// A UID that was set must be the existing area's; UID list operations never edit.
    open spec fn spec_modifiable(&self, existing: AreaView) -> bool {
        &&& self@.identity matches Some(u) ==> u == existing.uid
        &&& no_edits(self@.occupant_uids) && no_edits(self@.route_uids)
    }

    open spec fn spec_modify(self, existing: AreaView) -> (AreaView, Result<AreaBuilderView>) {
        modified_area(self@, existing)
    }

    open spec fn spec_changed(self, existing: AreaView) -> Seq<ClassIdent> {
        descriptor_changes(self@.descriptor)
    }

    fn creator() -> (r: Self)
        ensures
            r@ == empty_area_builder(BuilderMode::Creator),
    {
        Self {
            builder_mode: BuilderMode::Creator,
            identity: None,
            descriptor: None,
            occupant_uids: Vec::new(),
            route_uids: Vec::new(),
        }
    }

    fn editor() -> (r: Self)
        ensures
            r@ == empty_area_builder(BuilderMode::Editor),
    {
        Self {
            builder_mode: BuilderMode::Editor,
            identity: None,
            descriptor: None,
            occupant_uids: Vec::new(),
            route_uids: Vec::new(),
        }
    }

    fn builder_mode(&self) -> (r: BuilderMode) {
        self.builder_mode
    }

    fn class_ident(&self) -> (r: ClassIdent) {
        AreaField::class_ident_const()
    }

    fn create(self) -> (r: Result<Creation<Self, Area>>) {
        let mut s = self;
        let op = match s.builder_mode {
            BuilderMode::Creator => ChangeOp::Create,
            BuilderMode::Editor => ChangeOp::Modify,
        };
        let mut fields_changed = FieldsChanged::new(AreaField::class_ident_const(), op);
        let uid = Build::create_uid(&mut s.identity, &mut fields_changed, AreaField::Identity)?;
        let descriptor = Build::create(&mut s.descriptor, &mut fields_changed, AreaField::Descriptor)?;
        let occupant_uids = Build::create_uid_vec(&mut s.occupant_uids, &mut fields_changed, AreaField::Occupants)?;
        let route_uids = Build::create_uid_vec(&mut s.route_uids, &mut fields_changed, AreaField::Routes)?;
        let area = Area { uid, descriptor, occupant_uids, route_uids };
        assert(area@ == AreaView { uid, descriptor: descriptor@, route_uids: route_uids@, occupant_uids: occupant_uids@ });
        Ok(Creation::new(s, area))
    }

    fn modify(self, existing: &mut Area) -> (r: Result<Modification<Self>>) {
        let mut s = self;
        if s.identity.is_none() {
            s.identity = Some(existing.uid);
        }
        let op = match s.builder_mode {
            BuilderMode::Creator => ChangeOp::Create,
            BuilderMode::Editor => ChangeOp::Modify,
        };
        let mut fields_changed = FieldsChanged::new(AreaField::class_ident_const(), op);
        let ghost fresh = fields_changed;
        Build::modify(&mut s.descriptor, &mut existing.descriptor, &mut fields_changed, AreaField::Descriptor)?;
        if s.occupant_uids.len() != 0 {
            Build::modify_uid_vec(&mut s.occupant_uids, &mut existing.occupant_uids, &mut fields_changed, AreaField::Occupants)?;
        } else {
            assert(s.occupant_uids@ =~= Seq::<ListOp<UID, UID>>::empty());
        }
        if s.route_uids.len() != 0 {
            Build::modify_uid_vec(&mut s.route_uids, &mut existing.route_uids, &mut fields_changed, AreaField::Routes)?;
        } else {
            assert(s.route_uids@ =~= Seq::<ListOp<UID, UID>>::empty());
        }
        proof {
            lemma_reports_from_fresh(fresh, fields_changed, descriptor_changes(self@.descriptor));
        }
        assert(existing@ == AreaView { uid: existing.uid, descriptor: existing.descriptor@, route_uids: existing.route_uids@,
            occupant_uids: existing.occupant_uids@ });
        Ok(Modification::new(s, fields_changed))
    }
}

impl MaybeIdentifiable for AreaBuilder {
    open spec fn spec_try_uid(&self) -> Result<UID> {
        uid_or_not_generated(self@.identity)
    }

    fn try_uid(&self) -> (r: Result<UID>) {
        match self.identity {
            Some(uid) => Ok(uid),
            None => Err(Error::IdentityNotGenerated),
        }
    }
}

impl BuildableUID for AreaBuilder {
    open spec fn spec_get_uid(&self) -> Option<UID> {
        self@.identity
    }

    closed spec fn spec_with_uid(self, uid: UID) -> Self {
        AreaBuilder { identity: Some(uid), ..self }
    }

    fn uid(&mut self, uid: UID) -> (r: Result<&mut Self>)
        ensures
            r matches Ok(s) && s@ == (AreaBuilderView { identity: Some(uid), ..old(self)@ }),
    {
        proof {
            let w = old(self).spec_with_uid(uid);
            assert(w.spec_get_uid() == Some(uid));
            assert(w.spec_mode() == old(self).spec_mode());
        }
        self.identity = Some(uid);
        Ok(self)
    }

    fn get_uid(&self) -> (r: Option<&UID>) {
        self.identity.as_ref()
    }
}

impl BuildableDescriptor for AreaBuilder {
    open spec fn spec_new_descriptor_mode(&self) -> BuilderMode {
        self@.builder_mode
    }

    open spec fn spec_get_descriptor(&self) -> Option<DescriptorBuilderView> {
        self@.descriptor
    }

    closed spec fn spec_with_descriptor(self, descriptor: DescriptorBuilder) -> Self {
        AreaBuilder { descriptor: Some(descriptor), ..self }
    }

    fn descriptor(&mut self, descriptor: DescriptorBuilder) -> (r: Result<&mut Self>)
        ensures
            r matches Ok(s) && s@ == (AreaBuilderView { descriptor: Some(descriptor@), ..old(self)@ }),
    {
        self.descriptor = Some(descriptor);
        Ok(self)
    }

    fn descriptor_builder(&mut self) -> (r: &mut DescriptorBuilder) {
        if self.descriptor.is_none() {
            self.descriptor = Some(match self.builder_mode {
                BuilderMode::Creator => DescriptorBuilder::creator(),
                BuilderMode::Editor => DescriptorBuilder::editor(),
            });
        }
        proof {
            assert(forall|d: DescriptorBuilder| #[trigger] old(self).spec_with_descriptor(d)
                == AreaBuilder { descriptor: Some(d), ..*old(self) });
        }
        self.descriptor.as_mut().unwrap()
    }
}

impl Built for Area {
    type BuilderType = AreaBuilder;
}

/// A builder that holds a list of area operations.
pub trait BuildableAreaVector {
    fn add_area(&mut self, area: AreaBuilder) -> Result<&mut Self>;

    fn edit_area(&mut self, area: AreaBuilder) -> Result<&mut Self>;

    fn remove_area(&mut self, area_uid: UID) -> Result<&mut Self>;
}

/// The list of UID operations after asking to add `uid`: an `Add` is appended unless the first operation on `uid`
/// is already an `Add` (left as is) or a `Remove` (an error).
pub open spec fn uid_ops_after_add(ops: Seq<ListOp<UID, UID>>, uid: UID) -> Seq<ListOp<UID, UID>> {
    match first_op_for(ops, uid) {
        None => ops.push(ListOp::Add(uid)),
        Some(_) => ops,
    }
}

/// The list of UID operations after asking to remove `uid`: a `Remove` is appended unless the first operation on
/// `uid` is already a `Remove` (left as is) or an `Add` (an error).
pub open spec fn uid_ops_after_remove(ops: Seq<ListOp<UID, UID>>, uid: UID) -> Seq<ListOp<UID, UID>> {
    match first_op_for(ops, uid) {
        None => ops.push(ListOp::Remove(uid)),
        Some(_) => ops,
    }
}

/// The race error for adding a UID that is being removed from the area, or removing one that is being added.
pub open spec fn area_race(op: &'static str, uid: UID, whiled: &'static str) -> Error {
    Error::ListOpRace { op, model: "Area", uid, whiled }
}

impl AreaBuilder {
    pub fn add_occupant_uid(&mut self, thing_uid: UID) -> (r: Result<&mut Self>)
        requires
            !(first_op_for(old(self)@.occupant_uids, thing_uid) matches Some(ListOp::Edit(_))),
        ensures
            match first_op_for(old(self)@.occupant_uids, thing_uid) {
                Some(ListOp::Remove(_)) => r matches Err(e) && e == area_race("add", thing_uid, "removed") && final(self)@ == old(self)@,
                _ => r matches Ok(s) && *final(self) == *final(s) && s@ == (AreaBuilderView {
                    occupant_uids: uid_ops_after_add(old(self)@.occupant_uids, thing_uid),
                    ..old(self)@
                }),
            },
    {
        let res = Build::add_uid_to_listops(thing_uid, &mut self.occupant_uids, AreaField::Occupants);
        assert(self@ == AreaBuilderView { occupant_uids: self.occupant_uids@, ..old(self)@ });
        match res {
            Ok(()) => Ok(self),
            Err(e) => Err(e),
        }
    }

    pub fn remove_occupant_uid(&mut self, thing_uid: UID) -> (r: Result<&mut Self>)
        requires
            !(first_op_for(old(self)@.occupant_uids, thing_uid) matches Some(ListOp::Edit(_))),
        ensures
            match first_op_for(old(self)@.occupant_uids, thing_uid) {
                Some(ListOp::Add(_)) => r matches Err(e) && e == area_race("remove", thing_uid, "added") && final(self)@ == old(self)@,
                _ => r matches Ok(s) && *final(self) == *final(s) && s@ == (AreaBuilderView {
                    occupant_uids: uid_ops_after_remove(old(self)@.occupant_uids, thing_uid),
                    ..old(self)@
                }),
            },
    {
        let res = Build::remove_uid_from_listops(thing_uid, &mut self.occupant_uids, AreaField::Occupants);
        assert(self@ == AreaBuilderView { occupant_uids: self.occupant_uids@, ..old(self)@ });
        match res {
            Ok(()) => Ok(self),
            Err(e) => Err(e),
        }
    }
}

impl BuildableRouteUIDList for AreaBuilder {
    /// Adds an `Add` of the route, as `add_occupant_uid` does for occupants; an edit of the route already in
    /// the list is refused.
    fn add_route_uid(&mut self, route_uid: UID) -> (r: Result<&mut Self>)
        ensures
            match first_op_for(old(self)@.route_uids, route_uid) {
                Some(ListOp::Edit(_)) => r matches Err(e) && e == (Error::IllegalEditOp { model: "Area", uid: route_uid, context: "routes" })
                    && final(self)@ == old(self)@,
                Some(ListOp::Remove(_)) => r matches Err(e) && e == area_race("add", route_uid, "removed") && final(self)@ == old(self)@,
                _ => r matches Ok(s) && *final(self) == *final(s) && s@ == (AreaBuilderView {
                    route_uids: uid_ops_after_add(old(self)@.route_uids, route_uid),
                    ..old(self)@
                }),
            },
    {
        if Self::has_route_edit(&self.route_uids, route_uid) {
            return Err(Error::IllegalEditOp { model: "Area", uid: route_uid, context: "routes" });
        }
        let res = Build::add_uid_to_listops(route_uid, &mut self.route_uids, AreaField::Occupants);
        assert(self@ == AreaBuilderView { route_uids: self.route_uids@, ..old(self)@ });
        match res {
            Ok(()) => Ok(self),
            Err(e) => Err(e),
        }
    }

    /// Adds a `Remove` of the route, as `remove_occupant_uid` does for occupants; an edit of the route already
    /// in the list is refused.
    fn remove_route_uid(&mut self, route_uid: UID) -> (r: Result<&mut Self>)
        ensures
            match first_op_for(old(self)@.route_uids, route_uid) {
                Some(ListOp::Edit(_)) => r matches Err(e) && e == (Error::IllegalEditOp { model: "Area", uid: route_uid, context: "routes" })
                    && final(self)@ == old(self)@,
                Some(ListOp::Add(_)) => r matches Err(e) && e == area_race("remove", route_uid, "added") && final(self)@ == old(self)@,
                _ => r matches Ok(s) && *final(self) == *final(s) && s@ == (AreaBuilderView {
                    route_uids: uid_ops_after_remove(old(self)@.route_uids, route_uid),
                    ..old(self)@
                }),
            },
    {
        if Self::has_route_edit(&self.route_uids, route_uid) {
            return Err(Error::IllegalEditOp { model: "Area", uid: route_uid, context: "routes" });
        }
        let res = Build::remove_uid_from_listops(route_uid, &mut self.route_uids, AreaField::Occupants);
        assert(self@ == AreaBuilderView { route_uids: self.route_uids@, ..old(self)@ });
        match res {
            Ok(()) => Ok(self),
            Err(e) => Err(e),
        }
    }
}

impl AreaBuilder {
    /// Whether the first operation on `uid` in `ops` is an edit.
    fn has_route_edit(ops: &Vec<ListOp<UID, UID>>, uid: UID) -> (r: bool)
        ensures
            r == (first_op_for(ops@, uid) matches Some(ListOp::Edit(_))),
    {
        let mut i: usize = 0;
        assert(ops@.skip(0) =~= ops@);
        while i < ops.len()
            invariant
                i <= ops@.len(),
                first_op_for(ops@, uid) == first_op_for(ops@.skip(i as int), uid),
            decreases ops@.len() - i,
        {
            let ghost rest = ops@.skip(i as int);
            assert(rest.drop_first() =~= ops@.skip(i + 1));
            assert(rest[0] == ops@[i as int]);
            match &ops[i] {
                ListOp::Add(u) => {
                    if *u == uid {
                        return false;
                    }
                },
                ListOp::Edit(u) => {
                    if *u == uid {
                        return true;
                    }
                },
                ListOp::Remove(u) => {
                    if *u == uid {
                        return false;
                    }
                },
            }
            i = i + 1;
        }
        false
    }
}

/// An editor with nothing set leaves an area as it is: mutation occurs only against what is set.
pub proof fn lemma_empty_editor_keeps_area(a: AreaView)
    ensures
        modified_area(empty_area_builder(BuilderMode::Editor), a).0 == a,
        modified_area(empty_area_builder(BuilderMode::Editor), a).1 is Ok,
{
}

} // verus!
