use vstd::prelude::*;
use crate::error::{Error, Result};
use crate::identity::UID;
use crate::modeling::{subject_of, Builder, BuilderMode, Built, Class, ClassIdent, CloneBuilding, CodebaseClassID, Creation, Field,
    FieldValueType, Fields, ListOp, Modification, option_view};
use crate::modeling::building::{Build, apply_model_ops, list_op_views, model_ops_ok, views_of,
    lemma_reports_extended_refl, lemma_reports_from_fresh};
use crate::modeling::fields_changed::{ChangeOp, FieldsChanged};
use crate::route::end::{End, EndBuilder, EndBuilderView, EndField, EndView, cloned_end, created_end};

verus! {

/// The point of a route where several entrances lead to one exit.
#[derive(Debug)]
pub struct Junction {
    entrances: Vec<End>,
    exit: End,
}

/// The plain contents of a junction.
pub struct JunctionView {
    pub entrances: Seq<EndView>,
    pub exit: EndView,
}

impl View for Junction {
    type V = JunctionView;

    closed spec fn view(&self) -> JunctionView {
        JunctionView { entrances: views_of(self.entrances@), exit: self.exit@ }
    }
}

impl Built for Junction {
    type BuilderType = JunctionBuilder;
}

impl Junction {
    pub fn entrances(&self) -> (r: &Vec<End>)
        ensures
            views_of(r@) == self@.entrances,
    {
        &self.entrances
    }

    pub fn exit(&self) -> (r: &End)
        ensures
            r@ == self@.exit,
    {
        &self.exit
    }
}

/// The fields of a `Junction`.
#[derive(Debug, Clone, Copy, PartialEq, Eq, Structural)]
pub enum JunctionField {
    Entrances,
    Exit,
}

impl JunctionField {
    pub open spec fn spec_class_ident_const() -> ClassIdent {
        ClassIdent { class_id: CodebaseClassID::Junction.spec_class_id(), classname: "Junction" }
    }

    pub fn class_ident_const() -> (r: ClassIdent)
        ensures
            r == Self::spec_class_ident_const(),
    {
        ClassIdent::new(CodebaseClassID::Junction.class_id(), "Junction")
    }
}

impl Fields for JunctionField {
    open spec fn spec_field(&self) -> Field {
        let ci = JunctionField::spec_class_ident_const();
        match self {
            JunctionField::Entrances => Field {
                class_ident: ci,
                name: "entrances",
                value_type: FieldValueType::ModelList(EndField::spec_class_ident_const()),
            },
            JunctionField::Exit => Field { class_ident: ci, name: "exit", value_type: FieldValueType::Model(EndField::spec_class_ident_const()) },
        }
    }

    fn field(&self) -> (r: Field) {
        let ci = Self::class_ident_const();
        match self {
            Self::Entrances => Field::new(ci, "entrances", FieldValueType::ModelList(EndField::class_ident_const())),
            Self::Exit => Field::new(ci, "exit", FieldValueType::Model(EndField::class_ident_const())),
        }
    }
}

impl Class for JunctionField {
    open spec fn spec_class_ident() -> ClassIdent {
        JunctionField::spec_class_ident_const()
    }

    fn class_ident() -> (r: ClassIdent) {
        Self::class_ident_const()
    }
}

/// Creates and modifies a `Junction`.
#[derive(Debug)]
pub struct JunctionBuilder {
    builder_mode: BuilderMode,
    entrances: Vec<ListOp<EndBuilder, UID>>,
    exit: Option<EndBuilder>,
}

/// The plain contents of a junction builder.
pub struct JunctionBuilderView {
    pub builder_mode: BuilderMode,
    pub entrances: Seq<ListOp<EndBuilderView, UID>>,
    pub exit: Option<EndBuilderView>,
}

impl View for JunctionBuilder {
    type V = JunctionBuilderView;

    closed spec fn view(&self) -> JunctionBuilderView {
        JunctionBuilderView {
            builder_mode: self.builder_mode,
            entrances: list_op_views(self.entrances@),
            exit: option_view(self.exit),
        }
    }
}

impl JunctionBuilder {
    /// The pending entrance operations.
    pub closed spec fn spec_entrance_ops(self) -> Seq<ListOp<EndBuilder, UID>> {
        self.entrances@
    }
}

/// The junction that a builder creates from its entrance operations: at least one operation and the exit are
/// required; the entrances are those the operations make from none.
/// The builder that rebuilds a junction: each entrance added from a rebuilt end, and the exit rebuilt.
pub open spec fn cloned_junction(mode: BuilderMode, j: JunctionView) -> JunctionBuilderView {
    JunctionBuilderView {
        builder_mode: mode,
        entrances: j.entrances.map_values(|e: EndView| ListOp::<EndBuilderView, UID>::Add(cloned_end(mode, e))),
        exit: Some(cloned_end(mode, j.exit)),
    }
}

pub open spec fn created_junction(b: JunctionBuilder) -> Result<(JunctionBuilderView, JunctionView)> {
    let ops = b.spec_entrance_ops();
    if ops.len() == 0 {
        Err(Error::FieldNotSet { class: "Junction", field: "entrances" })
    } else {
        match apply_model_ops(ops, Seq::<EndView>::empty(), "End") {
            (_, Err(e)) => Err(e),
            (entrances, Ok(kept)) => match b@.exit {
                None => Err(Error::FieldNotSet { class: "Junction", field: "exit" }),
                Some(eb) => match created_end(eb) {
                    Err(e) => Err(e),
                    Ok(exit) => Ok((JunctionBuilderView { entrances: kept, ..b@ }, JunctionView { entrances, exit })),
                },
            },
        }
    }
}

/// The junction after a builder's changes: its entrance operations, when there are any, are applied in order; a
/// set exit is replaced by a newly created one.
pub open spec fn modified_junction(b: JunctionBuilder, j: JunctionView) -> (JunctionView, Result<JunctionBuilderView>) {
    let ops = b.spec_entrance_ops();
    let (entrances, res) = if ops.len() == 0 {
        (j.entrances, Ok(b@.entrances))
    } else {
        apply_model_ops(ops, j.entrances, "End")
    };
    match res {
        Err(e) => (JunctionView { entrances, ..j }, Err(e)),
        Ok(kept) => match b@.exit {
            None => (JunctionView { entrances, ..j }, Ok(JunctionBuilderView { entrances: kept, ..b@ })),
            Some(eb) => match created_end(eb) {
                Err(e) => (JunctionView { entrances, ..j }, Err(e)),
                Ok(exit) => (JunctionView { entrances, exit }, Ok(JunctionBuilderView { entrances: kept, ..b@ })),
            },
        },
    }
}

impl Builder for JunctionBuilder {
    type ModelType = Junction;

    open spec fn spec_mode(&self) -> BuilderMode {
        self@.builder_mode
    }

    open spec fn spec_class_ident(&self) -> ClassIdent {
        JunctionField::spec_class_ident_const()
    }

    open spec fn spec_has_constructors() -> bool {
        true
    }

    /// An entrance can only be edited by an editor.
    open spec fn spec_creatable(&self) -> bool {
        model_ops_ok(self.spec_entrance_ops(), Seq::<EndView>::empty(), "End")
    }

    open spec fn spec_create(self) -> Result<(JunctionBuilderView, JunctionView)> {
        created_junction(self)
    }

    /// An entrance can only be edited by an editor.
    open spec fn spec_modifiable(&self, existing: JunctionView) -> bool {
        model_ops_ok(self.spec_entrance_ops(), existing.entrances, "End")
    }

    open spec fn spec_modify(self, existing: JunctionView) -> (JunctionView, Result<JunctionBuilderView>) {
        modified_junction(self, existing)
    }

    open spec fn spec_changed(self, existing: JunctionView) -> Seq<ClassIdent> {
        Seq::empty()
    }

    fn creator() -> (r: Self)
        ensures
            r@ == (JunctionBuilderView { builder_mode: BuilderMode::Creator, entrances: Seq::empty(), exit: None }),
            r.spec_entrance_ops() == Seq::<ListOp<EndBuilder, UID>>::empty(),
    {
        let r = Self { builder_mode: BuilderMode::Creator, entrances: Vec::new(), exit: None };
        assert(list_op_views(r.entrances@) =~= Seq::empty());
        r
    }

    fn editor() -> (r: Self)
        ensures
            r@ == (JunctionBuilderView { builder_mode: BuilderMode::Editor, entrances: Seq::empty(), exit: None }),
            r.spec_entrance_ops() == Seq::<ListOp<EndBuilder, UID>>::empty(),
    {
        let r = Self { builder_mode: BuilderMode::Editor, entrances: Vec::new(), exit: None };
        assert(list_op_views(r.entrances@) =~= Seq::empty());
        r
    }

    fn builder_mode(&self) -> (r: BuilderMode) {
        self.builder_mode
    }

    fn class_ident(&self) -> (r: ClassIdent) {
        JunctionField::class_ident_const()
    }

    fn create(self) -> (r: Result<Creation<Self, Junction>>) {
        let mut s = self;
        let op = match s.builder_mode {
            BuilderMode::Creator => ChangeOp::Create,
            BuilderMode::Editor => ChangeOp::Modify,
        };
        let mut fields_changed = FieldsChanged::new(JunctionField::class_ident_const(), op);
        if s.entrances.len() == 0 {
            return Err(Error::FieldNotSet { class: "Junction", field: "entrances" });
        }
        assert(subject_of(JunctionField::Entrances.spec_field()).classname == "End");
        let entrances = Build::create_vec(&mut s.entrances, &mut fields_changed, JunctionField::Entrances)?;
        let exit = Build::create(&mut s.exit, &mut fields_changed, JunctionField::Exit)?;
        let junction = Junction { entrances, exit };
        assert(junction@ == JunctionView { entrances: views_of(entrances@), exit: exit@ });
        assert(s@ == JunctionBuilderView { entrances: list_op_views(s.entrances@), ..self@ });
        Ok(Creation::new(s, junction))
    }

    fn modify(self, existing: &mut Junction) -> (r: Result<Modification<Self>>) {
        let mut s = self;
        let op = match s.builder_mode {
            BuilderMode::Creator => ChangeOp::Create,
            BuilderMode::Editor => ChangeOp::Modify,
        };
        let mut fields_changed = FieldsChanged::new(JunctionField::class_ident_const(), op);
        let ghost fresh = fields_changed;
        assert(subject_of(JunctionField::Entrances.spec_field()).classname == "End");
        assert(views_of(existing.entrances@) == old(existing)@.entrances);
        assert(s.entrances@ == self.spec_entrance_ops());
        if s.entrances.len() != 0 {
            Build::modify_vec(&mut s.entrances, &mut existing.entrances, &mut fields_changed, JunctionField::Entrances)?;
        }
        if s.exit.is_some() {
            let exit = Build::create(&mut s.exit, &mut fields_changed, JunctionField::Exit)?;
            existing.exit = exit;
        }
        proof {
            lemma_reports_extended_refl(fresh);
            lemma_reports_from_fresh(fresh, fields_changed, Seq::empty());
        }
        assert(existing@ == JunctionView { entrances: views_of(existing.entrances@), exit: existing.exit@ });
        assert(s@ == JunctionBuilderView { entrances: list_op_views(s.entrances@), ..self@ });
        Ok(Modification::new(s, fields_changed))
    }
}

impl CloneBuilding for JunctionBuilder {
    /// Entrances are added and the exit set from builders that rebuild the existing ones.
    fn clone_model(builder_mode: BuilderMode, existing: &Junction) -> (r: Self)
        ensures
            r@.builder_mode == builder_mode,
            r@.entrances.len() == existing@.entrances.len(),
            forall|i: int| 0 <= i < existing@.entrances.len()
                ==> #[trigger] r@.entrances[i] == ListOp::<EndBuilderView, UID>::Add(cloned_end(builder_mode, existing@.entrances[i])),
            r@.exit == Some(cloned_end(builder_mode, existing@.exit)),
            r@ == cloned_junction(builder_mode, existing@),
    {
        let mut entrances: Vec<ListOp<EndBuilder, UID>> = Vec::new();
        let mut i: usize = 0;
        while i < existing.entrances.len()
            invariant
                i <= existing.entrances.len(),
                entrances@.len() == i,
                forall|k: int| 0 <= k < i ==> #[trigger] list_op_views(entrances@)[k]
                    == ListOp::<EndBuilderView, UID>::Add(cloned_end(builder_mode, existing.entrances@[k]@)),
            decreases existing.entrances.len() - i,
        {
            let ghost before = entrances@;
            entrances.push(ListOp::Add(EndBuilder::clone_model(builder_mode, &existing.entrances[i])));
            assert forall|k: int| 0 <= k < i + 1 implies #[trigger] list_op_views(entrances@)[k]
                == ListOp::<EndBuilderView, UID>::Add(cloned_end(builder_mode, existing.entrances@[k]@)) by {
                if k < i {
                    assert(entrances@[k] == before[k]);
                    assert(list_op_views(before)[k] == ListOp::<EndBuilderView, UID>::Add(cloned_end(builder_mode, existing.entrances@[k]@)));
                }
            }
            i = i + 1;
        }
        let r = Self { builder_mode, entrances, exit: Some(EndBuilder::clone_model(builder_mode, &existing.exit)) };
        assert forall|k: int| 0 <= k < existing@.entrances.len() implies #[trigger] r@.entrances[k]
            == ListOp::<EndBuilderView, UID>::Add(cloned_end(builder_mode, existing@.entrances[k])) by {
            assert(existing@.entrances[k] == existing.entrances@[k]@);
        }
        assert(r@.entrances =~= cloned_junction(builder_mode, existing@).entrances);
        r
    }
}

impl JunctionBuilder {
    pub fn add_entrance(&mut self, end: EndBuilder) -> (r: Result<()>)
        ensures
            r is Ok,
            final(self).spec_entrance_ops() == old(self).spec_entrance_ops().push(ListOp::Add(end)),
            final(self)@ == (JunctionBuilderView { entrances: old(self)@.entrances.push(ListOp::Add(end@)), ..old(self)@ }),
    {
        self.entrances.push(ListOp::Add(end));
        assert(list_op_views(self.entrances@) =~= list_op_views(old(self).entrances@).push(ListOp::Add(end@)));
        Ok(())
    }

    pub fn remove_entrance(&mut self, area_uid: UID) -> (r: Result<()>)
        ensures
            r is Ok,
            final(self).spec_entrance_ops() == old(self).spec_entrance_ops().push(ListOp::Remove(area_uid)),
            final(self)@ == (JunctionBuilderView { entrances: old(self)@.entrances.push(ListOp::Remove(area_uid)), ..old(self)@ }),
    {
        self.entrances.push(ListOp::Remove(area_uid));
        assert(list_op_views(self.entrances@) =~= list_op_views(old(self).entrances@).push(ListOp::Remove(area_uid)));
        Ok(())
    }

    pub fn exit(&mut self, end: EndBuilder) -> (r: Result<()>)
        ensures
            r is Ok,
            final(self).spec_entrance_ops() == old(self).spec_entrance_ops(),
            final(self)@ == (JunctionBuilderView { exit: Some(end@), ..old(self)@ }),
    {
        self.exit = Some(end);
        Ok(())
    }

    /// The pending entrance operations.
    pub fn entrance_ops(&self) -> (r: &Vec<ListOp<EndBuilder, UID>>)
        ensures
            r@ == self.spec_entrance_ops(),
            list_op_views(r@) == self@.entrances,
    {
        &self.entrances
    }
}

} // verus!
