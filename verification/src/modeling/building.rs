use vstd::prelude::*;
use crate::error::{Error, Result};
use crate::identity::{UID, Identifiable, MaybeIdentifiable, uid_of};
use crate::modeling::{Builder, BuilderMode, BuildableUID, ClassIdent, Field, Fields, ListOp, OptionOp, subject_of, option_view, option_op_view, list_op_view};
use crate::modeling::fields_changed::{ChangeOp, FieldsChanged, op_of_mode, reports_modification};

verus! {

/// The error for a required field that was not set.
pub open spec fn field_not_set(field: Field) -> Error {
    Error::FieldNotSet { class: field.class_ident.classname, field: field.name }
}

/// The index of the first occurrence of `uid` in `v`.
pub fn position_of(v: &Vec<UID>, uid: UID) -> (r: Option<usize>)
    ensures
        match r {
            Some(i) => v@.index_of_first(uid) == Some(i as int),
            None => v@.index_of_first(uid) is None,
        },
{
    proof { v@.index_of_first_ensures(uid); }
    let mut i: usize = 0;
    while i < v.len()
        invariant
            i <= v.len(),
            forall|j: int| 0 <= j < i ==> v@[j] != uid,
        decreases v.len() - i,
    {
        if v[i] == uid {
            proof {
                v@.index_of_first_ensures(uid);
                let k = v@.index_of_first(uid).unwrap();
                assert(k == i) by {
                    if k < i {
                        assert(v@[k] != uid);
                    }
                }
            }
            return Some(i);
        }
        i = i + 1;
    }
    proof {
        if v@.contains(uid) {
            let k = choose|k: int| 0 <= k < v@.len() && v@[k] == uid;
            assert(v@[k] != uid);
        }
    }
    None
}

/// What a list of UID operations does to a list of UIDs, and which operations took effect.
/// An `Add` takes effect when the UID is absent and appends it; a `Remove` takes effect when the UID is present
/// and removes its first occurrence. Operations that take no effect are dropped.
pub open spec fn apply_uid_ops(ops: Seq<ListOp<UID, UID>>, uids: Seq<UID>) -> (Seq<UID>, Seq<ListOp<UID, UID>>)
    decreases ops.len(),
{
    if ops.len() == 0 {
        (uids, Seq::empty())
    } else {
        let (prev, kept) = apply_uid_ops(ops.drop_last(), uids);
        match ops.last() {
            ListOp::Add(uid) => if prev.contains(uid) {
                (prev, kept)
            } else {
                (prev.push(uid), kept.push(ListOp::Add(uid)))
            },
            ListOp::Remove(uid) => if prev.contains(uid) {
                (prev.remove_value(uid), kept.push(ListOp::Remove(uid)))
            } else {
                (prev, kept)
            },
            ListOp::Edit(_) => (prev, kept),
        }
    }
}

/// Adding a UID to a list, by an operation after any others, leaves the UID in the list.
pub proof fn lemma_add_then_present(ops: Seq<ListOp<UID, UID>>, uids: Seq<UID>, uid: UID)
    ensures
        apply_uid_ops(ops.push(ListOp::Add(uid)), uids).0.contains(uid),
{
    let all = ops.push(ListOp::Add(uid));
    assert(all.drop_last() =~= ops);
    let prev = apply_uid_ops(ops, uids).0;
    if !prev.contains(uid) {
        assert(prev.push(uid)[prev.len() as int] == uid);
    }
}

/// Removing a UID from a list without duplicates, by an operation after any others, leaves it out of the list.
pub proof fn lemma_remove_then_absent(ops: Seq<ListOp<UID, UID>>, uids: Seq<UID>, uid: UID)
    requires
        apply_uid_ops(ops, uids).0.no_duplicates(),
    ensures
        !apply_uid_ops(ops.push(ListOp::Remove(uid)), uids).0.contains(uid),
{
    let all = ops.push(ListOp::Remove(uid));
    assert(all.drop_last() =~= ops);
    let prev = apply_uid_ops(ops, uids).0;
    if prev.contains(uid) {
        lemma_remove_value_unique(prev, uid);
    }
}

/// Removing a listed UID deletes just its first occurrence: every other UID of the list stays, in order;
/// removing an unlisted UID changes nothing.
pub proof fn lemma_remove_deletes_only_that_uid(ops: Seq<ListOp<UID, UID>>, uids: Seq<UID>, uid: UID)
    ensures
        ({
            let prev = apply_uid_ops(ops, uids).0;
            let next = apply_uid_ops(ops.push(ListOp::Remove(uid)), uids).0;
            &&& prev.contains(uid) ==> exists|i: int| 0 <= i < prev.len() && prev[i] == uid
                && (forall|j: int| 0 <= j < i ==> prev[j] != uid)
                && next == prev.subrange(0, i) + prev.subrange(i + 1, prev.len() as int)
            &&& !prev.contains(uid) ==> next == prev
        }),
{
    let all = ops.push(ListOp::Remove(uid));
    assert(all.drop_last() =~= ops);
    let prev = apply_uid_ops(ops, uids).0;
    if prev.contains(uid) {
        prev.index_of_first_ensures(uid);
        let i = prev.index_of_first(uid).unwrap();
        assert(prev.remove_value(uid) =~= prev.subrange(0, i) + prev.subrange(i + 1, prev.len() as int));
    }
}

/// Adding an unlisted UID appends it after every UID already listed; adding a listed UID changes nothing.
pub proof fn lemma_add_appends_only_that_uid(ops: Seq<ListOp<UID, UID>>, uids: Seq<UID>, uid: UID)
    ensures
        ({
            let prev = apply_uid_ops(ops, uids).0;
            let next = apply_uid_ops(ops.push(ListOp::Add(uid)), uids).0;
            &&& !prev.contains(uid) ==> next == prev.push(uid)
            &&& prev.contains(uid) ==> next == prev
        }),
{
    let all = ops.push(ListOp::Add(uid));
    assert(all.drop_last() =~= ops);
}

proof fn lemma_remove_value_unique(s: Seq<UID>, uid: UID)
    requires
        s.no_duplicates(),
        s.contains(uid),
    ensures
        !s.remove_value(uid).contains(uid),
        s.remove_value(uid).no_duplicates(),
{
    s.index_of_first_ensures(uid);
    let i = s.index_of_first(uid).unwrap();
    let r = s.remove_value(uid);
    assert(r =~= s.remove(i));
    assert forall|j: int| 0 <= j < r.len() implies r[j] != uid by {
        if j < i {
            assert(r[j] == s[j]);
        } else {
            assert(r[j] == s[j + 1]);
        }
    }
    assert forall|a: int, b: int| 0 <= a < r.len() && 0 <= b < r.len() && a != b implies r[a] != r[b] by {
        let sa = if a < i { a } else { a + 1 };
        let sb = if b < i { b } else { b + 1 };
        assert(r[a] == s[sa]);
        assert(r[b] == s[sb]);
    }
}

/// UID operations keep a list free of duplicates: an add only appends an absent UID, a remove takes one away.
pub proof fn lemma_apply_keeps_unique(ops: Seq<ListOp<UID, UID>>, uids: Seq<UID>)
    requires
        uids.no_duplicates(),
    ensures
        apply_uid_ops(ops, uids).0.no_duplicates(),
    decreases ops.len(),
{
    if ops.len() > 0 {
        lemma_apply_keeps_unique(ops.drop_last(), uids);
        let prev = apply_uid_ops(ops.drop_last(), uids).0;
        match ops.last() {
            ListOp::Add(uid) => {
                if !prev.contains(uid) {
                    let next = prev.push(uid);
                    assert forall|a: int, b: int| 0 <= a < next.len() && 0 <= b < next.len() && a != b
                        implies next[a] != next[b] by {
                        if a == prev.len() {
                            assert(next[b] == prev[b]);
                        } else if b == prev.len() {
                            assert(next[a] == prev[a]);
                        }
                    }
                }
            },
            ListOp::Remove(uid) => {
                if prev.contains(uid) {
                    lemma_remove_value_unique(prev, uid);
                }
            },
            ListOp::Edit(_) => {},
        }
    }
}

/// Whether a list of operations holds no `Edit`.
pub open spec fn no_edits<T, R>(ops: Seq<ListOp<T, R>>) -> bool {
    forall|i: int| 0 <= i < ops.len() ==> !(#[trigger] ops[i] is Edit)
}

/// Whether a UID operation names `uid`.
pub open spec fn names_uid(op: ListOp<UID, UID>, uid: UID) -> bool {
    match op {
        ListOp::Add(u) => u == uid,
        ListOp::Edit(u) => u == uid,
        ListOp::Remove(u) => u == uid,
    }
}

/// The first operation in `ops` that names `uid`.
pub open spec fn first_op_for(ops: Seq<ListOp<UID, UID>>, uid: UID) -> Option<ListOp<UID, UID>>
    decreases ops.len(),
{
    if ops.len() == 0 {
        None
    } else if names_uid(ops[0], uid) {
        Some(ops[0])
    } else {
        first_op_for(ops.drop_first(), uid)
    }
}

/// Helpers that builders use to create and modify their fields.
pub struct Build;

impl Build {
    /// The value of a required field, or `FieldNotSet`.
    pub fn create_value<T: Copy, F: Fields>(builder_option: &Option<T>, fields_changed: &mut FieldsChanged, field: F) -> (r: Result<T>)
        ensures
            *final(fields_changed) == *old(fields_changed),
            match *builder_option {
                Some(v) => r == Ok::<T, Error>(v),
                None => r == Err::<T, Error>(field_not_set(field.spec_field())),
            },
    {
        let field = field.field();
        match builder_option {
            Some(v) => Ok(*v),
            None => Err(Error::FieldNotSet { class: field.class_ident.classname, field: field.name }),
        }
    }

    /// Assigns the field's value, when one was set.
    pub fn modify_value<T: Copy, F: Fields>(builder_option: &Option<T>, value: &mut T, fields_changed: &mut FieldsChanged, field: F) -> (r: Result<()>)
        ensures
            r is Ok,
            *final(fields_changed) == *old(fields_changed),
            *final(value) == match *builder_option {
                Some(v) => v,
                None => *old(value),
            },
    {
        if let Some(v) = builder_option {
            *value = *v;
        }
        Ok(())
    }

    /// Assigns the UID that was set, when one was.
    pub fn modify_uid<F: Fields>(builder_option: &Option<UID>, value: &mut UID, fields_changed: &mut FieldsChanged, field: F) -> (r: Result<()>)
        ensures
            r is Ok,
            *final(fields_changed) == *old(fields_changed),
            *final(value) == match *builder_option {
                Some(v) => v,
                None => *old(value),
            },
    {
        Self::modify_value(builder_option, value, fields_changed, field)
    }

    /// The UID of a required identity field, or `FieldNotSet`.
    pub fn create_uid<F: Fields>(builder_option: &mut Option<UID>, fields_changed: &mut FieldsChanged, field: F) -> (r: Result<UID>)
        ensures
            *final(builder_option) == *old(builder_option),
            *final(fields_changed) == *old(fields_changed),
            match *old(builder_option) {
                Some(v) => r == Ok::<UID, Error>(v),
                None => r == Err::<UID, Error>(field_not_set(field.spec_field())),
            },
    {
        Self::create_value(builder_option, fields_changed, field)
    }

    /// The UID of an optional identity field: none when it was left alone.
    pub fn create_uid_option<F: Fields>(builder_option_op: &mut OptionOp<UID>, fields_changed: &mut FieldsChanged, field: F) -> (r: Result<Option<UID>>)
        requires
            !(*old(builder_option_op) is Edit),
            !(*old(builder_option_op) is Unset),
        ensures
            *final(builder_option_op) == *old(builder_option_op),
            *final(fields_changed) == *old(fields_changed),
            match *old(builder_option_op) {
                OptionOp::Assign(uid) => r == Ok::<Option<UID>, Error>(Some(uid)),
                _ => r == Ok::<Option<UID>, Error>(None),
            },
    {
        match builder_option_op {
            OptionOp::NoOp => Ok(None),
            OptionOp::Assign(uid) => Ok(Some(*uid)),
            _ => vstd::pervasive::unreached(),
        }
    }

    /// Sets or unsets an optional UID field, as its operation says.
    pub fn modify_uid_option<F: Fields>(
        builder_option_op: &mut OptionOp<UID>,
        existing_option: &mut Option<UID>,
        fields_changed: &mut FieldsChanged,
        field: F,
    ) -> (r: Result<()>)
        requires
            !(*old(builder_option_op) is Edit),
        ensures
            r is Ok,
            *final(builder_option_op) == *old(builder_option_op),
            *final(fields_changed) == *old(fields_changed),
            *final(existing_option) == match *old(builder_option_op) {
                OptionOp::Assign(uid) => Some(uid),
                OptionOp::Unset => None,
                _ => *old(existing_option),
            },
    {
        match builder_option_op {
            OptionOp::NoOp => Ok(()),
            OptionOp::Assign(_) => {
                let uid_option = Self::create_uid_option(builder_option_op, fields_changed, field)?;
                *existing_option = uid_option;
                Ok(())
            },
            OptionOp::Edit(_) => vstd::pervasive::unreached(),
            OptionOp::Unset => {
                *existing_option = None;
                Ok(())
            },
        }
    }

    /// Builds a list of UIDs from its operations.
    pub fn create_uid_vec<F: Fields>(builder_vec: &mut Vec<ListOp<UID, UID>>, fields_changed: &mut FieldsChanged, field: F) -> (r: Result<Vec<UID>>)
        requires
            no_edits(old(builder_vec)@),
        ensures
            *final(fields_changed) == *old(fields_changed),
            r matches Ok(v) && v@ == apply_uid_ops(old(builder_vec)@, Seq::empty()).0,
            final(builder_vec)@ == apply_uid_ops(old(builder_vec)@, Seq::empty()).1,
    {
        let mut existing_vec: Vec<UID> = Vec::new();
        Self::modify_uid_vec(builder_vec, &mut existing_vec, fields_changed, field)?;
        Ok(existing_vec)
    }

    /// Applies a builder's UID list operations, in order, to an existing list of UIDs. The operations that took
    /// effect stay in the builder.
    pub fn modify_uid_vec<F: Fields>(
        builder_vec: &mut Vec<ListOp<UID, UID>>,
        existing_vec: &mut Vec<UID>,
        fields_changed: &mut FieldsChanged,
        field: F,
    ) -> (r: Result<()>)
        requires
            no_edits(old(builder_vec)@),
        ensures
            r is Ok,
            *final(fields_changed) == *old(fields_changed),
            final(existing_vec)@ == apply_uid_ops(old(builder_vec)@, old(existing_vec)@).0,
            final(builder_vec)@ == apply_uid_ops(old(builder_vec)@, old(existing_vec)@).1,
    {
        if builder_vec.len() == 0 {
            return Ok(());
        }
        let ghost ops = builder_vec@;
        let mut kept: Vec<ListOp<UID, UID>> = Vec::new();
        let mut pending: Vec<ListOp<UID, UID>> = Vec::new();
        std::mem::swap(builder_vec, &mut pending);
        let mut i: usize = 0;
        assert(ops.subrange(0, 0) =~= Seq::<ListOp<UID, UID>>::empty());
        while i < pending.len()
            invariant
                pending@ == ops,
                no_edits(ops),
                i <= ops.len(),
                (existing_vec@, kept@) == apply_uid_ops(ops.subrange(0, i as int), old(existing_vec)@),
            decreases ops.len() - i,
        {
            assert(ops.subrange(0, i + 1).drop_last() =~= ops.subrange(0, i as int));
            assert(ops.subrange(0, i + 1).last() == ops[i as int]);
            assert(!(ops[i as int] is Edit));
            match &pending[i] {
                ListOp::Add(uid) => {
                    let uid = *uid;
                    proof { existing_vec@.index_of_first_ensures(uid); }
                    if position_of(existing_vec, uid).is_none() {
                        existing_vec.push(uid);
                        kept.push(ListOp::Add(uid));
                    }
                },
                ListOp::Edit(_) => {},
                ListOp::Remove(uid) => {
                    let uid = *uid;
                    proof { existing_vec@.index_of_first_ensures(uid); }
                    let found = position_of(existing_vec, uid);
                    if let Some(index) = found {
                        existing_vec.remove(index);
                        kept.push(ListOp::Remove(uid));
                    }
                },
            }
            i = i + 1;
        }
        assert(ops.subrange(0, ops.len() as int) =~= ops);
        *builder_vec = kept;
        Ok(())
    }

    /// Adds an `Add` operation for `uid`, unless one is already pending; fails when a `Remove` of it is pending.
    pub fn add_uid_to_listops<F: Fields>(uid: UID, listops: &mut Vec<ListOp<UID, UID>>, field: F) -> (r: Result<()>)
        requires
            !(first_op_for(old(listops)@, uid) matches Some(ListOp::Edit(_))),
        ensures
            match first_op_for(old(listops)@, uid) {
                None => r is Ok && final(listops)@ == old(listops)@.push(ListOp::Add(uid)),
                Some(ListOp::Add(_)) => r is Ok && final(listops)@ == old(listops)@,
                Some(_) => final(listops)@ == old(listops)@ && r == Err::<(), Error>(Error::ListOpRace {
                    op: "add",
                    model: subject_of(field.spec_field()).classname,
                    uid,
                    whiled: "removed",
                }),
            },
    {
        let mut i: usize = 0;
        assert(listops@.skip(0) =~= listops@);
        while i < listops.len()
            invariant
                i <= listops@.len(),
                listops@ == old(listops)@,
                !(first_op_for(old(listops)@, uid) matches Some(ListOp::Edit(_))),
                first_op_for(listops@, uid) == first_op_for(listops@.skip(i as int), uid),
            decreases listops@.len() - i,
        {
            let ghost rest = listops@.skip(i as int);
            assert(rest.drop_first() =~= listops@.skip(i + 1));
            assert(rest[0] == listops@[i as int]);
            assert(first_op_for(rest, uid) == (if names_uid(rest[0], uid) { Some(rest[0]) } else { first_op_for(rest.drop_first(), uid) }));
            let op = &listops[i];
            assert(*op == rest[0]);
            match op {
                ListOp::Add(op_uid) => {
                    if *op_uid == uid {
                        return Ok(());
                    }
                },
                ListOp::Edit(op_uid) => {
                    if *op_uid == uid {
                        assert(names_uid(rest[0], uid));
                        assert(first_op_for(old(listops)@, uid) == Some(rest[0]));
                        vstd::pervasive::unreached()
                    }
                },
                ListOp::Remove(op_uid) => {
                    if *op_uid == uid {
                        let field = field.field();
                        return Err(Error::ListOpRace {
                            op: "add",
                            model: field.subject_classname(),
                            uid,
                            whiled: "removed",
                        });
                    }
                },
            }
            i = i + 1;
        }
        listops.push(ListOp::Add(uid));
        Ok(())
    }

    /// Adds a `Remove` operation for `uid`, unless one is already pending; fails when an `Add` of it is pending.
    pub fn remove_uid_from_listops<F: Fields>(uid: UID, listops: &mut Vec<ListOp<UID, UID>>, field: F) -> (r: Result<()>)
        requires
            !(first_op_for(old(listops)@, uid) matches Some(ListOp::Edit(_))),
        ensures
            match first_op_for(old(listops)@, uid) {
                None => r is Ok && final(listops)@ == old(listops)@.push(ListOp::Remove(uid)),
                Some(ListOp::Remove(_)) => r is Ok && final(listops)@ == old(listops)@,
                Some(_) => final(listops)@ == old(listops)@ && r == Err::<(), Error>(Error::ListOpRace {
                    op: "remove",
                    model: subject_of(field.spec_field()).classname,
                    uid,
                    whiled: "added",
                }),
            },
    {
        let mut i: usize = 0;
        assert(listops@.skip(0) =~= listops@);
        while i < listops.len()
            invariant
                i <= listops@.len(),
                listops@ == old(listops)@,
                !(first_op_for(old(listops)@, uid) matches Some(ListOp::Edit(_))),
                first_op_for(listops@, uid) == first_op_for(listops@.skip(i as int), uid),
            decreases listops@.len() - i,
        {
            let ghost rest = listops@.skip(i as int);
            assert(rest.drop_first() =~= listops@.skip(i + 1));
            assert(rest[0] == listops@[i as int]);
            assert(first_op_for(rest, uid) == (if names_uid(rest[0], uid) { Some(rest[0]) } else { first_op_for(rest.drop_first(), uid) }));
            let op = &listops[i];
            assert(*op == rest[0]);
            match op {
                ListOp::Add(op_uid) => {
                    if *op_uid == uid {
                        let field = field.field();
                        return Err(Error::ListOpRace {
                            op: "remove",
                            model: field.subject_classname(),
                            uid,
                            whiled: "added",
                        });
                    }
                },
                ListOp::Edit(op_uid) => {
                    if *op_uid == uid {
                        assert(names_uid(rest[0], uid));
                        assert(first_op_for(old(listops)@, uid) == Some(rest[0]));
                        vstd::pervasive::unreached()
                    }
                },
                ListOp::Remove(op_uid) => {
                    if *op_uid == uid {
                        return Ok(());
                    }
                },
            }
            i = i + 1;
        }
        listops.push(ListOp::Remove(uid));
        Ok(())
    }

    /// Creates the model of a required nested-model field, or fails with `FieldNotSet`.
    pub fn create<B: Builder, F: Fields>(builder_option: &mut Option<B>, fields_changed: &mut FieldsChanged, field: F) -> (r: Result<B::ModelType>)
        requires
            *old(builder_option) matches Some(b) ==> b.spec_creatable(),
        ensures
            *final(fields_changed) == *old(fields_changed),
            match *old(builder_option) {
                None => r == Err::<B::ModelType, Error>(field_not_set(field.spec_field())) && *final(builder_option) is None,
                Some(b) => match b.spec_create() {
                    Ok((bv, mv)) => (r matches Ok(m) && m@ == mv) && option_view(*final(builder_option)) == Some(bv),
                    Err(e) => r == Err::<B::ModelType, Error>(e) && *final(builder_option) is None,
                },
            },
    {
        let field = field.field();
        let builder = match builder_option.take() {
            Some(b) => b,
            None => return Err(Error::FieldNotSet { class: field.class_ident.classname, field: field.name }),
        };
        let creation = builder.create()?;
        let (builder, model) = creation.split();
        *builder_option = Some(builder);
        Ok(model)
    }

    /// Creates the model of an optional nested-model field: none when it was left alone.
    pub fn create_option<B: Builder, F: Fields>(builder_option_op: &mut OptionOp<B>, fields_changed: &mut FieldsChanged, field: F) -> (r: Result<Option<B::ModelType>>)
        requires
            !(*old(builder_option_op) is Edit),
            !(*old(builder_option_op) is Unset),
            *old(builder_option_op) matches OptionOp::Assign(b) ==> b.spec_creatable(),
        ensures
            *final(fields_changed) == *old(fields_changed),
            match *old(builder_option_op) {
                OptionOp::Assign(b) => match b.spec_create() {
                    Ok((bv, mv)) => (r matches Ok(Some(m)) && m@ == mv) && option_op_view(*final(builder_option_op)) == OptionOp::Assign(bv),
                    Err(e) => r == Err::<Option<B::ModelType>, Error>(e) && *final(builder_option_op) is NoOp,
                },
                _ => r == Ok::<Option<B::ModelType>, Error>(None) && *final(builder_option_op) == *old(builder_option_op),
            },
    {
        match builder_option_op {
            OptionOp::NoOp => Ok(None),
            OptionOp::Assign(_) => {
                let builder = builder_option_op.take();
                let creation = builder.create()?;
                let (builder, model) = creation.split();
                *builder_option_op = OptionOp::Assign(builder);
                Ok(Some(model))
            },
            _ => vstd::pervasive::unreached(),
        }
    }

    /// Whether `modify` (of a nested-model field) runs without panicking: an editor must be able to modify the
    /// existing model, and the field must hold models of the editor's class; a creator must be able to create.
    pub open spec fn modifiable<B: Builder>(builder_option: Option<B>, existing: <B::ModelType as View>::V, field: Field) -> bool {
        match builder_option {
            None => true,
            Some(b) => if b.spec_mode() == BuilderMode::Editor {
                &&& b.spec_modifiable(existing)
                &&& field.value_type matches crate::modeling::FieldValueType::Model(ci)
                &&& ci.class_id == b.spec_class_ident().class_id
            } else {
                b.spec_creatable()
            },
        }
    }

    /// What `modify` of a nested-model field gives: the model as it is left, and the processed builder option
    /// or the error.
    pub open spec fn modify_spec<B: Builder>(builder_option: Option<B>, existing: <B::ModelType as View>::V)
        -> (<B::ModelType as View>::V, Result<Option<B::V>>)
    {
        match builder_option {
            None => (existing, Ok(None)),
            Some(b) => if b.spec_mode() == BuilderMode::Editor {
                let (m2, res) = b.spec_modify(existing);
                (m2, match res { Ok(b2) => Ok(Some(b2)), Err(e) => Err(e) })
            } else {
                match b.spec_create() {
                    Ok((b2, m)) => (m, Ok(Some(b2))),
                    Err(e) => (existing, Err(e)),
                }
            },
        }
    }

    /// The classes that `modify` of a nested-model field reports: the field's model class when an editor
    /// modified it.
    pub open spec fn modify_reported<B: Builder>(builder_option: Option<B>, existing: <B::ModelType as View>::V, field: Field) -> Seq<ClassIdent> {
        if Build::modify_spec(builder_option, existing).1 is Ok
            && (builder_option matches Some(b) && b.spec_mode() == BuilderMode::Editor) {
            seq![crate::modeling::fields_changed::subject_model(field)]
        } else {
            Seq::empty()
        }
    }

    /// Modifies a nested-model field: an editor modifies the existing model (and its changes are reported
    /// under the field's class); a creator replaces it with a new model.
    pub fn modify<B: Builder, F: Fields>(builder_option: &mut Option<B>, existing: &mut B::ModelType, fields_changed: &mut FieldsChanged, field: F) -> (r: Result<()>)
        requires
            Build::modifiable(*old(builder_option), old(existing)@, field.spec_field()),
        ensures
            final(existing)@ == Build::modify_spec(*old(builder_option), old(existing)@).0,
            match Build::modify_spec(*old(builder_option), old(existing)@).1 {
                Ok(b) => r is Ok && option_view(*final(builder_option)) == b,
                Err(e) => r == Err::<(), Error>(e) && *final(builder_option) is None,
            },
            reports_extended(*old(fields_changed), *final(fields_changed),
                Build::modify_reported(*old(builder_option), old(existing)@, field.spec_field())),
    {
        let field = field.field();
        let builder = match builder_option.take() {
            Some(b) => b,
            None => {
                proof { lemma_reports_extended_refl(*fields_changed); }
                return Ok(());
            },
        };
        if builder.builder_mode() == BuilderMode::Editor {
            let modification = builder.modify(existing);
            match modification {
                Ok(modification) => {
                    let (builder, built_fields_changed) = modification.split();
                    *builder_option = Some(builder);
                    let ghost before = *fields_changed;
                    fields_changed.extend(field, ChangeOp::Modify, built_fields_changed);
                    proof { lemma_reports_extended_one(before, *fields_changed); }
                    Ok(())
                },
                Err(e) => {
                    proof { lemma_reports_extended_refl(*fields_changed); }
                    Err(e)
                },
            }
        } else {
            proof { lemma_reports_extended_refl(*fields_changed); }
            let creation = builder.create()?;
            let (builder, model) = creation.split();
            *existing = model;
            *builder_option = Some(builder);
            Ok(())
        }
    }

    /// Whether `modify_option` runs without panicking.
    pub open spec fn option_modifiable<B: Builder>(op: OptionOp<B>, existing: Option<<B::ModelType as View>::V>, field: Field) -> bool {
        match op {
            OptionOp::Assign(b) => b.spec_creatable(),
            OptionOp::Edit(b) => existing matches Some(x) && b.spec_modifiable(x)
                && (field.value_type matches crate::modeling::FieldValueType::Model(ci) && ci.class_id == b.spec_class_ident().class_id),
            _ => true,
        }
    }

    /// What `modify_option` gives: the optional model as it is left, and the processed operation or the error.
    pub open spec fn modify_option_spec<B: Builder>(op: OptionOp<B>, existing: Option<<B::ModelType as View>::V>)
        -> (Option<<B::ModelType as View>::V>, Result<OptionOp<B::V>>)
    {
        match op {
            OptionOp::NoOp => (existing, Ok(OptionOp::NoOp)),
            OptionOp::Assign(b) => match b.spec_create() {
                Ok((b2, m)) => (Some(m), Ok(OptionOp::Assign(b2))),
                Err(e) => (existing, Err(e)),
            },
            OptionOp::Edit(b) => {
                let (m2, res) = b.spec_modify(existing.unwrap());
                (Some(m2), match res { Ok(b2) => Ok(OptionOp::Edit(b2)), Err(e) => Err(e) })
            },
            OptionOp::Unset => (None, Ok(OptionOp::Unset)),
        }
    }

    /// The classes that `modify_option` reports: the field's model class when an editor modified it.
    pub open spec fn modify_option_reported<B: Builder>(op: OptionOp<B>, existing: Option<<B::ModelType as View>::V>, field: Field) -> Seq<ClassIdent> {
        if Build::modify_option_spec(op, existing).1 is Ok && op is Edit {
            seq![crate::modeling::fields_changed::subject_model(field)]
        } else {
            Seq::empty()
        }
    }

    /// Sets, edits or unsets an optional nested-model field, as its operation says.
    pub fn modify_option<B: Builder, F: Fields>(
        builder_option_op: &mut OptionOp<B>,
        existing_option: &mut Option<B::ModelType>,
        fields_changed: &mut FieldsChanged,
        field: F,
    ) -> (r: Result<()>)
        requires
            Build::option_modifiable(*old(builder_option_op), option_view(*old(existing_option)), field.spec_field()),
        ensures
            option_view(*final(existing_option)) == Build::modify_option_spec(*old(builder_option_op), option_view(*old(existing_option))).0,
            match Build::modify_option_spec(*old(builder_option_op), option_view(*old(existing_option))).1 {
                Ok(op) => r is Ok && option_op_view(*final(builder_option_op)) == op,
                Err(e) => r == Err::<(), Error>(e) && *final(builder_option_op) is NoOp,
            },
            reports_extended(*old(fields_changed), *final(fields_changed),
                Build::modify_option_reported(*old(builder_option_op), option_view(*old(existing_option)), field.spec_field())),
    {
        match builder_option_op {
            OptionOp::NoOp => {
                proof { lemma_reports_extended_refl(*fields_changed); }
                Ok(())
            },
            OptionOp::Assign(_) => {
                proof { lemma_reports_extended_refl(*fields_changed); }
                let value = Self::create_option(builder_option_op, fields_changed, field)?;
                *existing_option = value;
                Ok(())
            },
            OptionOp::Edit(_) => {
                let builder = builder_option_op.take();
                let field = field.field();
                let mut existing = match existing_option.take() {
                    Some(x) => x,
                    None => vstd::pervasive::unreached(),
                };
                let modification = builder.modify(&mut existing);
                *existing_option = Some(existing);
                match modification {
                    Ok(modification) => {
                        let (builder, built_fields_changed) = modification.split();
                        *builder_option_op = OptionOp::Edit(builder);
                        let ghost before = *fields_changed;
                        fields_changed.extend(field, ChangeOp::Modify, built_fields_changed);
                        proof { lemma_reports_extended_one(before, *fields_changed); }
                        Ok(())
                    },
                    Err(e) => {
                        proof { lemma_reports_extended_refl(*fields_changed); }
                        Err(e)
                    },
                }
            },
            OptionOp::Unset => {
                proof { lemma_reports_extended_refl(*fields_changed); }
                *existing_option = None;
                Ok(())
            },
        }
    }

    /// Starts the report of a modification of an identified model: a builder without a UID takes the model's.
    pub fn prepare_modify<B: BuildableUID, M: Identifiable>(builder: &mut B, existing: &mut M) -> (r: Result<FieldsChanged>)
        requires
            old(builder).spec_get_uid() matches Some(u) ==> u == uid_of(*old(existing)),
        ensures
            *final(existing) == *old(existing),
            *final(builder) == if old(builder).spec_get_uid() is None {
                old(builder).spec_with_uid(uid_of(*old(existing)))
            } else {
                *old(builder)
            },
            r matches Ok(fc) && fc.root.class_ident == old(builder).spec_class_ident()
                && fc.root.op == op_of_mode(old(builder).spec_mode()) && fc.root.children@.len() == 0,
    {
        if builder.get_uid().is_none() {
            let uid = existing.uid();
            let _ = builder.uid(uid);
        }
        Ok(FieldsChanged::from_builder(builder))
    }

    /// Starts the report of a modification of a model that has no identity of its own.
    pub fn prepare_modify_composite<B: Builder, M>(builder: &mut B, existing: &mut M) -> (r: Result<FieldsChanged>)
        ensures
            *final(existing) == *old(existing),
            *final(builder) == *old(builder),
            r matches Ok(fc) && fc.root.class_ident == old(builder).spec_class_ident()
                && fc.root.op == op_of_mode(old(builder).spec_mode()) && fc.root.children@.len() == 0,
    {
        Ok(FieldsChanged::from_builder(builder))
    }

    /// Builds a list of models from its operations.
    pub fn create_vec<B, M, R, F: Fields>(builder_vec: &mut Vec<ListOp<B, R>>, fields_changed: &mut FieldsChanged, field: F) -> (r: Result<Vec<M>>)
        where
            B: Builder<ModelType = M> + MaybeIdentifiable,
            M: Identifiable,
            R: MaybeIdentifiable,
        requires
            model_ops_ok(old(builder_vec)@, Seq::<M::V>::empty(), subject_of(field.spec_field()).classname),
        ensures
            *final(fields_changed) == *old(fields_changed),
            match apply_model_ops(old(builder_vec)@, Seq::<M::V>::empty(), subject_of(field.spec_field()).classname) {
                (models, Ok(kept)) => (r matches Ok(v) && views_of(v@) == models) && list_op_views(final(builder_vec)@) == kept,
                (_, Err(e)) => r == Err::<Vec<M>, Error>(e) && final(builder_vec)@.len() == 0,
            },
    {
        let mut existing_vec: Vec<M> = Vec::new();
        assert(views_of(existing_vec@) =~= Seq::<M::V>::empty());
        Self::modify_vec(builder_vec, &mut existing_vec, fields_changed, field)?;
        Ok(existing_vec)
    }

    /// Applies a builder's list operations, in order, to an existing list of models: a creator adds a new model,
    /// an editor modifies the model with its UID, a removal drops the model with the given UID. On success the
    /// processed operations stay in the builder (an edit is kept as an add); on the first error the builder's
    /// operations are dropped and the models stay as far as they were changed.
    pub fn modify_vec<B, M, R, F: Fields>(
        builder_vec: &mut Vec<ListOp<B, R>>,
        existing_vec: &mut Vec<M>,
        fields_changed: &mut FieldsChanged,
        field: F,
    ) -> (r: Result<()>)
        where
            B: Builder<ModelType = M> + MaybeIdentifiable,
            M: Identifiable,
            R: MaybeIdentifiable,
        requires
            model_ops_ok(old(builder_vec)@, views_of(old(existing_vec)@), subject_of(field.spec_field()).classname),
        ensures
            *final(fields_changed) == *old(fields_changed),
            views_of(final(existing_vec)@) == apply_model_ops(old(builder_vec)@, views_of(old(existing_vec)@), subject_of(field.spec_field()).classname).0,
            match apply_model_ops(old(builder_vec)@, views_of(old(existing_vec)@), subject_of(field.spec_field()).classname).1 {
                Ok(kept) => r is Ok && list_op_views(final(builder_vec)@) == kept,
                Err(e) => r == Err::<(), Error>(e) && final(builder_vec)@.len() == 0,
            },
    {
        let ghost ops = builder_vec@;
        let ghost models0 = views_of(existing_vec@);
        let f = field.field();
        let ghost subject = subject_of(f).classname;
        let mut pending: Vec<ListOp<B, R>> = Vec::new();
        std::mem::swap(builder_vec, &mut pending);
        let n = pending.len();
        assert(pending@.len() == n);
        let mut kept: Vec<ListOp<B, R>> = Vec::new();
        let mut i: usize = 0;
        assert(ops.subrange(0, 0) =~= Seq::<ListOp<B, R>>::empty());
        assert(pending@.skip(0) =~= ops);
        assert(list_op_views(kept@) =~= Seq::<ListOp<B::V, R>>::empty());
        while pending.len() > 0
            invariant
                i <= ops.len(),
                pending@ == ops.skip(i as int),
                builder_vec@.len() == 0,
                model_ops_ok(ops, models0, subject),
                ops == old(builder_vec)@,
                ops.len() <= usize::MAX,
                models0 == views_of(old(existing_vec)@),
                apply_model_ops(ops.subrange(0, i as int), models0, subject)
                    == (views_of(existing_vec@), Ok::<Seq<ListOp<B::V, R>>, Error>(list_op_views(kept@))),
                subject == subject_of(f).classname,
                f == field.spec_field(),
            decreases pending@.len(),
        {
            let op = pending.remove(0);
            let ghost prefix = ops.subrange(0, i as int);
            assert(op == ops[i as int]);
            assert(ops.subrange(0, i + 1).drop_last() =~= prefix);
            assert(ops.subrange(0, i + 1).last() == op);
            assert(pending@ =~= ops.skip(i + 1));
            proof { lemma_model_ops_ok_prefix(ops, models0, subject, (i + 1) as nat); }
            let ghost before = views_of(existing_vec@);
            let ghost step = apply_model_op(op, before, subject);
            assert(apply_model_ops(ops.subrange(0, i + 1), models0, subject) == (step.0,
                match step.1 { Ok(k) => Ok(list_op_views(kept@).push(k)), Err(e) => Err::<Seq<ListOp<B::V, R>>, Error>(e) }));
            match Self::apply_op(op, existing_vec, f) {
                Ok(k) => {
                    let ghost kept_before = kept@;
                    kept.push(k);
                    assert(list_op_views(kept@) =~= list_op_views(kept_before).push(list_op_view(k)));
                },
                Err(e) => {
                    proof { lemma_apply_model_ops_err(ops, models0, subject, (i + 1) as nat); }
                    return Err(e);
                },
            }
            i = i + 1;
        }
        assert(ops.subrange(0, ops.len() as int) =~= ops);
        *builder_vec = kept;
        Ok(())
    }

    /// Applies one list operation to a list of models.
    fn apply_op<B, M, R>(op: ListOp<B, R>, existing_vec: &mut Vec<M>, field: Field) -> (r: Result<ListOp<B, R>>)
        where
            B: Builder<ModelType = M> + MaybeIdentifiable,
            M: Identifiable,
            R: MaybeIdentifiable,
        requires
            model_op_ok(op, views_of(old(existing_vec)@)),
        ensures
            (views_of(final(existing_vec)@), match r { Ok(k) => Ok(list_op_view(k)), Err(e) => Err(e) })
                == apply_model_op(op, views_of(old(existing_vec)@), subject_of(field).classname),
    {
        match op {
            ListOp::Add(builder) => {
                if builder.builder_mode() == BuilderMode::Creator {
                    let creation = builder.create()?;
                    let (builder, model) = creation.split();
                    let ghost before = existing_vec@;
                    existing_vec.push(model);
                    assert(views_of(existing_vec@) =~= views_of(before).push(model@));
                    Ok(ListOp::Add(builder))
                } else {
                    let builder = Self::modify_in_list(builder, existing_vec, field)?;
                    Ok(ListOp::Add(builder))
                }
            },
            ListOp::Edit(builder) => {
                let builder = Self::modify_in_list(builder, existing_vec, field)?;
                Ok(ListOp::Add(builder))
            },
            ListOp::Remove(maybe_identifiable) => {
                let builder_uid = maybe_identifiable.try_uid()?;
                let index = match position_of_uid(existing_vec, builder_uid) {
                    Some(index) => index,
                    None => return Err(Error::ModelNotFound { model: field.subject_classname(), uid: builder_uid }),
                };
                proof { lemma_index_of_uid::<M>(views_of(existing_vec@), builder_uid); }
                let ghost before = existing_vec@;
                existing_vec.remove(index);
                assert(views_of(existing_vec@) =~= views_of(before).remove(index as int));
                Ok(ListOp::Remove(maybe_identifiable))
            },
        }
    }

    /// Modifies, with an editor, the model of a list that has the editor's UID.
    fn modify_in_list<B, M>(builder: B, existing_vec: &mut Vec<M>, field: Field) -> (r: Result<B>)
        where
            B: Builder<ModelType = M> + MaybeIdentifiable,
            M: Identifiable,
        requires
            edit_in_list_ok(builder, views_of(old(existing_vec)@)),
        ensures
            (views_of(final(existing_vec)@), match r { Ok(b) => Ok(b@), Err(e) => Err(e) })
                == edit_in_list(builder, views_of(old(existing_vec)@), subject_of(field).classname),
    {
        let builder_uid = builder.try_uid()?;
        let index = match position_of_uid(existing_vec, builder_uid) {
            Some(index) => index,
            None => return Err(Error::ModelNotFound { model: field.subject_classname(), uid: builder_uid }),
        };
        let ghost before = existing_vec@;
        proof { lemma_index_of_uid::<M>(views_of(existing_vec@), builder_uid); }
        let mut model = existing_vec.remove(index);
        let result = builder.modify(&mut model);
        existing_vec.insert(index, model);
        assert(views_of(existing_vec@) =~= views_of(before).update(index as int, model@));
        match result {
            Ok(modification) => Ok(modification.take_builder()),
            Err(e) => Err(e),
        }
    }
}

/// The views of a list of models.
pub open spec fn views_of<M: View>(v: Seq<M>) -> Seq<M::V> {
    v.map_values(|m: M| m@)
}

/// The views of a list of operations.
pub open spec fn list_op_views<B: View, R>(v: Seq<ListOp<B, R>>) -> Seq<ListOp<B::V, R>> {
    v.map_values(|o: ListOp<B, R>| list_op_view(o))
}

proof fn lemma_model_ops_ok_prefix<B, M, R>(ops: Seq<ListOp<B, R>>, models: Seq<M::V>, subject: &'static str, n: nat)
    where
        B: Builder<ModelType = M> + MaybeIdentifiable,
        M: Identifiable,
        R: MaybeIdentifiable,
    requires
        model_ops_ok(ops, models, subject),
        n <= ops.len(),
    ensures
        model_ops_ok(ops.subrange(0, n as int), models, subject),
    decreases ops.len() - n,
{
    if n < ops.len() {
        assert(ops.drop_last() =~= ops.subrange(0, ops.len() - 1));
        lemma_model_ops_ok_prefix(ops.drop_last(), models, subject, n);
        assert(ops.drop_last().subrange(0, n as int) =~= ops.subrange(0, n as int));
    } else {
        assert(ops.subrange(0, n as int) =~= ops);
    }
}

proof fn lemma_apply_model_ops_err<B, M, R>(ops: Seq<ListOp<B, R>>, models: Seq<M::V>, subject: &'static str, n: nat)
    where
        B: Builder<ModelType = M> + MaybeIdentifiable,
        M: Identifiable,
        R: MaybeIdentifiable,
    requires
        n <= ops.len(),
        apply_model_ops(ops.subrange(0, n as int), models, subject).1 is Err,
    ensures
        apply_model_ops(ops, models, subject) == apply_model_ops(ops.subrange(0, n as int), models, subject),
    decreases ops.len() - n,
{
    if n < ops.len() {
        assert(ops.drop_last().subrange(0, n as int) =~= ops.subrange(0, n as int));
        lemma_apply_model_ops_err(ops.drop_last(), models, subject, n);
    } else {
        assert(ops.subrange(0, n as int) =~= ops);
    }
}

/// The index of the first model (by view) in `models` with the given UID.
pub open spec fn index_of_uid<M: Identifiable>(models: Seq<M::V>, uid: UID) -> Option<int>
    decreases models.len(),
{
    if models.len() == 0 {
        None
    } else if M::spec_uid_of(models[0]) == uid {
        Some(0)
    } else {
        match index_of_uid::<M>(models.drop_first(), uid) {
            Some(i) => Some(i + 1),
            None => None,
        }
    }
}

pub proof fn lemma_index_of_uid<M: Identifiable>(models: Seq<M::V>, uid: UID)
    ensures
        match index_of_uid::<M>(models, uid) {
            Some(i) => 0 <= i < models.len() && M::spec_uid_of(models[i]) == uid
                && forall|j: int| 0 <= j < i ==> #[trigger] M::spec_uid_of(models[j]) != uid,
            None => forall|j: int| 0 <= j < models.len() ==> #[trigger] M::spec_uid_of(models[j]) != uid,
        },
    decreases models.len(),
{
    if models.len() > 0 {
        lemma_index_of_uid::<M>(models.drop_first(), uid);
        assert forall|j: int| 1 <= j < models.len() implies #[trigger] models[j] == models.drop_first()[j - 1] by {}
    }
}

/// The index of the first model in `models` with the given UID.
pub fn position_of_uid<M: Identifiable>(models: &Vec<M>, uid: UID) -> (r: Option<usize>)
    ensures
        match r {
            Some(i) => index_of_uid::<M>(views_of(models@), uid) == Some(i as int),
            None => index_of_uid::<M>(views_of(models@), uid) is None,
        },
{
    let ghost vs = views_of(models@);
    proof { lemma_index_of_uid::<M>(vs, uid); }
    let mut i: usize = 0;
    while i < models.len()
        invariant
            i <= models.len(),
            vs == views_of(models@),
            forall|j: int| 0 <= j < i ==> #[trigger] M::spec_uid_of(vs[j]) != uid,
        decreases models.len() - i,
    {
        if models[i].uid() == uid {
            proof {
                assert(vs[i as int] == models@[i as int]@);
                lemma_index_of_uid::<M>(vs, uid);
                match index_of_uid::<M>(vs, uid) {
                    Some(k) => {
                        if k < i { assert(M::spec_uid_of(vs[k]) != uid); }
                        if k > i { assert(M::spec_uid_of(vs[i as int]) != uid); }
                    },
                    None => { assert(M::spec_uid_of(vs[i as int]) != uid); },
                }
            }
            return Some(i);
        }
        assert(vs[i as int] == models@[i as int]@);
        i = i + 1;
    }
    proof {
        lemma_index_of_uid::<M>(vs, uid);
        if let Some(k) = index_of_uid::<M>(vs, uid) {
            assert(M::spec_uid_of(vs[k]) != uid);
        }
    }
    None
}

/// What an editor does to the model of a list that has its UID: the list (of views) as it is left, and the
/// processed editor's view or the error.
pub open spec fn edit_in_list<B, M>(b: B, models: Seq<M::V>, subject: &'static str) -> (Seq<M::V>, Result<B::V>)
    where
        B: Builder<ModelType = M> + MaybeIdentifiable,
        M: Identifiable,
{
    match b.spec_try_uid() {
        Err(e) => (models, Err(e)),
        Ok(uid) => match index_of_uid::<M>(models, uid) {
            None => (models, Err(Error::ModelNotFound { model: subject, uid })),
            Some(i) => {
                let (m2, res) = b.spec_modify(models[i]);
                (models.update(i, m2), res)
            },
        },
    }
}

/// Whether an editor can modify, without panicking, the model of a list that has its UID.
pub open spec fn edit_in_list_ok<B, M>(b: B, models: Seq<M::V>) -> bool
    where
        B: Builder<ModelType = M> + MaybeIdentifiable,
        M: Identifiable,
{
    b.spec_try_uid() matches Ok(uid) && index_of_uid::<M>(models, uid) matches Some(i) ==> b.spec_modifiable(models[i])
}

/// What one list operation does: the models as they are left, and the operation as kept, or the error.
pub open spec fn apply_model_op<B, M, R>(op: ListOp<B, R>, models: Seq<M::V>, subject: &'static str) -> (Seq<M::V>, Result<ListOp<B::V, R>>)
    where
        B: Builder<ModelType = M> + MaybeIdentifiable,
        M: Identifiable,
        R: MaybeIdentifiable,
{
    match op {
        ListOp::Add(b) => if b.spec_mode() == BuilderMode::Creator {
            match b.spec_create() {
                Ok((b2, m)) => (models.push(m), Ok(ListOp::Add(b2))),
                Err(e) => (models, Err(e)),
            }
        } else {
            let (ms, res) = edit_in_list(b, models, subject);
            (ms, match res { Ok(b2) => Ok(ListOp::Add(b2)), Err(e) => Err(e) })
        },
        ListOp::Edit(b) => {
            let (ms, res) = edit_in_list(b, models, subject);
            (ms, match res { Ok(b2) => Ok(ListOp::Add(b2)), Err(e) => Err(e) })
        },
        ListOp::Remove(r) => match r.spec_try_uid() {
            Err(e) => (models, Err(e)),
            Ok(uid) => match index_of_uid::<M>(models, uid) {
                None => (models, Err(Error::ModelNotFound { model: subject, uid })),
                Some(i) => (models.remove(i), Ok(ListOp::Remove(r))),
            },
        },
    }
}

/// Whether one list operation runs without panicking: a creator must be able to create, an edit must come
/// with an editor, and an editor must be able to modify its model.
pub open spec fn model_op_ok<B, M, R>(op: ListOp<B, R>, models: Seq<M::V>) -> bool
    where
        B: Builder<ModelType = M> + MaybeIdentifiable,
        M: Identifiable,
        R: MaybeIdentifiable,
{
    match op {
        ListOp::Add(b) => if b.spec_mode() == BuilderMode::Creator { b.spec_creatable() } else { edit_in_list_ok(b, models) },
        ListOp::Edit(b) => b.spec_mode() == BuilderMode::Editor && edit_in_list_ok(b, models),
        ListOp::Remove(_) => true,
    }
}

/// What a list of operations does, in order, to a list of models: the models as they are left, and the
/// operations as kept, or the first error.
pub open spec fn apply_model_ops<B, M, R>(ops: Seq<ListOp<B, R>>, models: Seq<M::V>, subject: &'static str)
    -> (Seq<M::V>, Result<Seq<ListOp<B::V, R>>>)
    where
        B: Builder<ModelType = M> + MaybeIdentifiable,
        M: Identifiable,
        R: MaybeIdentifiable,
    decreases ops.len(),
{
    if ops.len() == 0 {
        (models, Ok(Seq::empty()))
    } else {
        let (prev, res) = apply_model_ops(ops.drop_last(), models, subject);
        match res {
            Err(e) => (prev, Err(e)),
            Ok(kept) => {
                let (next, r) = apply_model_op(ops.last(), prev, subject);
                (next, match r { Ok(op) => Ok(kept.push(op)), Err(e) => Err(e) })
            },
        }
    }
}

/// Whether a list of operations runs, in order, without panicking.
pub open spec fn model_ops_ok<B, M, R>(ops: Seq<ListOp<B, R>>, models: Seq<M::V>, subject: &'static str) -> bool
    where
        B: Builder<ModelType = M> + MaybeIdentifiable,
        M: Identifiable,
        R: MaybeIdentifiable,
    decreases ops.len(),
{
    if ops.len() == 0 {
        true
    } else {
        model_ops_ok(ops.drop_last(), models, subject) && match apply_model_ops(ops.drop_last(), models, subject).1 {
            Err(_) => true,
            Ok(_) => model_op_ok(ops.last(), apply_model_ops(ops.drop_last(), models, subject).0),
        }
    }
}

/// Whether `after` is the report `before` with nested-model nodes of the classes `added` appended.
pub open spec fn reports_extended(before: FieldsChanged, after: FieldsChanged, added: Seq<crate::modeling::ClassIdent>) -> bool {
    &&& after.root.class_ident == before.root.class_ident
    &&& after.root.op == before.root.op
    &&& after.root.children@.len() == before.root.children@.len() + added.len()
    &&& after.root.children@.subrange(0, before.root.children@.len() as int) == before.root.children@
    &&& forall|i: int| 0 <= i < added.len() ==>
            (#[trigger] after.root.children@[before.root.children@.len() + i] matches crate::modeling::fields_changed::ChangeTreeNode::Model(node)
                && node.class_ident == added[i] && node.op == ChangeOp::Modify)
}

pub proof fn lemma_reports_extended_refl(fc: FieldsChanged)
    ensures
        reports_extended(fc, fc, Seq::empty()),
{
    assert(fc.root.children@.subrange(0, fc.root.children@.len() as int) =~= fc.root.children@);
}

proof fn lemma_reports_extended_one(before: FieldsChanged, after: FieldsChanged)
    requires
        after.root.class_ident == before.root.class_ident,
        after.root.op == before.root.op,
        after.root.children@.len() == before.root.children@.len() + 1,
        after.root.children@.subrange(0, before.root.children@.len() as int) == before.root.children@,
    ensures
        forall|ci: crate::modeling::ClassIdent|
            (after.root.children@.last() matches crate::modeling::fields_changed::ChangeTreeNode::Model(node)
                && node.class_ident == ci && node.op == ChangeOp::Modify) ==> #[trigger] reports_extended(before, after, seq![ci]),
{
}

/// A fresh report, extended by nested-model nodes, reports the modification of those nested models.
pub proof fn lemma_reports_from_fresh(before: FieldsChanged, after: FieldsChanged, added: Seq<crate::modeling::ClassIdent>)
    requires
        before.root.children@.len() == 0,
        reports_extended(before, after, added),
    ensures
        reports_modification(after, before.root.class_ident, before.root.op, added),
{
    assert forall|i: int| 0 <= i < added.len() implies
        (#[trigger] after.root.children@[i] matches crate::modeling::fields_changed::ChangeTreeNode::Model(node)
            && node.class_ident == added[i] && node.op == ChangeOp::Modify) by {
        assert(after.root.children@[before.root.children@.len() + i] == after.root.children@[i]);
    }
}

/// Chaining two report extensions.
pub proof fn lemma_reports_extended_trans(a: FieldsChanged, b: FieldsChanged, c: FieldsChanged,
    x: Seq<crate::modeling::ClassIdent>, y: Seq<crate::modeling::ClassIdent>)
    requires
        reports_extended(a, b, x),
        reports_extended(b, c, y),
    ensures
        reports_extended(a, c, x + y),
{
    let n = a.root.children@.len();
    assert(c.root.children@.subrange(0, n as int) =~= a.root.children@) by {
        assert(c.root.children@.subrange(0, n as int) =~= c.root.children@.subrange(0, b.root.children@.len() as int).subrange(0, n as int));
    }
    assert forall|i: int| 0 <= i < (x + y).len() implies
        (#[trigger] c.root.children@[n + i] matches crate::modeling::fields_changed::ChangeTreeNode::Model(node)
            && node.class_ident == (x + y)[i] && node.op == ChangeOp::Modify) by {
        if i < x.len() {
            assert(c.root.children@[n + i] == c.root.children@.subrange(0, b.root.children@.len() as int)[n + i]);
            assert(b.root.children@[n + i] == c.root.children@[n + i]);
        } else {
            assert(c.root.children@[n + i] == c.root.children@[b.root.children@.len() + (i - x.len())]);
        }
    }
}

} // verus!
