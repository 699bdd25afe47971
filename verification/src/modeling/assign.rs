//! Creation and modification helpers that work on whole builders: a required nested builder, or a list of creators.
use vstd::prelude::*;
use crate::error::{Error, Result};
use crate::identity::{UID, Identifiable, MaybeIdentifiable};
use crate::modeling::{Builder, Creation, Fields, Modification, option_view};
use crate::modeling::building::{field_not_set, views_of};

verus! {

/// An Add, Modify, or Remove operation against a vector of identified models.
#[derive(Debug)]
pub enum VecOp<T: MaybeIdentifiable, R: MaybeIdentifiable> {
    Add(T),
    Modify(T),
    Remove(R),
}

impl<T: MaybeIdentifiable, R: MaybeIdentifiable> VecOp<T, R> {
    pub fn is_add(&self) -> (r: bool)
        ensures
            r == self is Add,
    {
        match self {
            VecOp::Add(_) => true,
            _ => false,
        }
    }

    pub fn is_modify(&self) -> (r: bool)
        ensures
            r == self is Modify,
    {
        match self {
            VecOp::Modify(_) => true,
            _ => false,
        }
    }

    pub fn is_remove(&self) -> (r: bool)
        ensures
            r == self is Remove,
    {
        match self {
            VecOp::Remove(_) => true,
            _ => false,
        }
    }
}

/// What creating each builder of `bs`, in order, gives: the processed builders and the models, or the first error.
pub open spec fn create_all<B: Builder>(bs: Seq<B>) -> Result<(Seq<B::V>, Seq<<B::ModelType as View>::V>)>
    decreases bs.len(),
{
    if bs.len() == 0 {
        Ok((Seq::empty(), Seq::empty()))
    } else {
        match create_all(bs.drop_last()) {
            Err(e) => Err(e),
            Ok((builders, models)) => match bs.last().spec_create() {
                Err(e) => Err(e),
                Ok((b, m)) => Ok((builders.push(b), models.push(m))),
            },
        }
    }
}

/// Whether every builder of `bs` can run its creation.
pub open spec fn all_creatable<B: Builder>(bs: Seq<B>) -> bool {
    forall|i: int| 0 <= i < bs.len() ==> (#[trigger] bs[i]).spec_creatable()
}

/// The UIDs of models, by their views.
pub open spec fn uids_of<M: Identifiable>(models: Seq<M::V>) -> Seq<UID> {
    models.map_values(|m: M::V| M::spec_uid_of(m))
}

/// Creates each builder, in order, until one fails. On success the processed builders replace the creators; on
/// failure the creators are left empty.
fn create_each<B: Builder<ModelType = M>, M: View>(creators: &mut Vec<B>) -> (r: Result<Vec<M>>)
    requires
        all_creatable(old(creators)@),
    ensures
        match create_all(old(creators)@) {
            Ok((builders, models)) => (r matches Ok(v) && views_of(v@) == models) && views_of(final(creators)@) == builders,
            Err(e) => r == Err::<Vec<M>, Error>(e) && final(creators)@.len() == 0,
        },
{
    let ghost bs = creators@;
    let n = creators.len();
    assert(bs.len() == n);
    let mut pending: Vec<B> = Vec::new();
    std::mem::swap(creators, &mut pending);
    let mut builders: Vec<B> = Vec::new();
    let mut models: Vec<M> = Vec::new();
    let mut i: usize = 0;
    assert(bs.subrange(0, 0) =~= Seq::<B>::empty());
    assert(pending@.skip(0) =~= bs);
    assert(views_of(builders@) =~= Seq::<B::V>::empty());
    assert(views_of(models@) =~= Seq::<M::V>::empty());
    while pending.len() > 0
        invariant
            i <= bs.len(),
            bs == old(creators)@,
            pending@ == bs.skip(i as int),
            creators@.len() == 0,
            all_creatable(bs),
            bs.len() <= usize::MAX,
            create_all(bs.subrange(0, i as int)) == Ok::<(Seq<B::V>, Seq<M::V>), Error>((views_of(builders@), views_of(models@))),
        decreases pending@.len(),
    {
        let b = pending.remove(0);
        assert(b == bs[i as int]);
        assert(bs.subrange(0, i + 1).drop_last() =~= bs.subrange(0, i as int));
        assert(bs.subrange(0, i + 1).last() == b);
        assert(pending@ =~= bs.skip(i + 1));
        match b.create() {
            Ok(creation) => {
                let (builder, model) = creation.split();
                let ghost bv0 = views_of(builders@);
                let ghost mv0 = views_of(models@);
                builders.push(builder);
                models.push(model);
                assert(views_of(builders@) =~= bv0.push(builder@));
                assert(views_of(models@) =~= mv0.push(model@));
            },
            Err(e) => {
                assert(create_all(bs.subrange(0, i + 1)) == Err::<(Seq<B::V>, Seq<M::V>), Error>(e));
                proof { lemma_create_all_err(bs, (i + 1) as nat); }
                return Err(e);
            },
        }
        i = i + 1;
    }
    assert(bs.subrange(0, bs.len() as int) =~= bs);
    *creators = builders;
    Ok(models)
}

proof fn lemma_create_all_err<B: Builder>(bs: Seq<B>, n: nat)
    requires
        n <= bs.len(),
        create_all(bs.subrange(0, n as int)) is Err,
    ensures
        create_all(bs) == create_all(bs.subrange(0, n as int)),
    decreases bs.len() - n,
{
    if n < bs.len() {
        assert(bs.drop_last().subrange(0, n as int) =~= bs.subrange(0, n as int));
        lemma_create_all_err(bs.drop_last(), n);
    } else {
        assert(bs.subrange(0, n as int) =~= bs);
    }
}

/// The UIDs of a list of models.
fn uids_of_models<M: Identifiable>(models: &Vec<M>) -> (r: Vec<UID>)
    ensures
        r@ == uids_of::<M>(views_of(models@)),
{
    let mut uids: Vec<UID> = Vec::new();
    let mut i: usize = 0;
    while i < models.len()
        invariant
            i <= models.len(),
            uids@ == uids_of::<M>(views_of(models@).subrange(0, i as int)),
        decreases models.len() - i,
    {
        uids.push(models[i].uid());
        assert(uids_of::<M>(views_of(models@).subrange(0, i + 1))
            =~= uids_of::<M>(views_of(models@).subrange(0, i as int)).push(M::spec_uid_of(models@[i as int]@)));
        i = i + 1;
    }
    assert(views_of(models@).subrange(0, models@.len() as int) =~= views_of(models@));
    uids
}

impl<B: Builder<ModelType = M>, M: View> Creation<B, M> {
    /// Creates the model of a required builder, which is kept (processed) for the caller; `FieldNotSet` when
    /// there is no builder.
    pub fn try_assign<F: Fields>(creator: &mut Option<B>, field: F) -> (r: Result<M>)
        requires
            *old(creator) matches Some(b) ==> b.spec_creatable(),
        ensures
            match *old(creator) {
                None => r == Err::<M, Error>(field_not_set(field.spec_field())) && *final(creator) is None,
                Some(b) => match b.spec_create() {
                    Ok((bv, mv)) => (r matches Ok(m) && m@ == mv) && option_view(*final(creator)) == Some(bv),
                    Err(e) => r == Err::<M, Error>(e) && *final(creator) is None,
                },
            },
    {
        let field = field.field();
        let builder = match creator.take() {
            Some(b) => b,
            None => return Err(Error::FieldNotSet { class: field.class_ident.classname, field: field.name }),
        };
        let (builder, model) = builder.create()?.split();
        *creator = Some(builder);
        Ok(model)
    }

    /// Creates the model of a builder that must be there; the processed builder is kept for the caller.
    pub fn assign(creator_option: &mut Option<B>) -> (r: Result<M>)
        requires
            *old(creator_option) matches Some(b) && b.spec_creatable(),
        ensures
            match old(creator_option).unwrap().spec_create() {
                Ok((bv, mv)) => (r matches Ok(m) && m@ == mv) && option_view(*final(creator_option)) == Some(bv),
                Err(e) => r == Err::<M, Error>(e) && *final(creator_option) is None,
            },
    {
        let builder = match creator_option.take() {
            Some(b) => b,
            None => vstd::pervasive::unreached(),
        };
        let (builder, model) = builder.create()?.split();
        *creator_option = Some(builder);
        Ok(model)
    }

    /// Creates the model of each creator, in order, until one fails; the processed builders are kept.
    pub fn assign_vec(creators: &mut Vec<B>) -> (r: Result<Vec<M>>)
        requires
            all_creatable(old(creators)@),
        ensures
            match create_all(old(creators)@) {
                Ok((builders, models)) => (r matches Ok(v) && views_of(v@) == models) && views_of(final(creators)@) == builders,
                Err(e) => r == Err::<Vec<M>, Error>(e) && final(creators)@.len() == 0,
            },
    {
        create_each(creators)
    }

    /// Appends the model of each creator to `originals`, all or none; the processed builders are kept.
    pub fn modify_vec(creators: &mut Vec<B>, originals: &mut Vec<M>) -> (r: Result<()>)
        requires
            all_creatable(old(creators)@),
        ensures
            match create_all(old(creators)@) {
                Ok((builders, models)) => r is Ok && views_of(final(originals)@) == views_of(old(originals)@) + models
                    && views_of(final(creators)@) == builders,
                Err(e) => r == Err::<(), Error>(e) && final(creators)@.len() == 0 && final(originals)@ == old(originals)@,
            },
    {
        let mut models = create_each(creators)?;
        let ghost before = originals@;
        let ghost added = models@;
        originals.append(&mut models);
        assert(views_of(originals@) =~= views_of(before) + views_of(added));
        Ok(())
    }
}

impl<B: Builder<ModelType = M>, M: Identifiable> Creation<B, M> {
    /// Creates the model of each creator, in order, until one fails, and gives their UIDs; the processed builders
    /// are kept.
    pub fn assign_vec_uid(creators: &mut Vec<B>) -> (r: Result<Vec<UID>>)
        requires
            all_creatable(old(creators)@),
        ensures
            match create_all(old(creators)@) {
                Ok((builders, models)) => (r matches Ok(v) && v@ == uids_of::<M>(models)) && views_of(final(creators)@) == builders,
                Err(e) => r == Err::<Vec<UID>, Error>(e) && final(creators)@.len() == 0,
            },
    {
        let models = create_each(creators)?;
        Ok(uids_of_models(&models))
    }

    /// Appends the UID of the model of each creator to `originals`, all or none; the processed builders are kept.
    pub fn modify_vec_uid(creators: &mut Vec<B>, originals: &mut Vec<UID>) -> (r: Result<()>)
        requires
            all_creatable(old(creators)@),
        ensures
            match create_all(old(creators)@) {
                Ok((builders, models)) => r is Ok && final(originals)@ == old(originals)@ + uids_of::<M>(models)
                    && views_of(final(creators)@) == builders,
                Err(e) => r == Err::<(), Error>(e) && final(creators)@.len() == 0 && final(originals)@ == old(originals)@,
            },
    {
        let models = create_each(creators)?;
        let mut uids = uids_of_models(&models);
        originals.append(&mut uids);
        Ok(())
    }
}

impl<B: Builder<ModelType = M>, M: View> Modification<B> {
    /// Modifies `original_value` with an editor that must be there; the processed editor is kept for the caller.
    pub fn assign(editor_option: &mut Option<B>, original_value: &mut M) -> (r: Result<()>)
        requires
            *old(editor_option) matches Some(b) && b.spec_modifiable(old(original_value)@),
        ensures
            final(original_value)@ == old(editor_option).unwrap().spec_modify(old(original_value)@).0,
            match old(editor_option).unwrap().spec_modify(old(original_value)@).1 {
                Ok(bv) => r is Ok && option_view(*final(editor_option)) == Some(bv),
                Err(e) => r == Err::<(), Error>(e) && *final(editor_option) is None,
            },
    {
        let builder = match editor_option.take() {
            Some(b) => b,
            None => vstd::pervasive::unreached(),
        };
        let builder = builder.modify(original_value)?.take_builder();
        *editor_option = Some(builder);
        Ok(())
    }
}

} // verus!
