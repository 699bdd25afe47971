use vstd::prelude::*;
use crate::error::{Error, Result};
use crate::text::{push_char, decimal_text, digit_char};
use crate::modeling::{Class, ClassIdent, CodebaseClassID, Field, FieldValueType, Fields};

verus! {

pub type UID = u128;
// A UID is composed of the following parts:
pub type UniverseID = u16;
pub type WorldID = u32;
pub type ClassID = u16;
pub type ID = u64;

/// 2^112: the weight of the universe id within a UID.
pub open spec fn universe_weight() -> int { 0x1_0000_0000_0000_0000_0000_0000_0000 }
/// 2^80: the weight of the world id within a UID.
pub open spec fn world_weight() -> int { 0x1_0000_0000_0000_0000_0000 }
/// 2^64: the weight of the class id within a UID.
pub open spec fn class_weight() -> int { 0x1_0000_0000_0000_0000 }

/// The UID that packs the four parts, most significant first: universe (16 bits), world (32 bits),
/// class (16 bits) and id (64 bits).
pub open spec fn packed_uid(universe_id: u16, world_id: u32, class_id: u16, id: u64) -> int {
    universe_id * universe_weight() + world_id * world_weight() + class_id * class_weight() + id
}

/// The four parts of a UID: (universe, world, class, id).
pub open spec fn uid_parts(value: u128) -> (int, int, int, int) {
    (
        (value as int) / universe_weight(),
        ((value as int) / world_weight()) % 0x1_0000_0000,
        ((value as int) / class_weight()) % 0x1_0000,
        (value as int) % class_weight(),
    )
}

/// Globally unique identity of a model object: the universe and world it belongs to, its class, and its id.
#[derive(PartialEq, Eq, Clone, Copy, Debug)]
pub struct Identity {
    universe_id: UniverseID,
    world_id: WorldID,
    class_id: ClassID,
    id: ID,
}

/// Fallible access to a UID.
pub trait MaybeIdentifiable {
    spec fn spec_try_uid(&self) -> Result<UID>;

    fn try_uid(&self) -> (r: Result<UID>)
        ensures
            r == self.spec_try_uid(),
    ;
}

/// Unique to the World. Should be used to permanently reference objects (never use UID manually).
pub trait Keyed {
    spec fn spec_key(&self) -> Option<Seq<char>>;

    fn key(&self) -> (r: Option<&str>)
        ensures
            match r {
                Some(k) => self.spec_key() == Some(k@),
                None => self.spec_key() is None,
            },
    ;
}

pub trait Identifiable: Keyed + View {
    /// The UID of the object with the given view.
    spec fn spec_uid_of(v: Self::V) -> UID;

    fn uid(&self) -> (r: UID)
        ensures
            r == Self::spec_uid_of(self@),
    ;
}

/// The UID of an identifiable object.
pub open spec fn uid_of<I: Identifiable>(i: I) -> UID {
    I::spec_uid_of(i@)
}

impl Identity {
    pub closed spec fn spec_universe_id(self) -> u16 { self.universe_id }
    pub closed spec fn spec_world_id(self) -> u32 { self.world_id }
    pub closed spec fn spec_class_id(self) -> u16 { self.class_id }
    pub closed spec fn spec_id(self) -> u64 { self.id }

    /// The four parts of this identity: (universe, world, class, id).
    pub open spec fn spec_parts(self) -> (int, int, int, int) {
        (self.spec_universe_id() as int, self.spec_world_id() as int, self.spec_class_id() as int, self.spec_id() as int)
    }

    pub open spec fn spec_packed_uid(self) -> int {
        packed_uid(self.spec_universe_id(), self.spec_world_id(), self.spec_class_id(), self.spec_id())
    }

    pub fn new(universe_id: UniverseID, world_id: WorldID, class_id: ClassID, id: ID) -> (r: Self)
        ensures
            r.spec_universe_id() == universe_id,
            r.spec_world_id() == world_id,
            r.spec_class_id() == class_id,
            r.spec_id() == id,
    {
        Self { universe_id, world_id, class_id, id }
    }

    pub fn from_uid(value: UID) -> (r: Self)
        ensures
            r.spec_parts() == uid_parts(value),
    {
        let universe_id = (value >> 112u32) as u16;
        let world_id = (value >> 80u32) as u32;
        let class_id = (value >> 64u32) as u16;
        let id = value as u64;
        assert(universe_id == value / 0x1_0000_0000_0000_0000_0000_0000_0000u128) by (bit_vector)
            requires universe_id == (value >> 112u32) as u16;
        assert(world_id == (value / 0x1_0000_0000_0000_0000_0000u128) % 0x1_0000_0000u128) by (bit_vector)
            requires world_id == (value >> 80u32) as u32;
        assert(class_id == (value / 0x1_0000_0000_0000_0000u128) % 0x1_0000u128) by (bit_vector)
            requires class_id == (value >> 64u32) as u16;
        assert(id == value % 0x1_0000_0000_0000_0000u128) by (bit_vector)
            requires id == value as u64;
        Self { universe_id, world_id, class_id, id }
    }

    pub fn to_uid(&self) -> (r: UID)
        ensures
            r == self.spec_packed_uid(),
    {
        let u = self.universe_id;
        let w = self.world_id;
        let c = self.class_id;
        let i = self.id;
        let r: u128 = 0u128 | ((u as u128) << 112u32) | ((w as u128) << 80u32) | ((c as u128) << 64u32) | ((i as u128) << 0u32);
        assert(r == (u as u128) * 0x1_0000_0000_0000_0000_0000_0000_0000u128 + (w as u128) * 0x1_0000_0000_0000_0000_0000u128
            + (c as u128) * 0x1_0000_0000_0000_0000u128 + (i as u128)) by (bit_vector)
            requires r == 0u128 | ((u as u128) << 112u32) | ((w as u128) << 80u32) | ((c as u128) << 64u32) | ((i as u128) << 0u32);
        r
    }

    pub fn into_uid(self) -> (r: UID)
        ensures
            r == self.spec_packed_uid(),
    {
        self.to_uid()
    }

    pub fn split(self) -> (r: (UniverseID, WorldID, ClassID, ID))
        ensures
            (r.0 as int, r.1 as int, r.2 as int, r.3 as int) == self.spec_parts(),
    {
        (self.universe_id, self.world_id, self.class_id, self.id)
    }

    /// The id in base 62, least significant digit first.
    pub fn id_to_string(&self) -> (r: String)
        ensures
            r@ == base62_digits(self.spec_id() as nat),
    {
        let id = self.id;
        let mut s = String::new();
        let mut x: u64 = id;
        let m = x % 62;
        x = x / 62;
        push_char(&mut s, radix_char(m));
        assert(s@ + (if x == 0 { Seq::<char>::empty() } else { base62_digits(x as nat) }) =~= base62_digits(id as nat));
        while x != 0
            invariant
                s@ + (if x == 0 { Seq::<char>::empty() } else { base62_digits(x as nat) }) == base62_digits(id as nat),
            decreases x,
        {
            let m = x % 62;
            let ghost before = s@;
            let ghost x0 = x;
            x = x / 62;
            push_char(&mut s, radix_char(m));
            assert(before + base62_digits(x0 as nat) == s@ + (if x == 0 { Seq::<char>::empty() } else { base62_digits(x as nat) }));
        }
        assert(s@ + Seq::<char>::empty() =~= s@);
        s
    }

    pub fn universe_id(&self) -> (r: UniverseID)
        ensures
            r == self.spec_universe_id(),
    {
        self.universe_id
    }

    pub fn world_id(&self) -> (r: WorldID)
        ensures
            r == self.spec_world_id(),
    {
        self.world_id
    }

    pub fn class_id(&self) -> (r: ClassID)
        ensures
            r == self.spec_class_id(),
    {
        self.class_id
    }

    pub fn id(&self) -> (r: ID)
        ensures
            r == self.spec_id(),
    {
        self.id
    }
}

/// The character of a base-62 digit: '0'-'9', then 'a'-'z', then 'A'-'Z'.
pub open spec fn spec_radix_char(m: int) -> char {
    if m < 10 {
        (48 + m) as char
    } else if m < 36 {
        (97 + m - 10) as char
    } else {
        (65 + m - 36) as char
    }
}

/// The base-62 digits of `x`, least significant first (zero is the single digit '0').
pub open spec fn base62_digits(x: nat) -> Seq<char>
    decreases x,
{
    if x < 62 {
        seq![spec_radix_char(x as int)]
    } else {
        seq![spec_radix_char((x % 62) as int)] + base62_digits(x / 62)
    }
}

fn radix_char(m: u64) -> (r: char)
    requires
        m < 62,
    ensures
        r == spec_radix_char(m as int),
{
    if m < 10 {
        ((48 + m) as u8) as char
    } else if m < 36 {
        ((97 + m - 10) as u8) as char
    } else {
        ((65 + m - 36) as u8) as char
    }
}

impl MaybeIdentifiable for Identity {
    open spec fn spec_try_uid(&self) -> Result<UID> {
        Ok(self.spec_packed_uid() as UID)
    }

    fn try_uid(&self) -> (r: Result<UID>) {
        Ok(self.into_uid())
    }
}

impl Keyed for Identity {
    open spec fn spec_key(&self) -> Option<Seq<char>> {
        None
    }

    fn key(&self) -> (r: Option<&str>) {
        None
    }
}

impl View for Identity {
    type V = Identity;

    open spec fn view(&self) -> Identity {
        *self
    }
}

impl Identifiable for Identity {
    open spec fn spec_uid_of(v: Identity) -> UID {
        v.spec_packed_uid() as UID
    }

    fn uid(&self) -> (r: UID) {
        self.to_uid()
    }
}

impl MaybeIdentifiable for UID {
    open spec fn spec_try_uid(&self) -> Result<UID> {
        Ok(*self)
    }

    fn try_uid(&self) -> (r: Result<UID>) {
        let r: Result<UID> = Ok(*self);
        assert(r == self.spec_try_uid());
        r
    }
}

impl Keyed for UID {
    open spec fn spec_key(&self) -> Option<Seq<char>> {
        None
    }

    fn key(&self) -> (r: Option<&str>) {
        None
    }
}

impl Identifiable for UID {
    open spec fn spec_uid_of(v: UID) -> UID {
        v
    }

    fn uid(&self) -> (r: UID) {
        *self
    }
}

impl Identity {
    /// The identity whose parts are those of `value`.
    pub closed spec fn spec_from_uid(value: UID) -> Identity {
        Identity {
            universe_id: uid_parts(value).0 as u16,
            world_id: uid_parts(value).1 as u32,
            class_id: uid_parts(value).2 as u16,
            id: uid_parts(value).3 as u64,
        }
    }

    /// The identity built from a UID has that UID's parts.
    pub proof fn lemma_spec_from_uid_parts(value: UID)
        ensures
            Identity::spec_from_uid(value).spec_parts() == uid_parts(value),
    {
        lemma_packed_uid_of_parts(value);
        assert(0 <= uid_parts(value).0 < 0x1_0000) by {
            assert((value as int) / universe_weight() < 0x1_0000) by (nonlinear_arith)
                requires 0 <= value <= u128::MAX, universe_weight() == 0x1_0000_0000_0000_0000_0000_0000_0000int;
        }
    }
}

impl From<UID> for Identity {
    fn from(value: UID) -> (r: Self) {
        proof { Identity::lemma_spec_from_uid_parts(value); }
        let r = Self::from_uid(value);
        assert(r == Identity::spec_from_uid(value));
        r
    }
}

impl vstd::std_specs::convert::FromSpecImpl<UID> for Identity {
    open spec fn obeys_from_spec() -> bool {
        true
    }

    open spec fn from_spec(v: UID) -> Identity {
        Identity::spec_from_uid(v)
    }
}

impl From<Identity> for UID {
    fn from(value: Identity) -> (r: Self) {
        value.into_uid()
    }
}

impl vstd::std_specs::convert::FromSpecImpl<Identity> for UID {
    open spec fn obeys_from_spec() -> bool {
        true
    }

    open spec fn from_spec(v: Identity) -> UID {
        v.spec_packed_uid() as UID
    }
}

pub trait IntoIdentity {
    fn into_identity(self) -> Identity;
}

impl IntoIdentity for UID {
    fn into_identity(self) -> (r: Identity)
        ensures
            r.spec_parts() == uid_parts(self),
    {
        Identity::from_uid(self)
    }
}

/// Hands out consecutive ids (and the UIDs and identities built from them) within one universe and world.
pub struct IdentityGenerator {
    universe_id: UniverseID,
    world_id: WorldID,
    next_id: ID,
}

impl IdentityGenerator {
    pub closed spec fn spec_universe_id(self) -> u16 { self.universe_id }
    pub closed spec fn spec_world_id(self) -> u32 { self.world_id }
    pub closed spec fn spec_next_id(self) -> u64 { self.next_id }

    pub fn new(universe_id: UniverseID, world_id: WorldID, next_id: ID) -> (r: Self)
        ensures
            r.spec_universe_id() == universe_id,
            r.spec_world_id() == world_id,
            r.spec_next_id() == next_id,
    {
        Self { universe_id, world_id, next_id }
    }

    pub fn from_identity(identity: &Identity, next_id: ID) -> (r: Self)
        ensures
            r.spec_universe_id() == identity.spec_universe_id(),
            r.spec_world_id() == identity.spec_world_id(),
            r.spec_next_id() == next_id,
    {
        Self { universe_id: identity.universe_id(), world_id: identity.world_id(), next_id }
    }

    pub fn from_uid(uid: UID, next_id: ID) -> (r: Self)
        ensures
            r.spec_universe_id() == uid_parts(uid).0,
            r.spec_world_id() == uid_parts(uid).1,
            r.spec_next_id() == next_id,
    {
        let identity = Identity::from_uid(uid);
        Self::from_identity(&identity, next_id)
    }

    pub fn next_uid(&mut self, class_id: ClassID) -> (r: UID)
        requires
            old(self).spec_next_id() < u64::MAX,
        ensures
            r == packed_uid(old(self).spec_universe_id(), old(self).spec_world_id(), class_id, old(self).spec_next_id()),
            final(self).spec_next_id() == old(self).spec_next_id() + 1,
            final(self).spec_universe_id() == old(self).spec_universe_id(),
            final(self).spec_world_id() == old(self).spec_world_id(),
    {
        let uid = Identity::new(self.universe_id, self.world_id, class_id, self.next_id).into_uid();
        self.next_id = self.next_id + 1;
        uid
    }

    pub fn next_id(&mut self) -> (r: ID)
        requires
            old(self).spec_next_id() < u64::MAX,
        ensures
            r == old(self).spec_next_id(),
            final(self).spec_next_id() == old(self).spec_next_id() + 1,
            final(self).spec_universe_id() == old(self).spec_universe_id(),
            final(self).spec_world_id() == old(self).spec_world_id(),
    {
        let id = self.next_id;
        self.next_id = self.next_id + 1;
        id
    }

    pub fn next_identity(&mut self, class_id: ClassID) -> (r: Identity)
        requires
            old(self).spec_next_id() < u64::MAX,
        ensures
            r.spec_parts() == (old(self).spec_universe_id() as int, old(self).spec_world_id() as int, class_id as int,
                old(self).spec_next_id() as int),
            final(self).spec_next_id() == old(self).spec_next_id() + 1,
            final(self).spec_universe_id() == old(self).spec_universe_id(),
            final(self).spec_world_id() == old(self).spec_world_id(),
    {
        let identity = Identity::new(self.universe_id, self.world_id, class_id, self.next_id);
        self.next_id = self.next_id + 1;
        identity
    }

    pub fn get_next_id(&self) -> (r: ID)
        ensures
            r == self.spec_next_id(),
    {
        self.next_id
    }
}

/// Whether `gens` are the successive states of one generator: each call (`next_id`, `next_uid` or
/// `next_identity`) hands out the next id and advances it by one, in the same universe and world.
pub open spec fn successive_generators(gens: Seq<IdentityGenerator>) -> bool {
    forall|i: int| 0 <= i < gens.len() - 1 ==> {
        &&& (#[trigger] gens[i + 1]).spec_next_id() == gens[i].spec_next_id() + 1
        &&& gens[i + 1].spec_universe_id() == gens[i].spec_universe_id()
        &&& gens[i + 1].spec_world_id() == gens[i].spec_world_id()
    }
}

proof fn lemma_successive_ids(gens: Seq<IdentityGenerator>, k: int)
    requires
        successive_generators(gens),
        0 <= k < gens.len(),
    ensures
        gens[k].spec_next_id() == gens[0].spec_next_id() + k,
        gens[k].spec_universe_id() == gens[0].spec_universe_id(),
        gens[k].spec_world_id() == gens[0].spec_world_id(),
    decreases k,
{
    if k > 0 {
        lemma_successive_ids(gens, k - 1);
        assert(gens[(k - 1) + 1] == gens[k]);
    }
}

/// One generator never hands out the same id twice: along its successive states, whichever of `next_id`,
/// `next_uid` and `next_identity` each call is, the ids handed out are the first id, the one after, and so on,
/// so they are pairwise distinct, and so are the UIDs (and the identities) made from them, whatever classes
/// they are for.
pub proof fn lemma_generated_uids_distinct(gens: Seq<IdentityGenerator>, class_ids: Seq<ClassID>)
    requires
        successive_generators(gens),
        class_ids.len() == gens.len(),
    ensures
        forall|k: int| 0 <= k < gens.len() ==> #[trigger] gens[k].spec_next_id() == gens[0].spec_next_id() + k,
        forall|i: int, j: int| 0 <= i < j < gens.len() ==> gens[i].spec_next_id() != gens[j].spec_next_id(),
        forall|i: int, j: int| 0 <= i < j < gens.len() ==>
            packed_uid(gens[i].spec_universe_id(), gens[i].spec_world_id(), class_ids[i], gens[i].spec_next_id())
                != packed_uid(gens[j].spec_universe_id(), gens[j].spec_world_id(), class_ids[j], gens[j].spec_next_id()),
{
    assert forall|k: int| 0 <= k < gens.len() implies #[trigger] gens[k].spec_next_id() == gens[0].spec_next_id() + k by {
        lemma_successive_ids(gens, k);
    }
    assert forall|i: int, j: int| 0 <= i < j < gens.len() implies gens[i].spec_next_id() != gens[j].spec_next_id()
        && packed_uid(gens[i].spec_universe_id(), gens[i].spec_world_id(), class_ids[i], gens[i].spec_next_id())
            != packed_uid(gens[j].spec_universe_id(), gens[j].spec_world_id(), class_ids[j], gens[j].spec_next_id()) by {
        lemma_successive_ids(gens, i);
        lemma_successive_ids(gens, j);
        let a = gens[i];
        let b = gens[j];
        lemma_parts_of_packed_uid(a.spec_universe_id(), a.spec_world_id(), class_ids[i], a.spec_next_id());
        lemma_parts_of_packed_uid(b.spec_universe_id(), b.spec_world_id(), class_ids[j], b.spec_next_id());
    }
}

/// Law: splitting the UID that packs four parts gives those parts back, and the packed value fits in a UID.
pub proof fn lemma_parts_of_packed_uid(universe_id: u16, world_id: u32, class_id: u16, id: u64)
    ensures
        0 <= packed_uid(universe_id, world_id, class_id, id) <= u128::MAX,
        uid_parts(packed_uid(universe_id, world_id, class_id, id) as u128)
            == (universe_id as int, world_id as int, class_id as int, id as int),
{
    let v = packed_uid(universe_id, world_id, class_id, id);
    assert(0 <= (universe_id as u128) * 0x1_0000_0000_0000_0000_0000_0000_0000u128 + (world_id as u128) * 0x1_0000_0000_0000_0000_0000u128
        + (class_id as u128) * 0x1_0000_0000_0000_0000u128 + (id as u128) <= 0xffff_ffff_ffff_ffff_ffff_ffff_ffff_ffffu128) by (bit_vector);
    let w: u128 = ((universe_id as u128) * 0x1_0000_0000_0000_0000_0000_0000_0000u128 + (world_id as u128) * 0x1_0000_0000_0000_0000_0000u128
        + (class_id as u128) * 0x1_0000_0000_0000_0000u128 + (id as u128)) as u128;
    assert(w / 0x1_0000_0000_0000_0000_0000_0000_0000u128 == universe_id
        && (w / 0x1_0000_0000_0000_0000_0000u128) % 0x1_0000_0000u128 == world_id
        && (w / 0x1_0000_0000_0000_0000u128) % 0x1_0000u128 == class_id
        && w % 0x1_0000_0000_0000_0000u128 == id) by (bit_vector)
        requires
            w == ((universe_id as u128) * 0x1_0000_0000_0000_0000_0000_0000_0000u128 + (world_id as u128) * 0x1_0000_0000_0000_0000_0000u128
                + (class_id as u128) * 0x1_0000_0000_0000_0000u128 + (id as u128)) as u128;
}

/// Law: packing the four parts of a UID gives the same UID back.
pub proof fn lemma_packed_uid_of_parts(value: u128)
    ensures
        uid_parts(value).0 * universe_weight() + uid_parts(value).1 * world_weight() + uid_parts(value).2 * class_weight()
            + uid_parts(value).3 == value,
{
    assert(value == (value / 0x1_0000_0000_0000_0000_0000_0000_0000u128) * 0x1_0000_0000_0000_0000_0000_0000_0000u128
        + ((value / 0x1_0000_0000_0000_0000_0000u128) % 0x1_0000_0000u128) * 0x1_0000_0000_0000_0000_0000u128
        + ((value / 0x1_0000_0000_0000_0000u128) % 0x1_0000u128) * 0x1_0000_0000_0000_0000u128
        + value % 0x1_0000_0000_0000_0000u128) by (bit_vector);
}

/// Law: an identity survives the round trip through its UID: `Identity::from_uid(identity.to_uid())` has the
/// same universe, world, class and id as `identity`.
pub proof fn lemma_identity_uid_round_trip(identity: Identity)
    ensures
        uid_parts(identity.spec_packed_uid() as u128) == identity.spec_parts(),
{
    lemma_parts_of_packed_uid(identity.spec_universe_id(), identity.spec_world_id(), identity.spec_class_id(), identity.spec_id());
}

/// Law: a UID survives the round trip through an identity: `Identity::from_uid(uid).to_uid() == uid`.
pub proof fn lemma_uid_identity_round_trip(value: u128, identity: Identity)
    requires
        identity.spec_parts() == uid_parts(value),
    ensures
        identity.spec_packed_uid() == value,
{
    lemma_packed_uid_of_parts(value);
}


/// The fields of an `Identity`.
#[derive(Debug, Clone, Copy, PartialEq, Eq, Structural)]
pub enum IdentityField {
    UniverseID,
    WorldID,
    ClassID,
    ID,
}

impl IdentityField {
    pub open spec fn spec_class_ident_const() -> ClassIdent {
        ClassIdent { class_id: CodebaseClassID::Identity.spec_class_id(), classname: "Identity" }
    }

    pub fn class_ident_const() -> (r: ClassIdent)
        ensures
            r == Self::spec_class_ident_const(),
    {
        ClassIdent::new(CodebaseClassID::Identity.class_id(), "Identity")
    }
}

impl Fields for IdentityField {
    open spec fn spec_field(&self) -> Field {
        let ci = IdentityField::spec_class_ident_const();
        match self {
            IdentityField::UniverseID => Field { class_ident: ci, name: "universe_id", value_type: FieldValueType::U64 },
            IdentityField::WorldID => Field { class_ident: ci, name: "world_id", value_type: FieldValueType::U64 },
            IdentityField::ClassID => Field { class_ident: ci, name: "class_id", value_type: FieldValueType::U64 },
            IdentityField::ID => Field { class_ident: ci, name: "id", value_type: FieldValueType::U64 },
        }
    }

    fn field(&self) -> (r: Field) {
        let ci = Self::class_ident_const();
        match self {
            Self::UniverseID => Field::new(ci, "universe_id", FieldValueType::U64),
            Self::WorldID => Field::new(ci, "world_id", FieldValueType::U64),
            Self::ClassID => Field::new(ci, "class_id", FieldValueType::U64),
            Self::ID => Field::new(ci, "id", FieldValueType::U64),
        }
    }
}

impl Class for IdentityField {
    open spec fn spec_class_ident() -> ClassIdent {
        IdentityField::spec_class_ident_const()
    }

    fn class_ident() -> (r: ClassIdent) {
        Self::class_ident_const()
    }
}

} // verus!

verus! {

/// Whether `c` is one of the ASCII digits `0` to `9`.
pub open spec fn is_decimal_digit(c: char) -> bool {
    '0' <= c && c <= '9'
}

/// The number that the decimal digits `s` write, most significant first.
pub open spec fn decimal_value(s: Seq<char>) -> int
    decreases s.len(),
{
    if s.len() == 0 {
        0
    } else {
        decimal_value(s.drop_last()) * 10 + (s.last() as int - '0' as int)
    }
}

/// The characters of `s` after an optional leading `+` sign.
pub open spec fn unsigned_digits(s: Seq<char>) -> Seq<char> {
    if s.len() > 0 && s[0] == '+' { s.drop_first() } else { s }
}

/// What std's `str::parse::<u128>` gives for `s`: an optional `+` followed by one or more decimal
/// digits whose value fits in a `u128`; anything else (an empty string, a sign alone, another character,
/// an overflow) is refused.
pub open spec fn parsed_uid(s: Seq<char>) -> Option<UID> {
    let d = unsigned_digits(s);
    if d.len() > 0 && (forall|i: int| 0 <= i < d.len() ==> is_decimal_digit(#[trigger] d[i]))
        && decimal_value(d) <= u128::MAX {
        Some(decimal_value(d) as UID)
    } else {
        None
    }
}

proof fn lemma_decimal_value_grows(d: Seq<char>, m: int)
    requires
        0 <= m <= d.len(),
        forall|i: int| 0 <= i < d.len() ==> is_decimal_digit(#[trigger] d[i]),
    ensures
        0 <= decimal_value(d.subrange(0, m)) <= decimal_value(d),
    decreases d.len(),
{
    if m == d.len() {
        assert(d.subrange(0, m) =~= d);
        if d.len() > 0 {
            lemma_decimal_value_grows(d.drop_last(), m - 1);
            assert(d.drop_last().subrange(0, m - 1) =~= d.drop_last());
            assert(is_decimal_digit(d[d.len() - 1]));
        }
    } else {
        let p = d.drop_last();
        assert forall|i: int| 0 <= i < p.len() implies is_decimal_digit(#[trigger] p[i]) by {
            assert(p[i] == d[i]);
        }
        lemma_decimal_value_grows(p, m);
        lemma_decimal_value_grows(p, p.len() as int);
        assert(p.subrange(0, p.len() as int) =~= p);
        assert(p.subrange(0, m) =~= d.subrange(0, m));
        assert(is_decimal_digit(d[d.len() - 1]));
    }
}

/// Parses a UID written in decimal, as std's `str::parse::<u128>` does.
pub fn parse_uid(text: &str) -> (r: Option<UID>)
    ensures
        r == parsed_uid(text@),
{
    let chars = crate::text::chars_of(text);
    let ghost d = unsigned_digits(text@);
    let start: usize = if chars.len() > 0 && chars[0] == '+' { 1 } else { 0 };
    assert(d =~= chars@.subrange(start as int, chars@.len() as int));
    if start == chars.len() {
        return None;
    }
    let mut value: u128 = 0;
    let mut i: usize = start;
    while i < chars.len()
        invariant
            start <= i <= chars.len(),
            start < chars.len(),
            chars@ == text@,
            d == chars@.subrange(start as int, chars@.len() as int),
            d == unsigned_digits(text@),
            forall|k: int| 0 <= k < i - start ==> is_decimal_digit(#[trigger] d[k]),
            value == decimal_value(d.subrange(0, i - start)),
        decreases chars.len() - i,
    {
        let c = chars[i];
        assert(d[i - start] == c);
        if !('0' <= c && c <= '9') {
            assert(!is_decimal_digit(d[i - start]));
            return None;
        }
        let digit: u128 = ((c as u32) - ('0' as u32)) as u128;
        assert(digit == c as int - '0' as int);
        let ghost next = d.subrange(0, i - start + 1);
        assert(next.drop_last() =~= d.subrange(0, i - start));
        assert(next.last() == c);
        if value > (u128::MAX - digit) / 10 {
            proof {
                assert(value * 10 + digit > u128::MAX) by (nonlinear_arith)
                    requires
                        value > (u128::MAX - digit) / 10,
                        digit <= 9,
                ;
                assert(decimal_value(next) > u128::MAX);
                if forall|k: int| 0 <= k < d.len() ==> is_decimal_digit(#[trigger] d[k]) {
                    lemma_decimal_value_grows(d, i - start + 1);
                }
                assert(parsed_uid(text@) is None);
            }
            return None;
        }
        proof {
            assert(value * 10 + digit <= u128::MAX) by (nonlinear_arith)
                requires
                    value <= (u128::MAX - digit) / 10,
                    digit <= 9,
            ;
        }
        value = value * 10 + digit;
        i = i + 1;
    }
    assert(d.subrange(0, d.len() as int) =~= d);
    Some(value)
}

} // verus!

verus! {

proof fn lemma_decimal_text_digits(n: nat)
    ensures
        decimal_text(n).len() > 0,
        forall|i: int| 0 <= i < decimal_text(n).len() ==> is_decimal_digit(#[trigger] decimal_text(n)[i]),
        decimal_value(decimal_text(n)) == n,
    decreases n,
{
    let d = (n % 10) as nat;
    assert(digit_char(d) as int == 48 + d);
    if n < 10 {
        let t = decimal_text(n);
        assert(d == n);
        assert(t.drop_last() =~= Seq::<char>::empty());
        assert(decimal_value(Seq::<char>::empty()) == 0);
        assert(t.last() == digit_char(n));
        assert('0' as int == 48);
        assert(decimal_value(t) == decimal_value(t.drop_last()) * 10 + (t.last() as int - '0' as int));
    } else {
        lemma_decimal_text_digits(n / 10);
        let t = decimal_text(n);
        assert(t.drop_last() =~= decimal_text(n / 10));
        assert(t.last() == digit_char(d));
        assert(n == (n / 10) * 10 + d);
        assert(decimal_value(t) == decimal_value(decimal_text(n / 10)) * 10 + d);
        assert forall|i: int| 0 <= i < t.len() implies is_decimal_digit(#[trigger] t[i]) by {
            if i < t.len() - 1 {
                assert(t[i] == decimal_text(n / 10)[i]);
            }
        }
    }
}

/// The decimal numeral of a UID parses back to that UID.
pub proof fn lemma_decimal_uid_parses(uid: UID)
    ensures
        parsed_uid(decimal_text(uid as nat)) == Some(uid),
{
    lemma_decimal_text_digits(uid as nat);
    let t = decimal_text(uid as nat);
    assert(is_decimal_digit(t[0]));
    assert(unsigned_digits(t) == t);
}

} // verus!
