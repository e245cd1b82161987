//! The kitties module: accounts create kitties (16 random bytes of DNA each, for which
//! a deposit is reserved), transfer them, and breed two kitties into a new one.
//!
//! The storage of the module is held in `KittiesModule`; its abstract state is a
//! `KittiesState`, and each dispatchable call is specified by a function on that state.

use vstd::prelude::*;
use std::collections::HashMap;
use crate::origin::{AccountId, Origin, ensure_signed, signer_of};
use crate::hashing::{random_value, spec_random_value};

verus! {

broadcast use vstd::std_specs::hash::group_hash_axioms;

/// The deposit reserved from an account for each kitty it creates.
pub const STAKING_MONEY: u64 = 10;

/// The index of a kitty (the test runtime's `KittyIndex` is `u32`).
pub type KittyIndex = u32;

/// A kitty: its 16 bytes of DNA.
#[derive(Clone, Copy, PartialEq, Eq, Debug)]
pub struct Kitty(pub [u8; 16]);

impl View for Kitty {
    type V = Seq<u8>;

    open spec fn view(&self) -> Seq<u8> {
        self.0@
    }
}

/// Why a currency refused to reserve funds.
#[derive(Clone, Copy, PartialEq, Eq, Debug)]
pub enum CurrencyError {
    /// The free balance is lower than the amount.
    InsufficientBalance,
    /// A lock on the account forbids the withdrawal.
    LiquidityRestrictions,
    /// The reserved balance would overflow.
    Overflow,
    /// Any other refusal of the currency.
    Other,
}

/// The errors of the kitties module.
#[derive(Clone, Copy, PartialEq, Eq, Debug)]
pub enum KittyError {
    /// The call is not signed.
    BadOrigin,
    /// The sender has already created `u64::MAX` kitties ("kitties count overflow").
    OwnedKittiesCountOverflow,
    /// All kitty indices are used.
    KittiesCountOverFlow,
    /// No kitty has the given index.
    InvalidKittyId,
    /// A kitty cannot be bred with itself.
    RequireDifferentParent,
    /// The sender does not own the kitty.
    NotKittyOwner,
    /// The currency refused to reserve the deposit.
    Currency(CurrencyError),
}

/// The events of the kitties module.
#[derive(Clone, Copy, PartialEq, Eq, Debug)]
pub enum KittyEvent {
    /// An account created a kitty with the given index.
    Created(AccountId, KittyIndex),
    /// A kitty passed from the first account to the second.
    Transferred(AccountId, AccountId, KittyIndex),
}

/// The abstract state of the kitties module's storage.
pub struct KittiesState {
    /// The DNA of each kitty, by index.
    pub kitties: Map<KittyIndex, Seq<u8>>,
    /// The number of kitty indices handed out so far.
    pub kitties_count: KittyIndex,
    /// The owner of each kitty, by index.
    pub owners: Map<KittyIndex, AccountId>,
    /// How many kitties each account has created.
    pub owned_counts: Map<AccountId, u64>,
}

/// Mixes one byte of DNA: each bit comes from `dna1` where `selector` has a one, else from `dna2`.
pub open spec fn spec_combine_dna(dna1: u8, dna2: u8, selector: u8) -> u8 {
    (selector & dna1) | (!selector & dna2)
}

/// The DNA of a kitty bred from parents with DNA `dna1` and `dna2`, byte by byte.
pub open spec fn mix_dna(dna1: Seq<u8>, dna2: Seq<u8>, selector: Seq<u8>) -> Seq<u8> {
    Seq::new(16, |i: int| spec_combine_dna(dna1[i], dna2[i], selector[i]))
}

impl KittiesState {
    /// The state at genesis: no kitties.
    pub open spec fn genesis() -> Self {
        KittiesState {
            kitties: Map::empty(),
            kitties_count: 0,
            owners: Map::empty(),
            owned_counts: Map::empty(),
        }
    }

    /// The number of kitties `who` has created (0 where none is stored).
    pub open spec fn owned_kitty_count(self, who: AccountId) -> u64 {
        if self.owned_counts.contains_key(who) {
            self.owned_counts[who]
        } else {
            0
        }
    }

    /// The index the next kitty gets, unless all indices are used.
    pub open spec fn next_kitty_id(self) -> Result<KittyIndex, KittyError> {
        if self.kitties_count == u32::MAX {
            Err(KittyError::KittiesCountOverFlow)
        } else {
            Ok(self.kitties_count)
        }
    }

    /// Stores a kitty with DNA `dna` under `id`, owned by `owner`, and sets the count to `id + 1`.
    pub open spec fn insert_kitty(self, owner: AccountId, id: KittyIndex, dna: Seq<u8>) -> Self {
        KittiesState {
            kitties: self.kitties.insert(id, dna),
            kitties_count: (id + 1) as u32,
            owners: self.owners.insert(id, owner),
            owned_counts: self.owned_counts,
        }
    }

    /// The checks of `create` before the deposit is reserved: on success the sender, the
    /// new kitty's index and the sender's new count of created kitties.
    pub open spec fn create_check(self, origin: Origin) -> Result<(AccountId, KittyIndex, u64), KittyError> {
        match signer_of(origin) {
            None => Err(KittyError::BadOrigin),
            Some(sender) => {
                if self.owned_kitty_count(sender) == u64::MAX {
                    Err(KittyError::OwnedKittiesCountOverflow)
                } else {
                    match self.next_kitty_id() {
                        Err(e) => Err(e),
                        Ok(id) => Ok((sender, id, (self.owned_kitty_count(sender) + 1) as u64)),
                    }
                }
            },
        }
    }

    /// The state after `sender` created kitty `id` with DNA `dna`, now having created `count` kitties.
    pub open spec fn create_effect(self, sender: AccountId, id: KittyIndex, count: u64, dna: Seq<u8>) -> Self {
        let s = self.insert_kitty(sender, id, dna);
        KittiesState { owned_counts: s.owned_counts.insert(sender, count), ..s }
    }

    /// The state and event after a transfer of kitty `id` to `to`, or the error.
    pub open spec fn transfer(self, origin: Origin, to: AccountId, id: KittyIndex) -> Result<(Self, KittyEvent), KittyError> {
        match signer_of(origin) {
            None => Err(KittyError::BadOrigin),
            Some(sender) => {
                if !self.kitties.contains_key(id) {
                    Err(KittyError::InvalidKittyId)
                } else if !(self.owners.contains_key(id) && self.owners[id] == sender) {
                    Err(KittyError::NotKittyOwner)
                } else {
                    Ok((
                        KittiesState { owners: self.owners.insert(id, to), ..self },
                        KittyEvent::Transferred(sender, to, id),
                    ))
                }
            },
        }
    }

    /// The state and new kitty's index after `sender` bred kitties `id1` and `id2`,
    /// mixing their DNA with `selector`, or the error.
    pub open spec fn breed(self, sender: AccountId, id1: KittyIndex, id2: KittyIndex, selector: Seq<u8>) -> Result<(Self, KittyIndex), KittyError> {
        if !self.kitties.contains_key(id1) || !self.kitties.contains_key(id2) {
            Err(KittyError::InvalidKittyId)
        } else if id1 == id2 {
            Err(KittyError::RequireDifferentParent)
        } else {
            match self.next_kitty_id() {
                Err(e) => Err(e),
                Ok(id) => Ok((self.insert_kitty(sender, id, mix_dna(self.kitties[id1], self.kitties[id2], selector)), id)),
            }
        }
    }

    /// The storage is consistent: the kitty indices in use are exactly those below the
    /// count, each kitty has an owner, and each DNA has 16 bytes.
    pub open spec fn wf(self) -> bool {
        &&& forall|i: KittyIndex| #[trigger] self.kitties.contains_key(i) <==> i < self.kitties_count
        &&& forall|i: KittyIndex| #[trigger] self.owners.contains_key(i) <==> i < self.kitties_count
        &&& forall|i: KittyIndex| #[trigger] self.kitties.contains_key(i) ==> self.kitties[i].len() == 16
    }
}

/// The storage at genesis is consistent.
pub proof fn lemma_genesis_wf()
    ensures
        KittiesState::genesis().wf(),
{
}

/// A successful creation keeps the storage consistent, gives the kitty the first unused
/// index, owned by its creator, and raises the count of kitties by one.
pub proof fn lemma_create_keeps_wf(s: KittiesState, origin: Origin, dna: Seq<u8>)
    requires
        s.wf(),
        dna.len() == 16,
        s.create_check(origin) is Ok,
    ensures
        ({
            let (sender, id, count) = s.create_check(origin)->Ok_0;
            let t = s.create_effect(sender, id, count, dna);
            &&& t.wf()
            &&& !s.kitties.contains_key(id)
            &&& id == s.kitties_count
            &&& t.kitties_count == s.kitties_count + 1
            &&& t.owners[id] == sender
            &&& t.kitties[id] == dna
            &&& t.owned_kitty_count(sender) == s.owned_kitty_count(sender) + 1
        }),
{
}

/// A successful transfer keeps the storage consistent and changes only the owner of the
/// transferred kitty.
pub proof fn lemma_transfer_keeps_wf(s: KittiesState, origin: Origin, to: AccountId, id: KittyIndex)
    requires
        s.wf(),
        s.transfer(origin, to, id) is Ok,
    ensures
        ({
            let t = s.transfer(origin, to, id)->Ok_0.0;
            &&& t.wf()
            &&& t.owners[id] == to
            &&& t.kitties == s.kitties
            &&& t.kitties_count == s.kitties_count
            &&& t.owned_counts == s.owned_counts
            &&& forall|j: KittyIndex| j != id && #[trigger] s.owners.contains_key(j) ==> t.owners[j] == s.owners[j]
        }),
{
}

/// A successful breeding keeps the storage consistent and stores, under the first unused
/// index and owned by the breeder, a kitty whose DNA mixes the parents' DNA byte by byte.
pub proof fn lemma_breed_keeps_wf(s: KittiesState, sender: AccountId, id1: KittyIndex, id2: KittyIndex, selector: Seq<u8>)
    requires
        s.wf(),
        s.breed(sender, id1, id2, selector) is Ok,
    ensures
        ({
            let (t, id) = s.breed(sender, id1, id2, selector)->Ok_0;
            &&& t.wf()
            &&& id == s.kitties_count
            &&& !s.kitties.contains_key(id)
            &&& t.owners[id] == sender
            &&& forall|i: int| 0 <= i < 16 ==> #[trigger] t.kitties[id][i]
                == spec_combine_dna(s.kitties[id1][i], s.kitties[id2][i], selector[i])
        }),
{
}

/// Transferring a kitty and transferring it back restores the storage.
pub proof fn lemma_transfer_back(s: KittiesState, a: AccountId, b: AccountId, id: KittyIndex)
    requires
        s.transfer(Origin::Signed(a), b, id) is Ok,
    ensures
        ({
            let t = s.transfer(Origin::Signed(a), b, id)->Ok_0.0;
            t.transfer(Origin::Signed(b), a, id) is Ok
                && t.transfer(Origin::Signed(b), a, id)->Ok_0.0 == s
        }),
{
    let t = s.transfer(Origin::Signed(a), b, id)->Ok_0.0;
    let u = t.transfer(Origin::Signed(b), a, id)->Ok_0.0;
    assert(u.owners =~= s.owners);
}

/// Breeding two existing, different kitties succeeds whenever an index is free: the new
/// kitty takes the first unused index, belongs to the breeder, and nothing else changes but
/// the count. Equal parents are the only parents refused.
pub proof fn lemma_breed_succeeds(s: KittiesState, sender: AccountId, id1: KittyIndex, id2: KittyIndex, selector: Seq<u8>)
    requires
        s.kitties.contains_key(id1),
        s.kitties.contains_key(id2),
        s.kitties_count < u32::MAX,
    ensures
        id1 != id2 ==> s.breed(sender, id1, id2, selector) is Ok,
        id1 != id2 ==> ({
            let (t, id) = s.breed(sender, id1, id2, selector)->Ok_0;
            &&& id == s.kitties_count
            &&& t.kitties_count == s.kitties_count + 1
            &&& t.owners == s.owners.insert(id, sender)
            &&& t.kitties.dom() == s.kitties.dom().insert(id)
            &&& forall|j: KittyIndex| j != id && #[trigger] s.kitties.contains_key(j) ==> t.kitties[j] == s.kitties[j]
            &&& t.owned_counts == s.owned_counts
        }),
        id1 == id2 <==> s.breed(sender, id1, id2, selector) == Err::<(KittiesState, KittyIndex), KittyError>(KittyError::RequireDifferentParent),
{
    if id1 != id2 {
        let (t, id) = s.breed(sender, id1, id2, selector)->Ok_0;
        assert(t.kitties.dom() =~= s.kitties.dom().insert(id));
    }
}

/// The checks of a creation pass for every signed sender whose creation count can still be
/// raised while an index is free: the kitty gets the next index and the count goes up by one.
pub proof fn lemma_create_check_succeeds(s: KittiesState, sender: AccountId)
    requires
        s.owned_kitty_count(sender) < u64::MAX,
        s.kitties_count < u32::MAX,
    ensures
        s.create_check(Origin::Signed(sender)) == Ok::<(AccountId, KittyIndex, u64), KittyError>(
            (sender, s.kitties_count, (s.owned_kitty_count(sender) + 1) as u64)),
{
}

/// The owner of an existing kitty can always transfer it: the transfer succeeds, the kitty
/// then belongs to the receiver, and the event names the owner, the receiver and the kitty.
pub proof fn lemma_transfer_succeeds(s: KittiesState, sender: AccountId, to: AccountId, id: KittyIndex)
    requires
        s.kitties.contains_key(id),
        s.owners.contains_key(id),
        s.owners[id] == sender,
    ensures
        s.transfer(Origin::Signed(sender), to, id) is Ok,
        s.transfer(Origin::Signed(sender), to, id)->Ok_0.0.owners == s.owners.insert(id, to),
        s.transfer(Origin::Signed(sender), to, id)->Ok_0.0.kitties == s.kitties,
        s.transfer(Origin::Signed(sender), to, id)->Ok_0.1 == KittyEvent::Transferred(sender, to, id),
{
}

/// A transfer is refused exactly when the call is unsigned, the kitty does not exist, or the
/// signer does not own it.
pub proof fn lemma_transfer_refused(s: KittiesState, origin: Origin, to: AccountId, id: KittyIndex)
    ensures
        s.transfer(origin, to, id) is Err <==> (
            origin !is Signed
            || !s.kitties.contains_key(id)
            || !(s.owners.contains_key(id) && s.owners[id] == origin->Signed_0)),
{
}

/// Each bit of a mixed DNA byte is the bit of the first parent where the selector's bit is
/// one, and the bit of the second parent where it is zero.
pub proof fn lemma_combine_dna_bits(dna1: u8, dna2: u8, selector: u8, bit: u8)
    requires
        bit < 8,
    ensures
        (spec_combine_dna(dna1, dna2, selector) >> bit) & 1u8
            == if (selector >> bit) & 1u8 == 1u8 { (dna1 >> bit) & 1u8 } else { (dna2 >> bit) & 1u8 },
{
    assert((((selector & dna1) | (!selector & dna2)) >> bit) & 1u8
        == if (selector >> bit) & 1u8 == 1u8 { (dna1 >> bit) & 1u8 } else { (dna2 >> bit) & 1u8 })
        by (bit_vector)
        requires bit < 8;
}

/// Mixing a byte with itself gives the same byte, and an all-ones or all-zeros selector
/// takes the whole byte from the first or the second parent.
pub proof fn lemma_combine_dna_extremes(dna1: u8, dna2: u8, selector: u8)
    ensures
        spec_combine_dna(dna1, dna1, selector) == dna1,
        spec_combine_dna(dna1, dna2, 0xffu8) == dna1,
        spec_combine_dna(dna1, dna2, 0u8) == dna2,
{
    assert((selector & dna1) | (!selector & dna1) == dna1) by (bit_vector);
    assert((0xffu8 & dna1) | (!0xffu8 & dna2) == dna1) by (bit_vector);
    assert((0u8 & dna1) | (!0u8 & dna2) == dna2) by (bit_vector);
}

/// Mixes one byte of DNA from two parents: the bits of `dna1` where `selector` has a one,
/// the bits of `dna2` where it has a zero.
pub fn combine_dna(dna1: u8, dna2: u8, selector: u8) -> (r: u8)
    ensures
        r == spec_combine_dna(dna1, dna2, selector),
{
    (selector & dna1) | (!selector & dna2)
}

/// The storage of the kitties module.
pub struct KittiesModule {
    kitties: HashMap<KittyIndex, Kitty>,
    kitties_count: KittyIndex,
    kitty_owners: HashMap<KittyIndex, AccountId>,
    owned_kitties_count: HashMap<AccountId, u64>,
}

impl View for KittiesModule {
    type V = KittiesState;

    closed spec fn view(&self) -> KittiesState {
        KittiesState {
            kitties: self.kitties@.map_values(|k: Kitty| k@),
            kitties_count: self.kitties_count,
            owners: self.kitty_owners@,
            owned_counts: self.owned_kitties_count@,
        }
    }
}

impl KittiesModule {
    /// The storage at genesis.
    pub fn new() -> (m: Self)
        ensures
            m@ == KittiesState::genesis(),
    {
        let m = KittiesModule {
            kitties: HashMap::new(),
            kitties_count: 0,
            kitty_owners: HashMap::new(),
            owned_kitties_count: HashMap::new(),
        };
        assert(m@.kitties =~= Map::empty());
        m
    }

    /// The kitty stored under `id`, if any.
    pub fn kitties(&self, id: KittyIndex) -> (r: Option<Kitty>)
        ensures
            r is Some <==> self@.kitties.contains_key(id),
            r matches Some(k) ==> k@ == self@.kitties[id],
    {
        match self.kitties.get(&id) {
            Some(k) => Some(*k),
            None => None,
        }
    }

    /// The number of kitty indices handed out so far.
    pub fn kitties_count(&self) -> (r: KittyIndex)
        ensures
            r == self@.kitties_count,
    {
        self.kitties_count
    }

    /// The owner of kitty `id`, if any.
    pub fn kitty_owner(&self, id: KittyIndex) -> (r: Option<AccountId>)
        ensures
            r is Some <==> self@.owners.contains_key(id),
            r matches Some(o) ==> o == self@.owners[id],
    {
        match self.kitty_owners.get(&id) {
            Some(o) => Some(*o),
            None => None,
        }
    }

    /// The number of kitties `who` has created.
    pub fn owned_kitty_count(&self, who: AccountId) -> (r: u64)
        ensures
            r == self@.owned_kitty_count(who),
    {
        match self.owned_kitties_count.get(&who) {
            Some(c) => *c,
            None => 0,
        }
    }

    /// The index the next kitty gets, unless all indices are used.
    pub fn next_kitty_id(&self) -> (r: Result<KittyIndex, KittyError>)
        ensures
            r == self@.next_kitty_id(),
    {
        let kitty_id = self.kitties_count;
        if kitty_id == u32::MAX {
            return Err(KittyError::KittiesCountOverFlow);
        }
        Ok(kitty_id)
    }

    /// Stores `kitty` under `kitty_id`, owned by `owner`, and sets the count to `kitty_id + 1`.
    pub fn insert_kitty(&mut self, owner: AccountId, kitty_id: KittyIndex, kitty: Kitty)
        requires
            kitty_id < u32::MAX,
        ensures
            final(self)@ == old(self)@.insert_kitty(owner, kitty_id, kitty@),
    {
        let ghost pre = self.kitties@;
        self.kitties.insert(kitty_id, kitty);
        self.kitties_count = kitty_id + 1;
        self.kitty_owners.insert(kitty_id, owner);
        assert(self.kitties@.map_values(|k: Kitty| k@) =~= pre.map_values(|k: Kitty| k@).insert(kitty_id, kitty@));
    }

    /// The checks of `create` that come before the deposit: on success the sender, from
    /// whom `STAKING_MONEY` is then to be reserved, the new kitty's index and the sender's
    /// new count of created kitties.
    pub fn create_check(&self, origin: Origin) -> (r: Result<(AccountId, KittyIndex, u64), KittyError>)
        ensures
            r == self@.create_check(origin),
    {
        let sender = match ensure_signed(origin) {
            Ok(s) => s,
            Err(_) => return Err(KittyError::BadOrigin),
        };
        let owned_kitty_count = self.owned_kitty_count(sender);
        let owner_all_kitties_count = match owned_kitty_count.checked_add(1) {
            Some(c) => c,
            None => return Err(KittyError::OwnedKittiesCountOverflow),
        };
        let kitty_id = match self.next_kitty_id() {
            Ok(id) => id,
            Err(e) => return Err(e),
        };
        Ok((sender, kitty_id, owner_all_kitties_count))
    }

    /// A signed account creates a kitty: its creation count is raised by one and the kitty
    /// gets the next index and DNA drawn from `random_seed` and `extrinsic_index`.
    /// `deposit` is the currency's answer to reserving `STAKING_MONEY` from the sender, which
    /// the caller asks where `create_check` succeeds. Nothing is stored if a check fails or
    /// the currency refused the deposit; its refusal is returned.
    pub fn create(
        &mut self,
        origin: Origin,
        random_seed: &[u8; 32],
        extrinsic_index: Option<u32>,
        deposit: Result<(), CurrencyError>,
    ) -> (r: Result<KittyEvent, KittyError>)
        ensures
            match old(self)@.create_check(origin) {
                Err(e) => r == Err::<KittyEvent, KittyError>(e) && final(self)@ == old(self)@,
                Ok((sender, id, count)) => match deposit {
                    Ok(()) => {
                        &&& r == Ok::<KittyEvent, KittyError>(KittyEvent::Created(sender, id))
                        &&& final(self)@ == old(self)@.create_effect(sender, id, count,
                            spec_random_value(random_seed@, sender, extrinsic_index))
                    },
                    Err(e) => {
                        &&& r == Err::<KittyEvent, KittyError>(KittyError::Currency(e))
                        &&& final(self)@ == old(self)@
                    },
                },
            },
    {
        let (sender, kitty_id, owner_all_kitties_count) = match self.create_check(origin) {
            Ok(plan) => plan,
            Err(e) => return Err(e),
        };
        let dna = random_value(random_seed, sender, extrinsic_index);
        let kitty = Kitty(dna);
        match deposit {
            Ok(()) => {},
            Err(e) => return Err(KittyError::Currency(e)),
        }
        self.owned_kitties_count.insert(sender, owner_all_kitties_count);
        self.insert_kitty(sender, kitty_id, kitty);
        Ok(KittyEvent::Created(sender, kitty_id))
    }

    /// The owner of kitty `kitty_id` passes it to `to`.
    pub fn transfer(&mut self, origin: Origin, to: AccountId, kitty_id: KittyIndex) -> (r: Result<KittyEvent, KittyError>)
        ensures
            match old(self)@.transfer(origin, to, kitty_id) {
                Ok((s, ev)) => r == Ok::<KittyEvent, KittyError>(ev) && final(self)@ == s,
                Err(e) => r == Err::<KittyEvent, KittyError>(e) && final(self)@ == old(self)@,
            },
    {
        let sender = match ensure_signed(origin) {
            Ok(s) => s,
            Err(_) => return Err(KittyError::BadOrigin),
        };
        if self.kitties(kitty_id).is_none() {
            return Err(KittyError::InvalidKittyId);
        }
        match self.kitty_owner(kitty_id) {
            Some(owner) => {
                if owner != sender {
                    return Err(KittyError::NotKittyOwner);
                }
            },
            None => return Err(KittyError::NotKittyOwner),
        }
        self.kitty_owners.insert(kitty_id, to);
        Ok(KittyEvent::Transferred(sender, to, kitty_id))
    }

    /// A signed account breeds kitties `kitty_id1` and `kitty_id2` into a new kitty.
    pub fn breed(
        &mut self,
        origin: Origin,
        kitty_id1: KittyIndex,
        kitty_id2: KittyIndex,
        random_seed: &[u8; 32],
        extrinsic_index: Option<u32>,
    ) -> (r: Result<(), KittyError>)
        ensures
            match signer_of(origin) {
                None => r == Err::<(), KittyError>(KittyError::BadOrigin) && final(self)@ == old(self)@,
                Some(sender) => match old(self)@.breed(sender, kitty_id1, kitty_id2,
                    spec_random_value(random_seed@, sender, extrinsic_index)) {
                    Ok((s, _)) => r is Ok && final(self)@ == s,
                    Err(e) => r == Err::<(), KittyError>(e) && final(self)@ == old(self)@,
                },
            },
    {
        let sender = match ensure_signed(origin) {
            Ok(s) => s,
            Err(_) => return Err(KittyError::BadOrigin),
        };
        match self.do_breed(sender, kitty_id1, kitty_id2, random_seed, extrinsic_index) {
            Ok(_) => Ok(()),
            Err(e) => Err(e),
        }
    }

    /// Breeds kitties `kitty_id_1` and `kitty_id_2` into a new kitty owned by `sender`: each
    /// byte of its DNA mixes the parents' bytes under a random selector. Returns its index.
    pub fn do_breed(
        &mut self,
        sender: AccountId,
        kitty_id_1: KittyIndex,
        kitty_id_2: KittyIndex,
        random_seed: &[u8; 32],
        extrinsic_index: Option<u32>,
    ) -> (r: Result<KittyIndex, KittyError>)
        ensures
            match old(self)@.breed(sender, kitty_id_1, kitty_id_2,
                spec_random_value(random_seed@, sender, extrinsic_index)) {
                Ok((s, id)) => r == Ok::<KittyIndex, KittyError>(id) && final(self)@ == s,
                Err(e) => r == Err::<KittyIndex, KittyError>(e) && final(self)@ == old(self)@,
            },
    {
        let kitty1 = match self.kitties(kitty_id_1) {
            Some(k) => k,
            None => return Err(KittyError::InvalidKittyId),
        };
        let kitty2 = match self.kitties(kitty_id_2) {
            Some(k) => k,
            None => return Err(KittyError::InvalidKittyId),
        };
        if kitty_id_1 == kitty_id_2 {
            return Err(KittyError::RequireDifferentParent);
        }
        let kitty_id = match self.next_kitty_id() {
            Ok(id) => id,
            Err(e) => return Err(e),
        };
        let kitty1_dna = kitty1.0;
        let kitty2_dna = kitty2.0;
        let selector = random_value(random_seed, sender, extrinsic_index);
        let mut new_dna = [0u8; 16];
        for i in 0..16
            invariant
                new_dna@.len() == 16,
                forall|j: int| 0 <= j < i ==> new_dna@[j] == spec_combine_dna(kitty1_dna@[j], kitty2_dna@[j], selector@[j]),
        {
            new_dna[i] = combine_dna(kitty1_dna[i], kitty2_dna[i], selector[i]);
        }
        assert(new_dna@ =~= mix_dna(kitty1_dna@, kitty2_dna@, selector@));
        self.insert_kitty(sender, kitty_id, Kitty(new_dna));
        Ok(kitty_id)
    }
}

} // verus!
