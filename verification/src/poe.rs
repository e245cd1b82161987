//! Proof of existence: an account claims a byte string (such as a document hash); the
//! registry records who owns each claim and in which block it was made. Owners may
//! revoke or transfer their claims.

use vstd::prelude::*;
use crate::origin::{AccountId, BlockNumber, Origin, ensure_signed, signer_of};

verus! {

/// The errors of the claim registry.
#[derive(Clone, Copy, PartialEq, Eq, Debug)]
pub enum PoeError {
    /// The call is not signed.
    BadOrigin,
    /// The claim is already recorded; a transfer of a claim that is not recorded gets it too.
    ClaimAlreadyClaimed,
    /// The claim to revoke is not recorded.
    NoSuchClaim,
    /// The sender does not own the claim.
    NotClaimOwner,
    /// The claim is longer than the registry allows.
    TooLongClaim,
}

/// The events of the claim registry.
#[derive(PartialEq, Eq, Debug)]
pub enum PoeEvent {
    /// An account recorded a claim.
    ClaimCreated(AccountId, Vec<u8>),
    /// An account revoked its claim.
    ClaimRevoked(AccountId, Vec<u8>),
}

/// The abstract state of the registry.
pub struct PoeState {
    /// The owner of each recorded claim and the block in which it was last recorded.
    pub proofs: Map<Seq<u8>, (AccountId, BlockNumber)>,
    /// The greatest claim length accepted (compared with the length cast to `u32`).
    pub max_claim_length: u32,
}

impl PoeState {
    /// Whether a claim of this length passes the length check.
    pub open spec fn length_ok(self, claim: Seq<u8>) -> bool {
        self.max_claim_length >= (claim.len() as u32)
    }

    /// The registry after `origin` claims `claim` in block `now`, or the error.
    pub open spec fn create_claim(self, origin: Origin, claim: Seq<u8>, now: BlockNumber) -> Result<Self, PoeError> {
        match signer_of(origin) {
            None => Err(PoeError::BadOrigin),
            Some(sender) => {
                if !self.length_ok(claim) {
                    Err(PoeError::TooLongClaim)
                } else if self.proofs.contains_key(claim) {
                    Err(PoeError::ClaimAlreadyClaimed)
                } else {
                    Ok(PoeState { proofs: self.proofs.insert(claim, (sender, now)), ..self })
                }
            },
        }
    }

    /// The checks shared by revocation and transfer: the signer, if it owns `claim`;
    /// `missing` is the error where `claim` is not recorded.
    pub open spec fn owner_check(self, origin: Origin, claim: Seq<u8>, missing: PoeError) -> Result<AccountId, PoeError> {
        match signer_of(origin) {
            None => Err(PoeError::BadOrigin),
            Some(sender) => {
                if !self.proofs.contains_key(claim) {
                    Err(missing)
                } else if self.proofs[claim].0 != sender {
                    Err(PoeError::NotClaimOwner)
                } else {
                    Ok(sender)
                }
            },
        }
    }

    /// The registry after `origin` revokes `claim`, or the error (`NoSuchClaim` where the
    /// claim is not recorded).
    pub open spec fn revoke_claim(self, origin: Origin, claim: Seq<u8>) -> Result<Self, PoeError> {
        match self.owner_check(origin, claim, PoeError::NoSuchClaim) {
            Err(e) => Err(e),
            Ok(_) => Ok(PoeState { proofs: self.proofs.remove(claim), ..self }),
        }
    }

    /// The registry after `origin` transfers `claim` to `dest` in block `now`, or the error
    /// (`ClaimAlreadyClaimed` where the claim is not recorded).
    pub open spec fn transfer_claim(self, origin: Origin, claim: Seq<u8>, dest: AccountId, now: BlockNumber) -> Result<Self, PoeError> {
        match self.owner_check(origin, claim, PoeError::ClaimAlreadyClaimed) {
            Err(e) => Err(e),
            Ok(_) => Ok(PoeState { proofs: self.proofs.insert(claim, (dest, now)), ..self }),
        }
    }

    /// What a read of `claim` gives: its record, or `(0, 0)` where there is none.
    pub open spec fn get(self, claim: Seq<u8>) -> (AccountId, BlockNumber) {
        if self.proofs.contains_key(claim) {
            self.proofs[claim]
        } else {
            (0, 0)
        }
    }

    /// Every recorded claim passed the length check.
    pub open spec fn claims_within_limit(self) -> bool {
        forall|c: Seq<u8>| #[trigger] self.proofs.contains_key(c) ==> self.length_ok(c)
    }
}

/// A read after a successful claim gives the claimant and the block of the claim.
pub proof fn lemma_create_then_get(s: PoeState, who: AccountId, claim: Seq<u8>, now: BlockNumber)
    requires
        s.create_claim(Origin::Signed(who), claim, now) is Ok,
    ensures
        s.create_claim(Origin::Signed(who), claim, now)->Ok_0.get(claim) == (who, now),
{
}

/// A claim cannot be made twice: once made, any further claim of it is refused as
/// already claimed, whoever makes it and in whichever block.
pub proof fn lemma_create_twice(s: PoeState, who: AccountId, other: AccountId, claim: Seq<u8>, now: BlockNumber, later: BlockNumber)
    requires
        s.create_claim(Origin::Signed(who), claim, now) is Ok,
    ensures
        s.create_claim(Origin::Signed(who), claim, now)->Ok_0.create_claim(Origin::Signed(other), claim, later)
            == Err::<PoeState, PoeError>(PoeError::ClaimAlreadyClaimed),
{
}

/// Revoking a claim just made by the same account restores the registry.
pub proof fn lemma_revoke_undoes_create(s: PoeState, who: AccountId, claim: Seq<u8>, now: BlockNumber)
    requires
        s.create_claim(Origin::Signed(who), claim, now) is Ok,
    ensures
        s.create_claim(Origin::Signed(who), claim, now)->Ok_0.revoke_claim(Origin::Signed(who), claim)
            == Ok::<PoeState, PoeError>(s),
{
    let s1 = s.create_claim(Origin::Signed(who), claim, now)->Ok_0;
    assert(s1.proofs.remove(claim) =~= s.proofs);
}

/// Only the owner of a claim can revoke or transfer it.
pub proof fn lemma_only_owner_changes_claim(s: PoeState, origin: Origin, claim: Seq<u8>, dest: AccountId, now: BlockNumber)
    ensures
        s.revoke_claim(origin, claim) is Ok ==> s.proofs.contains_key(claim) && signer_of(origin) == Some(s.proofs[claim].0),
        s.transfer_claim(origin, claim, dest, now) is Ok ==> s.proofs.contains_key(claim) && signer_of(origin) == Some(s.proofs[claim].0),
{
}

/// After a transfer the claim belongs to the receiver, recorded in the block of the
/// transfer, and no other claim changes.
pub proof fn lemma_transfer_then_get(s: PoeState, origin: Origin, claim: Seq<u8>, dest: AccountId, now: BlockNumber, other: Seq<u8>)
    requires
        s.transfer_claim(origin, claim, dest, now) is Ok,
    ensures
        s.transfer_claim(origin, claim, dest, now)->Ok_0.get(claim) == (dest, now),
        other != claim ==> s.transfer_claim(origin, claim, dest, now)->Ok_0.get(other) == s.get(other),
{
}

/// The owner of a recorded claim can always transfer it: the transfer succeeds and records
/// the receiver and the block, whatever the claim's length.
pub proof fn lemma_transfer_claim_succeeds(s: PoeState, sender: AccountId, claim: Seq<u8>, dest: AccountId, now: BlockNumber)
    requires
        s.proofs.contains_key(claim),
        s.proofs[claim].0 == sender,
    ensures
        s.transfer_claim(Origin::Signed(sender), claim, dest, now) == Ok::<PoeState, PoeError>(
            PoeState { proofs: s.proofs.insert(claim, (dest, now)), max_claim_length: s.max_claim_length }),
{
}

/// The owner of a recorded claim can always revoke it, whatever the claim's length.
pub proof fn lemma_revoke_claim_succeeds(s: PoeState, sender: AccountId, claim: Seq<u8>)
    requires
        s.proofs.contains_key(claim),
        s.proofs[claim].0 == sender,
    ensures
        s.revoke_claim(Origin::Signed(sender), claim) == Ok::<PoeState, PoeError>(
            PoeState { proofs: s.proofs.remove(claim), max_claim_length: s.max_claim_length }),
{
}

/// A signed claim that passes the length check and is not yet recorded is always accepted.
pub proof fn lemma_create_claim_succeeds(s: PoeState, sender: AccountId, claim: Seq<u8>, now: BlockNumber)
    requires
        s.max_claim_length >= (claim.len() as u32),
        !s.proofs.contains_key(claim),
    ensures
        s.create_claim(Origin::Signed(sender), claim, now) == Ok::<PoeState, PoeError>(
            PoeState { proofs: s.proofs.insert(claim, (sender, now)), max_claim_length: s.max_claim_length }),
{
}

/// Every recorded claim passed the length check, in every state the calls reach.
pub proof fn lemma_claims_within_limit(s: PoeState, origin: Origin, claim: Seq<u8>, dest: AccountId, now: BlockNumber)
    requires
        s.claims_within_limit(),
    ensures
        s.create_claim(origin, claim, now) is Ok ==> s.create_claim(origin, claim, now)->Ok_0.claims_within_limit(),
        s.revoke_claim(origin, claim) is Ok ==> s.revoke_claim(origin, claim)->Ok_0.claims_within_limit(),
        s.transfer_claim(origin, claim, dest, now) is Ok ==> s.transfer_claim(origin, claim, dest, now)->Ok_0.claims_within_limit(),
{
}

/// Whether two byte strings are equal.
fn bytes_eq(a: &[u8], b: &[u8]) -> (r: bool)
    ensures
        r == (a@ == b@),
{
    if a.len() != b.len() {
        return false;
    }
    let n = a.len();
    for i in 0..n
        invariant
            n == a@.len(),
            n == b@.len(),
            forall|j: int| 0 <= j < i ==> a@[j] == b@[j],
    {
        if a[i] != b[i] {
            return false;
        }
    }
    assert(a@ =~= b@);
    true
}

/// A copy of a byte string.
pub(crate) fn copy_bytes(v: &Vec<u8>) -> (r: Vec<u8>)
    ensures
        r@ == v@,
{
    let r = v.clone();
    assert(r@ =~= v@);
    r
}

/// The storage of the claim registry: the claims and their records in two parallel
/// vectors, beside the map they stand for.
pub struct PoeModule {
    max_claim_length: u32,
    claims: Vec<Vec<u8>>,
    records: Vec<(AccountId, BlockNumber)>,
    proofs: Ghost<Map<Seq<u8>, (AccountId, BlockNumber)>>,
}

impl View for PoeModule {
    type V = PoeState;

    closed spec fn view(&self) -> PoeState {
        PoeState { proofs: self.proofs@, max_claim_length: self.max_claim_length }
    }
}

impl PoeModule {
    /// The vectors stand for the map: each claim occurs once, and the map holds exactly
    /// the claims of the vector, each with its record.
    pub closed spec fn wf(&self) -> bool {
        &&& self.claims@.len() == self.records@.len()
        &&& forall|i: int| 0 <= i < self.claims@.len() ==>
            #[trigger] self.proofs@.contains_key(self.claims@[i]@)
                && self.proofs@[self.claims@[i]@] == self.records@[i]
        &&& forall|c: Seq<u8>| #[trigger] self.proofs@.contains_key(c) ==>
            exists|i: int| 0 <= i < self.claims@.len() && self.claims@[i]@ == c
        &&& forall|i: int, j: int| #![trigger self.claims@[i], self.claims@[j]]
            0 <= i < j < self.claims@.len() ==> self.claims@[i]@ != self.claims@[j]@
    }

    /// An empty registry accepting claims of length up to `max_claim_length`.
    pub fn new(max_claim_length: u32) -> (m: Self)
        ensures
            m.wf(),
            m@.proofs == Map::<Seq<u8>, (AccountId, BlockNumber)>::empty(),
            m@.max_claim_length == max_claim_length,
    {
        PoeModule {
            max_claim_length,
            claims: Vec::new(),
            records: Vec::new(),
            proofs: Ghost(Map::empty()),
        }
    }

    /// The position of `claim` in the vectors, if it is recorded.
    fn find(&self, claim: &[u8]) -> (r: Option<usize>)
        requires
            self.wf(),
        ensures
            r matches Some(i) ==> i < self.claims@.len() && self.claims@[i as int]@ == claim@,
            r is Some <==> self@.proofs.contains_key(claim@),
    {
        let n = self.claims.len();
        for i in 0..n
            invariant
                n == self.claims@.len(),
                self.wf(),
                forall|j: int| 0 <= j < i ==> self.claims@[j]@ != claim@,
        {
            if bytes_eq(self.claims[i].as_slice(), claim) {
                assert(self.proofs@.contains_key(self.claims@[i as int]@));
                return Some(i);
            }
        }
        assert(!self.proofs@.contains_key(claim@)) by {
            if self.proofs@.contains_key(claim@) {
                let i = choose|i: int| 0 <= i < self.claims@.len() && self.claims@[i]@ == claim@;
                assert(self.claims@[i]@ != claim@);
            }
        }
        None
    }

    /// Whether `claim` is recorded.
    pub fn contains_claim(&self, claim: &[u8]) -> (r: bool)
        requires
            self.wf(),
        ensures
            r == self@.proofs.contains_key(claim@),
    {
        self.find(claim).is_some()
    }

    /// The owner of `claim` and the block of its record, or `(0, 0)` where it is not recorded.
    pub fn get_proof(&self, claim: &[u8]) -> (r: (AccountId, BlockNumber))
        requires
            self.wf(),
        ensures
            r == self@.get(claim@),
    {
        match self.find(claim) {
            Some(i) => self.records[i],
            None => (0, 0),
        }
    }

    /// The greatest claim length accepted.
    pub fn max_claim_length(&self) -> (r: u32)
        ensures
            r == self@.max_claim_length,
    {
        self.max_claim_length
    }

    /// A signed account claims `claim` in block `now`.
    pub fn create_claim(&mut self, origin: Origin, claim: Vec<u8>, now: BlockNumber) -> (r: Result<PoeEvent, PoeError>)
        requires
            old(self).wf(),
        ensures
            final(self).wf(),
            match old(self)@.create_claim(origin, claim@, now) {
                Ok(s) => {
                    &&& final(self)@ == s
                    &&& r matches Ok(PoeEvent::ClaimCreated(who, c)) && who == signer_of(origin)->0 && c@ == claim@
                },
                Err(e) => r == Err::<PoeEvent, PoeError>(e) && final(self)@ == old(self)@,
            },
    {
        let sender = match ensure_signed(origin) {
            Ok(s) => s,
            Err(_) => return Err(PoeError::BadOrigin),
        };
        if !(self.max_claim_length >= claim.len() as u32) {
            return Err(PoeError::TooLongClaim);
        }
        if self.find(claim.as_slice()).is_some() {
            return Err(PoeError::ClaimAlreadyClaimed);
        }
        let stored = copy_bytes(&claim);
        let ghost old_claims = self.claims@;
        self.claims.push(stored);
        self.records.push((sender, now));
        proof {
            let k = claim@;
            self.proofs@ = self.proofs@.insert(k, (sender, now));
            assert forall|i: int| 0 <= i < self.claims@.len() implies
                #[trigger] self.proofs@.contains_key(self.claims@[i]@)
                    && self.proofs@[self.claims@[i]@] == self.records@[i] by {
                if i < old_claims.len() {
                    assert(self.claims@[i] == old_claims[i]);
                    assert(old_claims[i]@ != k);
                }
            }
            assert forall|c: Seq<u8>| #[trigger] self.proofs@.contains_key(c) implies
                exists|i: int| 0 <= i < self.claims@.len() && self.claims@[i]@ == c by {
                if c == k {
                    assert(self.claims@[old_claims.len() as int]@ == c);
                } else {
                    let i = choose|i: int| 0 <= i < old_claims.len() && old_claims[i]@ == c;
                    assert(self.claims@[i] == old_claims[i]);
                }
            }
            assert forall|i: int, j: int| #![trigger self.claims@[i], self.claims@[j]]
                0 <= i < j < self.claims@.len() implies self.claims@[i]@ != self.claims@[j]@ by {
                if j == old_claims.len() {
                    assert(self.claims@[i] == old_claims[i]);
                }
            }
        }
        Ok(PoeEvent::ClaimCreated(sender, claim))
    }

    /// The owner of `proof` revokes it.
    pub fn revoke_claim(&mut self, origin: Origin, proof: Vec<u8>) -> (r: Result<PoeEvent, PoeError>)
        requires
            old(self).wf(),
        ensures
            final(self).wf(),
            match old(self)@.revoke_claim(origin, proof@) {
                Ok(s) => {
                    &&& final(self)@ == s
                    &&& r matches Ok(PoeEvent::ClaimRevoked(who, c)) && who == signer_of(origin)->0 && c@ == proof@
                },
                Err(e) => r == Err::<PoeEvent, PoeError>(e) && final(self)@ == old(self)@,
            },
    {
        let sender = match ensure_signed(origin) {
            Ok(s) => s,
            Err(_) => return Err(PoeError::BadOrigin),
        };
        let idx = match self.find(proof.as_slice()) {
            Some(i) => i,
            None => return Err(PoeError::NoSuchClaim),
        };
        let (owner, _) = self.records[idx];
        if sender != owner {
            return Err(PoeError::NotClaimOwner);
        }
        let ghost old_claims = self.claims@;
        self.claims.remove(idx);
        self.records.remove(idx);
        proof {
            let k = proof@;
            let n = old_claims.len();
            self.proofs@ = self.proofs@.remove(k);
            assert forall|i: int| 0 <= i < self.claims@.len() implies
                #[trigger] self.proofs@.contains_key(self.claims@[i]@)
                    && self.proofs@[self.claims@[i]@] == self.records@[i] by {
                if i < idx {
                    assert(self.claims@[i] == old_claims[i]);
                    assert(old_claims[i]@ != old_claims[idx as int]@);
                } else {
                    assert(self.claims@[i] == old_claims[i + 1]);
                    assert(old_claims[idx as int]@ != old_claims[i + 1]@);
                }
            }
            assert forall|c: Seq<u8>| #[trigger] self.proofs@.contains_key(c) implies
                exists|i: int| 0 <= i < self.claims@.len() && self.claims@[i]@ == c by {
                let i = choose|i: int| 0 <= i < n && old_claims[i]@ == c;
                assert(i != idx);
                if i < idx {
                    assert(self.claims@[i] == old_claims[i]);
                } else {
                    assert(self.claims@[i - 1] == old_claims[i]);
                }
            }
            assert forall|i: int, j: int| #![trigger self.claims@[i], self.claims@[j]]
                0 <= i < j < self.claims@.len() implies self.claims@[i]@ != self.claims@[j]@ by {
                let oi = if i < idx { i } else { i + 1 };
                let oj = if j < idx { j } else { j + 1 };
                assert(self.claims@[i] == old_claims[oi]);
                assert(self.claims@[j] == old_claims[oj]);
                assert(old_claims[oi]@ != old_claims[oj]@);
            }
        }
        Ok(PoeEvent::ClaimRevoked(sender, proof))
    }

    /// The owner of `claim` passes it to `dest`; the record takes the block `now`.
    pub fn transfer_claim(&mut self, origin: Origin, claim: Vec<u8>, dest: AccountId, now: BlockNumber) -> (r: Result<(), PoeError>)
        requires
            old(self).wf(),
        ensures
            final(self).wf(),
            match old(self)@.transfer_claim(origin, claim@, dest, now) {
                Ok(s) => r is Ok && final(self)@ == s,
                Err(e) => r == Err::<(), PoeError>(e) && final(self)@ == old(self)@,
            },
    {
        let sender = match ensure_signed(origin) {
            Ok(s) => s,
            Err(_) => return Err(PoeError::BadOrigin),
        };
        let idx = match self.find(claim.as_slice()) {
            Some(i) => i,
            None => return Err(PoeError::ClaimAlreadyClaimed),
        };
        let (owner, _block_number) = self.records[idx];
        if owner != sender {
            return Err(PoeError::NotClaimOwner);
        }
        let ghost old_claims = self.claims@;
        self.records.set(idx, (dest, now));
        proof {
            let k = claim@;
            self.proofs@ = self.proofs@.insert(k, (dest, now));
            assert forall|i: int| 0 <= i < self.claims@.len() implies
                #[trigger] self.proofs@.contains_key(self.claims@[i]@)
                    && self.proofs@[self.claims@[i]@] == self.records@[i] by {
                if i != idx {
                    assert(old_claims[i]@ != old_claims[idx as int]@);
                }
            }
            assert forall|c: Seq<u8>| #[trigger] self.proofs@.contains_key(c) implies
                exists|i: int| 0 <= i < self.claims@.len() && self.claims@[i]@ == c by {
                if c == k {
                    assert(self.claims@[idx as int]@ == c);
                } else {
                    let i = choose|i: int| 0 <= i < old_claims.len() && old_claims[i]@ == c;
                    assert(self.claims@[i]@ == c);
                }
            }
        }
        Ok(())
    }
}

} // verus!
