//! Proof of existence, first version: accounts claim byte strings, revoke them and
//! transfer them to other accounts.
use vstd::prelude::*;
use crate::claims::{ClaimRecord, ClaimStore};
use crate::dispatch::{ensure_signed, signer_of, AccountId, BlockNumber, Origin};

verus! {

/// The pallet's configuration.
#[derive(Clone, Copy, PartialEq, Eq, Structural, Debug)]
pub struct Config {
    /// The longest claim, in bytes.
    pub max_claim_length: u32,
}

/// An event of the pallet.
#[derive(Clone, PartialEq, Eq, Debug)]
pub enum Event {
    ClaimCreated(AccountId, Vec<u8>),
    ClaimRevoked(AccountId, Vec<u8>),
    ClaimTransferred(AccountId, Vec<u8>, AccountId),
}

/// An event, with its claim as a sequence of bytes.
pub enum EventView {
    ClaimCreated(AccountId, Seq<u8>),
    ClaimRevoked(AccountId, Seq<u8>),
    ClaimTransferred(AccountId, Seq<u8>, AccountId),
}

impl View for Event {
    type V = EventView;

    open spec fn view(&self) -> EventView {
        match self {
            Event::ClaimCreated(account, claim) => EventView::ClaimCreated(*account, claim@),
            Event::ClaimRevoked(account, claim) => EventView::ClaimRevoked(*account, claim@),
            Event::ClaimTransferred(sender, claim, to) => EventView::ClaimTransferred(
                *sender,
                claim@,
                *to,
            ),
        }
    }
}

/// Why a call of the pallet failed.
#[derive(Clone, Copy, PartialEq, Eq, Structural, Debug)]
pub enum Error {
    ProofAlreadyExist,
    ClaimTooLong,
    ClaimNotExist,
    NotClaimOwner,
}

/// Why a dispatched call failed.
#[derive(Clone, Copy, PartialEq, Eq, Structural, Debug)]
pub enum DispatchError {
    /// The call was not signed.
    BadOrigin,
    /// The pallet refused the call.
    Module(Error),
}

/// The pallet's storage, configuration and emitted events, as mathematical values.
pub struct PalletModel {
    pub max_claim_length: u32,
    pub proofs: Map<Seq<u8>, ClaimRecord>,
    pub events: Seq<EventView>,
}

impl PalletModel {
    /// No stored claim is longer than the configured bound.
    pub open spec fn claims_bounded(self) -> bool {
        forall|c: Seq<u8>| #[trigger] self.proofs.contains_key(c) ==> c.len() <= self.max_claim_length
    }

    /// `create_claim`: the signer claims `claim` at block `now`, unless it is already claimed.
    pub open spec fn create_claim(self, origin: Origin, claim: Seq<u8>, now: BlockNumber) -> (
        PalletModel,
        Result<(), DispatchError>,
    ) {
        match signer_of(origin) {
            None => (self, Err(DispatchError::BadOrigin)),
            Some(signer) => if self.proofs.contains_key(claim) {
                (self, Err(DispatchError::Module(Error::ProofAlreadyExist)))
            } else {
                (
                    PalletModel {
                        proofs: self.proofs.insert(claim, (signer, now)),
                        events: self.events.push(
                            EventView::ClaimCreated(signer, claim),
                        ),
                        ..self
                    },
                    Ok(()),
                )
            },
        }
    }

    /// `revoke_claim`: the owner of `claim` removes it.
    pub open spec fn revoke_claim(self, origin: Origin, claim: Seq<u8>) -> (
        PalletModel,
        Result<(), DispatchError>,
    ) {
        match signer_of(origin) {
            None => (self, Err(DispatchError::BadOrigin)),
            Some(signer) => if !self.proofs.contains_key(claim) {
                (self, Err(DispatchError::Module(Error::ClaimNotExist)))
            } else if signer != self.proofs[claim].0 {
                (self, Err(DispatchError::Module(Error::NotClaimOwner)))
            } else {
                (
                    PalletModel {
                        proofs: self.proofs.remove(claim),
                        events: self.events.push(
                            EventView::ClaimRevoked(signer, claim),
                        ),
                        ..self
                    },
                    Ok(()),
                )
            },
        }
    }

    /// `transfer_claim`: the owner of `claim` transfers it to `to`; the claim is stored
    /// again for `to` at block `now`.
    pub open spec fn transfer_claim(self, origin: Origin, claim: Seq<u8>, to: AccountId, now: BlockNumber) -> (
        PalletModel,
        Result<(), DispatchError>,
    ) {
        match signer_of(origin) {
            None => (self, Err(DispatchError::BadOrigin)),
            Some(signer) => if !self.proofs.contains_key(claim) {
                (self, Err(DispatchError::Module(Error::ClaimNotExist)))
            } else if self.proofs[claim].0 != signer {
                (self, Err(DispatchError::Module(Error::NotClaimOwner)))
            } else {
                (
                    PalletModel {
                        proofs: self.proofs.remove(claim).insert(claim, (to, now)),
                        events: self.events.push(EventView::ClaimTransferred(signer, claim, to)),
                        ..self
                    },
                    Ok(()),
                )
            },
        }
    }
}

/// The proof-of-existence pallet, first version.
pub struct Pallet {
    config: Config,
    proofs: ClaimStore,
    events: Vec<Event>,
}

impl View for Pallet {
    type V = PalletModel;

    closed spec fn view(&self) -> PalletModel {
        PalletModel {
            max_claim_length: self.config.max_claim_length,
            proofs: self.proofs@,
            events: self.events@.map_values(|e: Event| e@),
        }
    }
}

impl Pallet {
    /// The pallet at genesis: no claims, no events.
    pub fn new(config: Config) -> (r: Self)
        ensures
            r@.max_claim_length == config.max_claim_length,
            r@.proofs == Map::<Seq<u8>, ClaimRecord>::empty(),
            r@.events == Seq::<EventView>::empty(),
            r@.claims_bounded(),
    {
        let r = Pallet { config, proofs: ClaimStore::new(), events: Vec::new() };
        assert(r@.events =~= Seq::<EventView>::empty());
        r
    }

    /// The owner of `claim` and the block it was stored in.
    pub fn proofs(&self, claim: &Vec<u8>) -> (r: Option<ClaimRecord>)
        ensures
            r == (if self@.proofs.contains_key(claim@) {
                Some(self@.proofs[claim@])
            } else {
                None
            }),
    {
        self.proofs.get(claim)
    }

    /// The events deposited so far, oldest first.
    pub fn events(&self) -> (r: &Vec<Event>)
        ensures
            r@.map_values(|e: Event| e@) == self@.events,
    {
        &self.events
    }

    /// The signer claims `claim` at block `now`.
    pub fn create_claim(&mut self, origin: Origin, claim: Vec<u8>, now: BlockNumber) -> (r: Result<
        (),
        DispatchError,
    >)
        requires
            claim@.len() <= old(self)@.max_claim_length,
        ensures
            (final(self)@, r) == old(self)@.create_claim(origin, claim@, now),
            r is Ok <==> signer_of(origin) is Some && !old(self)@.proofs.contains_key(claim@),
            r is Ok ==> final(self)@.proofs[claim@] == (signer_of(origin)->0, now),
            r is Ok ==> final(self)@.proofs == old(self)@.proofs.insert(
                claim@,
                (signer_of(origin)->0, now),
            ),
            r is Err ==> final(self)@ == old(self)@,
            old(self)@.claims_bounded() ==> final(self)@.claims_bounded(),
    {
        let signer = match ensure_signed(origin) {
            Ok(who) => who,
            Err(_) => return Err(DispatchError::BadOrigin),
        };
        if self.proofs.contains_key(&claim) {
            return Err(DispatchError::Module(Error::ProofAlreadyExist));
        }
        self.proofs.insert(&claim, (signer, now));
        self.events.push(Event::ClaimCreated(signer, claim));
        proof {
            assert(self@.events =~= old(self)@.create_claim(origin, claim@, now).0.events);
        }
        Ok(())
    }

    /// The owner of `claim` revokes it.
    pub fn revoke_claim(&mut self, origin: Origin, claim: Vec<u8>) -> (r: Result<(), DispatchError>)
        ensures
            (final(self)@, r) == old(self)@.revoke_claim(origin, claim@),
            r is Ok <==> signer_of(origin) is Some && old(self)@.proofs.contains_key(claim@)
                && old(self)@.proofs[claim@].0 == signer_of(origin)->0,
            r is Ok ==> !final(self)@.proofs.contains_key(claim@),
            r is Ok ==> final(self)@.proofs == old(self)@.proofs.remove(claim@),
            r is Err ==> final(self)@ == old(self)@,
            old(self)@.claims_bounded() ==> final(self)@.claims_bounded(),
    {
        let signer = match ensure_signed(origin) {
            Ok(who) => who,
            Err(_) => return Err(DispatchError::BadOrigin),
        };
        let (owner, _block_number) = match self.proofs.get(&claim) {
            Some(record) => record,
            None => return Err(DispatchError::Module(Error::ClaimNotExist)),
        };
        if signer != owner {
            return Err(DispatchError::Module(Error::NotClaimOwner));
        }
        self.proofs.remove(&claim);
        self.events.push(Event::ClaimRevoked(signer, claim));
        proof {
            assert(self@.events =~= old(self)@.revoke_claim(origin, claim@).0.events);
        }
        Ok(())
    }

    /// The owner of `claim` transfers it to `to`; the claim is stored again for `to` at
    /// block `now`.
    pub fn transfer_claim(&mut self, origin: Origin, claim: Vec<u8>, to: AccountId, now: BlockNumber) -> (r: Result<
        (),
        DispatchError,
    >)
        ensures
            (final(self)@, r) == old(self)@.transfer_claim(origin, claim@, to, now),
            r is Ok <==> signer_of(origin) is Some && old(self)@.proofs.contains_key(claim@)
                && old(self)@.proofs[claim@].0 == signer_of(origin)->0,
            r is Ok ==> final(self)@.proofs[claim@] == (to, now),
            r is Ok ==> final(self)@.proofs == old(self)@.proofs.insert(claim@, (to, now)),
            r is Err ==> final(self)@ == old(self)@,
            old(self)@.claims_bounded() ==> final(self)@.claims_bounded(),
    {
        let sender = match ensure_signed(origin) {
            Ok(who) => who,
            Err(_) => return Err(DispatchError::BadOrigin),
        };
        let (owner, _) = match self.proofs.get(&claim) {
            Some(record) => record,
            None => return Err(DispatchError::Module(Error::ClaimNotExist)),
        };
        if owner != sender {
            return Err(DispatchError::Module(Error::NotClaimOwner));
        }
        self.proofs.remove(&claim);
        self.proofs.insert(&claim, (to, now));
        self.events.push(Event::ClaimTransferred(sender, claim, to));
        proof {
            assert(self@.events =~= old(self)@.transfer_claim(origin, claim@, to, now).0.events);
        }
        Ok(())
    }
}

/// Revoking a claim right after creating it, by the same signer, leaves the stored
/// claims as they were before the creation.
pub proof fn law_create_then_revoke(s: PalletModel, origin: Origin, claim: Seq<u8>, now: BlockNumber)
    requires
        s.create_claim(origin, claim, now).1 is Ok,
    ensures
        s.create_claim(origin, claim, now).0.revoke_claim(origin, claim).1 is Ok,
        s.create_claim(origin, claim, now).0.revoke_claim(origin, claim).0.proofs == s.proofs,
{
    let s1 = s.create_claim(origin, claim, now).0;
    assert(s1.revoke_claim(origin, claim).0.proofs =~= s.proofs);
}

/// A claim that exists cannot be created again, whoever asks.
pub proof fn law_no_double_claim(s: PalletModel, origin: Origin, claim: Seq<u8>, now: BlockNumber)
    requires
        s.proofs.contains_key(claim),
    ensures
        s.create_claim(origin, claim, now).1 is Err,
        s.create_claim(origin, claim, now).0 == s,
{
}

/// After a transfer the recipient owns the claim: the recipient may revoke it, and the
/// former owner, when another account, may no longer.
pub proof fn law_transfer_hands_over(
    s: PalletModel,
    origin: Origin,
    claim: Seq<u8>,
    to: AccountId,
    now: BlockNumber,
)
    requires
        s.transfer_claim(origin, claim, to, now).1 is Ok,
    ensures
        s.transfer_claim(origin, claim, to, now).0.proofs[claim] == (to, now),
        s.transfer_claim(origin, claim, to, now).0.revoke_claim(Origin::Signed(to), claim).1 is Ok,
        to != s.proofs[claim].0 ==> s.transfer_claim(origin, claim, to, now).0.revoke_claim(
            origin,
            claim,
        ).1 == Err::<(), DispatchError>(DispatchError::Module(Error::NotClaimOwner)),
{
}

/// Each call touches only the claim it names: after a successful creation, revocation
/// or transfer of `claim`, every other claim is stored, or absent, exactly as before,
/// with the same owner and block.
pub proof fn law_calls_touch_only_their_claim(
    s: PalletModel,
    origin: Origin,
    claim: Seq<u8>,
    to: AccountId,
    now: BlockNumber,
    other: Seq<u8>,
)
    requires
        other != claim,
    ensures
        s.create_claim(origin, claim, now).0.proofs.contains_key(other) == s.proofs.contains_key(other),
        s.create_claim(origin, claim, now).0.proofs[other] == s.proofs[other],
        s.revoke_claim(origin, claim).0.proofs.contains_key(other) == s.proofs.contains_key(other),
        s.revoke_claim(origin, claim).0.proofs[other] == s.proofs[other],
        s.transfer_claim(origin, claim, to, now).0.proofs.contains_key(other)
            == s.proofs.contains_key(other),
        s.transfer_claim(origin, claim, to, now).0.proofs[other] == s.proofs[other],
{
}

} // verus!
