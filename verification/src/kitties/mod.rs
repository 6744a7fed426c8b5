//! Kitties: accounts create, breed, hand over, offer and buy collectible kitties.
//!
//! The pallet's storage is the `Pallet` value. What the runtime provides to a call is
//! passed to it: the randomness and extrinsic index the DNA is derived from (`DnaSeed`),
//! and the outcome of the currency transfer that pays for the call (`paid`), which the
//! caller performs as the matching `..._payment` function says.
use sp_runtime::traits::AccountIdConversion;
use std::collections::{HashMap, HashSet};
use vstd::prelude::*;
use crate::dispatch::{ensure_signed, signer_of, AccountId, Balance, BlockNumber, Origin, Weight};
use crate::encoding::{blake2_128, blake2_128_digest, encode_dna_payload, encoded_option_u32, le_bytes};

pub mod storage;

pub use storage::current_version::{Kitty, KittyDna, KittyId, KittyName, KittyView};
use storage::{upgrade_storage, LegacyKitties};

verus! {

broadcast use vstd::std_specs::hash::group_hash_axioms;

/// The pallet's configuration.
#[derive(Clone, Copy, PartialEq, Eq, Debug)]
pub struct Config {
    /// The pallet's identifier, from which its own account, which receives the price of
    /// new kitties, is derived.
    pub pallet_id: [u8; 8],
    /// What creating, breeding or buying a kitty costs.
    pub kitty_price: Balance,
}

/// What the runtime provides for deriving a kitty's DNA: the chain's random seed (a hash
/// and the block number from which it is unpredictable) and the index of the extrinsic
/// being applied.
#[derive(Clone, Copy, PartialEq, Eq, Debug)]
pub struct DnaSeed {
    pub random_seed: ([u8; 32], BlockNumber),
    pub extrinsic_index: Option<u32>,
}

/// A currency transfer a call needs before it can succeed.
#[derive(Clone, Copy, PartialEq, Eq, Structural, Debug)]
pub struct Payment {
    pub from: AccountId,
    pub to: AccountId,
    pub amount: Balance,
}

/// Why the currency refused a transfer.
#[derive(Clone, Copy, PartialEq, Eq, Structural, Debug)]
pub enum CurrencyError {
    /// The payer's free balance is lower than the amount.
    InsufficientBalance,
    /// The payment would take the payer's account below the existential deposit.
    KeepAlive,
    /// The payee's account would be created with less than the existential deposit.
    ExistentialDeposit,
    /// The payer's funds are locked.
    LiquidityRestrictions,
    /// The payee's balance would overflow.
    Overflow,
}

/// An event of the pallet.
#[derive(Clone, Copy, PartialEq, Eq, Debug)]
pub enum Event {
    KittyCreated { account: AccountId, kitty_id: KittyId, kitty: Kitty },
    KittyBred { account: AccountId, kitty_id: KittyId, kitty: Kitty },
    KittyTransferred { sender: AccountId, recipient: AccountId, kitty_id: KittyId },
    KittyOnSale { account: AccountId, kitty_id: KittyId },
    KittyBought { buyer: AccountId, kitty_id: KittyId },
}

/// An event, with its kitty as a `KittyView`.
pub enum EventView {
    KittyCreated { account: AccountId, kitty_id: KittyId, kitty: KittyView },
    KittyBred { account: AccountId, kitty_id: KittyId, kitty: KittyView },
    KittyTransferred { sender: AccountId, recipient: AccountId, kitty_id: KittyId },
    KittyOnSale { account: AccountId, kitty_id: KittyId },
    KittyBought { buyer: AccountId, kitty_id: KittyId },
}

impl View for Event {
    type V = EventView;

    open spec fn view(&self) -> EventView {
        match *self {
            Event::KittyCreated { account, kitty_id, kitty } => EventView::KittyCreated {
                account,
                kitty_id,
                kitty: kitty@,
            },
            Event::KittyBred { account, kitty_id, kitty } => EventView::KittyBred {
                account,
                kitty_id,
                kitty: kitty@,
            },
            Event::KittyTransferred { sender, recipient, kitty_id } => EventView::KittyTransferred {
                sender,
                recipient,
                kitty_id,
            },
            Event::KittyOnSale { account, kitty_id } => EventView::KittyOnSale { account, kitty_id },
            Event::KittyBought { buyer, kitty_id } => EventView::KittyBought { buyer, kitty_id },
        }
    }
}

/// Why a call of the pallet failed.
#[derive(Clone, Copy, PartialEq, Eq, Structural, Debug)]
pub enum Error {
    KittyIdOverflow,
    SameParentKittyId,
    KittyNotExist,
    NotKittyOwner,
    TransferKittyToOwner,
    KittyAlreadyOnSale,
    KittyNotOnSale,
    KittyAlreadyOwned,
}

/// Why a dispatched call failed.
#[derive(Clone, Copy, PartialEq, Eq, Structural, Debug)]
pub enum DispatchError {
    /// The call was not signed.
    BadOrigin,
    /// The pallet refused the call.
    Module(Error),
    /// The payment for the call failed.
    Currency(CurrencyError),
}

/// The value of the little-endian bytes `b`.
pub open spec fn le_value(b: Seq<u8>) -> nat
    decreases b.len(),
{
    if b.len() == 0 {
        0
    } else {
        b[0] as nat + 256 * le_value(b.drop_first())
    }
}

/// The bytes an account derived from the pallet identifier `pallet_id` is read from: the
/// type identifier "modl" followed by the pallet identifier, cut to the eight bytes of an
/// account.
pub open spec fn pallet_account_bytes(pallet_id: Seq<u8>) -> Seq<u8> {
    seq![0x6du8, 0x6fu8, 0x64u8, 0x6cu8] + pallet_id.subrange(0, 4)
}

/// The account of the pallet with identifier `pallet_id`.
pub open spec fn pallet_account(pallet_id: Seq<u8>) -> AccountId {
    le_value(pallet_account_bytes(pallet_id)) as u64
}

/// `AccountIdConversion::into_account_truncating` of sp-runtime on a
/// `frame_support::PalletId`: the encoded type identifier "modl" and pallet identifier,
/// padded with zeros, decoded as a `u64` account, that is, read from their first eight
/// bytes in little-endian order.
#[verifier::external_body]
fn into_account_truncating(pallet_id: [u8; 8]) -> (r: AccountId)
    ensures
        r == pallet_account(pallet_id@),
{
    frame_support::PalletId(pallet_id).into_account_truncating()
}

/// The bytes from which a kitty's DNA is hashed: the encoded random seed (hash, then
/// block number), account and extrinsic index.
pub open spec fn dna_payload(account: AccountId, seed: DnaSeed) -> Seq<u8> {
    seed.random_seed.0@ + le_bytes(seed.random_seed.1 as nat, 4) + le_bytes(account as nat, 8)
        + encoded_option_u32(seed.extrinsic_index)
}

/// The DNA of a kitty created by `account`.
pub open spec fn random_dna(account: AccountId, seed: DnaSeed) -> Seq<u8> {
    blake2_128_digest(dna_payload(account, seed))
}

/// Each bit taken from `a` where `selector` has a 1 and from `b` where it has a 0.
pub open spec fn mixed_dna(a: Seq<u8>, b: Seq<u8>, selector: Seq<u8>) -> Seq<u8> {
    Seq::new(16, |i: int| (a[i] & selector[i]) | (b[i] & !selector[i]))
}

/// The DNA of a kitty bred by `account` from parents of DNA `a` and `b`.
pub open spec fn child_dna(account: AccountId, seed: DnaSeed, a: Seq<u8>, b: Seq<u8>) -> Seq<u8> {
    mixed_dna(a, b, random_dna(account, seed))
}

/// The DNA of a kitty created by `account`: the Blake2-128 digest of the encoded seed,
/// account and extrinsic index.
pub fn random_kitty_dna(account: &AccountId, seed: &DnaSeed) -> (r: KittyDna)
    ensures
        r@ == random_dna(*account, *seed),
{
    let payload = encode_dna_payload(
        &seed.random_seed.0,
        seed.random_seed.1,
        *account,
        seed.extrinsic_index,
    );
    blake2_128(payload.as_slice())
}

/// The DNA of a kitty bred by `account`: each bit comes from the first parent where the
/// DNA `account` would get for a new kitty has a 1, and from the second parent elsewhere.
pub fn child_kitty_dna(account: &AccountId, seed: &DnaSeed, parent_1: &Kitty, parent_2: &Kitty) -> (r:
    KittyDna)
    ensures
        r@ == child_dna(*account, *seed, parent_1.dna@, parent_2.dna@),
{
    let selector = random_kitty_dna(account, seed);
    let mut dna: KittyDna = [0; 16];
    let mut i: usize = 0;
    while i < 16
        invariant
            i <= 16,
            forall|j: int|
                0 <= j < i ==> dna@[j] == (parent_1.dna@[j] & selector@[j]) | (parent_2.dna@[j]
                    & !selector@[j]),
        decreases 16 - i,
    {
        dna[i] = (parent_1.dna[i] & selector[i]) | (parent_2.dna[i] & !selector[i]);
        i = i + 1;
    }
    assert(dna@ =~= mixed_dna(parent_1.dna@, parent_2.dna@, selector@));
    dna
}

/// The pallet's storage, configuration and emitted events, as mathematical values.
pub struct PalletModel {
    pub pallet_account: AccountId,
    pub kitty_price: Balance,
    pub storage_version: u16,
    pub next_kitty_id: KittyId,
    pub kitties: Map<KittyId, KittyView>,
    pub kitty_owner: Map<KittyId, AccountId>,
    pub kitty_parents: Map<KittyId, (KittyId, KittyId)>,
    pub kitty_on_sale: Set<KittyId>,
    pub events: Seq<EventView>,
}

impl PalletModel {
    /// The storage invariant: every kitty has an owner and an identifier below the next
    /// one; the parents of a bred kitty are two distinct kitties created before it; only
    /// existing kitties are on sale.
    pub open spec fn wf(self) -> bool {
        &&& forall|id: KittyId| #[trigger]
            self.kitties.contains_key(id) <==> self.kitty_owner.contains_key(id)
        &&& forall|id: KittyId| #[trigger] self.kitties.contains_key(id) ==> id < self.next_kitty_id
        &&& forall|id: KittyId| #[trigger]
            self.kitty_parents.contains_key(id) ==> {
                let (p1, p2) = self.kitty_parents[id];
                &&& self.kitties.contains_key(id)
                &&& p1 != p2
                &&& p1 < id
                &&& p2 < id
                &&& self.kitties.contains_key(p1)
                &&& self.kitties.contains_key(p2)
            }
        &&& forall|id: KittyId| #[trigger] self.kitty_on_sale.contains(id) ==> self.kitties.contains_key(id)
    }

    /// The payment `create_kitty` needs, or the error it fails with before paying.
    pub open spec fn create_kitty_payment(self, origin: Origin) -> Result<Payment, DispatchError> {
        match signer_of(origin) {
            None => Err(DispatchError::BadOrigin),
            Some(signer) => if self.next_kitty_id == u32::MAX {
                Err(DispatchError::Module(Error::KittyIdOverflow))
            } else {
                Ok(Payment { from: signer, to: self.pallet_account, amount: self.kitty_price })
            },
        }
    }

    /// `create_kitty`: the signer pays the price and gets a new kitty named `name`.
    pub open spec fn create_kitty(
        self,
        origin: Origin,
        name: KittyName,
        seed: DnaSeed,
        paid: Result<(), CurrencyError>,
    ) -> (PalletModel, Result<(), DispatchError>) {
        match self.create_kitty_payment(origin) {
            Err(e) => (self, Err(e)),
            Ok(payment) => match paid {
                Err(e) => (self, Err(DispatchError::Currency(e))),
                Ok(_) => {
                    let signer = payment.from;
                    let kitty_id = self.next_kitty_id;
                    let kitty = KittyView { name: name@, dna: random_dna(signer, seed) };
                    (
                        PalletModel {
                            next_kitty_id: (kitty_id + 1) as u32,
                            kitties: self.kitties.insert(kitty_id, kitty),
                            kitty_owner: self.kitty_owner.insert(kitty_id, signer),
                            events: self.events.push(
                                EventView::KittyCreated { account: signer, kitty_id, kitty },
                            ),
                            ..self
                        },
                        Ok(()),
                    )
                },
            },
        }
    }

    /// The payment `bred_kitty` needs, or the error it fails with before paying.
    pub open spec fn bred_kitty_payment(
        self,
        origin: Origin,
        parent_id_1: KittyId,
        parent_id_2: KittyId,
    ) -> Result<Payment, DispatchError> {
        match signer_of(origin) {
            None => Err(DispatchError::BadOrigin),
            Some(signer) => if parent_id_1 == parent_id_2 {
                Err(DispatchError::Module(Error::SameParentKittyId))
            } else if !self.kitties.contains_key(parent_id_1) || !self.kitties.contains_key(
                parent_id_2,
            ) {
                Err(DispatchError::Module(Error::KittyNotExist))
            } else if self.next_kitty_id == u32::MAX {
                Err(DispatchError::Module(Error::KittyIdOverflow))
            } else {
                Ok(Payment { from: signer, to: self.pallet_account, amount: self.kitty_price })
            },
        }
    }

    /// `bred_kitty`: the signer pays the price and gets a new kitty named `name`, bred
    /// from two existing kitties.
    pub open spec fn bred_kitty(
        self,
        origin: Origin,
        parent_id_1: KittyId,
        parent_id_2: KittyId,
        name: KittyName,
        seed: DnaSeed,
        paid: Result<(), CurrencyError>,
    ) -> (PalletModel, Result<(), DispatchError>) {
        match self.bred_kitty_payment(origin, parent_id_1, parent_id_2) {
            Err(e) => (self, Err(e)),
            Ok(payment) => match paid {
                Err(e) => (self, Err(DispatchError::Currency(e))),
                Ok(_) => {
                    let signer = payment.from;
                    let kitty_id = self.next_kitty_id;
                    let kitty = KittyView {
                        name: name@,
                        dna: child_dna(
                            signer,
                            seed,
                            self.kitties[parent_id_1].dna,
                            self.kitties[parent_id_2].dna,
                        ),
                    };
                    (
                        PalletModel {
                            next_kitty_id: (kitty_id + 1) as u32,
                            kitties: self.kitties.insert(kitty_id, kitty),
                            kitty_owner: self.kitty_owner.insert(kitty_id, signer),
                            kitty_parents: self.kitty_parents.insert(
                                kitty_id,
                                (parent_id_1, parent_id_2),
                            ),
                            events: self.events.push(
                                EventView::KittyBred { account: signer, kitty_id, kitty },
                            ),
                            ..self
                        },
                        Ok(()),
                    )
                },
            },
        }
    }

    /// `transfer_kitty`: the owner of a kitty hands it to `recipient`.
    pub open spec fn transfer_kitty(self, origin: Origin, recipient: AccountId, kitty_id: KittyId) -> (
        PalletModel,
        Result<(), DispatchError>,
    ) {
        match signer_of(origin) {
            None => (self, Err(DispatchError::BadOrigin)),
            Some(signer) => if !self.kitty_owner.contains_key(kitty_id) {
                (self, Err(DispatchError::Module(Error::KittyNotExist)))
            } else if signer != self.kitty_owner[kitty_id] {
                (self, Err(DispatchError::Module(Error::NotKittyOwner)))
            } else if signer == recipient {
                (self, Err(DispatchError::Module(Error::TransferKittyToOwner)))
            } else {
                (
                    PalletModel {
                        kitty_owner: self.kitty_owner.insert(kitty_id, recipient),
                        events: self.events.push(
                            EventView::KittyTransferred { sender: signer, recipient, kitty_id },
                        ),
                        ..self
                    },
                    Ok(()),
                )
            },
        }
    }

    /// `sale_kitty`: the owner of a kitty puts it on sale.
    pub open spec fn sale_kitty(self, origin: Origin, kitty_id: KittyId) -> (
        PalletModel,
        Result<(), DispatchError>,
    ) {
        match signer_of(origin) {
            None => (self, Err(DispatchError::BadOrigin)),
            Some(signer) => if !self.kitty_owner.contains_key(kitty_id) {
                (self, Err(DispatchError::Module(Error::KittyNotExist)))
            } else if signer != self.kitty_owner[kitty_id] {
                (self, Err(DispatchError::Module(Error::NotKittyOwner)))
            } else if self.kitty_on_sale.contains(kitty_id) {
                (self, Err(DispatchError::Module(Error::KittyAlreadyOnSale)))
            } else {
                (
                    PalletModel {
                        kitty_on_sale: self.kitty_on_sale.insert(kitty_id),
                        events: self.events.push(
                            EventView::KittyOnSale { account: signer, kitty_id },
                        ),
                        ..self
                    },
                    Ok(()),
                )
            },
        }
    }

    /// The payment `buy_kitty` needs, or the error it fails with before paying.
    pub open spec fn buy_kitty_payment(self, origin: Origin, kitty_id: KittyId) -> Result<
        Payment,
        DispatchError,
    > {
        match signer_of(origin) {
            None => Err(DispatchError::BadOrigin),
            Some(signer) => if !self.kitty_owner.contains_key(kitty_id) {
                Err(DispatchError::Module(Error::KittyNotExist))
            } else if signer == self.kitty_owner[kitty_id] {
                Err(DispatchError::Module(Error::KittyAlreadyOwned))
            } else if !self.kitty_on_sale.contains(kitty_id) {
                Err(DispatchError::Module(Error::KittyNotOnSale))
            } else {
                Ok(
                    Payment {
                        from: signer,
                        to: self.kitty_owner[kitty_id],
                        amount: self.kitty_price,
                    },
                )
            },
        }
    }

    /// `buy_kitty`: the signer pays the owner of a kitty on sale and becomes its owner.
    pub open spec fn buy_kitty(
        self,
        origin: Origin,
        kitty_id: KittyId,
        paid: Result<(), CurrencyError>,
    ) -> (PalletModel, Result<(), DispatchError>) {
        match self.buy_kitty_payment(origin, kitty_id) {
            Err(e) => (self, Err(e)),
            Ok(payment) => match paid {
                Err(e) => (self, Err(DispatchError::Currency(e))),
                Ok(_) => (
                    PalletModel {
                        kitty_owner: self.kitty_owner.insert(kitty_id, payment.from),
                        kitty_on_sale: self.kitty_on_sale.remove(kitty_id),
                        events: self.events.push(
                            EventView::KittyBought { buyer: payment.from, kitty_id },
                        ),
                        ..self
                    },
                    Ok(()),
                ),
            },
        }
    }
}

impl PalletModel {
    /// `post` is the pallet after `on_runtime_upgrade` with stored kitties `legacy`: from
    /// an earlier storage version the kitties are migrated to the current layout and the
    /// version becomes the current one; otherwise nothing changes.
    pub open spec fn runtime_upgrade(self, legacy: LegacyKitties, post: PalletModel) -> bool {
        if self.storage_version == storage::v1::STORAGE_VERSION {
            exists|migrated: Seq<(KittyId, Kitty)>|
                storage::migrated_all_v1(legacy->V1_0@, migrated) && post == (PalletModel {
                    storage_version: storage::current_version::STORAGE_VERSION,
                    kitties: entries_map(migrated),
                    ..self
                })
        } else if self.storage_version == storage::v0::STORAGE_VERSION {
            exists|migrated: Seq<(KittyId, Kitty)>|
                storage::migrated_all_v0(legacy->V0_0@, migrated) && post == (PalletModel {
                    storage_version: storage::current_version::STORAGE_VERSION,
                    kitties: entries_map(migrated),
                    ..self
                })
        } else {
            post == self
        }
    }
}

/// The map built by storing each entry in turn, later entries replacing earlier ones.
pub open spec fn entries_map(entries: Seq<(KittyId, Kitty)>) -> Map<KittyId, KittyView>
    decreases entries.len(),
{
    if entries.len() == 0 {
        Map::empty()
    } else {
        entries_map(entries.drop_last()).insert(entries.last().0, entries.last().1@)
    }
}

/// Entry `i` is the last of `entries` with its identifier.
pub open spec fn is_last_for_id<A>(entries: Seq<(KittyId, A)>, i: int) -> bool {
    forall|j: int| i < j < entries.len() ==> #[trigger] entries[j].0 != entries[i].0
}

/// `kitties` holds exactly the identifiers of `legacy`, each with the migration of the
/// last legacy kitty stored under it.
pub open spec fn holds_migrated<A>(
    kitties: Map<KittyId, KittyView>,
    legacy: Seq<(KittyId, A)>,
    migrate: spec_fn(A) -> KittyView,
) -> bool {
    &&& forall|i: int| 0 <= i < legacy.len() ==> kitties.contains_key(#[trigger] legacy[i].0)
    &&& forall|k: KittyId| #[trigger]
        kitties.contains_key(k) ==> exists|i: int| 0 <= i < legacy.len() && legacy[i].0 == k
    &&& forall|i: int|
        0 <= i < legacy.len() && is_last_for_id(legacy, i) ==> kitties[#[trigger] legacy[i].0]
            == migrate(legacy[i].1)
}

/// Storing entries one after the other keeps every identifier stored, and nothing else;
/// under each identifier stays the kitty of the last entry with it.
pub proof fn law_entries_map_keeps_every_entry(entries: Seq<(KittyId, Kitty)>)
    ensures
        holds_migrated(entries_map(entries), entries, |k: Kitty| k@),
    decreases entries.len(),
{
    if entries.len() > 0 {
        let t = entries.drop_last();
        let e = entries.last();
        law_entries_map_keeps_every_entry(t);
        let m = entries_map(entries);
        assert(m == entries_map(t).insert(e.0, e.1@));
        assert forall|i: int| 0 <= i < entries.len() implies m.contains_key(#[trigger] entries[i].0) by {
            if i < entries.len() - 1 {
                assert(t[i] == entries[i]);
            }
        }
        assert forall|k: KittyId| #[trigger] m.contains_key(k) implies exists|i: int|
            0 <= i < entries.len() && entries[i].0 == k by {
            if k == e.0 {
                assert(entries[entries.len() - 1].0 == k);
            } else {
                let i = choose|i: int| 0 <= i < t.len() && t[i].0 == k;
                assert(entries[i].0 == k);
            }
        }
        assert forall|i: int|
            0 <= i < entries.len() && is_last_for_id(entries, i) implies m[#[trigger] entries[i].0]
            == entries[i].1@ by {
            if i < entries.len() - 1 {
                assert(entries[entries.len() - 1].0 != entries[i].0);
                assert(t[i] == entries[i]);
                assert forall|j: int| i < j < t.len() implies #[trigger] t[j].0 != t[i].0 by {
                    assert(t[j] == entries[j]);
                }
            }
        }
    }
}

/// The kitties pallet.
pub struct Pallet {
    config: Config,
    storage_version: u16,
    next_kitty_id: KittyId,
    kitties: HashMap<KittyId, Kitty>,
    kitty_owner: HashMap<KittyId, AccountId>,
    kitty_parents: HashMap<KittyId, (KittyId, KittyId)>,
    kitty_on_sale: HashSet<KittyId>,
    events: Vec<Event>,
}

impl View for Pallet {
    type V = PalletModel;

    closed spec fn view(&self) -> PalletModel {
        PalletModel {
            pallet_account: pallet_account(self.config.pallet_id@),
            kitty_price: self.config.kitty_price,
            storage_version: self.storage_version,
            next_kitty_id: self.next_kitty_id,
            kitties: self.kitties@.map_values(|k: Kitty| k@),
            kitty_owner: self.kitty_owner@,
            kitty_parents: self.kitty_parents@,
            kitty_on_sale: self.kitty_on_sale@,
            events: self.events@.map_values(|e: Event| e@),
        }
    }
}

impl Pallet {
    /// The pallet at genesis: no kitties, storage at the current version.
    pub fn new(config: Config) -> (r: Self)
        ensures
            r@.pallet_account == pallet_account(config.pallet_id@),
            r@.kitty_price == config.kitty_price,
            r@.storage_version == storage::current_version::STORAGE_VERSION,
            r@.next_kitty_id == 0,
            r@.kitties == Map::<KittyId, KittyView>::empty(),
            r@.kitty_owner == Map::<KittyId, AccountId>::empty(),
            r@.kitty_parents == Map::<KittyId, (KittyId, KittyId)>::empty(),
            r@.kitty_on_sale == Set::<KittyId>::empty(),
            r@.events == Seq::<EventView>::empty(),
            r@.wf(),
    {
        Self::at_storage_version(config, storage::current_version::STORAGE_VERSION)
    }

    /// The pallet with empty storage recorded at storage version `version`, as a chain
    /// whose kitties were written by an earlier version of the pallet finds it.
    pub fn at_storage_version(config: Config, version: u16) -> (r: Self)
        ensures
            r@.pallet_account == pallet_account(config.pallet_id@),
            r@.kitty_price == config.kitty_price,
            r@.storage_version == version,
            r@.next_kitty_id == 0,
            r@.kitties == Map::<KittyId, KittyView>::empty(),
            r@.kitty_owner == Map::<KittyId, AccountId>::empty(),
            r@.kitty_parents == Map::<KittyId, (KittyId, KittyId)>::empty(),
            r@.kitty_on_sale == Set::<KittyId>::empty(),
            r@.events == Seq::<EventView>::empty(),
            r@.wf(),
    {
        let r = Pallet {
            config,
            storage_version: version,
            next_kitty_id: 0,
            kitties: HashMap::new(),
            kitty_owner: HashMap::new(),
            kitty_parents: HashMap::new(),
            kitty_on_sale: HashSet::new(),
            events: Vec::new(),
        };
        assert(r@.kitties =~= Map::<KittyId, KittyView>::empty());
        assert(r@.events =~= Seq::<EventView>::empty());
        r
    }

    /// The identifier the next kitty will get.
    pub fn next_kitty_id(&self) -> (r: KittyId)
        ensures
            r == self@.next_kitty_id,
    {
        self.next_kitty_id
    }

    /// Overwrites the stored next kitty identifier, as a direct write to that storage
    /// item (from genesis configuration or a test) does.
    pub fn set_next_kitty_id(&mut self, kitty_id: KittyId)
        ensures
            final(self)@ == (PalletModel { next_kitty_id: kitty_id, ..old(self)@ }),
            old(self)@.wf() && kitty_id >= old(self)@.next_kitty_id ==> final(self)@.wf(),
    {
        self.next_kitty_id = kitty_id;
    }

    /// The kitty `kitty_id`, if it exists.
    pub fn kitties(&self, kitty_id: KittyId) -> (r: Option<Kitty>)
        ensures
            r is Some <==> self@.kitties.contains_key(kitty_id),
            r is Some ==> r->0@ == self@.kitties[kitty_id],
    {
        match self.kitties.get(&kitty_id) {
            Some(k) => Some(*k),
            None => None,
        }
    }

    /// The owner of kitty `kitty_id`, if it exists.
    pub fn kitty_owner(&self, kitty_id: KittyId) -> (r: Option<AccountId>)
        ensures
            r == (if self@.kitty_owner.contains_key(kitty_id) {
                Some(self@.kitty_owner[kitty_id])
            } else {
                None
            }),
    {
        match self.kitty_owner.get(&kitty_id) {
            Some(o) => Some(*o),
            None => None,
        }
    }

    /// The parents of kitty `kitty_id`, if it was bred.
    pub fn kitty_parents(&self, kitty_id: KittyId) -> (r: Option<(KittyId, KittyId)>)
        ensures
            r == (if self@.kitty_parents.contains_key(kitty_id) {
                Some(self@.kitty_parents[kitty_id])
            } else {
                None
            }),
    {
        match self.kitty_parents.get(&kitty_id) {
            Some(p) => Some(*p),
            None => None,
        }
    }

    /// `Some(())` if kitty `kitty_id` is on sale.
    pub fn kitty_on_sale(&self, kitty_id: KittyId) -> (r: Option<()>)
        ensures
            r is Some <==> self@.kitty_on_sale.contains(kitty_id),
    {
        if self.kitty_on_sale.contains(&kitty_id) {
            Some(())
        } else {
            None
        }
    }

    /// The version of the layout the stored kitties are in.
    pub fn on_chain_storage_version(&self) -> (r: u16)
        ensures
            r == self@.storage_version,
    {
        self.storage_version
    }

    /// The events deposited so far, oldest first.
    pub fn events(&self) -> (r: &Vec<Event>)
        ensures
            r@.map_values(|e: Event| e@) == self@.events,
    {
        &self.events
    }

    /// The pallet's own account, derived from its identifier.
    pub fn get_pallet_account_id(&self) -> (r: AccountId)
        ensures
            r == self@.pallet_account,
    {
        into_account_truncating(self.config.pallet_id)
    }

    /// Takes the next kitty identifier, failing when identifiers are exhausted.
    fn generate_next_kitty_id(&mut self) -> (r: Result<KittyId, DispatchError>)
        ensures
            old(self)@.next_kitty_id == u32::MAX ==> r == Err::<KittyId, DispatchError>(
                DispatchError::Module(Error::KittyIdOverflow),
            ) && final(self)@ == old(self)@,
            old(self)@.next_kitty_id != u32::MAX ==> r == Ok::<KittyId, DispatchError>(
                old(self)@.next_kitty_id,
            ) && final(self)@ == (PalletModel {
                next_kitty_id: (old(self)@.next_kitty_id + 1) as u32,
                ..old(self)@
            }),
    {
        let kitty_id = self.next_kitty_id;
        match kitty_id.checked_add(1) {
            Some(next) => {
                self.next_kitty_id = next;
                Ok(kitty_id)
            },
            None => Err(DispatchError::Module(Error::KittyIdOverflow)),
        }
    }

    /// The payment `create_kitty` needs, or the error it fails with before paying.
    pub fn create_kitty_payment(&self, origin: Origin) -> (r: Result<Payment, DispatchError>)
        ensures
            r == self@.create_kitty_payment(origin),
    {
        let signer = match ensure_signed(origin) {
            Ok(who) => who,
            Err(_) => return Err(DispatchError::BadOrigin),
        };
        if self.next_kitty_id == u32::MAX {
            return Err(DispatchError::Module(Error::KittyIdOverflow));
        }
        Ok(Payment { from: signer, to: self.get_pallet_account_id(), amount: self.config.kitty_price })
    }

    /// The signer gets a new kitty named `name`, once `paid` says the payment
    /// `create_kitty_payment` asked for went through.
    pub fn create_kitty(
        &mut self,
        origin: Origin,
        name: KittyName,
        seed: DnaSeed,
        paid: Result<(), CurrencyError>,
    ) -> (r: Result<(), DispatchError>)
        ensures
            (final(self)@, r) == old(self)@.create_kitty(origin, name, seed, paid),
            r is Ok <==> old(self)@.create_kitty_payment(origin) is Ok && paid is Ok,
            r is Err ==> final(self)@ == old(self)@,
            r is Ok ==> final(self)@.next_kitty_id == old(self)@.next_kitty_id + 1
                && final(self)@.kitty_owner[old(self)@.next_kitty_id] == signer_of(origin)->0,
            old(self)@.wf() ==> final(self)@.wf(),
            r is Ok ==> final(self)@.kitties == old(self)@.kitties.insert(
                old(self)@.next_kitty_id,
                KittyView { name: name@, dna: random_dna(signer_of(origin)->0, seed) },
            ),
            r is Ok ==> final(self)@.kitty_owner == old(self)@.kitty_owner.insert(
                old(self)@.next_kitty_id,
                signer_of(origin)->0,
            ),
            r is Ok ==> final(self)@.kitty_parents == old(self)@.kitty_parents
                && final(self)@.kitty_on_sale == old(self)@.kitty_on_sale,
    {
        let signer = match ensure_signed(origin) {
            Ok(who) => who,
            Err(_) => return Err(DispatchError::BadOrigin),
        };
        let kitty_id = match self.generate_next_kitty_id() {
            Ok(id) => id,
            Err(e) => return Err(e),
        };
        let kitty = Kitty { name, dna: random_kitty_dna(&signer, &seed) };
        if let Err(e) = paid {
            self.next_kitty_id = kitty_id;
            return Err(DispatchError::Currency(e));
        }
        self.kitties.insert(kitty_id, kitty);
        self.kitty_owner.insert(kitty_id, signer);
        self.events.push(Event::KittyCreated { account: signer, kitty_id, kitty });
        proof {
            let post = old(self)@.create_kitty(origin, name, seed, paid).0;
            assert(self@.kitties =~= post.kitties);
            assert(self@.events =~= post.events);
        }
        Ok(())
    }

    /// The payment `bred_kitty` needs, or the error it fails with before paying.
    pub fn bred_kitty_payment(&self, origin: Origin, parent_id_1: KittyId, parent_id_2: KittyId) -> (r:
        Result<Payment, DispatchError>)
        ensures
            r == self@.bred_kitty_payment(origin, parent_id_1, parent_id_2),
    {
        let signer = match ensure_signed(origin) {
            Ok(who) => who,
            Err(_) => return Err(DispatchError::BadOrigin),
        };
        if parent_id_1 == parent_id_2 {
            return Err(DispatchError::Module(Error::SameParentKittyId));
        }
        if !self.kitties.contains_key(&parent_id_1) || !self.kitties.contains_key(&parent_id_2) {
            return Err(DispatchError::Module(Error::KittyNotExist));
        }
        if self.next_kitty_id == u32::MAX {
            return Err(DispatchError::Module(Error::KittyIdOverflow));
        }
        Ok(Payment { from: signer, to: self.get_pallet_account_id(), amount: self.config.kitty_price })
    }

    /// The signer gets a new kitty named `name`, bred from kitties `parent_id_1` and
    /// `parent_id_2`, once `paid` says the payment `bred_kitty_payment` asked for went through.
    pub fn bred_kitty(
        &mut self,
        origin: Origin,
        parent_id_1: KittyId,
        parent_id_2: KittyId,
        name: KittyName,
        seed: DnaSeed,
        paid: Result<(), CurrencyError>,
    ) -> (r: Result<(), DispatchError>)
        ensures
            (final(self)@, r) == old(self)@.bred_kitty(
                origin,
                parent_id_1,
                parent_id_2,
                name,
                seed,
                paid,
            ),
            r is Ok <==> old(self)@.bred_kitty_payment(origin, parent_id_1, parent_id_2) is Ok
                && paid is Ok,
            r is Err ==> final(self)@ == old(self)@,
            r is Ok ==> final(self)@.kitty_parents[old(self)@.next_kitty_id] == (
                parent_id_1,
                parent_id_2,
            ),
            old(self)@.wf() ==> final(self)@.wf(),
            r is Ok ==> final(self)@.kitties == old(self)@.kitties.insert(
                old(self)@.next_kitty_id,
                KittyView {
                    name: name@,
                    dna: mixed_dna(
                        old(self)@.kitties[parent_id_1].dna,
                        old(self)@.kitties[parent_id_2].dna,
                        random_dna(signer_of(origin)->0, seed),
                    ),
                },
            ),
            r is Ok ==> final(self)@.kitty_owner == old(self)@.kitty_owner.insert(
                old(self)@.next_kitty_id,
                signer_of(origin)->0,
            ),
            r is Ok ==> final(self)@.kitty_parents == old(self)@.kitty_parents.insert(
                old(self)@.next_kitty_id,
                (parent_id_1, parent_id_2),
            ) && final(self)@.kitty_on_sale == old(self)@.kitty_on_sale,
    {
        let signer = match ensure_signed(origin) {
            Ok(who) => who,
            Err(_) => return Err(DispatchError::BadOrigin),
        };
        if parent_id_1 == parent_id_2 {
            return Err(DispatchError::Module(Error::SameParentKittyId));
        }
        let parent_1 = match self.kitties.get(&parent_id_1) {
            Some(k) => *k,
            None => return Err(DispatchError::Module(Error::KittyNotExist)),
        };
        let parent_2 = match self.kitties.get(&parent_id_2) {
            Some(k) => *k,
            None => return Err(DispatchError::Module(Error::KittyNotExist)),
        };
        let kitty_id = match self.generate_next_kitty_id() {
            Ok(id) => id,
            Err(e) => return Err(e),
        };
        let kitty = Kitty { name, dna: child_kitty_dna(&signer, &seed, &parent_1, &parent_2) };
        if let Err(e) = paid {
            self.next_kitty_id = kitty_id;
            return Err(DispatchError::Currency(e));
        }
        self.kitties.insert(kitty_id, kitty);
        self.kitty_owner.insert(kitty_id, signer);
        self.kitty_parents.insert(kitty_id, (parent_id_1, parent_id_2));
        self.events.push(Event::KittyBred { account: signer, kitty_id, kitty });
        proof {
            let post = old(self)@.bred_kitty(
                origin,
                parent_id_1,
                parent_id_2,
                name,
                seed,
                paid,
            ).0;
            assert(self@.kitties =~= post.kitties);
            assert(self@.events =~= post.events);
        }
        Ok(())
    }

    /// The owner of kitty `kitty_id` hands it to `recipient`.
    pub fn transfer_kitty(&mut self, origin: Origin, recipient: AccountId, kitty_id: KittyId) -> (r:
        Result<(), DispatchError>)
        ensures
            (final(self)@, r) == old(self)@.transfer_kitty(origin, recipient, kitty_id),
            r is Ok <==> signer_of(origin) is Some && old(self)@.kitty_owner.contains_key(kitty_id)
                && old(self)@.kitty_owner[kitty_id] == signer_of(origin)->0 && recipient
                != signer_of(origin)->0,
            r is Err ==> final(self)@ == old(self)@,
            r is Ok ==> final(self)@.kitty_owner[kitty_id] == recipient,
            old(self)@.wf() ==> final(self)@.wf(),
            r is Ok ==> final(self)@.kitty_owner == old(self)@.kitty_owner.insert(kitty_id, recipient)
                && final(self)@.kitties == old(self)@.kitties && final(self)@.kitty_parents
                == old(self)@.kitty_parents && final(self)@.kitty_on_sale == old(self)@.kitty_on_sale
                && final(self)@.next_kitty_id == old(self)@.next_kitty_id,
    {
        let signer = match ensure_signed(origin) {
            Ok(who) => who,
            Err(_) => return Err(DispatchError::BadOrigin),
        };
        let owner = match self.kitty_owner.get(&kitty_id) {
            Some(o) => *o,
            None => return Err(DispatchError::Module(Error::KittyNotExist)),
        };
        if signer != owner {
            return Err(DispatchError::Module(Error::NotKittyOwner));
        }
        if signer == recipient {
            return Err(DispatchError::Module(Error::TransferKittyToOwner));
        }
        self.kitty_owner.insert(kitty_id, recipient);
        self.events.push(Event::KittyTransferred { sender: signer, recipient, kitty_id });
        proof {
            let post = old(self)@.transfer_kitty(origin, recipient, kitty_id).0;
            assert(self@.events =~= post.events);
        }
        Ok(())
    }

    /// The owner of kitty `kitty_id` puts it on sale.
    pub fn sale_kitty(&mut self, origin: Origin, kitty_id: KittyId) -> (r: Result<(), DispatchError>)
        ensures
            (final(self)@, r) == old(self)@.sale_kitty(origin, kitty_id),
            r is Ok <==> signer_of(origin) is Some && old(self)@.kitty_owner.contains_key(kitty_id)
                && old(self)@.kitty_owner[kitty_id] == signer_of(origin)->0
                && !old(self)@.kitty_on_sale.contains(kitty_id),
            r is Err ==> final(self)@ == old(self)@,
            r is Ok ==> final(self)@.kitty_on_sale.contains(kitty_id),
            old(self)@.wf() ==> final(self)@.wf(),
            r is Ok ==> final(self)@.kitty_on_sale == old(self)@.kitty_on_sale.insert(kitty_id)
                && final(self)@.kitties == old(self)@.kitties && final(self)@.kitty_owner
                == old(self)@.kitty_owner && final(self)@.kitty_parents == old(self)@.kitty_parents
                && final(self)@.next_kitty_id == old(self)@.next_kitty_id,
    {
        let signer = match ensure_signed(origin) {
            Ok(who) => who,
            Err(_) => return Err(DispatchError::BadOrigin),
        };
        let owner = match self.kitty_owner.get(&kitty_id) {
            Some(o) => *o,
            None => return Err(DispatchError::Module(Error::KittyNotExist)),
        };
        if signer != owner {
            return Err(DispatchError::Module(Error::NotKittyOwner));
        }
        if self.kitty_on_sale.contains(&kitty_id) {
            return Err(DispatchError::Module(Error::KittyAlreadyOnSale));
        }
        self.kitty_on_sale.insert(kitty_id);
        self.events.push(Event::KittyOnSale { account: signer, kitty_id });
        proof {
            let post = old(self)@.sale_kitty(origin, kitty_id).0;
            assert(self@.events =~= post.events);
        }
        Ok(())
    }

    /// The payment `buy_kitty` needs, or the error it fails with before paying.
    pub fn buy_kitty_payment(&self, origin: Origin, kitty_id: KittyId) -> (r: Result<
        Payment,
        DispatchError,
    >)
        ensures
            r == self@.buy_kitty_payment(origin, kitty_id),
    {
        let signer = match ensure_signed(origin) {
            Ok(who) => who,
            Err(_) => return Err(DispatchError::BadOrigin),
        };
        let owner = match self.kitty_owner.get(&kitty_id) {
            Some(o) => *o,
            None => return Err(DispatchError::Module(Error::KittyNotExist)),
        };
        if signer == owner {
            return Err(DispatchError::Module(Error::KittyAlreadyOwned));
        }
        if !self.kitty_on_sale.contains(&kitty_id) {
            return Err(DispatchError::Module(Error::KittyNotOnSale));
        }
        Ok(Payment { from: signer, to: owner, amount: self.config.kitty_price })
    }

    /// The signer becomes the owner of kitty `kitty_id`, which is on sale, once `paid`
    /// says the payment `buy_kitty_payment` asked for went through.
    pub fn buy_kitty(&mut self, origin: Origin, kitty_id: KittyId, paid: Result<(), CurrencyError>) -> (r:
        Result<(), DispatchError>)
        ensures
            (final(self)@, r) == old(self)@.buy_kitty(origin, kitty_id, paid),
            r is Ok <==> old(self)@.buy_kitty_payment(origin, kitty_id) is Ok && paid is Ok,
            r is Err ==> final(self)@ == old(self)@,
            r is Ok ==> final(self)@.kitty_owner[kitty_id] == signer_of(origin)->0
                && !final(self)@.kitty_on_sale.contains(kitty_id),
            old(self)@.wf() ==> final(self)@.wf(),
            r is Ok ==> final(self)@.kitty_owner == old(self)@.kitty_owner.insert(
                kitty_id,
                signer_of(origin)->0,
            ) && final(self)@.kitty_on_sale == old(self)@.kitty_on_sale.remove(kitty_id)
                && final(self)@.kitties == old(self)@.kitties && final(self)@.kitty_parents
                == old(self)@.kitty_parents && final(self)@.next_kitty_id == old(self)@.next_kitty_id,
    {
        let signer = match ensure_signed(origin) {
            Ok(who) => who,
            Err(_) => return Err(DispatchError::BadOrigin),
        };
        let owner = match self.kitty_owner.get(&kitty_id) {
            Some(o) => *o,
            None => return Err(DispatchError::Module(Error::KittyNotExist)),
        };
        if signer == owner {
            return Err(DispatchError::Module(Error::KittyAlreadyOwned));
        }
        if !self.kitty_on_sale.contains(&kitty_id) {
            return Err(DispatchError::Module(Error::KittyNotOnSale));
        }
        if let Err(e) = paid {
            return Err(DispatchError::Currency(e));
        }
        self.kitty_owner.insert(kitty_id, signer);
        self.kitty_on_sale.remove(&kitty_id);
        self.events.push(Event::KittyBought { buyer: signer, kitty_id });
        proof {
            let post = old(self)@.buy_kitty(origin, kitty_id, paid).0;
            assert(self@.events =~= post.events);
        }
        Ok(())
    }

    /// Migrates the stored kitties from the layout `legacy` is in, when the storage
    /// version on chain is an earlier one, and records the current version. Returns the
    /// weight the upgrade used, counted as zero.
    pub fn on_runtime_upgrade(&mut self, legacy: &LegacyKitties) -> (weight: Weight)
        requires
            old(self)@.storage_version == storage::v1::STORAGE_VERSION ==> legacy is V1,
            old(self)@.storage_version == storage::v0::STORAGE_VERSION ==> legacy is V0,
        ensures
            weight == (Weight { ref_time: 0, proof_size: 0 }),
            old(self)@.runtime_upgrade(*legacy, final(self)@),
            old(self)@.storage_version == storage::v1::STORAGE_VERSION ==> holds_migrated(
                final(self)@.kitties,
                legacy->V1_0@,
                |k: storage::v1::Kitty| storage::migrated_v1(k),
            ),
            old(self)@.storage_version == storage::v0::STORAGE_VERSION ==> holds_migrated(
                final(self)@.kitties,
                legacy->V0_0@,
                |k: storage::v0::Kitty| storage::migrated_v0(k),
            ),
            final(self)@.kitty_owner == old(self)@.kitty_owner && final(self)@.kitty_parents
                == old(self)@.kitty_parents && final(self)@.kitty_on_sale == old(self)@.kitty_on_sale
                && final(self)@.next_kitty_id == old(self)@.next_kitty_id && final(self)@.events
                == old(self)@.events,
            old(self)@.storage_version != storage::v0::STORAGE_VERSION
                && old(self)@.storage_version != storage::v1::STORAGE_VERSION ==> final(self)@
                == old(self)@,
            old(self)@.storage_version == storage::v1::STORAGE_VERSION ==> exists|
                migrated: Seq<(KittyId, Kitty)>,
            |
                storage::migrated_all_v1(legacy->V1_0@, migrated) && final(self)@ == (PalletModel {
                    storage_version: storage::current_version::STORAGE_VERSION,
                    kitties: entries_map(migrated),
                    ..old(self)@
                }),
            final(self)@.storage_version != storage::v0::STORAGE_VERSION
                && final(self)@.storage_version != storage::v1::STORAGE_VERSION,
            old(self)@.storage_version == storage::v0::STORAGE_VERSION ==> exists|
                migrated: Seq<(KittyId, Kitty)>,
            |
                storage::migrated_all_v0(legacy->V0_0@, migrated) && final(self)@ == (PalletModel {
                    storage_version: storage::current_version::STORAGE_VERSION,
                    kitties: entries_map(migrated),
                    ..old(self)@
                }),
    {
        match upgrade_storage(self.storage_version, legacy) {
            Some(migrated) => {
                let mut kitties: HashMap<KittyId, Kitty> = HashMap::new();
                let mut i: usize = 0;
                while i < migrated.len()
                    invariant
                        i <= migrated@.len(),
                        kitties@.map_values(|k: Kitty| k@) == entries_map(migrated@.take(i as int)),
                    decreases migrated@.len() - i,
                {
                    let (kitty_id, kitty) = migrated[i];
                    kitties.insert(kitty_id, kitty);
                    proof {
                        let t = migrated@.take(i as int + 1);
                        assert(t.drop_last() =~= migrated@.take(i as int));
                        assert(kitties@.map_values(|k: Kitty| k@) =~= entries_map(t));
                    }
                    i = i + 1;
                }
                assert(migrated@.take(migrated@.len() as int) =~= migrated@);
                self.kitties = kitties;
                self.storage_version = storage::current_version::STORAGE_VERSION;
                proof {
                    let post = PalletModel {
                        storage_version: storage::current_version::STORAGE_VERSION,
                        kitties: entries_map(migrated@),
                        ..old(self)@
                    };
                    assert(self@ == post);
                    law_entries_map_keeps_every_entry(migrated@);
                    let m = migrated@;
                    if old(self)@.storage_version == storage::v1::STORAGE_VERSION {
                        let l = legacy->V1_0@;
                        assert(storage::migrated_all_v1(l, m));
                        assert forall|i: int| 0 <= i < l.len() implies self@.kitties.contains_key(
                            #[trigger] l[i].0,
                        ) by {
                            assert(m[i].0 == l[i].0);
                        }
                        assert forall|k: KittyId| #[trigger]
                            self@.kitties.contains_key(k) implies exists|i: int|
                            0 <= i < l.len() && l[i].0 == k by {
                            let i = choose|i: int| 0 <= i < m.len() && m[i].0 == k;
                            assert(l[i].0 == k);
                        }
                        assert forall|i: int|
                            0 <= i < l.len() && is_last_for_id(l, i) implies self@.kitties[
                            #[trigger] l[i].0] == storage::migrated_v1(l[i].1) by {
                            assert(m[i].0 == l[i].0);
                            assert forall|j: int| i < j < m.len() implies #[trigger] m[j].0 != m[i].0 by {
                                assert(m[j].0 == l[j].0);
                            }
                        }
                    }
                    if old(self)@.storage_version == storage::v0::STORAGE_VERSION {
                        let l = legacy->V0_0@;
                        assert(storage::migrated_all_v0(l, m));
                        assert forall|i: int| 0 <= i < l.len() implies self@.kitties.contains_key(
                            #[trigger] l[i].0,
                        ) by {
                            assert(m[i].0 == l[i].0);
                        }
                        assert forall|k: KittyId| #[trigger]
                            self@.kitties.contains_key(k) implies exists|i: int|
                            0 <= i < l.len() && l[i].0 == k by {
                            let i = choose|i: int| 0 <= i < m.len() && m[i].0 == k;
                            assert(l[i].0 == k);
                        }
                        assert forall|i: int|
                            0 <= i < l.len() && is_last_for_id(l, i) implies self@.kitties[
                            #[trigger] l[i].0] == storage::migrated_v0(l[i].1) by {
                            assert(m[i].0 == l[i].0);
                            assert forall|j: int| i < j < m.len() implies #[trigger] m[j].0 != m[i].0 by {
                                assert(m[j].0 == l[j].0);
                            }
                        }
                    }
                }
            },
            None => {},
        }
        Weight { ref_time: 0, proof_size: 0 }
    }
}

/// A new kitty never takes the identifier of an existing one: in a well-formed state
/// the identifier handed out by `create_kitty` or `bred_kitty` is free, and the next
/// identifier grows by exactly one.
pub proof fn law_kitty_ids_fresh(
    s: PalletModel,
    origin: Origin,
    parent_id_1: KittyId,
    parent_id_2: KittyId,
    name: KittyName,
    seed: DnaSeed,
    paid: Result<(), CurrencyError>,
)
    requires
        s.wf(),
    ensures
        s.create_kitty(origin, name, seed, paid).1 is Ok ==> !s.kitties.contains_key(s.next_kitty_id)
            && s.create_kitty(origin, name, seed, paid).0.next_kitty_id == s.next_kitty_id + 1,
        s.bred_kitty(origin, parent_id_1, parent_id_2, name, seed, paid).1 is Ok ==> !s.kitties.contains_key(
            s.next_kitty_id,
        ) && s.bred_kitty(origin, parent_id_1, parent_id_2, name, seed, paid).0.next_kitty_id
            == s.next_kitty_id + 1,
{
}

/// A kitty, once it exists, keeps its name and DNA through every call: creating and
/// breeding only add kitties under fresh identifiers, and the other calls change owners
/// and sale offers alone.
pub proof fn law_existing_kitties_unchanged(
    s: PalletModel,
    origin: Origin,
    parent_id_1: KittyId,
    parent_id_2: KittyId,
    recipient: AccountId,
    kitty_id: KittyId,
    name: KittyName,
    seed: DnaSeed,
    paid: Result<(), CurrencyError>,
    id: KittyId,
)
    requires
        s.wf(),
        s.kitties.contains_key(id),
    ensures
        s.create_kitty(origin, name, seed, paid).0.kitties.contains_key(id),
        s.create_kitty(origin, name, seed, paid).0.kitties[id] == s.kitties[id],
        s.bred_kitty(origin, parent_id_1, parent_id_2, name, seed, paid).0.kitties.contains_key(id),
        s.bred_kitty(origin, parent_id_1, parent_id_2, name, seed, paid).0.kitties[id] == s.kitties[id],
        s.transfer_kitty(origin, recipient, kitty_id).0.kitties == s.kitties,
        s.sale_kitty(origin, kitty_id).0.kitties == s.kitties,
        s.buy_kitty(origin, kitty_id, paid).0.kitties == s.kitties,
{
}

/// Upgrading twice is upgrading once: after a first upgrade the storage version is the
/// current one, so a second upgrade, whatever it is given, changes nothing.
pub proof fn law_upgrade_idempotent(
    s1: PalletModel,
    s2: PalletModel,
    s3: PalletModel,
    legacy_1: LegacyKitties,
    legacy_2: LegacyKitties,
)
    requires
        s1.runtime_upgrade(legacy_1, s2),
        s2.runtime_upgrade(legacy_2, s3),
    ensures
        s3 == s2,
{
}

/// A created kitty carries the name its creator gave and the DNA hashed from the
/// creator's account and the chain's randomness, under the identifier that was next;
/// the creator owns it, and no other kitty, owner, parent record or sale offer changes.
pub proof fn law_create_kitty_content(
    s: PalletModel,
    who: AccountId,
    name: KittyName,
    seed: DnaSeed,
    id: KittyId,
)
    requires
        s.create_kitty(Origin::Signed(who), name, seed, Ok(())).1 is Ok,
    ensures
        ({
            let t = s.create_kitty(Origin::Signed(who), name, seed, Ok(())).0;
            &&& t.kitties.contains_key(s.next_kitty_id)
            &&& t.kitties[s.next_kitty_id].name == name@
            &&& t.kitties[s.next_kitty_id].dna == blake2_128_digest(dna_payload(who, seed))
            &&& t.kitty_owner[s.next_kitty_id] == who
            &&& id != s.next_kitty_id ==> t.kitties.contains_key(id) == s.kitties.contains_key(id)
                && t.kitties[id] == s.kitties[id] && t.kitty_owner.contains_key(id)
                == s.kitty_owner.contains_key(id) && t.kitty_owner[id] == s.kitty_owner[id]
            &&& t.kitty_parents == s.kitty_parents
            &&& t.kitty_on_sale == s.kitty_on_sale
        }),
{
}

/// A bred kitty carries the name its breeder gave; each bit of its DNA is the same bit
/// of the first parent where the breeder's random selector has a 1 and of the second
/// parent where it has a 0; its parents are recorded, the breeder owns it, and the
/// parents themselves keep their names and DNA.
pub proof fn law_bred_kitty_content(
    s: PalletModel,
    who: AccountId,
    parent_id_1: KittyId,
    parent_id_2: KittyId,
    name: KittyName,
    seed: DnaSeed,
    i: int,
)
    requires
        s.wf(),
        s.bred_kitty(Origin::Signed(who), parent_id_1, parent_id_2, name, seed, Ok(())).1 is Ok,
        0 <= i < 16,
    ensures
        ({
            let t = s.bred_kitty(Origin::Signed(who), parent_id_1, parent_id_2, name, seed, Ok(())).0;
            let sel = blake2_128_digest(dna_payload(who, seed));
            &&& t.kitties.contains_key(s.next_kitty_id)
            &&& t.kitties[s.next_kitty_id].name == name@
            &&& t.kitties[s.next_kitty_id].dna.len() == 16
            &&& t.kitties[s.next_kitty_id].dna[i] == (s.kitties[parent_id_1].dna[i] & sel[i]) | (
            s.kitties[parent_id_2].dna[i] & !sel[i])
            &&& t.kitty_parents[s.next_kitty_id] == (parent_id_1, parent_id_2)
            &&& t.kitty_owner[s.next_kitty_id] == who
            &&& t.kitties[parent_id_1] == s.kitties[parent_id_1]
            &&& t.kitties[parent_id_2] == s.kitties[parent_id_2]
        }),
{
}

/// The next kitty identifier never decreases: every call leaves it as it was or, when
/// a kitty is created or bred, one higher.
pub proof fn law_next_kitty_id_monotonic(
    s: PalletModel,
    origin: Origin,
    parent_id_1: KittyId,
    parent_id_2: KittyId,
    recipient: AccountId,
    kitty_id: KittyId,
    name: KittyName,
    seed: DnaSeed,
    paid: Result<(), CurrencyError>,
)
    ensures
        s.create_kitty(origin, name, seed, paid).0.next_kitty_id >= s.next_kitty_id,
        s.bred_kitty(origin, parent_id_1, parent_id_2, name, seed, paid).0.next_kitty_id
            >= s.next_kitty_id,
        s.transfer_kitty(origin, recipient, kitty_id).0.next_kitty_id == s.next_kitty_id,
        s.sale_kitty(origin, kitty_id).0.next_kitty_id == s.next_kitty_id,
        s.buy_kitty(origin, kitty_id, paid).0.next_kitty_id == s.next_kitty_id,
{
}

/// Handing a kitty over changes its owner and nothing else of the stored kitties:
/// names, DNA, parents and sale offers stay as they were.
pub proof fn law_transfer_changes_only_owner(
    s: PalletModel,
    origin: Origin,
    recipient: AccountId,
    kitty_id: KittyId,
)
    ensures
        s.transfer_kitty(origin, recipient, kitty_id).0.kitties == s.kitties,
        s.transfer_kitty(origin, recipient, kitty_id).0.kitty_parents == s.kitty_parents,
        s.transfer_kitty(origin, recipient, kitty_id).0.kitty_on_sale == s.kitty_on_sale,
        s.transfer_kitty(origin, recipient, kitty_id).0.kitty_owner.dom() == s.kitty_owner.dom(),
{
    if s.transfer_kitty(origin, recipient, kitty_id).1 is Ok {
        assert(s.transfer_kitty(origin, recipient, kitty_id).0.kitty_owner.dom() =~= s.kitty_owner.dom());
    }
}

/// Once its owner has put a kitty on sale, any other account whose payment goes through
/// buys it: the payment goes to the owner, the buyer becomes the owner and the kitty is
/// no longer on sale.
pub proof fn law_sale_then_buy(s: PalletModel, owner: AccountId, buyer: AccountId, kitty_id: KittyId)
    requires
        s.sale_kitty(Origin::Signed(owner), kitty_id).1 is Ok,
        buyer != owner,
    ensures
        s.sale_kitty(Origin::Signed(owner), kitty_id).0.buy_kitty_payment(
            Origin::Signed(buyer),
            kitty_id,
        ) == Ok::<Payment, DispatchError>(
            Payment { from: buyer, to: owner, amount: s.kitty_price },
        ),
        s.sale_kitty(Origin::Signed(owner), kitty_id).0.buy_kitty(
            Origin::Signed(buyer),
            kitty_id,
            Ok(()),
        ).1 is Ok,
        s.sale_kitty(Origin::Signed(owner), kitty_id).0.buy_kitty(
            Origin::Signed(buyer),
            kitty_id,
            Ok(()),
        ).0.kitty_owner[kitty_id] == buyer,
        !s.sale_kitty(Origin::Signed(owner), kitty_id).0.buy_kitty(
            Origin::Signed(buyer),
            kitty_id,
            Ok(()),
        ).0.kitty_on_sale.contains(kitty_id),
{
}

/// Breeding two kitties of the same DNA gives a kitty of that DNA, whatever the selector.
pub proof fn law_child_of_equal_parents(a: Seq<u8>, selector: Seq<u8>)
    requires
        a.len() == 16,
    ensures
        mixed_dna(a, a, selector) == a,
{
    assert forall|i: int| 0 <= i < 16 implies #[trigger] mixed_dna(a, a, selector)[i] == a[i] by {
        let x = a[i];
        let y = selector[i];
        assert((x & y) | (x & !y) == x) by (bit_vector);
    }
    assert(mixed_dna(a, a, selector) =~= a);
}

/// Every bit of a child's DNA is the same bit of one of its parents: where the parents
/// agree the child agrees with both.
pub proof fn law_child_bits_from_parents(a: Seq<u8>, b: Seq<u8>, selector: Seq<u8>, i: int)
    requires
        a.len() == 16,
        b.len() == 16,
        selector.len() == 16,
        0 <= i < 16,
    ensures
        (mixed_dna(a, b, selector)[i] ^ a[i]) & (mixed_dna(a, b, selector)[i] ^ b[i]) == 0,
{
    let x = a[i];
    let y = b[i];
    let z = selector[i];
    assert((((x & z) | (y & !z)) ^ x) & (((x & z) | (y & !z)) ^ y) == 0) by (bit_vector);
}

} // verus!
