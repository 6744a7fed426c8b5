use std::collections::HashMap;

use substrate_pallets::dispatch::{AccountId, Balance, Origin};
use substrate_pallets::kitties::storage::{from_name_v1, from_v0, from_v1, upgrade_storage, v0, v1, LegacyKitties};
use substrate_pallets::kitties::{
    child_kitty_dna, random_kitty_dna, Config, CurrencyError, DispatchError, DnaSeed, Error, Event,
    Kitty, KittyId, KittyName, Pallet, Payment,
};

const ACCOUNT_ID_1: AccountId = 1;
const ACCOUNT_ID_2: AccountId = 2;
const PALLET_ID: [u8; 8] = *b"py/kitty";
const PALLET_ACCOUNT: AccountId = u64::from_le_bytes(*b"modlpy/k");
const KITTY_ID_0: KittyId = 0;
const KITTY_NAME: KittyName = *b"12345678";
const EXISTENTIAL_DEPOSIT: Balance = 500;
const KITTY_PRICE: Balance = EXISTENTIAL_DEPOSIT * 1000;

/// Free balances, paid out as a currency with an existential deposit does when the payer
/// must stay alive.
struct Balances {
    free: HashMap<AccountId, Balance>,
}

impl Balances {
    fn new() -> Self {
        Balances { free: HashMap::new() }
    }

    fn set_balance(&mut self, who: AccountId, amount: Balance) {
        self.free.insert(who, amount);
    }

    fn free_balance(&self, who: AccountId) -> Balance {
        *self.free.get(&who).unwrap_or(&0)
    }

    fn transfer(&mut self, payment: Payment) -> Result<(), CurrencyError> {
        let from = self.free_balance(payment.from);
        if from < payment.amount {
            return Err(CurrencyError::InsufficientBalance);
        }
        if from - payment.amount < EXISTENTIAL_DEPOSIT {
            return Err(CurrencyError::KeepAlive);
        }
        let to = self.free_balance(payment.to);
        if to + payment.amount < EXISTENTIAL_DEPOSIT {
            return Err(CurrencyError::ExistentialDeposit);
        }
        self.free.insert(payment.from, from - payment.amount);
        self.free.insert(payment.to, to + payment.amount);
        Ok(())
    }
}

fn seed() -> DnaSeed {
    DnaSeed { random_seed: ([7; 32], 3), extrinsic_index: None }
}

fn new_pallet() -> Pallet {
    Pallet::new(Config { pallet_id: PALLET_ID, kitty_price: KITTY_PRICE })
}

fn pay(balances: &mut Balances, plan: Result<Payment, DispatchError>) -> Result<(), CurrencyError> {
    match plan {
        Ok(payment) => balances.transfer(payment),
        Err(_) => Ok(()),
    }
}

fn do_create_kitty(p: &mut Pallet, b: &mut Balances, origin: Origin, name: KittyName) -> Result<(), DispatchError> {
    let paid = pay(b, p.create_kitty_payment(origin));
    p.create_kitty(origin, name, seed(), paid)
}

fn do_bred_kitty(
    p: &mut Pallet,
    b: &mut Balances,
    origin: Origin,
    parent_1: KittyId,
    parent_2: KittyId,
    name: KittyName,
) -> Result<(), DispatchError> {
    let paid = pay(b, p.bred_kitty_payment(origin, parent_1, parent_2));
    p.bred_kitty(origin, parent_1, parent_2, name, seed(), paid)
}

fn do_buy_kitty(p: &mut Pallet, b: &mut Balances, origin: Origin, kitty_id: KittyId) -> Result<(), DispatchError> {
    let paid = pay(b, p.buy_kitty_payment(origin, kitty_id));
    p.buy_kitty(origin, kitty_id, paid)
}

fn last_event(p: &Pallet) -> Option<Event> {
    p.events().last().copied()
}

fn module(e: Error) -> Result<(), DispatchError> {
    Err(DispatchError::Module(e))
}

#[test]
fn create_kitty() {
    let mut balances = Balances::new();
    balances.set_balance(ACCOUNT_ID_1, 10_000_000);
    let mut p = new_pallet();
    let signer = Origin::Signed(ACCOUNT_ID_1);

    assert_eq!(p.next_kitty_id(), KITTY_ID_0);

    assert_eq!(do_create_kitty(&mut p, &mut balances, signer, KITTY_NAME), Ok(()));
    assert_eq!(p.next_kitty_id(), KITTY_ID_0 + 1);
    assert_eq!(p.kitty_owner(KITTY_ID_0), Some(ACCOUNT_ID_1));
    assert_eq!(p.kitty_parents(KITTY_ID_0), None);
    let kitty = Kitty { name: KITTY_NAME, dna: random_kitty_dna(&ACCOUNT_ID_1, &seed()) };
    assert_eq!(p.kitties(KITTY_ID_0), Some(kitty));
    assert_eq!(
        last_event(&p),
        Some(Event::KittyCreated { account: ACCOUNT_ID_1, kitty_id: KITTY_ID_0, kitty })
    );

    p.set_next_kitty_id(KittyId::MAX);
    let events_before = p.events().len();
    let balance_before = balances.free_balance(ACCOUNT_ID_1);
    assert_eq!(do_create_kitty(&mut p, &mut balances, signer, KITTY_NAME), module(Error::KittyIdOverflow));
    assert_eq!(p.next_kitty_id(), KittyId::MAX);
    assert_eq!(p.events().len(), events_before);
    assert_eq!(balances.free_balance(ACCOUNT_ID_1), balance_before);
}

#[test]
fn bred_kitty() {
    let mut balances = Balances::new();
    balances.set_balance(ACCOUNT_ID_1, 10_000_000);
    let mut p = new_pallet();
    let signer = Origin::Signed(ACCOUNT_ID_1);

    let parent_id_0 = KITTY_ID_0;
    let parent_id_1 = KITTY_ID_0 + 1;
    let child_id = KITTY_ID_0 + 2;

    assert_eq!(
        do_bred_kitty(&mut p, &mut balances, signer, parent_id_0, parent_id_0, KITTY_NAME),
        module(Error::SameParentKittyId)
    );
    assert_eq!(
        do_bred_kitty(&mut p, &mut balances, signer, parent_id_0, parent_id_1, KITTY_NAME),
        module(Error::KittyNotExist)
    );
    assert_eq!(p.next_kitty_id(), KITTY_ID_0);

    assert_eq!(do_create_kitty(&mut p, &mut balances, signer, KITTY_NAME), Ok(()));
    assert_eq!(do_create_kitty(&mut p, &mut balances, signer, KITTY_NAME), Ok(()));
    assert_eq!(p.next_kitty_id(), child_id);
    let parent_1 = Kitty { name: KITTY_NAME, dna: random_kitty_dna(&ACCOUNT_ID_1, &seed()) };
    let parent_2 = Kitty { name: KITTY_NAME, dna: random_kitty_dna(&ACCOUNT_ID_1, &seed()) };

    assert_eq!(do_bred_kitty(&mut p, &mut balances, signer, parent_id_0, parent_id_1, KITTY_NAME), Ok(()));
    assert_eq!(p.next_kitty_id(), child_id + 1);
    assert_eq!(p.kitty_owner(child_id), Some(ACCOUNT_ID_1));
    assert_eq!(p.kitty_parents(child_id), Some((parent_id_0, parent_id_1)));
    let child = Kitty {
        name: KITTY_NAME,
        dna: child_kitty_dna(&ACCOUNT_ID_1, &seed(), &parent_1, &parent_2),
    };
    assert_eq!(p.kitties(child_id), Some(child));
    assert_eq!(
        last_event(&p),
        Some(Event::KittyBred { account: ACCOUNT_ID_1, kitty_id: child_id, kitty: child })
    );
}

#[test]
fn transfer_kitty() {
    let mut balances = Balances::new();
    balances.set_balance(ACCOUNT_ID_1, 10_000_000);
    balances.set_balance(ACCOUNT_ID_2, 10_000_000);
    let mut p = new_pallet();
    let signer = Origin::Signed(ACCOUNT_ID_1);
    let signer_2 = Origin::Signed(ACCOUNT_ID_2);

    assert_eq!(p.transfer_kitty(signer, ACCOUNT_ID_2, KITTY_ID_0), module(Error::KittyNotExist));

    assert_eq!(do_create_kitty(&mut p, &mut balances, signer, KITTY_NAME), Ok(()));
    assert_eq!(p.kitty_owner(KITTY_ID_0), Some(ACCOUNT_ID_1));

    assert_eq!(p.transfer_kitty(signer_2, ACCOUNT_ID_1, KITTY_ID_0), module(Error::NotKittyOwner));
    assert_eq!(
        p.transfer_kitty(signer, ACCOUNT_ID_1, KITTY_ID_0),
        module(Error::TransferKittyToOwner)
    );

    assert_eq!(p.transfer_kitty(signer, ACCOUNT_ID_2, KITTY_ID_0), Ok(()));
    assert_eq!(p.kitty_owner(KITTY_ID_0), Some(ACCOUNT_ID_2));
    assert_eq!(
        last_event(&p),
        Some(Event::KittyTransferred {
            sender: ACCOUNT_ID_1,
            recipient: ACCOUNT_ID_2,
            kitty_id: KITTY_ID_0,
        })
    );

    assert_eq!(p.transfer_kitty(signer_2, ACCOUNT_ID_1, KITTY_ID_0), Ok(()));
    assert_eq!(p.kitty_owner(KITTY_ID_0), Some(ACCOUNT_ID_1));
    assert_eq!(
        last_event(&p),
        Some(Event::KittyTransferred {
            sender: ACCOUNT_ID_2,
            recipient: ACCOUNT_ID_1,
            kitty_id: KITTY_ID_0,
        })
    );
}

#[test]
fn sale_kitty() {
    let mut balances = Balances::new();
    balances.set_balance(ACCOUNT_ID_1, 10_000_000);
    let mut p = new_pallet();
    let signer = Origin::Signed(ACCOUNT_ID_1);
    let signer_2 = Origin::Signed(ACCOUNT_ID_2);

    assert_eq!(p.sale_kitty(signer, KITTY_ID_0), module(Error::KittyNotExist));

    assert_eq!(do_create_kitty(&mut p, &mut balances, signer, KITTY_NAME), Ok(()));
    assert_eq!(p.sale_kitty(signer_2, KITTY_ID_0), module(Error::NotKittyOwner));

    assert_eq!(p.sale_kitty(signer, KITTY_ID_0), Ok(()));
    assert_eq!(
        last_event(&p),
        Some(Event::KittyOnSale { account: ACCOUNT_ID_1, kitty_id: KITTY_ID_0 })
    );

    assert_eq!(p.sale_kitty(signer, KITTY_ID_0), module(Error::KittyAlreadyOnSale));
}

#[test]
fn buy_kitty() {
    let mut balances = Balances::new();
    balances.set_balance(ACCOUNT_ID_1, 10_000_000);
    balances.set_balance(ACCOUNT_ID_2, 10_000_000);
    let mut p = new_pallet();
    let signer = Origin::Signed(ACCOUNT_ID_1);
    let signer_2 = Origin::Signed(ACCOUNT_ID_2);

    assert_eq!(do_buy_kitty(&mut p, &mut balances, signer, KITTY_ID_0), module(Error::KittyNotExist));

    assert_eq!(do_create_kitty(&mut p, &mut balances, signer, KITTY_NAME), Ok(()));
    assert_eq!(
        do_buy_kitty(&mut p, &mut balances, signer, KITTY_ID_0),
        module(Error::KittyAlreadyOwned)
    );

    assert_eq!(
        do_buy_kitty(&mut p, &mut balances, signer_2, KITTY_ID_0),
        module(Error::KittyNotOnSale)
    );

    assert_eq!(p.sale_kitty(signer, KITTY_ID_0), Ok(()));
    assert_eq!(do_buy_kitty(&mut p, &mut balances, signer_2, KITTY_ID_0), Ok(()));
    assert_eq!(last_event(&p), Some(Event::KittyBought { buyer: ACCOUNT_ID_2, kitty_id: KITTY_ID_0 }));
}

#[test]
fn buying_pays_the_owner_and_ends_the_sale() {
    let mut balances = Balances::new();
    balances.set_balance(ACCOUNT_ID_1, 10_000_000);
    balances.set_balance(ACCOUNT_ID_2, 10_000_000);
    let mut p = new_pallet();
    let signer = Origin::Signed(ACCOUNT_ID_1);
    let signer_2 = Origin::Signed(ACCOUNT_ID_2);
    assert_eq!(do_create_kitty(&mut p, &mut balances, signer, KITTY_NAME), Ok(()));
    assert_eq!(balances.free_balance(PALLET_ACCOUNT), KITTY_PRICE);
    assert_eq!(p.sale_kitty(signer, KITTY_ID_0), Ok(()));
    assert_eq!(
        p.buy_kitty_payment(signer_2, KITTY_ID_0),
        Ok(Payment { from: ACCOUNT_ID_2, to: ACCOUNT_ID_1, amount: KITTY_PRICE })
    );
    assert_eq!(do_buy_kitty(&mut p, &mut balances, signer_2, KITTY_ID_0), Ok(()));
    assert_eq!(p.kitty_owner(KITTY_ID_0), Some(ACCOUNT_ID_2));
    assert_eq!(p.kitty_on_sale(KITTY_ID_0), None);
    assert_eq!(balances.free_balance(ACCOUNT_ID_1), 10_000_000);
    assert_eq!(balances.free_balance(ACCOUNT_ID_2), 10_000_000 - KITTY_PRICE);
}

#[test]
fn pallet_account_derives_from_its_identifier() {
    let p = new_pallet();
    assert_eq!(p.get_pallet_account_id(), PALLET_ACCOUNT);
    assert_eq!(
        p.create_kitty_payment(Origin::Signed(ACCOUNT_ID_1)),
        Ok(Payment { from: ACCOUNT_ID_1, to: PALLET_ACCOUNT, amount: KITTY_PRICE })
    );
}

#[test]
fn failed_payment_changes_nothing() {
    let mut balances = Balances::new();
    balances.set_balance(ACCOUNT_ID_1, KITTY_PRICE);
    let mut p = new_pallet();
    let signer = Origin::Signed(ACCOUNT_ID_1);
    assert_eq!(
        do_create_kitty(&mut p, &mut balances, signer, KITTY_NAME),
        Err(DispatchError::Currency(CurrencyError::KeepAlive))
    );
    assert_eq!(p.next_kitty_id(), KITTY_ID_0);
    assert_eq!(p.kitties(KITTY_ID_0), None);
    assert_eq!(p.events().len(), 0);
    assert_eq!(p.create_kitty(Origin::Root, KITTY_NAME, seed(), Ok(())), Err(DispatchError::BadOrigin));
}

#[test]
fn transfer_keeps_the_sale_offer() {
    let mut balances = Balances::new();
    balances.set_balance(ACCOUNT_ID_1, 10_000_000);
    let mut p = new_pallet();
    let signer = Origin::Signed(ACCOUNT_ID_1);
    assert_eq!(do_create_kitty(&mut p, &mut balances, signer, KITTY_NAME), Ok(()));
    assert_eq!(p.sale_kitty(signer, KITTY_ID_0), Ok(()));
    assert_eq!(p.transfer_kitty(signer, ACCOUNT_ID_2, KITTY_ID_0), Ok(()));
    assert_eq!(p.kitty_on_sale(KITTY_ID_0), Some(()));
}

#[test]
fn dna_depends_on_seed_and_account() {
    let a = random_kitty_dna(&ACCOUNT_ID_1, &seed());
    let b = random_kitty_dna(&ACCOUNT_ID_2, &seed());
    let c = random_kitty_dna(&ACCOUNT_ID_1, &DnaSeed { random_seed: ([7; 32], 3), extrinsic_index: Some(1) });
    assert_ne!(a, b);
    assert_ne!(a, c);
    let d = random_kitty_dna(&ACCOUNT_ID_1, &DnaSeed { random_seed: ([7; 32], 4), extrinsic_index: None });
    assert_ne!(a, d);
    let mut payload = vec![7u8; 32];
    payload.extend_from_slice(&3u32.to_le_bytes());
    payload.extend_from_slice(&ACCOUNT_ID_1.to_le_bytes());
    payload.push(0);
    assert_eq!(a, sp_io::hashing::blake2_128(&payload));
}

#[test]
fn child_of_equal_parents_keeps_their_dna() {
    let parent = Kitty { name: KITTY_NAME, dna: random_kitty_dna(&ACCOUNT_ID_2, &seed()) };
    assert_eq!(child_kitty_dna(&ACCOUNT_ID_1, &seed(), &parent, &parent), parent.dna);
}

#[test]
fn child_dna_takes_each_bit_from_a_parent() {
    let p1 = Kitty { name: KITTY_NAME, dna: [0xff; 16] };
    let p2 = Kitty { name: KITTY_NAME, dna: [0x00; 16] };
    let selector = random_kitty_dna(&ACCOUNT_ID_1, &seed());
    assert_eq!(child_kitty_dna(&ACCOUNT_ID_1, &seed(), &p1, &p2), selector);
    let child = child_kitty_dna(&ACCOUNT_ID_1, &seed(), &p2, &p1);
    for i in 0..16 {
        assert_eq!(child[i], !selector[i]);
    }
}

#[test]
fn migrate_names() {
    assert_eq!(&from_name_v1(b"abcd", b"5678"), b"abcd5678");
    let v1_kitties = vec![(3, v1::Kitty { name: *b"wxyz", dna: [9; 16] })];
    assert_eq!(from_v1(&v1_kitties), vec![(3, Kitty { name: *b"wxyz5678", dna: [9; 16] })]);
    let v0_kitties = vec![(4, v0::Kitty([5; 16])), (6, v0::Kitty([1; 16]))];
    assert_eq!(
        from_v0(&v0_kitties),
        vec![
            (4, Kitty { name: *b"12345678", dna: [5; 16] }),
            (6, Kitty { name: *b"12345678", dna: [1; 16] })
        ]
    );
}

#[test]
fn upgrade_from_the_first_layout() {
    let config = Config { pallet_id: PALLET_ID, kitty_price: KITTY_PRICE };
    let mut p = Pallet::at_storage_version(config, 0);
    let legacy = LegacyKitties::V0(vec![(5, v0::Kitty([8; 16])), (5, v0::Kitty([9; 16]))]);
    p.on_runtime_upgrade(&legacy);
    assert_eq!(p.on_chain_storage_version(), 2);
    assert_eq!(p.kitties(5), Some(Kitty { name: *b"12345678", dna: [9; 16] }));
}

#[test]
fn upgrade_runs_once() {
    let legacy = LegacyKitties::V1(vec![(0, v1::Kitty { name: *b"tom!", dna: [2; 16] })]);
    assert_eq!(upgrade_storage(2, &legacy), None);
    assert_eq!(
        upgrade_storage(1, &legacy),
        Some(vec![(0, Kitty { name: *b"tom!5678", dna: [2; 16] })])
    );
    let config = Config { pallet_id: PALLET_ID, kitty_price: KITTY_PRICE };
    let mut p = Pallet::at_storage_version(config, 1);
    let w = p.on_runtime_upgrade(&legacy);
    assert_eq!((w.ref_time, w.proof_size), (0, 0));
    assert_eq!(p.on_chain_storage_version(), 2);
    assert_eq!(p.kitties(0), Some(Kitty { name: *b"tom!5678", dna: [2; 16] }));
    let again = LegacyKitties::V1(vec![(1, v1::Kitty { name: *b"jerr", dna: [3; 16] })]);
    p.on_runtime_upgrade(&again);
    assert_eq!(p.kitties(1), None);
    assert_eq!(p.kitties(0), Some(Kitty { name: *b"tom!5678", dna: [2; 16] }));
}
