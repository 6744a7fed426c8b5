use substrate_pallets::erc20::{Approval, Erc20, Error, Event, Transfer};

const ALICE: u64 = 1;
const BOB: u64 = 2;
const CHARLIE: u64 = 3;

#[test]
fn new_gives_the_supply_to_the_creator() {
    let token = Erc20::new(ALICE, 1_000);
    assert_eq!(token.total_supply(), 1_000);
    assert_eq!(token.balance_of(ALICE), 1_000);
    assert_eq!(token.balance_of(BOB), 0);
    assert_eq!(token.allowance(ALICE, BOB), 0);
    assert!(token.events().is_empty());
}

#[test]
fn transfer_moves_tokens() {
    let mut token = Erc20::new(ALICE, 1_000);
    assert_eq!(token.transfer(ALICE, BOB, 300), Ok(()));
    assert_eq!(token.balance_of(ALICE), 700);
    assert_eq!(token.balance_of(BOB), 300);
    assert_eq!(token.total_supply(), 1_000);
    assert_eq!(token.events(), &vec![Event::Transfer(Transfer { from: ALICE, to: BOB, value: 300 })]);
}

#[test]
fn transfer_beyond_balance_fails() {
    let mut token = Erc20::new(ALICE, 1_000);
    assert_eq!(token.transfer(BOB, ALICE, 1), Err(Error::InsufficientBalance));
    assert_eq!(token.transfer(ALICE, BOB, 1_001), Err(Error::InsufficientBalance));
    assert_eq!(token.balance_of(ALICE), 1_000);
    assert_eq!(token.balance_of(BOB), 0);
    assert!(token.events().is_empty());
}

#[test]
fn transfer_to_self_adds_the_value() {
    let mut token = Erc20::new(ALICE, 1_000);
    assert_eq!(token.transfer(ALICE, ALICE, 400), Ok(()));
    assert_eq!(token.balance_of(ALICE), 1_400);
    assert_eq!(token.total_supply(), 1_000);
}

#[test]
fn approve_sets_the_allowance() {
    let mut token = Erc20::new(ALICE, 1_000);
    assert_eq!(token.approve(ALICE, BOB, 50), Ok(()));
    assert_eq!(token.allowance(ALICE, BOB), 50);
    assert_eq!(token.allowance(BOB, ALICE), 0);
    assert_eq!(token.approve(ALICE, BOB, 20), Ok(()));
    assert_eq!(token.allowance(ALICE, BOB), 20);
    assert_eq!(
        token.events().last(),
        Some(&Event::Approval(Approval { owner: ALICE, spender: BOB, value: 20 }))
    );
}

#[test]
fn transfer_from_spends_the_allowance() {
    let mut token = Erc20::new(ALICE, 1_000);
    assert_eq!(token.transfer_from(BOB, ALICE, CHARLIE, 10), Err(Error::InsufficientAllowance));
    assert_eq!(token.approve(ALICE, BOB, 100), Ok(()));
    assert_eq!(token.transfer_from(BOB, ALICE, CHARLIE, 60), Ok(()));
    assert_eq!(token.allowance(ALICE, BOB), 40);
    assert_eq!(token.balance_of(ALICE), 940);
    assert_eq!(token.balance_of(CHARLIE), 60);
    assert_eq!(token.transfer_from(BOB, ALICE, CHARLIE, 41), Err(Error::InsufficientAllowance));
    assert_eq!(token.allowance(ALICE, BOB), 40);
}

#[test]
fn transfer_from_without_funds_keeps_the_allowance() {
    let mut token = Erc20::new(ALICE, 10);
    assert_eq!(token.approve(ALICE, BOB, 100), Ok(()));
    assert_eq!(token.transfer_from(BOB, ALICE, CHARLIE, 50), Err(Error::InsufficientBalance));
    assert_eq!(token.allowance(ALICE, BOB), 100);
    assert_eq!(token.balance_of(ALICE), 10);
}

#[test]
fn allowances_of_large_accounts_stay_apart() {
    let mut token = Erc20::new(u64::MAX, 5);
    assert_eq!(token.approve(u64::MAX, 0, 7), Ok(()));
    assert_eq!(token.allowance(u64::MAX, 0), 7);
    assert_eq!(token.allowance(0, u64::MAX), 0);
    assert_eq!(token.allowance(u64::MAX - 1, 0), 0);
}
