use substrate_pallets::dispatch::Origin;
use substrate_pallets::{lesson1_poe, poe};

const ALICE: u64 = 1;
const BOB: u64 = 2;

fn claim() -> Vec<u8> {
    b"hello".to_vec()
}

#[test]
fn create_claim_stores_owner_and_block() {
    let mut p = poe::Pallet::new(poe::Config { max_claim_length: 512 });
    assert_eq!(p.create_claim(Origin::Signed(ALICE), claim(), 7), Ok(()));
    assert_eq!(p.proofs(&claim()), Some((ALICE, 7)));
    assert_eq!(
        p.events(),
        &vec![poe::Event::ClaimCreated { account: ALICE, claim: claim() }]
    );
}

#[test]
fn create_claim_twice_fails() {
    let mut p = poe::Pallet::new(poe::Config { max_claim_length: 512 });
    assert_eq!(p.create_claim(Origin::Signed(ALICE), claim(), 7), Ok(()));
    assert_eq!(
        p.create_claim(Origin::Signed(BOB), claim(), 8),
        Err(poe::DispatchError::Module(poe::Error::ClaimAlreadyExist))
    );
    assert_eq!(p.proofs(&claim()), Some((ALICE, 7)));
    assert_eq!(p.create_claim(Origin::Root, b"other".to_vec(), 8), Err(poe::DispatchError::BadOrigin));
}

#[test]
fn revoke_claim_by_owner_only() {
    let mut p = poe::Pallet::new(poe::Config { max_claim_length: 512 });
    assert_eq!(
        p.revoke_claim(Origin::Signed(ALICE), claim()),
        Err(poe::DispatchError::Module(poe::Error::ClaimNotExist))
    );
    assert_eq!(p.create_claim(Origin::Signed(ALICE), claim(), 1), Ok(()));
    assert_eq!(
        p.revoke_claim(Origin::Signed(BOB), claim()),
        Err(poe::DispatchError::Module(poe::Error::NotClaimOwner))
    );
    assert_eq!(p.revoke_claim(Origin::Signed(ALICE), claim()), Ok(()));
    assert_eq!(p.proofs(&claim()), None);
    assert_eq!(
        p.events().last(),
        Some(&poe::Event::ClaimRevoked { account: ALICE, claim: claim() })
    );
}

#[test]
fn transfer_claim_hands_over() {
    let mut p = poe::Pallet::new(poe::Config { max_claim_length: 512 });
    assert_eq!(p.create_claim(Origin::Signed(ALICE), claim(), 1), Ok(()));
    assert_eq!(
        p.transfer_claim(Origin::Signed(BOB), ALICE, claim(), 2),
        Err(poe::DispatchError::Module(poe::Error::NotClaimOwner))
    );
    assert_eq!(
        p.transfer_claim(Origin::Signed(ALICE), ALICE, claim(), 2),
        Err(poe::DispatchError::Module(poe::Error::TransferToOwner))
    );
    assert_eq!(p.transfer_claim(Origin::Signed(ALICE), BOB, claim(), 3), Ok(()));
    assert_eq!(p.proofs(&claim()), Some((BOB, 3)));
    assert_eq!(
        p.revoke_claim(Origin::Signed(ALICE), claim()),
        Err(poe::DispatchError::Module(poe::Error::NotClaimOwner))
    );
    assert_eq!(p.revoke_claim(Origin::Signed(BOB), claim()), Ok(()));
}

#[test]
fn claims_are_kept_apart() {
    let mut p = poe::Pallet::new(poe::Config { max_claim_length: 512 });
    assert_eq!(p.create_claim(Origin::Signed(ALICE), b"a".to_vec(), 1), Ok(()));
    assert_eq!(p.create_claim(Origin::Signed(BOB), b"ab".to_vec(), 2), Ok(()));
    assert_eq!(p.create_claim(Origin::Signed(BOB), Vec::new(), 3), Ok(()));
    assert_eq!(p.revoke_claim(Origin::Signed(ALICE), b"a".to_vec()), Ok(()));
    assert_eq!(p.proofs(&b"ab".to_vec()), Some((BOB, 2)));
    assert_eq!(p.proofs(&Vec::new()), Some((BOB, 3)));
    assert_eq!(p.proofs(&b"a".to_vec()), None);
}

#[test]
fn lesson1_transfer_hands_over() {
    let mut p = lesson1_poe::Pallet::new(lesson1_poe::Config { max_claim_length: 16 });
    assert_eq!(p.create_claim(Origin::Signed(ALICE), claim(), 1), Ok(()));
    assert_eq!(
        p.create_claim(Origin::Signed(ALICE), claim(), 1),
        Err(lesson1_poe::DispatchError::Module(lesson1_poe::Error::ProofAlreadyExist))
    );
    assert_eq!(
        p.transfer_claim(Origin::Signed(BOB), claim(), ALICE, 2),
        Err(lesson1_poe::DispatchError::Module(lesson1_poe::Error::NotClaimOwner))
    );
    assert_eq!(p.transfer_claim(Origin::Signed(ALICE), claim(), BOB, 5), Ok(()));
    assert_eq!(p.proofs(&claim()), Some((BOB, 5)));
    assert_eq!(
        p.events().last(),
        Some(&lesson1_poe::Event::ClaimTransferred(ALICE, claim(), BOB))
    );
    assert_eq!(
        p.revoke_claim(Origin::Signed(ALICE), claim()),
        Err(lesson1_poe::DispatchError::Module(lesson1_poe::Error::NotClaimOwner))
    );
    assert_eq!(p.revoke_claim(Origin::Signed(BOB), claim()), Ok(()));
    assert_eq!(
        p.transfer_claim(Origin::Signed(BOB), claim(), ALICE, 6),
        Err(lesson1_poe::DispatchError::Module(lesson1_poe::Error::ClaimNotExist))
    );
}
