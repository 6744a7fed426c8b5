use sp_core::{sr25519, Pair};
use substrate_pallets::app_crypto::{AppCryptoSr25519, KEY_TYPE};
use substrate_pallets::dispatch::Origin;
use substrate_pallets::ocw_homework::indexing::{derived_key as index_derived_key, offchain_index_set};
use substrate_pallets::ocw_homework::{
    Call, FetchError, InvalidTransaction, OffchainAction, Pallet as Homework, Payload, RepoInfo,
    TransactionSource, TransactionValidity,
};
use substrate_pallets::ocw_tutorials::{
    clears_after_read, derived_key, is_odd_block_number, mutate_value, test_storage_access,
    Pallet as Tutorials,
    StorageAccess,
};

fn tutorial_key(block_number: u32) -> Vec<u8> {
    let mut key = b"node-template::storage::".to_vec();
    key.extend_from_slice(&block_number.to_le_bytes());
    key
}

#[test]
fn tutorial_keys_append_the_encoded_block_number() {
    assert_eq!(derived_key(0x0102_0304), tutorial_key(0x0102_0304));
    assert_ne!(derived_key(1), derived_key(256));
}

#[test]
fn odd_blocks_write_and_even_blocks_read_back() {
    assert!(is_odd_block_number(1));
    assert!(!is_odd_block_number(2));
    match test_storage_access(7) {
        StorageAccess::Write { key } => assert_eq!(key, tutorial_key(7)),
        StorageAccess::ReadAndClear { .. } => panic!("odd blocks write"),
    }
    match test_storage_access(8) {
        StorageAccess::ReadAndClear { key } => assert_eq!(key, tutorial_key(7)),
        StorageAccess::Write { .. } => panic!("even blocks read"),
    }
    let plan = Tutorials::offchain_worker(3);
    assert_eq!(plan.sleep_millis, 8000);
    assert!(matches!(plan.access, StorageAccess::Write { .. }));
    let w = Tutorials::on_initialize(3);
    assert_eq!((w.ref_time, w.proof_size), (0, 0));
}

#[test]
fn mutation_stores_the_fresh_value() {
    let fresh = ([3u8; 32], 42u64);
    assert!(matches!(mutate_value(Ok(Some(([1u8; 32], 1))), fresh), Ok(v) if v == fresh));
    assert!(matches!(mutate_value(Ok(None), fresh), Ok(v) if v == fresh));
}

#[test]
fn index_entry_for_a_number() {
    let mut key = b"indexing_1@".to_vec();
    key.extend_from_slice(&9u32.to_le_bytes());
    assert_eq!(index_derived_key(9, b"indexing_1"), key);
    assert_ne!(offchain_index_set(9, 1).key, offchain_index_set(9 + 256, 1).key);
    let entry = offchain_index_set(9, 0x1122);
    assert_eq!(entry.key, key);
    let mut data = vec![22u8 << 2];
    data.extend_from_slice(b"submit_number_unsigned");
    data.extend_from_slice(&0x1122u64.to_le_bytes());
    assert_eq!(entry.data, data);
    assert!(Homework::offchain_index_set(Origin::Unsigned, 1, 9).is_err());
    let signed = Homework::offchain_index_set(Origin::Signed(4), 0x1122, 9).unwrap();
    assert_eq!(signed.data, data);
}

fn signed_call(number: u64, signed_number: u64) -> Call {
    let pair = sr25519::Pair::from_seed(&[1u8; 32]);
    let public: [u8; 32] = pair.public().into();
    let mut message = public.to_vec();
    message.extend_from_slice(&signed_number.to_le_bytes());
    let signature: [u8; 64] = pair.sign(&message).into();
    Call::UnsignedExtrinsicWithSignedPayload { payload: Payload { public, number }, signature }
}

#[test]
fn validate_unsigned_accepts_a_signed_payload() {
    match Homework::validate_unsigned(TransactionSource::External, &signed_call(5, 5)) {
        TransactionValidity::Valid(v) => {
            assert_eq!(v.priority, 100);
            assert!(v.requires.is_empty());
            assert_eq!(v.longevity, 3);
            assert!(v.propagate);
            let mut tag = vec![9u8 << 2];
            tag.extend_from_slice(b"my-pallet");
            tag.push(38u8 << 2);
            tag.extend_from_slice(b"unsigned_extrinsic_with_signed_payload");
            assert_eq!(v.provides, vec![tag]);
        },
        TransactionValidity::Invalid(e) => panic!("refused: {:?}", e),
    }
}

#[test]
fn validate_unsigned_refuses_bad_proofs_and_other_calls() {
    assert_eq!(
        Homework::validate_unsigned(TransactionSource::Local, &signed_call(6, 5)),
        TransactionValidity::Invalid(InvalidTransaction::BadProof)
    );
    assert_eq!(
        Homework::validate_unsigned(TransactionSource::Local, &Call::OffchainIndexSet { number: 1 }),
        TransactionValidity::Invalid(InvalidTransaction::Call)
    );
}

#[test]
fn app_crypto_verifies_sr25519() {
    assert_eq!(&KEY_TYPE, b"btc!");
    let pair = sr25519::Pair::from_seed(&[2u8; 32]);
    let signature: [u8; 64] = pair.sign(b"payload").into();
    assert!(AppCryptoSr25519::verify(b"payload", pair.public().into(), signature));
    assert!(!AppCryptoSr25519::verify(b"payloaD", pair.public().into(), signature));
}

#[test]
fn worker_submits_the_fetched_number() {
    assert_eq!(
        Homework::offchain_worker(Ok(RepoInfo { stargazers_count: 77 })),
        OffchainAction::SendSignedPayload { number: 77 }
    );
    assert_eq!(Homework::offchain_worker(Err(FetchError)), OffchainAction::Skip);
    let payload = Payload { public: [4; 32], number: 1 };
    assert_eq!(payload.public(), [4; 32]);
    assert!(Homework::unsigned_extrinsic_with_signed_payload(Origin::Unsigned, payload, [0; 64]).is_ok());
    assert!(Homework::unsigned_extrinsic_with_signed_payload(Origin::Signed(1), payload, [0; 64]).is_err());
}

#[test]
fn only_a_decoded_value_is_cleared() {
    assert!(clears_after_read(&Ok(Some(([1u8; 32], 5)))));
    assert!(!clears_after_read(&Ok(None)));
    assert!(!clears_after_read(&Err(
        sp_runtime::offchain::storage::StorageRetrievalError::Undecodable
    )));
}

#[test]
fn worker_builds_a_payload_its_key_signs() {
    let pair = sr25519::Pair::from_seed(&[3u8; 32]);
    let public: [u8; 32] = pair.public().into();
    let payload = Homework::signed_payload(public, 88);
    assert_eq!(payload, Payload { public, number: 88 });
    let mut bytes = public.to_vec();
    bytes.extend_from_slice(&88u64.to_le_bytes());
    assert_eq!(payload.encoded(), bytes);
    let signature: [u8; 64] = pair.sign(&payload.encoded()).into();
    let call = Homework::unsigned_call(payload, signature);
    assert_eq!(call, Call::UnsignedExtrinsicWithSignedPayload { payload, signature });
    assert!(matches!(
        Homework::validate_unsigned(TransactionSource::Local, &call),
        TransactionValidity::Valid(_)
    ));
}
