//! Off-chain worker homework: a signed call records a number in the off-chain index, and
//! the worker submits a fetched number as an unsigned transaction with a signed payload,
//! which the runtime accepts only with a valid signature.
use vstd::prelude::*;
use crate::dispatch::{ensure_none, ensure_signed, BlockNumber, Origin};
use crate::encoding::{
    ascii_bytes, ascii_to_bytes, build_valid_transaction, encode_key_and_u64, encoded_bytes,
    le_bytes, sr25519_signature_valid,
};
use crate::app_crypto::AppCryptoSr25519;

pub mod indexing;

use indexing::IndexEntry;

verus! {

/// A number signed by the key `public`: what the worker submits.
#[derive(Clone, Copy, PartialEq, Eq, Debug)]
pub struct Payload {
    pub public: [u8; 32],
    pub number: u64,
}

impl Payload {
    /// The key that signs the payload.
    pub fn public(&self) -> (r: [u8; 32])
        ensures
            r == self.public,
    {
        self.public
    }

    /// The encoded payload: the bytes its signature covers.
    pub fn encoded(&self) -> (r: Vec<u8>)
        ensures
            r@ == payload_bytes(*self),
    {
        encode_key_and_u64(&self.public, self.number)
    }
}

/// The bytes of a payload that its signature covers: the key, then the number.
pub open spec fn payload_bytes(payload: Payload) -> Seq<u8> {
    payload.public@ + le_bytes(payload.number as nat, 8)
}

/// The calls of the pallet.
#[derive(Clone, Copy, PartialEq, Eq, Debug)]
pub enum Call {
    OffchainIndexSet { number: u64 },
    UnsignedExtrinsicWithSignedPayload { payload: Payload, signature: [u8; 64] },
}

/// Where a transaction being validated comes from.
#[derive(Clone, Copy, PartialEq, Eq, Structural, Debug)]
pub enum TransactionSource {
    InBlock,
    Local,
    External,
}

/// A transaction the pool accepts, with its priority, the tags it requires and provides,
/// how many blocks the validity lasts, and whether it is gossiped.
#[derive(Clone, PartialEq, Eq, Debug)]
pub struct ValidTransaction {
    pub priority: u64,
    pub requires: Vec<Vec<u8>>,
    pub provides: Vec<Vec<u8>>,
    pub longevity: u64,
    pub propagate: bool,
}

/// Why a transaction is refused.
#[derive(Clone, Copy, PartialEq, Eq, Structural, Debug)]
pub enum InvalidTransaction {
    /// The call is not one the pallet accepts unsigned.
    Call,
    /// The payload's signature does not verify.
    BadProof,
}

/// The verdict on an unsigned transaction.
#[derive(Clone, PartialEq, Eq, Debug)]
pub enum TransactionValidity {
    Valid(ValidTransaction),
    Invalid(InvalidTransaction),
}

/// The tag a valid signed-payload transaction provides: the encoded prefix "my-pallet"
/// followed by the encoded name "unsigned_extrinsic_with_signed_payload".
pub open spec fn provides_tag() -> Seq<u8> {
    encoded_bytes(ascii_bytes("my-pallet")) + encoded_bytes(
        ascii_bytes("unsigned_extrinsic_with_signed_payload"),
    )
}

/// What the worker found when fetching the repository information.
#[derive(Clone, Copy, PartialEq, Eq, Structural, Debug)]
pub struct RepoInfo {
    pub stargazers_count: u64,
}

/// The fetch of the repository information failed.
#[derive(Clone, Copy, PartialEq, Eq, Structural, Debug)]
pub struct FetchError;

/// What the worker does at a block.
#[derive(Clone, Copy, PartialEq, Eq, Structural, Debug)]
pub enum OffchainAction {
    /// Nothing more: the fetch failed.
    Skip,
    /// Submit, from any local account, an unsigned `UnsignedExtrinsicWithSignedPayload`
    /// call whose payload carries `number` and the account's key, signed by that key.
    SendSignedPayload { number: u64 },
}

/// The off-chain worker homework pallet.
pub struct Pallet;

impl Pallet {
    /// The worker's decision at a block, given the fetched repository information.
    pub fn offchain_worker(fetched: Result<RepoInfo, FetchError>) -> (r: OffchainAction)
        ensures
            r == (match fetched {
                Ok(info) => OffchainAction::SendSignedPayload { number: info.stargazers_count },
                Err(_) => OffchainAction::Skip,
            }),
    {
        match fetched {
            Ok(repo_info) => OffchainAction::SendSignedPayload { number: repo_info.stargazers_count },
            Err(_) => OffchainAction::Skip,
        }
    }

    /// Whether the pool accepts `call` as an unsigned transaction: only the signed-payload
    /// call, and only with a valid signature of its payload by the payload's key.
    pub fn validate_unsigned(source: TransactionSource, call: &Call) -> (r: TransactionValidity)
        ensures
            match *call {
                Call::UnsignedExtrinsicWithSignedPayload { payload, signature } => if sr25519_signature_valid(
                    signature@,
                    payload_bytes(payload),
                    payload.public@,
                ) {
                    r matches TransactionValidity::Valid(v) && v.priority == 100 && v.requires@.len()
                        == 0 && v.provides@.len() == 1 && v.provides@[0]@ == provides_tag()
                        && v.longevity == 3 && v.propagate
                } else {
                    r == TransactionValidity::Invalid(InvalidTransaction::BadProof)
                },
                Call::OffchainIndexSet { .. } => r == TransactionValidity::Invalid(InvalidTransaction::Call),
            },
    {
        match call {
            Call::UnsignedExtrinsicWithSignedPayload { payload, signature } => {
                let message = payload.encoded();
                if !AppCryptoSr25519::verify(message.as_slice(), payload.public, *signature) {
                    return TransactionValidity::Invalid(InvalidTransaction::BadProof);
                }
                proof {
                    reveal_strlit("my-pallet");
                    reveal_strlit("unsigned_extrinsic_with_signed_payload");
                }
                let provide = ascii_to_bytes("unsigned_extrinsic_with_signed_payload");
                TransactionValidity::Valid(build_valid_transaction("my-pallet", 100, &provide, 3, true))
            },
            _ => TransactionValidity::Invalid(InvalidTransaction::Call),
        }
    }

    /// A signed call that records `number` in the off-chain index; gives the entry to
    /// write, keyed by the current block `now`.
    pub fn offchain_index_set(origin: Origin, number: u64, now: BlockNumber) -> (r: Result<
        IndexEntry,
        crate::dispatch::BadOrigin,
    >)
        ensures
            origin is Signed <==> r is Ok,
            r matches Ok(entry) ==> entry.key@ == indexing::index_key(now) && entry.data@
                == indexing::index_data(number),
    {
        let _signer = match ensure_signed(origin) {
            Ok(who) => who,
            Err(e) => return Err(e),
        };
        Ok(indexing::offchain_index_set(now, number))
    }

    /// The payload the worker has the local account with key `public` sign: that key and
    /// the number to submit.
    pub fn signed_payload(public: [u8; 32], number: u64) -> (r: Payload)
        ensures
            r == (Payload { public, number }),
    {
        Payload { public, number }
    }

    /// The unsigned call the worker submits: the payload with its signature.
    pub fn unsigned_call(payload: Payload, signature: [u8; 64]) -> (r: Call)
        ensures
            r == (Call::UnsignedExtrinsicWithSignedPayload { payload, signature }),
    {
        Call::UnsignedExtrinsicWithSignedPayload { payload, signature }
    }

    /// The unsigned call carrying a signed payload: accepted when it is unsigned.
    pub fn unsigned_extrinsic_with_signed_payload(
        origin: Origin,
        payload: Payload,
        signature: [u8; 64],
    ) -> (r: Result<(), crate::dispatch::BadOrigin>)
        ensures
            r is Ok <==> origin == Origin::Unsigned,
    {
        ensure_none(origin)
    }
}

} // verus!
