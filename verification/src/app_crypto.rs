//! The signature scheme of the keys the off-chain worker signs with: sr25519, under the
//! key type "btc!".
use vstd::prelude::*;
use crate::encoding::{sr25519_signature_valid, sr25519_verify};

verus! {

/// The key type of the worker's keys: the bytes of "btc!".
pub const KEY_TYPE: [u8; 4] = [0x62, 0x74, 0x63, 0x21];

/// The application crypto of the off-chain worker: sr25519 keys and signatures.
pub struct AppCryptoSr25519;

impl AppCryptoSr25519 {
    /// Whether `signature` is a valid signature of `payload` by the key `public`.
    pub fn verify(payload: &[u8], public: [u8; 32], signature: [u8; 64]) -> (r: bool)
        ensures
            r == sr25519_signature_valid(signature@, payload@, public@),
    {
        sr25519_verify(&signature, payload, &public)
    }
}

} // verus!
