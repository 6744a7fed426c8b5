//! SCALE encoding and hashing of the plain values the pallets derive keys and DNA from.
use vstd::prelude::*;
use parity_scale_codec::Encode;
use vstd::string::StrSliceExecFns;

verus! {

/// The `n` low-order bytes of `x`, least significant first.
pub open spec fn le_bytes(x: nat, n: nat) -> Seq<u8>
    decreases n,
{
    if n == 0 {
        Seq::empty()
    } else {
        seq![(x % 256) as u8] + le_bytes(x / 256, (n - 1) as nat)
    }
}

/// 256 to the power `n`.
pub open spec fn pow256(n: nat) -> nat
    decreases n,
{
    if n == 0 {
        1
    } else {
        256 * pow256((n - 1) as nat)
    }
}

/// Two numbers below `256^n` with the same `n` low-order bytes are equal.
pub proof fn lemma_le_bytes_injective(x: nat, y: nat, n: nat)
    requires
        x < pow256(n),
        y < pow256(n),
        le_bytes(x, n) == le_bytes(y, n),
    ensures
        x == y,
    decreases n,
{
    if n > 0 {
        let bx = le_bytes(x, n);
        let by = le_bytes(y, n);
        assert(bx[0] == by[0]);
        assert(x % 256 == y % 256);
        assert(bx.subrange(1, bx.len() as int) =~= le_bytes(x / 256, (n - 1) as nat));
        assert(by.subrange(1, by.len() as int) =~= le_bytes(y / 256, (n - 1) as nat));
        assert(x / 256 < pow256((n - 1) as nat)) by (nonlinear_arith)
            requires
                x < 256 * pow256((n - 1) as nat),
        ;
        assert(y / 256 < pow256((n - 1) as nat)) by (nonlinear_arith)
            requires
                y < 256 * pow256((n - 1) as nat),
        ;
        lemma_le_bytes_injective(x / 256, y / 256, (n - 1) as nat);
        assert(x == 256 * (x / 256) + x % 256) by (nonlinear_arith);
        assert(y == 256 * (y / 256) + y % 256) by (nonlinear_arith);
    }
}

/// The SCALE compact encoding of a collection length `n` (which fits in a `u32`).
pub open spec fn compact_len(n: nat) -> Seq<u8> {
    if n < 0x40 {
        le_bytes(n * 4, 1)
    } else if n < 0x4000 {
        le_bytes(n * 4 + 1, 2)
    } else if n < 0x4000_0000 {
        le_bytes(n * 4 + 2, 4)
    } else {
        seq![3u8] + le_bytes(n, 4)
    }
}

/// The SCALE encoding of a byte vector: its compact length, then its bytes.
pub open spec fn encoded_bytes(data: Seq<u8>) -> Seq<u8> {
    compact_len(data.len()) + data
}

/// The SCALE encoding of an optional `u32`.
pub open spec fn encoded_option_u32(x: Option<u32>) -> Seq<u8> {
    match x {
        None => seq![0u8],
        Some(v) => seq![1u8] + le_bytes(v as nat, 4),
    }
}

/// The bytes of an ASCII string.
pub open spec fn ascii_bytes(s: &str) -> Seq<u8> {
    s@.map_values(|c: char| c as u8)
}

/// The bytes of the ASCII string literal `s`.
pub fn ascii_to_bytes(s: &str) -> (r: Vec<u8>)
    requires
        s.is_ascii(),
    ensures
        r@ == ascii_bytes(s),
{
    broadcast use vstd::string::is_ascii_spec_bytes;
    let r = s.as_bytes_vec();
    assert(r@ =~= ascii_bytes(s));
    r
}

/// The result of `blake2_128` (a 128-bit Blake2b digest) on `data`.
pub uninterp spec fn blake2_128_digest(data: Seq<u8>) -> Seq<u8>;

/// `u32::encode` of parity-scale-codec: a `u32` is encoded as its four little-endian bytes.
#[verifier::external_body]
pub(crate) fn encode_u32(x: u32) -> (r: Vec<u8>)
    ensures
        r@ == le_bytes(x as nat, 4),
{
    x.encode()
}

/// `Encode::encode` of parity-scale-codec on a tuple
/// `((seed, seed_block_number), &account, extrinsic_index)`: the fields are encoded one
/// after the other — the 32 seed bytes as they are, the seed's block number as four
/// little-endian bytes, the account as eight little-endian bytes, and the optional index
/// as a 0 byte (none) or a 1 byte followed by its four little-endian bytes.
#[verifier::external_body]
pub(crate) fn encode_dna_payload(
    seed: &[u8; 32],
    seed_block_number: u32,
    account: u64,
    extrinsic_index: Option<u32>,
) -> (r: Vec<u8>)
    ensures
        r@ == seed@ + le_bytes(seed_block_number as nat, 4) + le_bytes(account as nat, 8)
            + encoded_option_u32(extrinsic_index),
{
    ((seed, seed_block_number), &account, extrinsic_index).encode()
}

/// `Encode::encode` of parity-scale-codec on a tuple `(data, number)`: the byte vector as
/// its compact length followed by its bytes, then the number as eight little-endian bytes.
#[verifier::external_body]
pub(crate) fn encode_bytes_and_u64(data: &Vec<u8>, number: u64) -> (r: Vec<u8>)
    requires
        data@.len() <= u32::MAX,
    ensures
        r@ == encoded_bytes(data@) + le_bytes(number as nat, 8),
{
    (data, number).encode()
}

/// `Encode::encode` of parity-scale-codec on a tuple `(public, number)`: the 32 key bytes
/// as they are, then the number as eight little-endian bytes.
#[verifier::external_body]
pub(crate) fn encode_key_and_u64(public: &[u8; 32], number: u64) -> (r: Vec<u8>)
    ensures
        r@ == public@ + le_bytes(number as nat, 8),
{
    (public, number).encode()
}

/// Whether `signature` is a valid sr25519 signature of `message` by the key `public`.
pub uninterp spec fn sr25519_signature_valid(signature: Seq<u8>, message: Seq<u8>, public: Seq<u8>) -> bool;

/// `sp_io::crypto::sr25519_verify` on the signature and key given by their raw bytes.
/// The outcome is left to the name `sr25519_signature_valid`.
#[verifier::external_body]
pub(crate) fn sr25519_verify(signature: &[u8; 64], message: &[u8], public: &[u8; 32]) -> (r: bool)
    ensures
        r == sr25519_signature_valid(signature@, message@, public@),
{
    sp_io::crypto::sr25519_verify(
        &sp_core::sr25519::Signature::from_raw(*signature),
        message,
        &sp_core::sr25519::Public::from_raw(*public),
    )
}

/// `ValidTransaction::with_tag_prefix(prefix).priority(priority).and_provides([tag])
/// .longevity(longevity).propagate(propagate)` of sp-runtime, built and read back as a
/// `ValidTransaction` of this library. It requires nothing and provides one tag: the
/// encoded prefix followed by the encoded `tag`.
#[verifier::external_body]
pub(crate) fn build_valid_transaction(
    prefix: &'static str,
    priority: u64,
    tag: &Vec<u8>,
    longevity: u64,
    propagate: bool,
) -> (r: crate::ocw_homework::ValidTransaction)
    requires
        prefix.is_ascii(),
        prefix@.len() <= u32::MAX,
        tag@.len() <= u32::MAX,
    ensures
        r.priority == priority,
        r.requires@.len() == 0,
        r.provides@.len() == 1,
        r.provides@[0]@ == encoded_bytes(ascii_bytes(prefix)) + encoded_bytes(tag@),
        r.longevity == longevity,
        r.propagate == propagate,
{
    let v: sp_runtime::transaction_validity::ValidTransaction =
        sp_runtime::transaction_validity::ValidTransaction::with_tag_prefix(prefix).priority(
            priority,
        ).and_provides([tag]).longevity(longevity).propagate(propagate).into();
    crate::ocw_homework::ValidTransaction {
        priority: v.priority,
        requires: v.requires,
        provides: v.provides,
        longevity: v.longevity,
        propagate: v.propagate,
    }
}

/// `sp_io::hashing::blake2_128`: the 16-byte Blake2b digest of `data`.
/// The digest itself is left to the name `blake2_128_digest`.
#[verifier::external_body]
pub(crate) fn blake2_128(data: &[u8]) -> (r: [u8; 16])
    ensures
        r@ == blake2_128_digest(data@),
{
    sp_io::hashing::blake2_128(data)
}

} // verus!
