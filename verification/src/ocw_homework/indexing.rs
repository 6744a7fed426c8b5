//! The off-chain index entry written for a submitted number.
use vstd::prelude::*;
use crate::dispatch::BlockNumber;
use crate::encoding::{
    ascii_bytes, ascii_to_bytes, encode_bytes_and_u64, encode_u32, encoded_bytes, le_bytes,
    lemma_le_bytes_injective, pow256,
};

verus! {

/// The key `key` takes at block `block_number`: `key`, "@", then the encoded block number.
pub open spec fn block_key(block_number: BlockNumber, key: Seq<u8>) -> Seq<u8> {
    key + seq![0x40u8] + le_bytes(block_number as nat, 4)
}

/// The key `key` takes at block `block_number`.
pub fn derived_key(block_number: BlockNumber, key: &[u8]) -> (r: Vec<u8>)
    ensures
        r@ == block_key(block_number, key@),
{
    let mut encoded = encode_u32(block_number);
    let mut r: Vec<u8> = Vec::new();
    let mut i: usize = 0;
    while i < key.len()
        invariant
            i <= key@.len(),
            r@ == key@.take(i as int),
        decreases key@.len() - i,
    {
        r.push(key[i]);
        i = i + 1;
    }
    assert(key@.take(key@.len() as int) =~= key@);
    r.push(0x40);
    r.append(&mut encoded);
    r
}

/// An entry to write to the off-chain index.
pub struct IndexEntry {
    pub key: Vec<u8>,
    pub data: Vec<u8>,
}

/// The key under which a submitted number is indexed at block `block_number`.
pub open spec fn index_key(block_number: BlockNumber) -> Seq<u8> {
    block_key(block_number, ascii_bytes("indexing_1"))
}

/// The indexed data for a submitted `number`: the encoded pair of the label
/// "submit_number_unsigned" and the number.
pub open spec fn index_data(number: u64) -> Seq<u8> {
    encoded_bytes(ascii_bytes("submit_number_unsigned")) + le_bytes(number as nat, 8)
}

/// The off-chain index entry recording `number`, submitted at block `block_number`.
pub fn offchain_index_set(block_number: BlockNumber, number: u64) -> (r: IndexEntry)
    ensures
        r.key@ == index_key(block_number),
        r.data@ == index_data(number),
{
    proof {
        reveal_strlit("indexing_1");
        reveal_strlit("submit_number_unsigned");
    }
    let name = ascii_to_bytes("indexing_1");
    let key = derived_key(block_number, name.as_slice());
    let label = ascii_to_bytes("submit_number_unsigned");
    let data = encode_bytes_and_u64(&label, number);
    IndexEntry { key, data }
}

/// Numbers submitted at distinct blocks are indexed under distinct keys.
pub proof fn law_index_keys_distinct(a: BlockNumber, b: BlockNumber)
    requires
        a != b,
    ensures
        index_key(a) != index_key(b),
{
    if index_key(a) == index_key(b) {
        let n = ascii_bytes("indexing_1").len() + 1;
        assert(index_key(a).subrange(n as int, index_key(a).len() as int) =~= le_bytes(a as nat, 4));
        assert(index_key(b).subrange(n as int, index_key(b).len() as int) =~= le_bytes(b as nat, 4));
        reveal_with_fuel(pow256, 5);
        lemma_le_bytes_injective(a as nat, b as nat, 4);
    }
}

} // verus!
