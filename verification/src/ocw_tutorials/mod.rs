//! Off-chain worker tutorial: odd blocks write a value to off-chain storage under a key
//! derived from the block number, even blocks read back and clear what the previous
//! block wrote.
use vstd::prelude::*;
use crate::dispatch::{BlockNumber, Weight};
use crate::encoding::{
    ascii_bytes, ascii_to_bytes, encode_u32, le_bytes, lemma_le_bytes_injective, pow256,
};

verus! {

/// The prefix of the off-chain storage keys.
pub open spec fn key_prefix() -> Seq<u8> {
    ascii_bytes("node-template::storage::")
}

/// The off-chain storage key of block `block_number`: the prefix, then the encoded number.
pub open spec fn storage_key(block_number: BlockNumber) -> Seq<u8> {
    key_prefix() + le_bytes(block_number as nat, 4)
}

/// The off-chain storage key of block `block_number`.
pub fn derived_key(block_number: BlockNumber) -> (r: Vec<u8>)
    ensures
        r@ == storage_key(block_number),
{
    proof {
        reveal_strlit("node-template::storage::");
    }
    let mut key = ascii_to_bytes("node-template::storage::");
    let mut encoded = encode_u32(block_number);
    key.append(&mut encoded);
    key
}

/// Whether `block_number` is odd.
pub fn is_odd_block_number(block_number: BlockNumber) -> (r: bool)
    ensures
        r == (block_number % 2 == 1),
{
    block_number % 2 != 0
}

/// What the worker does with off-chain storage at a block.
pub enum StorageAccess {
    /// Store a fresh value (a local random seed and timestamp) under `key`: once with a
    /// plain write, then again through a compare-and-set mutation.
    Write { key: Vec<u8> },
    /// Read the value under `key`, written at the previous block, and clear it if there is one.
    ReadAndClear { key: Vec<u8> },
}

/// The off-chain storage access of the worker at `block_number`: odd blocks write under
/// their own key, even blocks read and clear the key of the block before.
pub fn test_storage_access(block_number: BlockNumber) -> (r: StorageAccess)
    requires
        block_number != 0,
    ensures
        match r {
            StorageAccess::Write { key } => block_number % 2 == 1 && key@ == storage_key(
                block_number,
            ),
            StorageAccess::ReadAndClear { key } => block_number % 2 == 0 && key@ == storage_key(
                (block_number - 1) as u32,
            ),
        },
{
    if is_odd_block_number(block_number) {
        StorageAccess::Write { key: derived_key(block_number) }
    } else {
        StorageAccess::ReadAndClear { key: derived_key(block_number - 1) }
    }
}

/// Why a mutation of an off-chain value was abandoned.
pub struct StateError;

/// `sp_runtime::offchain::storage::StorageRetrievalError`: a stored value that does not decode.
#[verifier::external_type_specification]
#[verifier::external_body]
pub struct ExStorageRetrievalError(sp_runtime::offchain::storage::StorageRetrievalError);

/// A value the worker keeps in off-chain storage: a random seed and a timestamp in milliseconds.
pub type StoredValue = ([u8; 32], u64);

/// How the worker's compare-and-set mutation computes the new value from what is stored:
/// it stores `value` whatever was there.
pub fn mutate_value(
    current: Result<Option<StoredValue>, sp_runtime::offchain::storage::StorageRetrievalError>,
    value: StoredValue,
) -> (r: Result<StoredValue, StateError>)
    ensures
        r == Ok::<StoredValue, StateError>(value),
{
    match current {
        Ok(Some(_)) => Ok(value),
        _ => Ok(value),
    }
}

/// Whether a read of the previous block's value is followed by clearing it: only when a
/// value was stored and decodes.
pub fn clears_after_read(
    read: &Result<Option<StoredValue>, sp_runtime::offchain::storage::StorageRetrievalError>,
) -> (r: bool)
    ensures
        r == (read matches Ok(Some(_))),
{
    match read {
        Ok(Some(_)) => true,
        _ => false,
    }
}

/// The worker's off-chain storage after its access at block `block_number`: each key
/// maps to `Some` value that decodes, or to `None` where the stored bytes do not decode.
/// An odd block stores `fresh` under its key; an even block clears the previous block's
/// key when it holds a value that decodes, and leaves storage as it was otherwise.
pub open spec fn storage_after(
    store: Map<Seq<u8>, Option<StoredValue>>,
    block_number: BlockNumber,
    fresh: StoredValue,
) -> Map<Seq<u8>, Option<StoredValue>> {
    if block_number % 2 == 1 {
        store.insert(storage_key(block_number), Some(fresh))
    } else {
        let key = storage_key((block_number - 1) as u32);
        if store.contains_key(key) && store[key] is Some {
            store.remove(key)
        } else {
            store
        }
    }
}

/// What an odd block writes, the next block reads back and clears: right after the odd
/// block its key holds the fresh value, and after the following even block the key is
/// empty, while every other key is as the odd block left it.
pub proof fn law_odd_write_even_clear(
    store: Map<Seq<u8>, Option<StoredValue>>,
    block_number: BlockNumber,
    fresh: StoredValue,
    later: StoredValue,
    other: Seq<u8>,
)
    requires
        block_number % 2 == 1,
        block_number < u32::MAX,
    ensures
        storage_after(store, block_number, fresh).contains_key(storage_key(block_number)),
        storage_after(store, block_number, fresh)[storage_key(block_number)] == Some(fresh),
        !storage_after(
            storage_after(store, block_number, fresh),
            (block_number + 1) as u32,
            later,
        ).contains_key(storage_key(block_number)),
        other != storage_key(block_number) ==> storage_after(
            storage_after(store, block_number, fresh),
            (block_number + 1) as u32,
            later,
        ).contains_key(other) == storage_after(store, block_number, fresh).contains_key(other),
{
}

/// What the worker does at a block: its off-chain storage access, then a pause.
pub struct OffchainWorkerPlan {
    pub access: StorageAccess,
    /// How long the worker sleeps before it returns, in milliseconds.
    pub sleep_millis: u64,
}

/// The off-chain worker tutorial pallet.
pub struct Pallet;

impl Pallet {
    /// Work at the start of a block: none.
    pub fn on_initialize(block_number: BlockNumber) -> (r: Weight)
        ensures
            r == (Weight { ref_time: 0, proof_size: 0 }),
    {
        Weight { ref_time: 0, proof_size: 0 }
    }

    /// Work in a block's idle time: none.
    pub fn on_idle(block_number: BlockNumber, remaining_weight: Weight) -> (r: Weight)
        ensures
            r == (Weight { ref_time: 0, proof_size: 0 }),
    {
        Weight { ref_time: 0, proof_size: 0 }
    }

    /// The worker's plan at `block_number`: the storage access of `test_storage_access`,
    /// then a sleep of eight seconds, which shows that the worker outlives block production.
    pub fn offchain_worker(block_number: BlockNumber) -> (r: OffchainWorkerPlan)
        requires
            block_number != 0,
        ensures
            r.sleep_millis == 8000,
            match r.access {
                StorageAccess::Write { key } => block_number % 2 == 1 && key@ == storage_key(
                    block_number,
                ),
                StorageAccess::ReadAndClear { key } => block_number % 2 == 0 && key@
                    == storage_key((block_number - 1) as u32),
            },
    {
        OffchainWorkerPlan { access: test_storage_access(block_number), sleep_millis: 8000 }
    }
}

/// Distinct blocks use distinct off-chain storage keys.
pub proof fn law_storage_keys_distinct(a: BlockNumber, b: BlockNumber)
    requires
        a != b,
    ensures
        storage_key(a) != storage_key(b),
{
    if storage_key(a) == storage_key(b) {
        let p = key_prefix();
        assert(storage_key(a).subrange(p.len() as int, storage_key(a).len() as int) =~= le_bytes(a as nat, 4));
        assert(storage_key(b).subrange(p.len() as int, storage_key(b).len() as int) =~= le_bytes(b as nat, 4));
        reveal_with_fuel(pow256, 5);
        assert(pow256(4) == 0x1_0000_0000);
        lemma_le_bytes_injective(a as nat, b as nat, 4);
    }
}

/// What an odd block writes, the next (even) block reads back and clears: both use the
/// same key.
pub proof fn law_even_block_reads_previous_write(block_number: BlockNumber)
    requires
        block_number % 2 == 1,
        block_number < u32::MAX,
    ensures
        storage_key(block_number) == storage_key(((block_number + 1) - 1) as u32),
        (block_number + 1) % 2 == 0,
{
}

/// Blocks alternate between odd and even.
pub proof fn law_parity_alternates(block_number: BlockNumber)
    requires
        block_number < u32::MAX,
    ensures
        (block_number % 2 == 1) != ((block_number + 1) % 2 == 1),
{
}

} // verus!
