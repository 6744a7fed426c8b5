//! The layouts in which kitties have been stored, and the migration to the current one.
use vstd::prelude::*;

pub mod v0;
pub mod v1;
pub mod v2;

pub use v2 as current_version;

use current_version::{Kitty, KittyId, KittyName, KittyView};

verus! {

/// The bytes appended to a four-byte name when a kitty moves from the second layout: "5678".
pub open spec fn v1_name_suffix() -> Seq<u8> {
    seq![0x35u8, 0x36u8, 0x37u8, 0x38u8]
}

/// The name given to kitties of the first layout, which had none: "12345678".
pub open spec fn v0_default_name() -> Seq<u8> {
    seq![0x31u8, 0x32u8, 0x33u8, 0x34u8, 0x35u8, 0x36u8, 0x37u8, 0x38u8]
}

/// A kitty of the second layout, in the current layout.
pub open spec fn migrated_v1(kitty: v1::Kitty) -> KittyView {
    KittyView { name: kitty.name@ + v1_name_suffix(), dna: kitty.dna@ }
}

/// A kitty of the first layout, in the current layout.
pub open spec fn migrated_v0(kitty: v0::Kitty) -> KittyView {
    KittyView { name: v0_default_name(), dna: kitty.0@ }
}

/// `new` holds the kitties of `old` (second layout) in the current layout, in the same order.
pub open spec fn migrated_all_v1(old: Seq<(KittyId, v1::Kitty)>, new: Seq<(KittyId, Kitty)>) -> bool {
    &&& new.len() == old.len()
    &&& forall|i: int|
        0 <= i < new.len() ==> #[trigger] new[i].0 == old[i].0 && new[i].1@ == migrated_v1(old[i].1)
}

/// `new` holds the kitties of `old` (first layout) in the current layout, in the same order.
pub open spec fn migrated_all_v0(old: Seq<(KittyId, v0::Kitty)>, new: Seq<(KittyId, Kitty)>) -> bool {
    &&& new.len() == old.len()
    &&& forall|i: int|
        0 <= i < new.len() ==> #[trigger] new[i].0 == old[i].0 && new[i].1@ == migrated_v0(old[i].1)
}

/// The stored kitties, in an earlier layout.
pub enum LegacyKitties {
    /// Kitties stored in the first layout.
    V0(Vec<(KittyId, v0::Kitty)>),
    /// Kitties stored in the second layout.
    V1(Vec<(KittyId, v1::Kitty)>),
}

/// Migrates the stored kitties from the storage version found on chain to the current
/// one. Gives the kitties in the current layout, in the order in which they were stored,
/// when a migration ran; `None` when the version on chain needs none.
pub fn upgrade_storage(on_chain_version: u16, legacy: &LegacyKitties) -> (r: Option<
    Vec<(KittyId, Kitty)>,
>)
    requires
        on_chain_version == v1::STORAGE_VERSION ==> legacy is V1,
        on_chain_version == v0::STORAGE_VERSION ==> legacy is V0,
    ensures
        on_chain_version != v0::STORAGE_VERSION && on_chain_version != v1::STORAGE_VERSION ==> r
            is None,
        on_chain_version == v1::STORAGE_VERSION ==> (r matches Some(kitties) && migrated_all_v1(
            legacy->V1_0@,
            kitties@,
        )),
        on_chain_version == v0::STORAGE_VERSION ==> (r matches Some(kitties) && migrated_all_v0(
            legacy->V0_0@,
            kitties@,
        )),
{
    if on_chain_version == v1::STORAGE_VERSION {
        match legacy {
            LegacyKitties::V1(old) => Some(from_v1(old)),
            LegacyKitties::V0(_) => None,
        }
    } else if on_chain_version == v0::STORAGE_VERSION {
        match legacy {
            LegacyKitties::V0(old) => Some(from_v0(old)),
            LegacyKitties::V1(_) => None,
        }
    } else {
        None
    }
}

/// Kitties of the second layout in the current one: each name gets "5678" appended.
pub fn from_v1(old: &Vec<(KittyId, v1::Kitty)>) -> (r: Vec<(KittyId, Kitty)>)
    ensures
        migrated_all_v1(old@, r@),
{
    let suffix: [u8; 4] = [0x35, 0x36, 0x37, 0x38];
    assert(suffix@ =~= v1_name_suffix());
    let mut r: Vec<(KittyId, Kitty)> = Vec::new();
    let mut i: usize = 0;
    while i < old.len()
        invariant
            i <= old@.len(),
            suffix@ == v1_name_suffix(),
            r@.len() == i,
            forall|j: int|
                0 <= j < i ==> #[trigger] r@[j].0 == old@[j].0 && r@[j].1@ == migrated_v1(
                    old@[j].1,
                ),
        decreases old@.len() - i,
    {
        let (kitty_id, kitty_old) = old[i];
        let kitty = Kitty { name: from_name_v1(&kitty_old.name, &suffix), dna: kitty_old.dna };
        r.push((kitty_id, kitty));
        i = i + 1;
    }
    r
}

/// A name of the second layout followed by `append`.
pub fn from_name_v1(name_v1: &v1::KittyName, append: &[u8; 4]) -> (r: KittyName)
    ensures
        r@ == name_v1@ + append@,
{
    let mut result: KittyName = [0; 8];
    let mut i: usize = 0;
    while i < 4
        invariant
            i <= 4,
            forall|j: int| 0 <= j < i ==> result@[j] == name_v1@[j] && result@[j + 4] == append@[j],
        decreases 4 - i,
    {
        result[i] = name_v1[i];
        result[i + 4] = append[i];
        i = i + 1;
    }
    assert(result@ =~= name_v1@ + append@);
    result
}

/// Kitties of the first layout in the current one: each is named "12345678".
pub fn from_v0(old: &Vec<(KittyId, v0::Kitty)>) -> (r: Vec<(KittyId, Kitty)>)
    ensures
        migrated_all_v0(old@, r@),
{
    let name: KittyName = [0x31, 0x32, 0x33, 0x34, 0x35, 0x36, 0x37, 0x38];
    assert(name@ =~= v0_default_name());
    let mut r: Vec<(KittyId, Kitty)> = Vec::new();
    let mut i: usize = 0;
    while i < old.len()
        invariant
            i <= old@.len(),
            name@ == v0_default_name(),
            r@.len() == i,
            forall|j: int|
                0 <= j < i ==> #[trigger] r@[j].0 == old@[j].0 && r@[j].1@ == migrated_v0(
                    old@[j].1,
                ),
        decreases old@.len() - i,
    {
        let (kitty_id, kitty_old) = old[i];
        r.push((kitty_id, Kitty { name, dna: kitty_old.0 }));
        i = i + 1;
    }
    r
}

} // verus!
