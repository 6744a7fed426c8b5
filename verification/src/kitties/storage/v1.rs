//! The second layout of a stored kitty: a four-byte name and its DNA.
use vstd::prelude::*;
use super::v0;

verus! {

/// The storage version of this layout.
pub const STORAGE_VERSION: u16 = 1;

/// The identifier of a kitty.
pub type KittyId = v0::KittyId;

/// The DNA of a kitty.
pub type KittyDna = v0::KittyDna;

/// The name of a kitty in this layout.
pub type KittyName = [u8; 4];

/// A kitty as this layout stores it.
#[derive(Clone, Copy, PartialEq, Eq, Debug, Default)]
pub struct Kitty {
    pub name: KittyName,
    pub dna: KittyDna,
}

} // verus!
