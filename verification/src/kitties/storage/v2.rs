//! The current layout of a stored kitty: an eight-byte name and its DNA.
use vstd::prelude::*;
use super::v1;

verus! {

/// The storage version of this layout.
pub const STORAGE_VERSION: u16 = 2;

/// The identifier of a kitty.
pub type KittyId = v1::KittyId;

/// The DNA of a kitty.
pub type KittyDna = v1::KittyDna;

/// The name of a kitty.
pub type KittyName = [u8; 8];

/// A kitty.
#[derive(Clone, Copy, PartialEq, Eq, Debug, Default)]
pub struct Kitty {
    pub name: KittyName,
    pub dna: KittyDna,
}

/// A kitty, with its name and DNA as sequences of bytes.
pub struct KittyView {
    pub name: Seq<u8>,
    pub dna: Seq<u8>,
}

impl View for Kitty {
    type V = KittyView;

    open spec fn view(&self) -> KittyView {
        KittyView { name: self.name@, dna: self.dna@ }
    }
}

} // verus!
