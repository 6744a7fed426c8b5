//! The first layout of a stored kitty: its DNA alone.
use vstd::prelude::*;

verus! {

/// The storage version of this layout.
pub const STORAGE_VERSION: u16 = 0;

/// The identifier of a kitty.
pub type KittyId = u32;

/// The DNA of a kitty.
pub type KittyDna = [u8; 16];

/// A kitty as this layout stores it.
#[derive(Clone, Copy, PartialEq, Eq, Debug, Default)]
pub struct Kitty(pub KittyDna);

} // verus!
