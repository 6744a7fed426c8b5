//! Accounts, balances, block numbers and the origin of a dispatched call.
use vstd::prelude::*;

verus! {

/// An account, as the pallets' runtimes identify it.
pub type AccountId = u64;

/// An amount of the chain's currency.
pub type Balance = u128;

/// The number of a block.
pub type BlockNumber = u32;

/// Execution weight: computation time and proof size.
#[derive(Clone, Copy, PartialEq, Eq, Structural, Debug)]
pub struct Weight {
    pub ref_time: u64,
    pub proof_size: u64,
}

/// Who dispatched a call.
#[derive(Clone, Copy, PartialEq, Eq, Structural, Debug)]
pub enum Origin {
    /// A call signed by an account.
    Signed(AccountId),
    /// A call dispatched by the root authority.
    Root,
    /// An unsigned call (an inherent or an unsigned transaction).
    Unsigned,
}

/// The origin of the call was not the kind the call needs.
#[derive(Clone, Copy, PartialEq, Eq, Structural, Debug)]
pub struct BadOrigin;

/// The signer of `origin`, if it is signed.
pub open spec fn signer_of(origin: Origin) -> Option<AccountId> {
    match origin {
        Origin::Signed(who) => Some(who),
        _ => None,
    }
}

/// Checks that a call is signed and gives its signer.
pub fn ensure_signed(origin: Origin) -> (r: Result<AccountId, BadOrigin>)
    ensures
        r == (match signer_of(origin) {
            Some(who) => Ok(who),
            None => Err(BadOrigin),
        }),
{
    match origin {
        Origin::Signed(who) => Ok(who),
        _ => Err(BadOrigin),
    }
}

/// Checks that a call is unsigned.
pub fn ensure_none(origin: Origin) -> (r: Result<(), BadOrigin>)
    ensures
        r is Ok <==> origin == Origin::Unsigned,
{
    match origin {
        Origin::Unsigned => Ok(()),
        _ => Err(BadOrigin),
    }
}

} // verus!
