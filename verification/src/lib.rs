//! Verified models of a set of Substrate pallets and an ink! ERC-20 contract.
//!
//! Each pallet's on-chain storage is held by a `Pallet` value whose methods are the
//! pallet's dispatchable calls; host-provided context (the caller, the block number,
//! chain randomness, the result of a currency transfer) is passed in explicitly.
pub mod app_crypto;
pub mod claims;
pub mod dispatch;
pub mod encoding;
pub mod erc20;
pub mod kitties;
pub mod lesson1_poe;
pub mod ocw_homework;
pub mod ocw_tutorials;
pub mod poe;
