//! A verified builder for a fixed mint-and-transfer ledger transaction.
//!
//! Typed application values (an NFT's name and description, a recipient
//! address, a gas-paying coin object) are canonically encoded into an ordered
//! input list, a create command and a transfer command referencing those
//! inputs by position, and finally frozen into an immutable transaction
//! envelope ready for signing and submission.

pub mod builder;
pub mod encode;
pub mod mint;
pub mod resolve;
pub mod types;
pub mod utf8;
