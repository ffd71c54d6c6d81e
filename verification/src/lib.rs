//! Canonical byte encoding, hashing and signature checking for the
//! transactions of an off-chain ledger: transfers, withdrawals and account
//! closures.
//!
//! Every executable function carries a contract over mathematical models
//! (`Seq<u8>`, `nat`, spec functions), and the contracts are proved. What is
//! taken on trust is confined to the small wrappers around the curve, hash
//! and hex crates; each of them says in its documentation what it claims.
//!
//! Three things are made outside the library and handed to it as values:
//! the compact forms of amounts and fees, the address that a key derives
//! to, and the outcome of the signature check with the Pedersen challenge.
//! The last two name the key, signature and message that they were made on,
//! and the library accepts them only for those.

pub mod account;
pub mod amount;
pub mod curve;
pub mod digest;
pub mod error;
pub mod hextext;
pub mod laws;
pub mod packed;
pub mod signature;
pub mod transaction;
pub mod wire;
