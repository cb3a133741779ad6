//! Validation core of the airdrop claim feature.
//!
//! A transaction that claims airdropped tokens reveals a nullifier and
//! carries a zero-knowledge proof that the claimant owns an unclaimed note.
//! The validity predicate decides whether such a transaction is admissible:
//! no nullifier is ever revealed twice, and every claim is backed by a proof
//! over the sapling parameters on record.
//!
//! - [`storage_key`]: the keys of nullifier records and sapling parameters;
//! - [`storage`]: a snapshot of the key-value store, and what is written to
//!   it;
//! - [`claim`]: claim data and the action log;
//! - [`zkproof`]: reading the parameters and gathering the statement for the
//!   proof verifier;
//! - [`vp`]: the validity predicate;
//! - [`tx`]: the claim operation;
//! - [`verdict`] and [`guarantees`]: the verdict on a whole transaction, and
//!   what is proved of it;
//! - [`address`], [`encoding`], [`error`]: what the others build on.

pub mod address;
pub mod claim;
pub mod encoding;
pub mod error;
pub mod guarantees;
pub mod storage;
pub mod storage_key;
pub mod tx;
pub mod verdict;
pub mod vp;
pub mod zkproof;
