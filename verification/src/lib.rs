//! Block-production core of a blockchain validator client.
//!
//! A [`producer::BlockProducer`] is a polling state machine: each call to
//! `poll` reads the current slot from a time source, resolves the validator's
//! duties for the slot's epoch, and — when a block is due — obtains a
//! candidate block from a beacon node, gates it against a slashing-safety
//! predicate, signs it and publishes it. Every exit path is one of a closed
//! set of outcomes or a closed set of fatal errors, and the whole transition
//! is captured by a single specification relation that the proofs in
//! [`producer`] build on.

pub mod block;
pub mod config;
pub mod hashing;
pub mod history;
pub mod producer;
pub mod test_utils;
pub mod traits;

pub use block::{hash_tree_root, signing_root, BeaconBlock, ProposalSignedData, Signature};
pub use config::ChainSpec;
pub use hashing::Hash256;
pub use history::{ProductionRecord, SigningHistory};
pub use producer::{BlockProducer, Error, PollOutcome};
pub use traits::{
    BeaconNode, BeaconNodeError, ClockReading, DutiesReader, DutiesReaderError, Signer, SlotClock,
};
