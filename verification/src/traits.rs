use vstd::prelude::*;

use crate::block::{BeaconBlock, Signature};
use crate::hashing::Hash256;

verus! {

/// What one read of the shared slot clock yields. The clock is held behind a
/// reader-writer lock shared with a time-advancing service; a writer that
/// failed while holding that lock surfaces here as its own variant, never
/// silently bypassed.
#[derive(Clone, Copy, Debug, PartialEq, Eq, Structural)]
pub enum ClockReading {
    /// The lock around the clock was held by a failed writer.
    Poisoned,
    /// The clock itself failed internally.
    Fault,
    /// The present time is unknowable (too early or late relative to genesis).
    Unknown,
    /// The present slot.
    Present(u64),
}

/// A source of the present slot. The producer only ever reads it.
pub trait SlotClock: Sized {
    /// The reading that the next call to `present_slot` returns.
    spec fn reading(&self) -> ClockReading;

    /// Read the present slot.
    fn present_slot(&self) -> (r: ClockReading)
        ensures
            r == self.reading(),
    ;
}

/// Why a duties source could not answer.
#[derive(Clone, Copy, Debug, PartialEq, Eq, Structural)]
pub enum DutiesReaderError {
    /// The duties for the asked epoch have not been resolved yet.
    UnknownEpoch,
    /// A writer failed while holding the lock around the duties map.
    Poisoned,
}

/// A source of per-epoch production duties, populated out-of-band by an
/// independent duties manager. The producer only ever reads it.
pub trait DutiesReader: Sized {
    /// The answer that `is_block_production_slot` returns for `(epoch, slot)`.
    spec fn production_duty(&self, epoch: u64, slot: u64) -> Result<bool, DutiesReaderError>;

    /// Whether this validator must produce a block at `slot` of `epoch`.
    fn is_block_production_slot(&self, epoch: u64, slot: u64) -> (r: Result<
        bool,
        DutiesReaderError,
    >)
        ensures
            r == self.production_duty(epoch, slot),
    ;
}

/// A fatal failure of the beacon-node collaborator.
#[derive(Clone, Copy, Debug, PartialEq, Eq, Structural)]
pub enum BeaconNodeError {
    /// The remote call failed.
    RemoteFailure,
    /// The remote answer could not be decoded.
    DecodeFailure,
}

/// A beacon-node client: produces candidate blocks and publishes signed ones.
///
/// The producer holds its node exclusively, so each call may advance the
/// node's internal state; the two step relations name exactly that change,
/// which lets a caller's contract say that no further call was made.
pub trait BeaconNode: Sized {
    /// The answer that `produce_beacon_block` returns in the current state.
    spec fn produce_answer(&self, slot: u64) -> Result<Option<BeaconBlock>, BeaconNodeError>;

    /// How one `produce_beacon_block` call relates the state before it to the
    /// state after it.
    spec fn produce_step(pre: Self, post: Self, slot: u64) -> bool;

    /// The answer that `publish_beacon_block` returns in the current state.
    spec fn publish_answer(&self, block: BeaconBlock) -> Result<bool, BeaconNodeError>;

    /// How one `publish_beacon_block` call relates the state before it to the
    /// state after it.
    spec fn publish_step(pre: Self, post: Self, block: BeaconBlock) -> bool;

    /// Request a candidate block for `slot`. `Ok(None)` means the node is not
    /// ready to produce one.
    fn produce_beacon_block(&mut self, slot: u64) -> (r: Result<
        Option<BeaconBlock>,
        BeaconNodeError,
    >)
        ensures
            r == old(self).produce_answer(slot),
            Self::produce_step(*old(self), *final(self), slot),
    ;

    /// Publish a signed block.
    fn publish_beacon_block(&mut self, block: BeaconBlock) -> (r: Result<bool, BeaconNodeError>)
        ensures
            r == old(self).publish_answer(block),
            Self::publish_step(*old(self), *final(self), block),
    ;
}

/// A signer over 32-byte roots. Any decline — missing key, internal refusal,
/// duplicate protection — is uniform: `None`.
pub trait Signer: Sized {
    /// The answer that `bls_sign` returns for `root`.
    spec fn signature_for(&self, root: Hash256) -> Option<Signature>;

    /// Sign `root`, or decline.
    fn bls_sign(&self, root: &Hash256) -> (r: Option<Signature>)
        ensures
            r == self.signature_for(*root),
    ;
}

} // verus!
