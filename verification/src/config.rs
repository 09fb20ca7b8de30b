use vstd::prelude::*;

use crate::block::Signature;

verus! {

/// Immutable chain configuration, shared by the producer and its
/// collaborators and never mutated after construction.
#[derive(Clone, Copy, Debug, PartialEq, Eq, Structural)]
pub struct ChainSpec {
    /// Number of slots per epoch. A zero here is a configuration fault that
    /// every poll reports as an error.
    pub epoch_length: u64,
    /// Duration of one slot, in seconds.
    pub slot_duration: u64,
    /// Unix time of the chain's genesis, in seconds.
    pub genesis_time: u64,
    /// Shard identifier placed in every proposal record.
    pub beacon_chain_shard_number: u64,
    /// Sentinel written over a block's signature field before its canonical
    /// root is computed, so that a signature never covers itself.
    pub empty_signature: Signature,
}

/// The epoch that a slot belongs to, for a nonzero epoch length.
pub open spec fn spec_epoch_of(slot: u64, epoch_length: u64) -> u64
    recommends
        epoch_length > 0,
{
    ((slot as int) / (epoch_length as int)) as u64
}

impl ChainSpec {
    /// The slot that a clock reading `now` (Unix seconds) falls in, or `None`
    /// when the time is unknowable: before genesis, or under a zero slot
    /// duration.
    pub open spec fn spec_present_slot_at(self, now: u64) -> Option<u64> {
        if self.slot_duration == 0 || now < self.genesis_time {
            None
        } else {
            Some((((now - self.genesis_time) as int) / (self.slot_duration as int)) as u64)
        }
    }

    /// The foundation configuration: 64-slot epochs, 6-second slots.
    pub fn foundation() -> (s: ChainSpec)
        ensures
            s == (ChainSpec {
                epoch_length: 64,
                slot_duration: 6,
                genesis_time: 1606824023,
                beacon_chain_shard_number: u64::MAX,
                empty_signature: Signature { s0: 0, s1: 0, s2: 0, s3: 0 },
            }),
    {
        ChainSpec {
            epoch_length: 64,
            slot_duration: 6,
            genesis_time: 1606824023,
            beacon_chain_shard_number: u64::MAX,
            empty_signature: Signature::empty(),
        }
    }

    /// Compute the slot that the wall-clock reading `now` falls in.
    pub fn present_slot_at(&self, now: u64) -> (r: Option<u64>)
        ensures
            r == self.spec_present_slot_at(now),
    {
        if self.slot_duration == 0 || now < self.genesis_time {
            None
        } else {
            Some((now - self.genesis_time) / self.slot_duration)
        }
    }
}

} // verus!
