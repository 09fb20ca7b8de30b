use vstd::prelude::*;

use crate::block::{BeaconBlock, Signature};
use crate::hashing::Hash256;
use crate::traits::{
    BeaconNode, BeaconNodeError, ClockReading, DutiesReader, DutiesReaderError, Signer, SlotClock,
};

verus! {

/// A slot clock whose reading is set by hand.
#[derive(Clone, Copy, Debug, PartialEq, Eq, Structural)]
pub struct TestingSlotClock {
    pub current: ClockReading,
}

impl TestingSlotClock {
    pub fn new(slot: u64) -> (c: TestingSlotClock)
        ensures
            c.current == ClockReading::Present(slot),
    {
        TestingSlotClock { current: ClockReading::Present(slot) }
    }

    pub fn set_slot(&mut self, slot: u64)
        ensures
            final(self).current == ClockReading::Present(slot),
    {
        self.current = ClockReading::Present(slot);
    }

    /// Set an arbitrary reading, e.g. a poisoned or faulty one.
    pub fn set_reading(&mut self, reading: ClockReading)
        ensures
            final(self).current == reading,
    {
        self.current = reading;
    }
}

impl SlotClock for TestingSlotClock {
    open spec fn reading(&self) -> ClockReading {
        self.current
    }

    fn present_slot(&self) -> (r: ClockReading) {
        self.current
    }
}

/// The first production slot that `entries` lists for `epoch`, if any.
pub open spec fn spec_epoch_lookup(entries: Seq<(u64, u64)>, epoch: u64) -> Option<u64>
    decreases entries.len(),
{
    if entries.len() == 0 {
        None
    } else if entries[0].0 == epoch {
        Some(entries[0].1)
    } else {
        spec_epoch_lookup(entries.drop_first(), epoch)
    }
}

/// A duties source backed by a list of `(epoch, production slot)` entries.
/// An epoch without an entry is unknown; `poisoned` mimics a duties map
/// whose writer failed while holding its lock.
#[derive(Debug)]
pub struct TestEpochMap {
    pub entries: Vec<(u64, u64)>,
    pub poisoned: bool,
}

impl TestEpochMap {
    pub fn new() -> (m: TestEpochMap)
        ensures
            m.entries@ == Seq::<(u64, u64)>::empty(),
            !m.poisoned,
    {
        TestEpochMap { entries: Vec::new(), poisoned: false }
    }

    /// Declare that this validator produces at `slot` within `epoch`.
    pub fn insert(&mut self, epoch: u64, slot: u64)
        ensures
            final(self).entries@ == old(self).entries@.push((epoch, slot)),
            final(self).poisoned == old(self).poisoned,
    {
        self.entries.push((epoch, slot));
    }

    /// Mimic a writer that failed while holding the duties-map lock.
    pub fn poison(&mut self)
        ensures
            final(self).entries@ == old(self).entries@,
            final(self).poisoned,
    {
        self.poisoned = true;
    }
}

impl DutiesReader for TestEpochMap {
    open spec fn production_duty(&self, epoch: u64, slot: u64) -> Result<bool, DutiesReaderError> {
        if self.poisoned {
            Err(DutiesReaderError::Poisoned)
        } else {
            match spec_epoch_lookup(self.entries@, epoch) {
                None => Err(DutiesReaderError::UnknownEpoch),
                Some(s) => Ok(s == slot),
            }
        }
    }

    fn is_block_production_slot(&self, epoch: u64, slot: u64) -> (r: Result<
        bool,
        DutiesReaderError,
    >) {
        if self.poisoned {
            return Err(DutiesReaderError::Poisoned);
        }
        let mut i: usize = 0;
        proof {
            assert(self.entries@.skip(0) =~= self.entries@);
        }
        while i < self.entries.len()
            invariant
                !self.poisoned,
                i <= self.entries@.len(),
                spec_epoch_lookup(self.entries@, epoch) == spec_epoch_lookup(
                    self.entries@.skip(i as int),
                    epoch,
                ),
            decreases self.entries@.len() - i,
        {
            let entry = self.entries[i];
            proof {
                assert(self.entries@.skip(i as int)[0] == self.entries@[i as int]);
                assert(self.entries@.skip(i as int).drop_first() =~= self.entries@.skip(i + 1));
            }
            if entry.0 == epoch {
                proof {
                    assert(spec_epoch_lookup(self.entries@.skip(i as int), epoch) == Some(
                        entry.1,
                    ));
                }
                return Ok(entry.1 == slot);
            }
            i = i + 1;
        }
        proof {
            assert(self.entries@.skip(self.entries@.len() as int).len() == 0);
        }
        Err(DutiesReaderError::UnknownEpoch)
    }
}

/// A beacon node that answers from queues set up in advance and records
/// every call made to it. An empty queue answers a remote failure.
#[derive(Debug)]
pub struct TestBeaconNode {
    /// Queued answers to `produce_beacon_block`, consumed front first.
    pub produce_results: Vec<Result<Option<BeaconBlock>, BeaconNodeError>>,
    /// Queued answers to `publish_beacon_block`, consumed front first.
    pub publish_results: Vec<Result<bool, BeaconNodeError>>,
    /// The slots that `produce_beacon_block` was called with, in order.
    pub produce_calls: Vec<u64>,
    /// The blocks that `publish_beacon_block` was called with, in order.
    pub publish_calls: Vec<BeaconBlock>,
}

impl TestBeaconNode {
    pub fn new() -> (n: TestBeaconNode)
        ensures
            n.produce_results@ == Seq::<Result<Option<BeaconBlock>, BeaconNodeError>>::empty(),
            n.publish_results@ == Seq::<Result<bool, BeaconNodeError>>::empty(),
            n.produce_calls@ == Seq::<u64>::empty(),
            n.publish_calls@ == Seq::<BeaconBlock>::empty(),
    {
        TestBeaconNode {
            produce_results: Vec::new(),
            publish_results: Vec::new(),
            produce_calls: Vec::new(),
            publish_calls: Vec::new(),
        }
    }

    /// Queue the answer for the next `produce_beacon_block` call.
    pub fn set_next_produce_result(
        &mut self,
        result: Result<Option<BeaconBlock>, BeaconNodeError>,
    )
        ensures
            final(self).produce_results@ == old(self).produce_results@.push(result),
            final(self).publish_results@ == old(self).publish_results@,
            final(self).produce_calls@ == old(self).produce_calls@,
            final(self).publish_calls@ == old(self).publish_calls@,
    {
        self.produce_results.push(result);
    }

    /// Queue the answer for the next `publish_beacon_block` call.
    pub fn set_next_publish_result(&mut self, result: Result<bool, BeaconNodeError>)
        ensures
            final(self).produce_results@ == old(self).produce_results@,
            final(self).publish_results@ == old(self).publish_results@.push(result),
            final(self).produce_calls@ == old(self).produce_calls@,
            final(self).publish_calls@ == old(self).publish_calls@,
    {
        self.publish_results.push(result);
    }
}

impl Default for TestBeaconNode {
    fn default() -> (n: TestBeaconNode)
        ensures
            n.produce_results@ == Seq::<Result<Option<BeaconBlock>, BeaconNodeError>>::empty(),
            n.publish_results@ == Seq::<Result<bool, BeaconNodeError>>::empty(),
            n.produce_calls@ == Seq::<u64>::empty(),
            n.publish_calls@ == Seq::<BeaconBlock>::empty(),
    {
        TestBeaconNode::new()
    }
}

impl BeaconNode for TestBeaconNode {
    open spec fn produce_answer(&self, slot: u64) -> Result<Option<BeaconBlock>, BeaconNodeError> {
        if self.produce_results@.len() == 0 {
            Err(BeaconNodeError::RemoteFailure)
        } else {
            self.produce_results@[0]
        }
    }

    open spec fn produce_step(pre: Self, post: Self, slot: u64) -> bool {
        &&& post.produce_results@ == if pre.produce_results@.len() == 0 {
            pre.produce_results@
        } else {
            pre.produce_results@.drop_first()
        }
        &&& post.publish_results@ == pre.publish_results@
        &&& post.produce_calls@ == pre.produce_calls@.push(slot)
        &&& post.publish_calls@ == pre.publish_calls@
    }

    open spec fn publish_answer(&self, block: BeaconBlock) -> Result<bool, BeaconNodeError> {
        if self.publish_results@.len() == 0 {
            Err(BeaconNodeError::RemoteFailure)
        } else {
            self.publish_results@[0]
        }
    }

    open spec fn publish_step(pre: Self, post: Self, block: BeaconBlock) -> bool {
        &&& post.produce_results@ == pre.produce_results@
        &&& post.publish_results@ == if pre.publish_results@.len() == 0 {
            pre.publish_results@
        } else {
            pre.publish_results@.drop_first()
        }
        &&& post.produce_calls@ == pre.produce_calls@
        &&& post.publish_calls@ == pre.publish_calls@.push(block)
    }

    fn produce_beacon_block(&mut self, slot: u64) -> (r: Result<
        Option<BeaconBlock>,
        BeaconNodeError,
    >) {
        self.produce_calls.push(slot);
        if self.produce_results.len() > 0 {
            let answer = self.produce_results.remove(0);
            proof {
                assert(old(self).produce_results@.remove(0) =~= old(
                    self,
                ).produce_results@.drop_first());
            }
            answer
        } else {
            Err(BeaconNodeError::RemoteFailure)
        }
    }

    fn publish_beacon_block(&mut self, block: BeaconBlock) -> (r: Result<bool, BeaconNodeError>) {
        self.publish_calls.push(block);
        if self.publish_results.len() > 0 {
            let answer = self.publish_results.remove(0);
            proof {
                assert(old(self).publish_results@.remove(0) =~= old(
                    self,
                ).publish_results@.drop_first());
            }
            answer
        } else {
            Err(BeaconNodeError::RemoteFailure)
        }
    }
}

/// The signature that a [`TestSigner`] with `key` gives to `root`.
pub open spec fn spec_test_signature(key: u64, root: Hash256) -> Signature {
    Signature { s0: key ^ root.w0, s1: key ^ root.w1, s2: key ^ root.w2, s3: key ^ root.w3 }
}

/// A signer that folds its key over the root, or declines when told to.
#[derive(Clone, Copy, Debug, PartialEq, Eq, Structural)]
pub struct TestSigner {
    pub key: u64,
    pub declines: bool,
}

impl TestSigner {
    pub fn new(key: u64) -> (s: TestSigner)
        ensures
            s.key == key,
            !s.declines,
    {
        TestSigner { key, declines: false }
    }

    /// Make every following signing request decline.
    pub fn refuse(&mut self)
        ensures
            final(self).key == old(self).key,
            final(self).declines,
    {
        self.declines = true;
    }
}

impl Signer for TestSigner {
    open spec fn signature_for(&self, root: Hash256) -> Option<Signature> {
        if self.declines {
            None
        } else {
            Some(spec_test_signature(self.key, root))
        }
    }

    fn bls_sign(&self, root: &Hash256) -> (r: Option<Signature>) {
        if self.declines {
            None
        } else {
            Some(
                Signature {
                    s0: self.key ^ root.w0,
                    s1: self.key ^ root.w1,
                    s2: self.key ^ root.w2,
                    s3: self.key ^ root.w3,
                },
            )
        }
    }
}

} // verus!
