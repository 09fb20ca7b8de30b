use vstd::prelude::*;

use crate::block::{hash_tree_root, spec_signing_root, BeaconBlock, ProposalSignedData};
use crate::config::{spec_epoch_of, ChainSpec};
use crate::history::{lemma_allowed_record_consistent, ProductionRecord, SigningHistory};
use crate::traits::{
    BeaconNode, BeaconNodeError, ClockReading, DutiesReader, DutiesReaderError, Signer, SlotClock,
};

verus! {

/// The closed set of successful outcomes of one poll. Each carries the slot
/// it applies to. These mean "nothing to do, or a deliberate safety stop";
/// anything broken is an [`Error`] instead.
#[derive(Clone, Copy, Debug, PartialEq, Eq, Structural)]
pub enum PollOutcome {
    /// A new block was produced.
    BlockProduced(u64),
    /// A block was not produced as it would have been slashable.
    SlashableBlockNotProduced(u64),
    /// The validator duties did not require a block to be produced.
    BlockProductionNotRequired(u64),
    /// The duties for the present epoch were not found.
    ProducerDutiesUnknown(u64),
    /// The slot has already been processed, execution was skipped.
    SlotAlreadyProcessed(u64),
    /// The beacon node was unable to produce a block at that slot.
    BeaconNodeUnableToProduceBlock(u64),
    /// The signer declined to sign the message.
    SignerRejection(u64),
}

/// The closed set of fatal conditions of one poll.
#[derive(Clone, Copy, Debug, PartialEq, Eq, Structural)]
pub enum Error {
    /// The slot clock failed internally.
    SlotClockError,
    /// The present time is unknowable relative to genesis.
    SlotUnknowable,
    /// A writer failed while holding the lock around the duties map.
    EpochMapPoisoned,
    /// A writer failed while holding the lock around the slot clock.
    SlotClockPoisoned,
    /// The chain configuration carries a zero epoch length.
    EpochLengthIsZero,
    /// A beacon-node failure, propagated wrapped and unmodified.
    BeaconNodeError(BeaconNodeError),
}

impl From<BeaconNodeError> for Error {
    fn from(e: BeaconNodeError) -> (r: Error) {
        Error::BeaconNodeError(e)
    }
}

impl vstd::std_specs::convert::FromSpecImpl<BeaconNodeError> for Error {
    open spec fn obeys_from_spec() -> bool {
        true
    }

    open spec fn from_spec(e: BeaconNodeError) -> Error {
        Error::BeaconNodeError(e)
    }
}

/// A polling state machine which performs block-production duties, based
/// upon some epoch duties and a concept of time.
///
/// Owns a monotonically advancing `last_processed_slot` and the handles to
/// its four collaborators plus the immutable chain configuration. Relies
/// upon an external service to keep the duties source updated. One instance
/// serves one validator key; calls to `poll` must be serialised per
/// instance.
pub struct BlockProducer<T: SlotClock, U: BeaconNode, V: DutiesReader, W: Signer> {
    /// The newest slot for which production was required and attempted.
    pub last_processed_slot: u64,
    /// Immutable chain configuration.
    pub config: ChainSpec,
    /// Duties source, read-only here.
    pub epoch_map: V,
    /// Time source, read-only here.
    pub slot_clock: T,
    /// Beacon-node client, held exclusively.
    pub beacon_node: U,
    /// Signer for proposal roots.
    pub signer: W,
    /// Slashing-history store consulted by the safety gate.
    pub history: SigningHistory,
}

impl<T: SlotClock, U: BeaconNode, V: DutiesReader, W: Signer> BlockProducer<T, U, V, W> {
    /// The collaborators and configuration that no poll ever replaces.
    pub open spec fn steady_fields(pre: Self, post: Self) -> bool {
        &&& post.config == pre.config
        &&& post.slot_clock == pre.slot_clock
        &&& post.epoch_map == pre.epoch_map
        &&& post.signer == pre.signer
    }

    /// How one signing attempt for `block` relates the history before it to
    /// the history after it, and what it returns. A record is committed only
    /// after a signature was actually obtained.
    pub open spec fn sign_rel(
        config: ChainSpec,
        sgn: W,
        hist0: SigningHistory,
        block: BeaconBlock,
        hist1: SigningHistory,
        r: Option<BeaconBlock>,
    ) -> bool {
        let root = spec_signing_root(config, block);
        match sgn.signature_for(root) {
            None => {
                &&& hist1 == hist0
                &&& r is None
            },
            Some(sig) => {
                &&& hist1.records@ == hist0.records@.push(
                    ProductionRecord { slot: block.slot, signing_root: root },
                )
                &&& r == Some(
                    BeaconBlock {
                        slot: block.slot,
                        parent_root: block.parent_root,
                        state_root: block.state_root,
                        signature: sig,
                    },
                )
            },
        }
    }

    /// How the production path — produce, gate, sign, publish — relates the
    /// beacon node and the history before it to their states after it, and
    /// what it returns.
    pub open spec fn produce_rel(
        config: ChainSpec,
        node0: U,
        sgn: W,
        hist0: SigningHistory,
        slot: u64,
        node1: U,
        hist1: SigningHistory,
        r: Result<PollOutcome, Error>,
    ) -> bool {
        match node0.produce_answer(slot) {
            Err(e) => {
                &&& U::produce_step(node0, node1, slot)
                &&& hist1 == hist0
                &&& r == Err::<PollOutcome, Error>(Error::BeaconNodeError(e))
            },
            Ok(None) => {
                &&& U::produce_step(node0, node1, slot)
                &&& hist1 == hist0
                &&& r == Ok::<PollOutcome, Error>(PollOutcome::BeaconNodeUnableToProduceBlock(slot))
            },
            Ok(Some(block)) => {
                let root = spec_signing_root(config, block);
                if !hist0.allows(block.slot, root) {
                    &&& U::produce_step(node0, node1, slot)
                    &&& hist1 == hist0
                    &&& r == Ok::<PollOutcome, Error>(PollOutcome::SlashableBlockNotProduced(slot))
                } else {
                    match sgn.signature_for(root) {
                        None => {
                            &&& U::produce_step(node0, node1, slot)
                            &&& hist1 == hist0
                            &&& r == Ok::<PollOutcome, Error>(PollOutcome::SignerRejection(slot))
                        },
                        Some(sig) => {
                            let signed = BeaconBlock {
                                slot: block.slot,
                                parent_root: block.parent_root,
                                state_root: block.state_root,
                                signature: sig,
                            };
                            &&& hist1.records@ == hist0.records@.push(
                                ProductionRecord { slot: block.slot, signing_root: root },
                            )
                            &&& exists|mid: U|
                                {
                                    &&& #[trigger] U::produce_step(node0, mid, slot)
                                    &&& U::publish_step(mid, node1, signed)
                                    &&& match mid.publish_answer(signed) {
                                        Err(e) => r == Err::<PollOutcome, Error>(
                                            Error::BeaconNodeError(e),
                                        ),
                                        Ok(_) => r == Ok::<PollOutcome, Error>(
                                            PollOutcome::BlockProduced(slot),
                                        ),
                                    }
                                }
                        },
                    }
                }
            },
        }
    }

    /// The full poll transition: what one call to `poll` on state `pre` may
    /// leave behind and return.
    pub open spec fn poll_rel(pre: Self, post: Self, r: Result<PollOutcome, Error>) -> bool {
        match pre.slot_clock.reading() {
            ClockReading::Poisoned => post == pre && r == Err::<PollOutcome, Error>(
                Error::SlotClockPoisoned,
            ),
            ClockReading::Fault => post == pre && r == Err::<PollOutcome, Error>(
                Error::SlotClockError,
            ),
            ClockReading::Unknown => post == pre && r == Err::<PollOutcome, Error>(
                Error::SlotUnknowable,
            ),
            ClockReading::Present(slot) => {
                if pre.config.epoch_length == 0 {
                    post == pre && r == Err::<PollOutcome, Error>(Error::EpochLengthIsZero)
                } else if slot <= pre.last_processed_slot {
                    post == pre && r == Ok::<PollOutcome, Error>(
                        PollOutcome::SlotAlreadyProcessed(slot),
                    )
                } else {
                    match pre.epoch_map.production_duty(
                        spec_epoch_of(slot, pre.config.epoch_length),
                        slot,
                    ) {
                        Err(DutiesReaderError::UnknownEpoch) => post == pre && r == Ok::<
                            PollOutcome,
                            Error,
                        >(PollOutcome::ProducerDutiesUnknown(slot)),
                        Err(DutiesReaderError::Poisoned) => post == pre && r == Err::<
                            PollOutcome,
                            Error,
                        >(Error::EpochMapPoisoned),
                        Ok(false) => post == pre && r == Ok::<PollOutcome, Error>(
                            PollOutcome::BlockProductionNotRequired(slot),
                        ),
                        Ok(true) => {
                            &&& Self::steady_fields(pre, post)
                            &&& post.last_processed_slot == slot
                            &&& Self::produce_rel(
                                pre.config,
                                pre.beacon_node,
                                pre.signer,
                                pre.history,
                                slot,
                                post.beacon_node,
                                post.history,
                                r,
                            )
                        },
                    }
                }
            },
        }
    }

    /// Returns a new instance where `last_processed_slot == 0` and the
    /// signing history is empty.
    pub fn new(config: ChainSpec, epoch_map: V, slot_clock: T, beacon_node: U, signer: W) -> (p:
        Self)
        ensures
            p.last_processed_slot == 0,
            p.config == config,
            p.epoch_map == epoch_map,
            p.slot_clock == slot_clock,
            p.beacon_node == beacon_node,
            p.signer == signer,
            p.history.records@ == Seq::<ProductionRecord>::empty(),
            p.history.consistent(),
    {
        Self {
            last_processed_slot: 0,
            config,
            epoch_map,
            slot_clock,
            beacon_node,
            signer,
            history: SigningHistory::new(),
        }
    }

    /// "Poll" to see if the validator is required to take any action.
    ///
    /// The slot clock is read and any new actions undertaken; the entire
    /// transition is pinned by [`Self::poll_rel`].
    pub fn poll(&mut self) -> (r: Result<PollOutcome, Error>)
        ensures
            Self::poll_rel(*old(self), *final(self), r),
    {
        let reading = self.slot_clock.present_slot();
        match reading {
            ClockReading::Poisoned => Err(Error::SlotClockPoisoned),
            ClockReading::Fault => Err(Error::SlotClockError),
            ClockReading::Unknown => Err(Error::SlotUnknowable),
            ClockReading::Present(slot) => {
                if self.config.epoch_length == 0 {
                    return Err(Error::EpochLengthIsZero);
                }
                let epoch: u64 = slot / self.config.epoch_length;
                // If this is a new slot.
                if slot > self.last_processed_slot {
                    let is_block_production_slot = match self.epoch_map.is_block_production_slot(
                        epoch,
                        slot,
                    ) {
                        Ok(result) => result,
                        Err(DutiesReaderError::UnknownEpoch) => {
                            return Ok(PollOutcome::ProducerDutiesUnknown(slot));
                        },
                        Err(DutiesReaderError::Poisoned) => {
                            return Err(Error::EpochMapPoisoned);
                        },
                    };
                    if is_block_production_slot {
                        self.last_processed_slot = slot;
                        self.produce_block(slot)
                    } else {
                        Ok(PollOutcome::BlockProductionNotRequired(slot))
                    }
                } else {
                    Ok(PollOutcome::SlotAlreadyProcessed(slot))
                }
            },
        }
    }

    /// Produce a block at some slot.
    ///
    /// Assumes that a block is required at this slot (does not check the
    /// duties). The safety gate stands between production and signing, and a
    /// candidate that it refuses is discarded, never published, never
    /// recorded.
    fn produce_block(&mut self, slot: u64) -> (r: Result<PollOutcome, Error>)
        ensures
            Self::steady_fields(*old(self), *final(self)),
            final(self).last_processed_slot == old(self).last_processed_slot,
            Self::produce_rel(
                old(self).config,
                old(self).beacon_node,
                old(self).signer,
                old(self).history,
                slot,
                final(self).beacon_node,
                final(self).history,
                r,
            ),
    {
        match self.beacon_node.produce_beacon_block(slot) {
            Err(e) => Err(Error::from(e)),
            Ok(None) => Ok(PollOutcome::BeaconNodeUnableToProduceBlock(slot)),
            Ok(Some(block)) => {
                let ghost mid_node = self.beacon_node;
                if self.safe_to_produce(&block) {
                    match self.sign_block(block) {
                        None => Ok(PollOutcome::SignerRejection(slot)),
                        Some(signed) => {
                            match self.beacon_node.publish_beacon_block(signed) {
                                Err(e) => {
                                    proof {
                                        assert(U::produce_step(
                                            old(self).beacon_node,
                                            mid_node,
                                            slot,
                                        ));
                                    }
                                    Err(Error::from(e))
                                },
                                Ok(_) => {
                                    proof {
                                        assert(U::produce_step(
                                            old(self).beacon_node,
                                            mid_node,
                                            slot,
                                        ));
                                    }
                                    Ok(PollOutcome::BlockProduced(slot))
                                },
                            }
                        },
                    }
                } else {
                    Ok(PollOutcome::SlashableBlockNotProduced(slot))
                }
            },
        }
    }

    /// Consumes a block, returning that block signed by the validator's key,
    /// or `None` when the signer declines.
    ///
    /// Important: this function does not check that the block is not
    /// slashable; that is done upstream, by the safety gate. On success the
    /// attempt is committed to the history and the signature is attached to
    /// the otherwise unmodified block.
    fn sign_block(&mut self, block: BeaconBlock) -> (r: Option<BeaconBlock>)
        ensures
            Self::steady_fields(*old(self), *final(self)),
            final(self).last_processed_slot == old(self).last_processed_slot,
            final(self).beacon_node == old(self).beacon_node,
            Self::sign_rel(
                old(self).config,
                old(self).signer,
                old(self).history,
                block,
                final(self).history,
                r,
            ),
    {
        let proposal_root = {
            let block_without_signature_root = {
                let mut block_without_signature = block;
                block_without_signature.signature = self.config.empty_signature;
                block_without_signature.canonical_root()
            };
            let proposal = ProposalSignedData {
                slot: block.slot,
                shard: self.config.beacon_chain_shard_number,
                block_root: block_without_signature_root,
            };
            hash_tree_root(&proposal)
        };
        match self.signer.bls_sign(&proposal_root) {
            None => None,
            Some(signature) => {
                self.store_produce(&block);
                let mut signed = block;
                signed.signature = signature;
                Some(signed)
            },
        }
    }

    /// Returns `true` if signing this block is safe (non-slashable): no
    /// committed attempt at the same slot carries a different signing root.
    fn safe_to_produce(&self, block: &BeaconBlock) -> (b: bool)
        ensures
            b == self.history.allows(block.slot, spec_signing_root(self.config, *block)),
    {
        let root = crate::block::signing_root(&self.config, block);
        self.history.permits(block.slot, root)
    }

    /// One poll never lowers `last_processed_slot`, and raises it only to
    /// the slot that the clock reported.
    pub proof fn lemma_poll_monotonic(pre: Self, post: Self, r: Result<PollOutcome, Error>)
        requires
            Self::poll_rel(pre, post, r),
        ensures
            pre.last_processed_slot <= post.last_processed_slot,
            post.last_processed_slot != pre.last_processed_slot ==> pre.slot_clock.reading()
                == ClockReading::Present(post.last_processed_slot),
            post.slot_clock == pre.slot_clock,
    {
    }

    /// Poisoning propagation: a poisoned clock lock yields the
    /// clock-poisoned error and leaves every part of the producer — in
    /// particular the beacon node — untouched.
    pub proof fn lemma_clock_poisoned(pre: Self, post: Self, r: Result<PollOutcome, Error>)
        requires
            Self::poll_rel(pre, post, r),
            pre.slot_clock.reading() == ClockReading::Poisoned,
        ensures
            r == Err::<PollOutcome, Error>(Error::SlotClockPoisoned),
            post == pre,
    {
    }

    /// Duties-unknown gate: while the duties for a slot's epoch are
    /// unresolved, a poll leaves the producer exactly as it was — the beacon
    /// node is never called and `last_processed_slot` never advances — and
    /// a new slot reports "duties unknown".
    pub proof fn lemma_duties_unknown_gate(
        pre: Self,
        post: Self,
        r: Result<PollOutcome, Error>,
        slot: u64,
    )
        requires
            Self::poll_rel(pre, post, r),
            pre.slot_clock.reading() == ClockReading::Present(slot),
            pre.config.epoch_length != 0,
            pre.epoch_map.production_duty(spec_epoch_of(slot, pre.config.epoch_length), slot)
                == Err::<bool, DutiesReaderError>(DutiesReaderError::UnknownEpoch),
        ensures
            post == pre,
            slot > pre.last_processed_slot ==> r == Ok::<PollOutcome, Error>(
                PollOutcome::ProducerDutiesUnknown(slot),
            ),
            slot <= pre.last_processed_slot ==> r == Ok::<PollOutcome, Error>(
                PollOutcome::SlotAlreadyProcessed(slot),
            ),
    {
    }

    /// The hypotheses of the trace lemmas: `pres[i]` steps to `posts[i]`
    /// with result `results[i]` under clock reading `readings[i]`, the
    /// driving loop between two polls may replace anything but
    /// `last_processed_slot` (which only `poll` itself moves), and the
    /// readings never go backwards.
    pub open spec fn trace_ok(
        pres: Seq<Self>,
        posts: Seq<Self>,
        results: Seq<Result<PollOutcome, Error>>,
        readings: Seq<u64>,
    ) -> bool {
        &&& posts.len() == pres.len()
        &&& results.len() == pres.len()
        &&& readings.len() == pres.len()
        &&& forall|i: int|
            #![trigger posts[i]]
            0 <= i < pres.len() ==> Self::poll_rel(pres[i], posts[i], results[i])
        &&& forall|i: int|
            #![trigger pres[i]]
            0 <= i < pres.len() ==> pres[i].slot_clock.reading() == ClockReading::Present(
                readings[i],
            )
        &&& forall|i: int|
            #![trigger pres[i + 1]]
            0 <= i < pres.len() - 1 ==> pres[i + 1].last_processed_slot
                == posts[i].last_processed_slot
        &&& forall|i: int|
            #![trigger readings[i]]
            0 <= i < readings.len() - 1 ==> readings[i] <= readings[i + 1]
    }

    /// `last_processed_slot` after the `i`-th poll of a trace never exceeds
    /// the slot observed by that poll.
    proof fn lemma_trace_bound(
        pres: Seq<Self>,
        posts: Seq<Self>,
        results: Seq<Result<PollOutcome, Error>>,
        readings: Seq<u64>,
        i: int,
    )
        requires
            Self::trace_ok(pres, posts, results, readings),
            pres.len() > 0,
            pres[0].last_processed_slot <= readings[0],
            0 <= i < pres.len(),
        ensures
            pres[i].last_processed_slot <= readings[i],
            posts[i].last_processed_slot <= readings[i],
        decreases i,
    {
        if i > 0 {
            Self::lemma_trace_bound(pres, posts, results, readings, i - 1);
            assert(readings[i - 1] <= readings[i]);
        }
        Self::lemma_poll_monotonic(pres[i], posts[i], results[i]);
    }

    /// Monotonicity over a whole trace: for any sequence of polls with
    /// non-decreasing slot readings, starting no further than the first
    /// reading, `last_processed_slot` is non-decreasing and never exceeds
    /// the most recently observed slot. A fresh producer starts at zero, so
    /// it satisfies the starting condition against any reading.
    pub proof fn lemma_trace_monotonic(
        pres: Seq<Self>,
        posts: Seq<Self>,
        results: Seq<Result<PollOutcome, Error>>,
        readings: Seq<u64>,
    )
        requires
            Self::trace_ok(pres, posts, results, readings),
            pres.len() > 0,
            pres[0].last_processed_slot <= readings[0],
        ensures
            forall|i: int|
                #![trigger posts[i]]
                0 <= i < posts.len() - 1 ==> posts[i].last_processed_slot <= posts[i
                    + 1].last_processed_slot,
            forall|i: int|
                #![trigger posts[i]]
                0 <= i < posts.len() ==> posts[i].last_processed_slot <= readings[i],
    {
        assert forall|i: int|
            0 <= i < posts.len() - 1 implies #[trigger] posts[i].last_processed_slot <= posts[i
            + 1].last_processed_slot by {
            Self::lemma_poll_monotonic(pres[i + 1], posts[i + 1], results[i + 1]);
        }
        assert forall|i: int|
            0 <= i < posts.len() implies #[trigger] posts[i].last_processed_slot
            <= readings[i] by {
            Self::lemma_trace_bound(pres, posts, results, readings, i);
        }
    }

    /// Idempotence: after a poll produced a block at `slot`, a second poll
    /// under the same clock reading returns "slot already processed" and
    /// changes nothing — in particular it makes zero additional beacon-node
    /// calls, since the node's state is exactly preserved.
    pub proof fn lemma_poll_idempotent(
        pre: Self,
        post: Self,
        post2: Self,
        r2: Result<PollOutcome, Error>,
        slot: u64,
    )
        requires
            Self::poll_rel(pre, post, Ok(PollOutcome::BlockProduced(slot))),
            pre.slot_clock.reading() == ClockReading::Present(slot),
            Self::poll_rel(post, post2, r2),
        ensures
            r2 == Ok::<PollOutcome, Error>(PollOutcome::SlotAlreadyProcessed(slot)),
            post2 == post,
    {
    }

    /// Safety gate: when the predicate denies the candidate, the outcome is
    /// "slashable, not produced", nothing is recorded, and the beacon node
    /// has only seen the produce call — publish is never invoked.
    pub proof fn lemma_safety_gate(
        pre: Self,
        post: Self,
        r: Result<PollOutcome, Error>,
        slot: u64,
        block: BeaconBlock,
    )
        requires
            Self::poll_rel(pre, post, r),
            pre.slot_clock.reading() == ClockReading::Present(slot),
            pre.config.epoch_length != 0,
            slot > pre.last_processed_slot,
            pre.epoch_map.production_duty(spec_epoch_of(slot, pre.config.epoch_length), slot)
                == Ok::<bool, DutiesReaderError>(true),
            pre.beacon_node.produce_answer(slot) == Ok::<Option<BeaconBlock>, BeaconNodeError>(
                Some(block),
            ),
            !pre.history.allows(block.slot, spec_signing_root(pre.config, block)),
        ensures
            r == Ok::<PollOutcome, Error>(PollOutcome::SlashableBlockNotProduced(slot)),
            U::produce_step(pre.beacon_node, post.beacon_node, slot),
            post.history == pre.history,
            post.last_processed_slot == slot,
    {
    }

    /// Signer rejection: when signing declines, the outcome is "signer
    /// rejection", nothing is recorded, and the beacon node has only seen
    /// the produce call — publish is never invoked.
    pub proof fn lemma_signer_rejection(
        pre: Self,
        post: Self,
        r: Result<PollOutcome, Error>,
        slot: u64,
        block: BeaconBlock,
    )
        requires
            Self::poll_rel(pre, post, r),
            pre.slot_clock.reading() == ClockReading::Present(slot),
            pre.config.epoch_length != 0,
            slot > pre.last_processed_slot,
            pre.epoch_map.production_duty(spec_epoch_of(slot, pre.config.epoch_length), slot)
                == Ok::<bool, DutiesReaderError>(true),
            pre.beacon_node.produce_answer(slot) == Ok::<Option<BeaconBlock>, BeaconNodeError>(
                Some(block),
            ),
            pre.history.allows(block.slot, spec_signing_root(pre.config, block)),
            pre.signer.signature_for(spec_signing_root(pre.config, block)) is None,
        ensures
            r == Ok::<PollOutcome, Error>(PollOutcome::SignerRejection(slot)),
            U::produce_step(pre.beacon_node, post.beacon_node, slot),
            post.history == pre.history,
            post.last_processed_slot == slot,
    {
    }

    /// A successful production outcome certifies the whole pipeline: the
    /// slot was due, a candidate was produced, the safety gate allowed it,
    /// and the signer signed it — all three, in that order, before publish.
    pub proof fn lemma_produced_implies_gated(
        pre: Self,
        post: Self,
        r: Result<PollOutcome, Error>,
        slot: u64,
    )
        requires
            Self::poll_rel(pre, post, r),
            r == Ok::<PollOutcome, Error>(PollOutcome::BlockProduced(slot)),
        ensures
            pre.slot_clock.reading() == ClockReading::Present(slot),
            pre.config.epoch_length != 0,
            slot > pre.last_processed_slot,
            pre.epoch_map.production_duty(spec_epoch_of(slot, pre.config.epoch_length), slot)
                == Ok::<bool, DutiesReaderError>(true),
            pre.beacon_node.produce_answer(slot) matches Ok(Some(block)) && {
                let root = spec_signing_root(pre.config, block);
                &&& pre.history.allows(block.slot, root)
                &&& pre.signer.signature_for(root) is Some
                &&& post.history.records@ == pre.history.records@.push(
                    ProductionRecord { slot: block.slot, signing_root: root },
                )
            },
    {
    }

    /// The safety invariant of the store: a poll never leaves two records
    /// that disagree on the root of one slot, since every record passes the
    /// safety predicate before it is committed.
    pub proof fn lemma_poll_preserves_consistency(
        pre: Self,
        post: Self,
        r: Result<PollOutcome, Error>,
    )
        requires
            Self::poll_rel(pre, post, r),
            pre.history.consistent(),
        ensures
            post.history.consistent(),
    {
        match pre.slot_clock.reading() {
            ClockReading::Present(slot) => {
                if pre.config.epoch_length != 0 && slot > pre.last_processed_slot {
                    match pre.epoch_map.production_duty(
                        spec_epoch_of(slot, pre.config.epoch_length),
                        slot,
                    ) {
                        Ok(true) => {
                            match pre.beacon_node.produce_answer(slot) {
                                Ok(Some(block)) => {
                                    let root = spec_signing_root(pre.config, block);
                                    if pre.history.allows(block.slot, root)
                                        && pre.signer.signature_for(root) is Some {
                                        lemma_allowed_record_consistent(
                                            pre.history,
                                            block.slot,
                                            root,
                                        );
                                    }
                                },
                                _ => {},
                            }
                        },
                        _ => {},
                    }
                }
            },
            _ => {},
        }
    }

    /// Record that a signature was obtained for this block, so that future
    /// safety-gate evaluations are aware of the attempt.
    fn store_produce(&mut self, block: &BeaconBlock)
        ensures
            Self::steady_fields(*old(self), *final(self)),
            final(self).last_processed_slot == old(self).last_processed_slot,
            final(self).beacon_node == old(self).beacon_node,
            final(self).history.records@ == old(self).history.records@.push(
                ProductionRecord {
                    slot: block.slot,
                    signing_root: spec_signing_root(old(self).config, *block),
                },
            ),
    {
        let root = crate::block::signing_root(&self.config, block);
        self.history.record(block.slot, root);
    }
}

} // verus!
