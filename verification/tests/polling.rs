use block_producer::test_utils::{TestBeaconNode, TestEpochMap, TestSigner, TestingSlotClock};
use block_producer::{BeaconBlock, BlockProducer, ChainSpec, Hash256, PollOutcome, Signature};

fn test_block(slot: u64) -> BeaconBlock {
    BeaconBlock {
        slot,
        parent_root: Hash256 { w0: 1, w1: 2, w2: 3, w3: 4 },
        state_root: Hash256 { w0: 5, w1: 6, w2: 7, w3: 8 },
        signature: Signature { s0: 9, s1: 9, s2: 9, s3: 9 },
    }
}

#[test]
fn polling() {
    let spec = ChainSpec::foundation();
    let slot_clock = TestingSlotClock::new(0);
    let mut beacon_node = TestBeaconNode::default();
    let signer = TestSigner::new(42);

    let mut epoch_map = TestEpochMap::new();
    let produce_slot: u64 = 100;
    let produce_epoch: u64 = produce_slot / spec.epoch_length;
    epoch_map.insert(produce_epoch, produce_slot);

    // Configure responses from the beacon node.
    beacon_node.set_next_produce_result(Ok(Some(test_block(produce_slot))));
    beacon_node.set_next_publish_result(Ok(true));

    let mut block_producer =
        BlockProducer::new(spec, epoch_map, slot_clock, beacon_node, signer);

    // One slot before production slot...
    block_producer.slot_clock.set_slot(produce_slot - 1);
    assert_eq!(
        block_producer.poll(),
        Ok(PollOutcome::BlockProductionNotRequired(produce_slot - 1))
    );

    // On the produce slot...
    block_producer.slot_clock.set_slot(produce_slot);
    assert_eq!(
        block_producer.poll(),
        Ok(PollOutcome::BlockProduced(produce_slot))
    );

    // Trying the same produce slot again...
    block_producer.slot_clock.set_slot(produce_slot);
    assert_eq!(
        block_producer.poll(),
        Ok(PollOutcome::SlotAlreadyProcessed(produce_slot))
    );

    // One slot after the produce slot...
    block_producer.slot_clock.set_slot(produce_slot + 1);
    assert_eq!(
        block_producer.poll(),
        Ok(PollOutcome::BlockProductionNotRequired(produce_slot + 1))
    );

    // In an epoch without known duties...
    let slot: u64 = (produce_epoch + 1) * spec.epoch_length;
    block_producer.slot_clock.set_slot(slot);
    assert_eq!(
        block_producer.poll(),
        Ok(PollOutcome::ProducerDutiesUnknown(slot))
    );
}

#[test]
fn published_block_carries_unaltered_content() {
    let spec = ChainSpec::foundation();
    let mut beacon_node = TestBeaconNode::new();
    let candidate = test_block(100);
    beacon_node.set_next_produce_result(Ok(Some(candidate)));
    beacon_node.set_next_publish_result(Ok(true));
    let mut epoch_map = TestEpochMap::new();
    epoch_map.insert(1, 100);

    let mut producer = BlockProducer::new(
        spec,
        epoch_map,
        TestingSlotClock::new(100),
        beacon_node,
        TestSigner::new(42),
    );
    assert_eq!(producer.poll(), Ok(PollOutcome::BlockProduced(100)));

    // The published block is the candidate with only the signature replaced.
    assert_eq!(producer.beacon_node.publish_calls.len(), 1);
    let published = producer.beacon_node.publish_calls[0];
    assert_eq!(published.slot, candidate.slot);
    assert_eq!(published.parent_root, candidate.parent_root);
    assert_eq!(published.state_root, candidate.state_root);
    assert_ne!(published.signature, candidate.signature);

    // The signature covers the signing root of the candidate.
    let root = block_producer::signing_root(&spec, &candidate);
    let expected = Signature {
        s0: 42 ^ root.w0,
        s1: 42 ^ root.w1,
        s2: 42 ^ root.w2,
        s3: 42 ^ root.w3,
    };
    assert_eq!(published.signature, expected);

    // The attempt was committed to the history, keyed by slot and root.
    assert_eq!(producer.history.records.len(), 1);
    assert_eq!(producer.history.records[0].slot, 100);
    assert_eq!(producer.history.records[0].signing_root, root);
}
