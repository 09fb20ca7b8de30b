use block_producer::test_utils::{TestBeaconNode, TestEpochMap, TestSigner, TestingSlotClock};
use block_producer::{BeaconBlock, BlockProducer, ChainSpec, Hash256, PollOutcome, Signature};

type Producer = BlockProducer<TestingSlotClock, TestBeaconNode, TestEpochMap, TestSigner>;

fn producer_with_duty(epoch: u64, slot: u64) -> Producer {
    let mut epoch_map = TestEpochMap::new();
    epoch_map.insert(epoch, slot);
    BlockProducer::new(
        ChainSpec::foundation(),
        epoch_map,
        TestingSlotClock::new(0),
        TestBeaconNode::new(),
        TestSigner::new(3),
    )
}

fn test_block(slot: u64) -> BeaconBlock {
    BeaconBlock {
        slot,
        parent_root: Hash256 { w0: 21, w1: 22, w2: 23, w3: 24 },
        state_root: Hash256 { w0: 25, w1: 26, w2: 27, w3: 28 },
        signature: Signature { s0: 1, s1: 1, s2: 1, s3: 1 },
    }
}

#[test]
fn monotonic_over_non_decreasing_readings() {
    let mut producer = producer_with_duty(1, 70);
    producer
        .beacon_node
        .set_next_produce_result(Ok(Some(test_block(70))));
    producer.beacon_node.set_next_publish_result(Ok(true));

    let readings: [u64; 7] = [3, 3, 10, 70, 70, 80, 80];
    let mut last: u64 = producer.last_processed_slot;
    for slot in readings {
        producer.slot_clock.set_slot(slot);
        let _ = producer.poll();
        // Never lowered, and never beyond the slot just observed.
        assert!(producer.last_processed_slot >= last);
        assert!(producer.last_processed_slot <= slot);
        last = producer.last_processed_slot;
    }
    assert_eq!(last, 70);
}

#[test]
fn idempotent_at_produced_slot() {
    let mut producer = producer_with_duty(1, 100);
    producer
        .beacon_node
        .set_next_produce_result(Ok(Some(test_block(100))));
    producer.beacon_node.set_next_publish_result(Ok(true));
    producer.slot_clock.set_slot(100);

    assert_eq!(producer.poll(), Ok(PollOutcome::BlockProduced(100)));
    let produce_calls: usize = producer.beacon_node.produce_calls.len();
    let publish_calls: usize = producer.beacon_node.publish_calls.len();

    // The second poll at the already-produced slot is a pure no-op.
    assert_eq!(producer.poll(), Ok(PollOutcome::SlotAlreadyProcessed(100)));
    assert_eq!(producer.beacon_node.produce_calls.len(), produce_calls);
    assert_eq!(producer.beacon_node.publish_calls.len(), publish_calls);
}

#[test]
fn duties_unknown_for_whole_epoch() {
    // Duties resolved only for epoch 1; epoch 2 (slots 128..191) is unknown.
    let mut producer = producer_with_duty(1, 100);
    for slot in [128u64, 150, 191] {
        producer.slot_clock.set_slot(slot);
        assert_eq!(producer.poll(), Ok(PollOutcome::ProducerDutiesUnknown(slot)));
        assert_eq!(producer.beacon_node.produce_calls.len(), 0);
        assert_eq!(producer.last_processed_slot, 0);
    }
}

#[test]
fn epoch_boundaries_resolve_against_duties() {
    // A duty at (epoch 1, slot 64): exactly the first slot of epoch 1.
    let mut producer = producer_with_duty(1, 64);
    producer
        .beacon_node
        .set_next_produce_result(Ok(Some(test_block(64))));
    producer.beacon_node.set_next_publish_result(Ok(true));

    // Slot 63 is still epoch 0, which is unknown.
    producer.slot_clock.set_slot(63);
    assert_eq!(producer.poll(), Ok(PollOutcome::ProducerDutiesUnknown(63)));

    // Slot 64 opens epoch 1 and is the production slot.
    producer.slot_clock.set_slot(64);
    assert_eq!(producer.poll(), Ok(PollOutcome::BlockProduced(64)));

    // Slot 127 closes epoch 1: known duties, production not required.
    producer.slot_clock.set_slot(127);
    assert_eq!(
        producer.poll(),
        Ok(PollOutcome::BlockProductionNotRequired(127))
    );

    // Slot 128 opens epoch 2, which is unknown.
    producer.slot_clock.set_slot(128);
    assert_eq!(producer.poll(), Ok(PollOutcome::ProducerDutiesUnknown(128)));
}
