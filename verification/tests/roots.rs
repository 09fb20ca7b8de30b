use block_producer::{
    hash_tree_root, signing_root, BeaconBlock, ChainSpec, Hash256, ProposalSignedData, Signature,
};

fn sample_block() -> BeaconBlock {
    BeaconBlock {
        slot: 100,
        parent_root: Hash256 { w0: 1, w1: 2, w2: 3, w3: 4 },
        state_root: Hash256 { w0: 5, w1: 6, w2: 7, w3: 8 },
        signature: Signature { s0: 9, s1: 9, s2: 9, s3: 9 },
    }
}

#[test]
fn canonical_root_exact_value() {
    let root = sample_block().canonical_root();
    assert_eq!(
        root,
        Hash256 {
            w0: 0xa1a983853e5f1ac2,
            w1: 0xbcf6177c695714f5,
            w2: 0x2c21e4dea860475f,
            w3: 0x9bf94e2567e03115,
        }
    );
}

#[test]
fn signing_root_exact_value() {
    // The signing root covers the block under the zero-signature sentinel,
    // so the 9-filled signature of the sample block must not influence it.
    let root = signing_root(&ChainSpec::foundation(), &sample_block());
    assert_eq!(
        root,
        Hash256 {
            w0: 0xc4b7b35626a05b0b,
            w1: 0xa8629e58da64f9ff,
            w2: 0x56620dbdf3cfcf0f,
            w3: 0x26bd1cd66690f255,
        }
    );
}

#[test]
fn signing_root_ignores_attached_signature() {
    let config = ChainSpec::foundation();
    let mut signed = sample_block();
    signed.signature = Signature { s0: 77, s1: 78, s2: 79, s3: 80 };
    assert_eq!(
        signing_root(&config, &sample_block()),
        signing_root(&config, &signed)
    );
}

#[test]
fn roots_are_domain_separated() {
    // The proposal digest of a block root differs from the block root
    // itself, and changing any covered field moves the canonical root.
    let block = sample_block();
    let block_root = block.canonical_root();
    let proposal = ProposalSignedData {
        slot: block.slot,
        shard: u64::MAX,
        block_root,
    };
    assert_ne!(hash_tree_root(&proposal), block_root);

    let mut other = block;
    other.slot = 101;
    assert_ne!(other.canonical_root(), block_root);
}

#[test]
fn foundation_configuration_values() {
    let spec = ChainSpec::foundation();
    assert_eq!(spec.epoch_length, 64);
    assert_eq!(spec.slot_duration, 6);
    assert_eq!(spec.genesis_time, 1606824023);
    assert_eq!(spec.beacon_chain_shard_number, u64::MAX);
    assert_eq!(spec.empty_signature, Signature { s0: 0, s1: 0, s2: 0, s3: 0 });
}

#[test]
fn present_slot_follows_wall_clock() {
    let spec = ChainSpec::foundation();
    // Before genesis the time is unknowable.
    assert_eq!(spec.present_slot_at(spec.genesis_time - 1), None);
    // At genesis, slot 0; thirteen seconds in, slot 2.
    assert_eq!(spec.present_slot_at(spec.genesis_time), Some(0));
    assert_eq!(spec.present_slot_at(spec.genesis_time + 13), Some(2));

    // A zero slot duration makes every reading unknowable.
    let mut broken = spec;
    broken.slot_duration = 0;
    assert_eq!(broken.present_slot_at(broken.genesis_time + 13), None);
}
