use vstd::prelude::*;

use crate::config::ChainSpec;
use crate::hashing::{spec_words_digest, words_digest, Hash256};

verus! {

/// Domain tag under which a block's canonical structural root is digested.
pub const BLOCK_ROOT_DOMAIN: u64 = 0x424c4f434b;

/// Domain tag under which a proposal's signing root is digested. Distinct
/// from [`BLOCK_ROOT_DOMAIN`] so that the signing root is a second,
/// domain-separated hash and a signature never covers itself.
pub const PROPOSAL_DOMAIN: u64 = 0x50524f504f53414c;

/// A signature value held as four 64-bit words: a transparent stand-in for
/// the collaborator signer's scheme, which is out of scope here.
#[derive(Clone, Copy, Debug, PartialEq, Eq, Structural)]
pub struct Signature {
    pub s0: u64,
    pub s1: u64,
    pub s2: u64,
    pub s3: u64,
}

impl Signature {
    /// The all-zero signature, used as the empty-signature sentinel.
    pub fn empty() -> (r: Signature)
        ensures
            r == (Signature { s0: 0, s1: 0, s2: 0, s3: 0 }),
    {
        Signature { s0: 0, s1: 0, s2: 0, s3: 0 }
    }
}

/// A candidate beacon block. It is transient: returned by the beacon-node
/// collaborator, mutated locally only to attach a signature, and either
/// published or discarded within a single poll.
#[derive(Clone, Copy, Debug, PartialEq, Eq, Structural)]
pub struct BeaconBlock {
    pub slot: u64,
    pub parent_root: Hash256,
    pub state_root: Hash256,
    pub signature: Signature,
}

/// The ephemeral record `{slot, shard, block_root}` built per signing
/// attempt, never persisted, used only to derive the signing root.
#[derive(Clone, Copy, Debug, PartialEq, Eq, Structural)]
pub struct ProposalSignedData {
    pub slot: u64,
    pub shard: u64,
    pub block_root: Hash256,
}

/// The words of a block in canonical order, as fed to the structural hash.
pub open spec fn spec_block_words(b: BeaconBlock) -> Seq<u64> {
    seq![
        b.slot,
        b.parent_root.w0,
        b.parent_root.w1,
        b.parent_root.w2,
        b.parent_root.w3,
        b.state_root.w0,
        b.state_root.w1,
        b.state_root.w2,
        b.state_root.w3,
        b.signature.s0,
        b.signature.s1,
        b.signature.s2,
        b.signature.s3,
    ]
}

/// The canonical structural root of a block, signature field included.
pub open spec fn spec_canonical_root(b: BeaconBlock) -> Hash256 {
    spec_words_digest(BLOCK_ROOT_DOMAIN, spec_block_words(b))
}

/// The words of a proposal record in canonical order.
pub open spec fn spec_proposal_words(p: ProposalSignedData) -> Seq<u64> {
    seq![
        p.slot,
        p.shard,
        p.block_root.w0,
        p.block_root.w1,
        p.block_root.w2,
        p.block_root.w3,
    ]
}

/// The root of a proposal record: the value the signer is asked to sign.
pub open spec fn spec_hash_tree_root(p: ProposalSignedData) -> Hash256 {
    spec_words_digest(PROPOSAL_DOMAIN, spec_proposal_words(p))
}

/// The signing root of a block under a chain configuration: the canonical
/// root of the block with its signature replaced by the empty-signature
/// sentinel, wrapped in a proposal record and digested a second time.
pub open spec fn spec_signing_root(config: ChainSpec, b: BeaconBlock) -> Hash256 {
    let unsigned = BeaconBlock {
        slot: b.slot,
        parent_root: b.parent_root,
        state_root: b.state_root,
        signature: config.empty_signature,
    };
    spec_hash_tree_root(
        ProposalSignedData {
            slot: b.slot,
            shard: config.beacon_chain_shard_number,
            block_root: spec_canonical_root(unsigned),
        },
    )
}

impl BeaconBlock {
    /// The canonical structural root over all of the block's fields.
    pub fn canonical_root(&self) -> (r: Hash256)
        ensures
            r == spec_canonical_root(*self),
    {
        let mut ws: Vec<u64> = Vec::new();
        ws.push(self.slot);
        ws.push(self.parent_root.w0);
        ws.push(self.parent_root.w1);
        ws.push(self.parent_root.w2);
        ws.push(self.parent_root.w3);
        ws.push(self.state_root.w0);
        ws.push(self.state_root.w1);
        ws.push(self.state_root.w2);
        ws.push(self.state_root.w3);
        ws.push(self.signature.s0);
        ws.push(self.signature.s1);
        ws.push(self.signature.s2);
        ws.push(self.signature.s3);
        proof {
            assert(ws@ =~= spec_block_words(*self));
        }
        words_digest(BLOCK_ROOT_DOMAIN, &ws)
    }
}

/// The root of a proposal record.
pub fn hash_tree_root(p: &ProposalSignedData) -> (r: Hash256)
    ensures
        r == spec_hash_tree_root(*p),
{
    let mut ws: Vec<u64> = Vec::new();
    ws.push(p.slot);
    ws.push(p.shard);
    ws.push(p.block_root.w0);
    ws.push(p.block_root.w1);
    ws.push(p.block_root.w2);
    ws.push(p.block_root.w3);
    proof {
        assert(ws@ =~= spec_proposal_words(*p));
    }
    words_digest(PROPOSAL_DOMAIN, &ws)
}

/// The signing root of a block under `config`: clone the block, overwrite
/// its signature with the configured sentinel, take the canonical root of
/// the signature-less copy, and digest the resulting proposal record.
pub fn signing_root(config: &ChainSpec, block: &BeaconBlock) -> (r: Hash256)
    ensures
        r == spec_signing_root(*config, *block),
{
    let mut block_without_signature = *block;
    block_without_signature.signature = config.empty_signature;
    let block_root = block_without_signature.canonical_root();
    let proposal = ProposalSignedData {
        slot: block.slot,
        shard: config.beacon_chain_shard_number,
        block_root,
    };
    hash_tree_root(&proposal)
}

} // verus!
