use vstd::prelude::*;

use crate::hashing::Hash256;

verus! {

/// One committed production attempt: the slot and the signing root that a
/// signature was obtained for.
#[derive(Clone, Copy, Debug, PartialEq, Eq, Structural)]
pub struct ProductionRecord {
    pub slot: u64,
    pub signing_root: Hash256,
}

/// No two records of `s` disagree on the signing root of one slot.
pub open spec fn records_consistent(s: Seq<ProductionRecord>) -> bool {
    forall|i: int, j: int|
        0 <= i < s.len() && 0 <= j < s.len() && s[i].slot == s[j].slot ==> s[i].signing_root
            == s[j].signing_root
}

/// The slashing-history store behind the safety gate: the signing roots this
/// validator has committed to, keyed by slot. Kept in memory here; making it
/// durable across restarts is the deployment's concern.
#[derive(Debug)]
pub struct SigningHistory {
    pub records: Vec<ProductionRecord>,
}

impl SigningHistory {
    /// No record at `slot` carries a signing root other than `root`, so
    /// signing `root` at `slot` cannot conflict with an earlier attempt.
    pub open spec fn allows(self, slot: u64, root: Hash256) -> bool {
        forall|i: int|
            0 <= i < self.records@.len() && self.records@[i].slot == slot
                ==> self.records@[i].signing_root == root
    }

    /// The history never holds two conflicting roots for one slot.
    pub open spec fn consistent(self) -> bool {
        records_consistent(self.records@)
    }

    /// An empty history.
    pub fn new() -> (h: SigningHistory)
        ensures
            h.records@ == Seq::<ProductionRecord>::empty(),
            h.consistent(),
    {
        SigningHistory { records: Vec::new() }
    }

    /// Evaluate the safety predicate for signing `root` at `slot`.
    pub fn permits(&self, slot: u64, root: Hash256) -> (b: bool)
        ensures
            b == self.allows(slot, root),
    {
        let mut i: usize = 0;
        while i < self.records.len()
            invariant
                i <= self.records@.len(),
                forall|j: int|
                    0 <= j < i && self.records@[j].slot == slot ==> self.records@[j].signing_root
                        == root,
            decreases self.records@.len() - i,
        {
            let rec = self.records[i];
            if rec.slot == slot && rec.signing_root != root {
                return false;
            }
            i = i + 1;
        }
        true
    }

    /// Commit an attempt into the history.
    pub fn record(&mut self, slot: u64, root: Hash256)
        ensures
            final(self).records@ == old(self).records@.push(
                ProductionRecord { slot, signing_root: root },
            ),
    {
        self.records.push(ProductionRecord { slot, signing_root: root });
    }
}

/// Pushing a record that the safety predicate allowed keeps the history
/// consistent.
pub proof fn lemma_allowed_record_consistent(h: SigningHistory, slot: u64, root: Hash256)
    requires
        h.consistent(),
        h.allows(slot, root),
    ensures
        records_consistent(h.records@.push(ProductionRecord { slot, signing_root: root })),
{
    let pushed = h.records@.push(ProductionRecord { slot, signing_root: root });
    assert forall|i: int, j: int|
        0 <= i < pushed.len() && 0 <= j < pushed.len() && pushed[i].slot
            == pushed[j].slot implies pushed[i].signing_root == pushed[j].signing_root by {
        if i < h.records@.len() && j < h.records@.len() {
            assert(h.records@[i].signing_root == h.records@[j].signing_root);
        }
    }
}

} // verus!
