//! Summary counters over an assembled witness, for observability only:
//! how many block contexts, transactions, and execution steps it holds.

use vstd::prelude::*;

verus! {

use crate::witness::Witness;
use crate::witness::WitnessTx;

/// Counters derived from one witness; recomputed on demand, never cached.
#[derive(Clone, Copy, Debug, PartialEq, Eq, Structural)]
pub struct BatchMetric {
    pub num_block: usize,
    pub num_tx: usize,
    pub num_step: usize,
}

/// Total number of execution steps across the transactions.
pub open spec fn spec_total_steps(txs: Seq<WitnessTx>) -> nat
    decreases txs.len(),
{
    if txs.len() == 0 {
        0
    } else {
        spec_total_steps(txs.drop_last()) + txs.last().steps@.len()
    }
}

/// A prefix of the transactions carries at most the total number of steps.
proof fn lemma_total_steps_prefix(txs: Seq<WitnessTx>, i: int)
    requires
        0 <= i <= txs.len(),
    ensures
        spec_total_steps(txs.take(i)) <= spec_total_steps(txs),
    decreases txs.len() - i,
{
    if i == txs.len() {
        assert(txs.take(i) =~= txs);
    } else {
        lemma_total_steps_prefix(txs, i + 1);
        assert(txs.take(i + 1).drop_last() =~= txs.take(i));
        assert(txs.take(i + 1).last() == txs[i]);
    }
}

/// Compute the counters a witness determines: the number of its block
/// contexts, the number of its transactions, and the sum of the transactions'
/// step counts. Pure and side-effect free; the bound on the step total only
/// keeps the sum representable in a `usize`.
pub fn metric_of_witness_block(block: &Witness) -> (m: BatchMetric)
    requires
        spec_total_steps(block.txs@) <= usize::MAX,
    ensures
        m.num_block == block.block_contexts@.len(),
        m.num_tx == block.txs@.len(),
        m.num_step == spec_total_steps(block.txs@),
{
    let mut num_step: usize = 0;
    let mut i: usize = 0;
    while i < block.txs.len()
        invariant
            i <= block.txs@.len(),
            num_step == spec_total_steps(block.txs@.take(i as int)),
            spec_total_steps(block.txs@) <= usize::MAX,
        decreases block.txs@.len() - i,
    {
        proof {
            lemma_total_steps_prefix(block.txs@, i as int + 1);
            assert(block.txs@.take(i as int + 1).drop_last() =~= block.txs@.take(i as int));
            assert(block.txs@.take(i as int + 1).last() == block.txs@[i as int]);
        }
        num_step = num_step + block.txs[i].steps.len();
        i = i + 1;
    }
    proof {
        assert(block.txs@.take(block.txs@.len() as int) =~= block.txs@);
    }
    BatchMetric { num_block: block.block_contexts.len(), num_tx: block.txs.len(), num_step }
}

/// Law: metric collection is pure and idempotent — the counters are a
/// function of the witness alone, so any two collections over the same
/// witness yield identical counters.
pub proof fn lemma_metric_deterministic(w: Witness, m1: BatchMetric, m2: BatchMetric)
    requires
        m1.num_block == w.block_contexts@.len(),
        m1.num_tx == w.txs@.len(),
        m1.num_step == spec_total_steps(w.txs@),
        m2.num_block == w.block_contexts@.len(),
        m2.num_tx == w.txs@.len(),
        m2.num_step == spec_total_steps(w.txs@),
    ensures
        m1 == m2,
{
}

} // verus!
