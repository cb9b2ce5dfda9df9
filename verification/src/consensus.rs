//! Blocks that consensus has decided.

use crate::block::{BlockInQueue, BlockInQueueView, BlockView};
use crate::chain::ChainView;
use crate::forward::{Forward, Outcome};
use crate::message::BlockWithProof;
use crate::task::{Effect, EffectView};
use vstd::prelude::*;

verus! {

/// A decided block is queued if it is the one behind the newest stored block, and its proof and
/// body are stored. Any other is dropped.
pub open spec fn consensus_outcome(
    chain: ChainView,
    block: BlockView,
    decided: Seq<u8>,
) -> Outcome {
    let height = block.height;
    if height == chain.max_store_height + 1 {
        Outcome::done(
            chain.queued(height, BlockInQueueView::ConsensusBlock(block, decided)).stored(height),
            seq![
                EffectView::SaveCurrentBlockProof(decided),
                EffectView::SetBlockBody(height, block),
                EffectView::StoreMaxStoreHeight(height),
                EffectView::DeliverBlockTxHashes(height, block),
            ],
        )
    } else {
        Outcome::idle(chain)
    }
}

impl Forward {
    /// Consensus block enqueue.
    pub fn consensus_block_enqueue(&mut self, proof_blk: BlockWithProof)
        requires
            old(self).chain.max_store_height < u64::MAX,
        ensures
            final(self).reached(
                *old(self),
                None,
                consensus_outcome(old(self).chain@, proof_blk.blk@, proof_blk.proof@),
            ),
    {
        let current_height: u64 = self.chain.max_store_height;
        let block = proof_blk.blk;
        let decided = proof_blk.proof;
        let height: u64 = block.height;
        if height == current_height + 1 {
            self.chain.queue_block(
                height,
                BlockInQueue::ConsensusBlock(block.clone(), decided.clone()),
            );
            self.emit(Effect::SaveCurrentBlockProof(decided));
            self.emit(Effect::SetBlockBody(height, block.clone()));
            self.chain.max_store_height = height;
            self.emit(Effect::StoreMaxStoreHeight(height));
            self.emit(Effect::DeliverBlockTxHashes(height, block));
        }
    }
}

} // verus!
