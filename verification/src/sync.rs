//! Blocks between nodes: the answer to a node that lacks some, and the blocks that other nodes
//! send.

use crate::block::{
    block_views, same_proof_type, Block, BlockInQueue, BlockInQueueView, BlockView, Proof,
    ProofType,
};
use crate::chain::ChainView;
use crate::forward::{Forward, Outcome};
use crate::message::{
    chain_key, MsgType, OperateType, Outgoing, OutgoingView, SyncRequest, SyncResponse,
};
use crate::outside::{block_items, repeated_into_vec, repeated_len, repeated_new, repeated_push};
use crate::task::{effect_views, Ask, AskView, Effect, EffectView};
use protobuf::RepeatedField;
use vstd::prelude::*;

verus! {

/// The block that carries nothing but the proof of the newest block: no block has its height.
pub open spec fn proof_block(proof: Seq<u8>) -> BlockView {
    BlockView { height: u64::MAX, proof, rest: seq![] }
}

/// Goes on with the heights from `next`: the block of the next height is asked for. Behind the
/// last height what was found is sent to the node that asked, if anything was.
pub open spec fn sync_reply_outcome(
    chain: ChainView,
    origin: u32,
    heights: Seq<u64>,
    next: int,
    found: Seq<BlockView>,
) -> Outcome {
    if next < heights.len() {
        Outcome::asking(chain, AskView::SyncBlock { origin, heights, next, found })
    } else if found.len() > 0 {
        Outcome::done(
            chain,
            seq![
                EffectView::Publish(
                    chain_key(MsgType::SyncResponse),
                    OutgoingView::SyncResponse {
                        operate: OperateType::Single,
                        origin,
                        blocks: found,
                    },
                ),
            ],
        )
    } else {
        Outcome::idle(chain)
    }
}

/// The block of a height has been looked up. One that was found is sent; if it is the current
/// block, its proof is asked for too.
pub open spec fn sync_block_outcome(
    chain: ChainView,
    origin: u32,
    heights: Seq<u64>,
    next: int,
    found: Seq<BlockView>,
    block: Option<BlockView>,
) -> Outcome {
    match block {
        None => sync_reply_outcome(chain, origin, heights, next + 1, found),
        Some(block) => if heights[next] == chain.current_height {
            Outcome::asking(
                chain,
                AskView::CurrentBlockProof { origin, heights, next, found: found.push(block) },
            )
        } else {
            sync_reply_outcome(chain, origin, heights, next + 1, found.push(block))
        },
    }
}

/// The proof of the current block has been looked up. One that was found is sent in a block of
/// its own.
pub open spec fn sync_proof_outcome(
    chain: ChainView,
    origin: u32,
    heights: Seq<u64>,
    next: int,
    found: Seq<BlockView>,
    current: Option<Seq<u8>>,
) -> Outcome {
    match current {
        None => sync_reply_outcome(chain, origin, heights, next + 1, found),
        Some(proof) => sync_reply_outcome(
            chain,
            origin,
            heights,
            next + 1,
            found.push(proof_block(proof)),
        ),
    }
}

/// What is asked about the first of some blocks that is not below the height that the chain has
/// reached: whether it is whole, or for a block that only carries a proof, whose proof that is.
pub open spec fn next_sync_ask(max_height: u64, blocks: Seq<BlockView>) -> Option<AskView>
    decreases blocks.len(),
{
    if blocks.len() == 0 {
        None
    } else {
        let block = blocks[0];
        let rest = blocks.drop_first();
        if block.height < max_height {
            next_sync_ask(max_height, rest)
        } else if block.height != u64::MAX {
            Some(AskView::CheckHash { block, rest })
        } else {
            Some(AskView::ProofType { block, rest })
        }
    }
}

/// Goes on with some blocks that another node has sent.
pub open spec fn sync_blocks_outcome(chain: ChainView, blocks: Seq<BlockView>) -> Outcome {
    Outcome { chain, effects: seq![], ask: next_sync_ask(chain.max_height, blocks) }
}

/// Only a block that names the root of its transactions is gone on with; at any other, all that
/// came behind it is dropped.
pub open spec fn hash_checked_outcome(
    chain: ChainView,
    block: BlockView,
    rest: Seq<BlockView>,
    correct: bool,
) -> Outcome {
    if correct {
        Outcome::asking(chain, AskView::ProofType { block, rest })
    } else {
        Outcome::idle(chain)
    }
}

/// A block of another consensus than that of the chain is dropped.
pub open spec fn proof_type_outcome(
    chain: ChainView,
    block: BlockView,
    rest: Seq<BlockView>,
    proof_type: Option<ProofType>,
) -> Outcome {
    if proof_type == chain.proof_type {
        Outcome::asking(chain, AskView::TendermintHeight { block, rest })
    } else {
        sync_blocks_outcome(chain, rest)
    }
}

/// The height that a Tendermint proof is for. The proof of the first block has none.
pub open spec fn proof_height(tendermint_height: usize) -> u64 {
    if tendermint_height == usize::MAX {
        0
    } else {
        tendermint_height as u64
    }
}

/// Whether a block whose header has the proof of the block at `proof_height` follows on what
/// the chain has.
pub open spec fn follows(chain: ChainView, proof_height: u64) -> bool {
    proof_height == chain.max_height || proof_height == chain.max_store_height
}

/// The chain after a block has come from another node whose header has the proof of the block
/// at `proof_height`. That block gets its proof if it waits for one. The block itself goes into
/// the queue if it follows on what the chain has.
pub open spec fn sync_block_added(
    chain: ChainView,
    block: BlockView,
    proof_height: u64,
) -> ChainView {
    if block.height != u64::MAX {
        if follows(chain, proof_height) {
            chain.proved(proof_height, block.proof).stored(block.height).queued(
                block.height,
                BlockInQueueView::SyncBlock(block, None),
            )
        } else {
            chain
        }
    } else if proof_height > chain.current_height {
        chain.proved(proof_height, block.proof)
    } else {
        chain
    }
}

/// What is to be done when a block goes into the queue: its body is stored.
pub open spec fn sync_block_effects(
    chain: ChainView,
    block: BlockView,
    proof_height: u64,
) -> Seq<EffectView> {
    if block.height != u64::MAX && follows(chain, proof_height) {
        seq![
            EffectView::SetBlockBody(block.height, block),
            EffectView::StoreMaxStoreHeight(block.height),
        ]
    } else {
        seq![]
    }
}

/// The block is added, and the others are gone on with.
pub open spec fn tendermint_height_outcome(
    chain: ChainView,
    block: BlockView,
    rest: Seq<BlockView>,
    tendermint_height: usize,
) -> Outcome {
    let height = proof_height(tendermint_height);
    Outcome {
        effects: sync_block_effects(chain, block, height),
        ..sync_blocks_outcome(sync_block_added(chain, block, height), rest)
    }
}

impl Forward {
    /// Answers a node that lacks some blocks: asks for the block of each height in turn, and
    /// sends those that there are.
    pub fn reply_syn_req(&mut self, sync_req: SyncRequest, origin: u32) -> (ask: Option<Ask>)
        ensures
            final(self).reached(
                *old(self),
                ask,
                sync_reply_outcome(old(self).chain@, origin, sync_req.heights@, 0, seq![]),
            ),
    {
        let found: RepeatedField<Block> = repeated_new();
        assert(block_views(block_items(found)) =~= seq![]);
        self.go_on_with_sync_reply(origin, sync_req.heights, 0, found)
    }

    fn go_on_with_sync_reply(
        &mut self,
        origin: u32,
        heights: Vec<u64>,
        next: usize,
        found: RepeatedField<Block>,
    ) -> (ask: Option<Ask>)
        ensures
            final(self).reached(
                *old(self),
                ask,
                sync_reply_outcome(
                    old(self).chain@,
                    origin,
                    heights@,
                    next as int,
                    block_views(block_items(found)),
                ),
            ),
    {
        if next < heights.len() {
            Some(Ask::SyncBlock { origin, heights, next, found })
        } else {
            if repeated_len(&found) > 0 {
                self.publish(
                    MsgType::SyncResponse,
                    Outgoing::SyncResponse {
                        operate: OperateType::Single,
                        origin,
                        sync_res: SyncResponse { blocks: found },
                    },
                );
            }
            None
        }
    }

    /// Goes on with the answer to a node once the block of a height has been looked up.
    pub(crate) fn sync_block_found(
        &mut self,
        origin: u32,
        heights: Vec<u64>,
        next: usize,
        mut found: RepeatedField<Block>,
        block: Option<Block>,
    ) -> (ask: Option<Ask>)
        requires
            next < heights@.len(),
        ensures
            final(self).reached(
                *old(self),
                ask,
                sync_block_outcome(
                    old(self).chain@,
                    origin,
                    heights@,
                    next as int,
                    block_views(block_items(found)),
                    match block {
                        Some(block) => Some(block@),
                        None => None,
                    },
                ),
            ),
    {
        let ghost before = block_items(found);
        let len: usize = heights.len();
        assert(next < len);
        match block {
            None => self.go_on_with_sync_reply(origin, heights, next + 1, found),
            Some(block) => {
                let height: u64 = heights[next];
                repeated_push(&mut found, block);
                assert(block_views(block_items(found)) =~= block_views(before).push(block@));
                if height == self.chain.current_height {
                    Some(Ask::CurrentBlockProof { origin, heights, next, found })
                } else {
                    self.go_on_with_sync_reply(origin, heights, next + 1, found)
                }
            },
        }
    }

    /// Goes on with the answer to a node once the proof of the current block has been looked up.
    pub(crate) fn current_proof_found(
        &mut self,
        origin: u32,
        heights: Vec<u64>,
        next: usize,
        mut found: RepeatedField<Block>,
        current: Option<Proof>,
    ) -> (ask: Option<Ask>)
        requires
            next < heights@.len(),
        ensures
            final(self).reached(
                *old(self),
                ask,
                sync_proof_outcome(
                    old(self).chain@,
                    origin,
                    heights@,
                    next as int,
                    block_views(block_items(found)),
                    match current {
                        Some(current) => Some(current@),
                        None => None,
                    },
                ),
            ),
    {
        let ghost before = block_items(found);
        let len: usize = heights.len();
        assert(next < len);
        match current {
            None => {},
            Some(current) => {
                let block = Block { height: u64::MAX, proof: current, rest: Vec::new() };
                assert(block@.rest =~= seq![]);
                repeated_push(&mut found, block);
                assert(block_views(block_items(found)) =~= block_views(before).push(block@));
            },
        }
        self.go_on_with_sync_reply(origin, heights, next + 1, found)
    }

    /// Takes blocks that another node has sent, in the order in which they came.
    pub fn deal_sync_blocks(&mut self, sync_res: SyncResponse) -> (ask: Option<Ask>)
        ensures
            final(self).reached(
                *old(self),
                ask,
                sync_blocks_outcome(old(self).chain@, sync_res@),
            ),
    {
        self.go_on_with_sync_blocks(repeated_into_vec(sync_res.blocks))
    }

    fn go_on_with_sync_blocks(&mut self, blocks: Vec<Block>) -> (ask: Option<Ask>)
        ensures
            final(self).reached(
                *old(self),
                ask,
                sync_blocks_outcome(old(self).chain@, block_views(blocks@)),
            ),
    {
        let ghost all = block_views(blocks@);
        let mut rest: Vec<Block> = blocks;
        while rest.len() > 0
            invariant
                *self == *old(self),
                all == block_views(blocks@),
                next_sync_ask(self.chain.max_height, block_views(rest@)) == next_sync_ask(
                    self.chain.max_height,
                    all,
                ),
            decreases rest@.len(),
        {
            let ghost before = block_views(rest@);
            let block: Block = rest.remove(0);
            assert(block_views(rest@) =~= before.drop_first());
            // The block is there already.
            if block.height < self.chain.max_height {
                continue;
            }
            if block.height != u64::MAX {
                return Some(Ask::CheckHash { block, rest });
            }
            return Some(Ask::ProofType { block, rest });
        }
        None
    }

    /// Goes on with a block of another node once its transaction root has been checked.
    pub(crate) fn sync_hash_checked(
        &mut self,
        block: Block,
        rest: Vec<Block>,
        correct: bool,
    ) -> (ask: Option<Ask>)
        ensures
            final(self).reached(
                *old(self),
                ask,
                hash_checked_outcome(old(self).chain@, block@, block_views(rest@), correct),
            ),
    {
        if correct {
            Some(Ask::ProofType { block, rest })
        } else {
            None
        }
    }

    /// Goes on with a block of another node once the consensus of its proof is known, which
    /// must be the one that the chain runs.
    pub(crate) fn sync_proof_type_read(
        &mut self,
        block: Block,
        rest: Vec<Block>,
        proof_type: Option<ProofType>,
    ) -> (ask: Option<Ask>)
        requires
            proof_type == old(self).chain.proof_type ==> proof_type == Some(ProofType::Tendermint),
        ensures
            final(self).reached(
                *old(self),
                ask,
                proof_type_outcome(old(self).chain@, block@, block_views(rest@), proof_type),
            ),
    {
        if same_proof_type(proof_type, self.chain.proof_type) {
            Some(Ask::TendermintHeight { block, rest })
        } else {
            self.go_on_with_sync_blocks(rest)
        }
    }

    /// Goes on with a block of another node once the height in its proof is known: adds the
    /// block, and turns to the next one.
    pub(crate) fn sync_proof_height_read(
        &mut self,
        block: Block,
        rest: Vec<Block>,
        tendermint_height: usize,
    ) -> (ask: Option<Ask>)
        requires
            old(self).chain.proof_type == Some(ProofType::Tendermint),
        ensures
            final(self).reached(
                *old(self),
                ask,
                tendermint_height_outcome(
                    old(self).chain@,
                    block@,
                    block_views(rest@),
                    tendermint_height,
                ),
            ),
    {
        self.add_sync_block(block, tendermint_height);
        self.go_on_with_sync_blocks(rest)
    }

    /// Adds a block of another node to a chain that runs Tendermint, as the block's proof does,
    /// given the height in that proof.
    pub fn add_sync_block(&mut self, block: Block, tendermint_height: usize)
        requires
            old(self).chain.proof_type == Some(ProofType::Tendermint),
        ensures
            final(self).chain@ == sync_block_added(
                old(self).chain@,
                block@,
                proof_height(tendermint_height),
            ),
            effect_views(final(self).effects@) == effect_views(old(self).effects@)
                + sync_block_effects(old(self).chain@, block@, proof_height(tendermint_height)),
    {
        let ghost before = effect_views(self.effects@);
        let height: u64 = if tendermint_height == usize::MAX {
            0
        } else {
            tendermint_height as u64
        };
        if block.height != u64::MAX {
            if height == self.chain.max_height || height == self.chain.max_store_height {
                self.chain.set_proof(height, &block.proof);
                self.emit(Effect::SetBlockBody(block.height, block.clone()));
                self.chain.max_store_height = block.height;
                self.emit(Effect::StoreMaxStoreHeight(block.height));
                self.chain.queue_block(block.height, BlockInQueue::SyncBlock(block, None));
            }
        } else if height > self.chain.current_height {
            self.chain.set_proof(height, &block.proof);
        }
        assert(effect_views(self.effects@) =~= before + sync_block_effects(
            old(self).chain@,
            block@,
            proof_height(tendermint_height),
        ));
    }
}

} // verus!
