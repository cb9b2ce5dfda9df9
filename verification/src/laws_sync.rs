//! What holds of blocks that go from node to node.

use crate::block::{BlockInQueueView, BlockView, ProofType};
use crate::chain::ChainView;
use crate::conversation::{
    conversation, conversation_left, dealt_with, law_questions_run_out,
};
use crate::dispatch::{block_view, can_resume, resume_outcome};
use crate::forward::Outcome;
use crate::laws::{about_sent, lemma_next_sync_ask_is_about_sent};
use crate::message::{
    chain_key, Message, MsgType, OperateType, OutgoingView, Payload, RoutingKey, SubModules,
};
use crate::sync::{
    next_sync_ask, proof_block, proof_height, sync_block_added, sync_block_effects,
    sync_reply_outcome,
};
use crate::task::{Answer, AskView, EffectView};
use vstd::prelude::*;

verus! {

/// Whether `world` answers what is asked for another node: with the blocks that `lookup` gives,
/// and with this proof of the current block.
pub open spec fn serves(
    world: spec_fn(AskView) -> Answer,
    lookup: spec_fn(u64) -> Option<BlockView>,
    current: Option<Seq<u8>>,
) -> bool {
    &&& forall|origin: u32, heights: Seq<u64>, next: int, found: Seq<BlockView>|
        0 <= next < heights.len() ==> {
            &&& #[trigger] world(AskView::SyncBlock { origin, heights, next, found }) is Block
            &&& block_view(
                world(AskView::SyncBlock { origin, heights, next, found })->Block_0,
            ) == lookup(heights[next])
        }
    &&& forall|origin: u32, heights: Seq<u64>, next: int, found: Seq<BlockView>|
        0 <= next < heights.len() ==> {
            &&& #[trigger] world(
                AskView::CurrentBlockProof { origin, heights, next, found },
            ) is Proof
            &&& match world(
                AskView::CurrentBlockProof { origin, heights, next, found },
            )->Proof_0 {
                Some(answer) => current == Some(answer@),
                None => current is None,
            }
        }
}

/// What a node is sent for one height: the block, if there is one, and behind the current block
/// its proof, if there is one.
pub open spec fn blocks_of_height(
    lookup: spec_fn(u64) -> Option<BlockView>,
    current_height: u64,
    current: Option<Seq<u8>>,
    height: u64,
) -> Seq<BlockView> {
    match lookup(height) {
        None => seq![],
        Some(block) => if height == current_height && current is Some {
            seq![block, proof_block(current->0)]
        } else {
            seq![block]
        },
    }
}

/// What a node is sent for some heights: what it is sent for each, in their order.
pub open spec fn blocks_of_heights(
    lookup: spec_fn(u64) -> Option<BlockView>,
    current_height: u64,
    current: Option<Seq<u8>>,
    heights: Seq<u64>,
) -> Seq<BlockView>
    decreases heights.len(),
{
    if heights.len() == 0 {
        seq![]
    } else {
        blocks_of_heights(lookup, current_height, current, heights.drop_last()) + blocks_of_height(
            lookup,
            current_height,
            current,
            heights.last(),
        )
    }
}

/// What sending blocks to the node that asked for them is; nothing is sent if there are none.
pub open spec fn send_blocks(origin: u32, blocks: Seq<BlockView>) -> Seq<EffectView> {
    if blocks.len() > 0 {
        seq![
            EffectView::Publish(
                chain_key(MsgType::SyncResponse),
                OutgoingView::SyncResponse { operate: OperateType::Single, origin, blocks },
            ),
        ]
    } else {
        seq![]
    }
}

/// One answer goes before the rest of a conversation.
proof fn lemma_conversation_goes_on(
    world: spec_fn(AskView) -> Answer,
    chain: ChainView,
    ask: AskView,
)
    requires
        can_resume(chain, ask, world(ask)),
    ensures
        ({
            let first = resume_outcome(chain, ask, world(ask));
            let others = conversation(world, first.chain, first.ask);
            conversation(world, chain, Some(ask)) == (Outcome {
                effects: first.effects + others.effects,
                ..others
            })
        }),
{
}

/// What is left of the answer to a node, from the height `next` on.
spec fn sync_reply_left(
    world: spec_fn(AskView) -> Answer,
    chain: ChainView,
    origin: u32,
    heights: Seq<u64>,
    next: int,
    found: Seq<BlockView>,
) -> Outcome {
    let first = sync_reply_outcome(chain, origin, heights, next, found);
    let others = conversation(world, first.chain, first.ask);
    Outcome { effects: first.effects + others.effects, ..others }
}

proof fn lemma_sync_reply(
    world: spec_fn(AskView) -> Answer,
    lookup: spec_fn(u64) -> Option<BlockView>,
    current: Option<Seq<u8>>,
    chain: ChainView,
    origin: u32,
    heights: Seq<u64>,
    next: int,
    found: Seq<BlockView>,
)
    requires
        serves(world, lookup, current),
        0 <= next <= heights.len(),
        found == blocks_of_heights(lookup, chain.current_height, current, heights.take(next)),
    ensures
        sync_reply_left(world, chain, origin, heights, next, found) == Outcome::done(
            chain,
            send_blocks(
                origin,
                blocks_of_heights(lookup, chain.current_height, current, heights),
            ),
        ),
    decreases heights.len() - next,
{
    let left = sync_reply_left(world, chain, origin, heights, next, found);
    if next == heights.len() {
        assert(heights.take(next) =~= heights);
        assert(left.effects =~= send_blocks(origin, found));
    } else {
        let height = heights[next];
        assert(heights.take(next + 1).drop_last() =~= heights.take(next));
        let ask = AskView::SyncBlock { origin, heights, next, found };
        let block = block_view(world(ask)->Block_0);
        assert(world(ask) is Block);
        lemma_conversation_goes_on(world, chain, ask);
        let for_height = blocks_of_height(lookup, chain.current_height, current, height);
        let found_next = found + for_height;
        match block {
            None => {
                assert(found_next =~= found);
            },
            Some(block) => {
                if height == chain.current_height {
                    let found_more = found.push(block);
                    let second = AskView::CurrentBlockProof {
                        origin,
                        heights,
                        next,
                        found: found_more,
                    };
                    assert(world(second) is Proof);
                    lemma_conversation_goes_on(world, chain, second);
                    match current {
                        None => {
                            assert(found_next =~= found_more);
                        },
                        Some(current) => {
                            assert(found_next =~= found_more.push(proof_block(current)));
                        },
                    }
                } else {
                    assert(found_next =~= found.push(block));
                }
            },
        }
        lemma_sync_reply(
            world,
            lookup,
            current,
            chain,
            origin,
            heights,
            next + 1,
            found_next,
        );
        assert(left.effects =~= sync_reply_left(
            world,
            chain,
            origin,
            heights,
            next + 1,
            found_next,
        ).effects);
    }
}

/// A node that asks for the blocks of some heights is sent, in one message to it alone, those
/// that there are, in the order of the heights, and behind the current block its proof. If there
/// are none, it is sent nothing.
pub proof fn law_sync_request_is_served(
    world: spec_fn(AskView) -> Answer,
    lookup: spec_fn(u64) -> Option<BlockView>,
    current: Option<Seq<u8>>,
    chain: ChainView,
    msg: Message,
    msg_bytes: Seq<u8>,
)
    requires
        serves(world, lookup, current),
        msg.payload is SyncRequest,
    ensures
        dealt_with(
            world,
            chain,
            RoutingKey { module: SubModules::Net, msg_type: MsgType::SyncRequest },
            msg,
            msg_bytes,
        ) == Outcome::done(
            chain,
            send_blocks(
                msg.origin,
                blocks_of_heights(
                    lookup,
                    chain.current_height,
                    current,
                    msg.payload->SyncRequest_0.heights@,
                ),
            ),
        ),
{
    let heights = msg.payload->SyncRequest_0.heights@;
    assert(heights.take(0) =~= seq![]);
    lemma_sync_reply(world, lookup, current, chain, msg.origin, heights, 0, seq![]);
}

/// Some heights in a row, without the first and with the last.
pub open spec fn heights_between(low: u64, high: u64) -> Seq<u64> {
    Seq::new((high - low) as nat, |i: int| (low + 1 + i) as u64)
}

/// The blocks of some heights in a row, and behind them the proof of the last.
pub open spec fn blocks_between(
    blocks: spec_fn(u64) -> BlockView,
    low: u64,
    high: u64,
    last: Seq<u8>,
) -> Seq<BlockView> {
    heights_between(low, high).map_values(blocks).push(proof_block(last))
}

/// Whether `world` finds nothing wrong with a block, and in its header a Tendermint proof of the
/// block at a height. A block that only carries a proof has no transactions to check.
pub open spec fn vouches(
    world: spec_fn(AskView) -> Answer,
    block: BlockView,
    proved_height: u64,
) -> bool {
    forall|rest: Seq<BlockView>|
        #![trigger world(AskView::CheckHash { block, rest })]
        #![trigger world(AskView::ProofType { block, rest })]
        #![trigger world(AskView::TendermintHeight { block, rest })]
        {
            &&& block.height != u64::MAX ==> world(AskView::CheckHash { block, rest })
                == Answer::HashChecked(true)
            &&& world(AskView::ProofType { block, rest }) == Answer::ProofType(
                Some(ProofType::Tendermint),
            )
            &&& world(AskView::TendermintHeight { block, rest }) is TendermintHeight
            &&& proof_height(
                world(AskView::TendermintHeight { block, rest })->TendermintHeight_0,
            ) == proved_height
        }
}

/// The proof of the block at a height, in the blocks of some heights in a row: it stands in the
/// next block, and for the last block by itself.
pub open spec fn proof_of(
    blocks: spec_fn(u64) -> BlockView,
    high: u64,
    last: Seq<u8>,
    height: u64,
) -> Seq<u8> {
    if height < high {
        blocks((height + 1) as u64).proof
    } else {
        last
    }
}

/// Whether the queue has the blocks of some heights in a row, each with its proof.
pub open spec fn caught_up(
    chain: ChainView,
    blocks: spec_fn(u64) -> BlockView,
    low: u64,
    high: u64,
    last: Seq<u8>,
) -> bool {
    forall|height: u64|
        #![trigger chain.block_map[height]]
        low < height <= high ==> {
            &&& chain.block_map.contains_key(height)
            &&& chain.block_map[height] == BlockInQueueView::SyncBlock(
                blocks(height),
                Some(proof_of(blocks, high, last, height)),
            )
        }
}

/// What storing the blocks of some heights in a row is: each body, and then its height as that of
/// the newest stored block.
pub open spec fn bodies_stored(
    blocks: spec_fn(u64) -> BlockView,
    low: u64,
    high: u64,
) -> Seq<EffectView>
    decreases high - low,
{
    if low >= high {
        seq![]
    } else {
        let height = (low + 1) as u64;
        seq![
            EffectView::SetBlockBody(height, blocks(height)),
            EffectView::StoreMaxStoreHeight(height),
        ] + bodies_stored(blocks, height, high)
    }
}

/// Whether a chain that stood at `low` has come as far as `reached` on its way to `high`: the
/// block at `reached` still waits for its proof.
spec fn on_the_way(
    chain: ChainView,
    blocks: spec_fn(u64) -> BlockView,
    low: u64,
    reached: u64,
    high: u64,
    last: Seq<u8>,
) -> bool {
    &&& chain.max_height == low
    &&& chain.current_height < high
    &&& chain.proof_type == Some(ProofType::Tendermint)
    &&& low < reached ==> {
        &&& chain.max_store_height == reached
        &&& chain.block_map.contains_key(reached)
        &&& chain.block_map[reached] == BlockInQueueView::SyncBlock(blocks(reached), None)
    }
    &&& forall|height: u64|
        #![trigger chain.block_map[height]]
        low < height < reached ==> {
            &&& chain.block_map.contains_key(height)
            &&& chain.block_map[height] == BlockInQueueView::SyncBlock(
                blocks(height),
                Some(proof_of(blocks, high, last, height)),
            )
        }
}

/// A block that is vouched for is added, and the conversation goes on with those behind it.
proof fn lemma_block_is_added(
    world: spec_fn(AskView) -> Answer,
    chain: ChainView,
    block: BlockView,
    rest: Seq<BlockView>,
    proved_height: u64,
)
    requires
        vouches(world, block, proved_height),
        chain.proof_type == Some(ProofType::Tendermint),
        chain.max_height <= block.height,
    ensures
        ({
            let whole = conversation(
                world,
                chain,
                next_sync_ask(chain.max_height, seq![block] + rest),
            );
            let after = sync_block_added(chain, block, proved_height);
            let others = conversation(world, after, next_sync_ask(chain.max_height, rest));
            whole == (Outcome {
                effects: sync_block_effects(chain, block, proved_height) + others.effects,
                ..others
            })
        }),
{
    let checked = AskView::CheckHash { block, rest };
    let typed = AskView::ProofType { block, rest };
    let read = AskView::TendermintHeight { block, rest };
    assert((seq![block] + rest).drop_first() =~= rest);
    assert(world(typed) == Answer::ProofType(Some(ProofType::Tendermint)));
    assert(world(read) is TendermintHeight);
    if block.height != u64::MAX {
        lemma_conversation_goes_on(world, chain, checked);
    }
    lemma_conversation_goes_on(world, chain, typed);
    lemma_conversation_goes_on(world, chain, read);
    let whole = conversation(world, chain, next_sync_ask(chain.max_height, seq![block] + rest));
    assert(whole.effects =~= conversation(world, chain, Some(read)).effects);
}

/// The next block in a row takes a chain one height further.
proof fn lemma_one_height_further(
    chain: ChainView,
    blocks: spec_fn(u64) -> BlockView,
    low: u64,
    reached: u64,
    high: u64,
    last: Seq<u8>,
)
    requires
        low <= reached < high < u64::MAX,
        blocks((reached + 1) as u64).height == reached + 1,
        on_the_way(chain, blocks, low, reached, high, last),
    ensures
        on_the_way(
            sync_block_added(chain, blocks((reached + 1) as u64), reached),
            blocks,
            low,
            (reached + 1) as u64,
            high,
            last,
        ),
{
    let height = (reached + 1) as u64;
    let after = sync_block_added(chain, blocks(height), reached);
    assert forall|other: u64|
        #![trigger after.block_map[other]]
        low < other < height implies {
        &&& after.block_map.contains_key(other)
        &&& after.block_map[other] == BlockInQueueView::SyncBlock(
            blocks(other),
            Some(proof_of(blocks, high, last, other)),
        )
    } by {
        assert(other < reached ==> after.block_map[other] == chain.block_map[other]);
    }
}

/// The proof of the last block in a row ends the way.
proof fn lemma_last_proof(
    chain: ChainView,
    blocks: spec_fn(u64) -> BlockView,
    low: u64,
    high: u64,
    last: Seq<u8>,
)
    requires
        low < high,
        on_the_way(chain, blocks, low, high, high, last),
    ensures
        caught_up(sync_block_added(chain, proof_block(last), high), blocks, low, high, last),
        sync_block_added(chain, proof_block(last), high).max_store_height == high,
{
    let after = sync_block_added(chain, proof_block(last), high);
    assert forall|height: u64|
        #![trigger after.block_map[height]]
        low < height <= high implies {
        &&& after.block_map.contains_key(height)
        &&& after.block_map[height] == BlockInQueueView::SyncBlock(
            blocks(height),
            Some(proof_of(blocks, high, last, height)),
        )
    } by {
        assert(height < high ==> after.block_map[height] == chain.block_map[height]);
    }
}

proof fn lemma_catches_up(
    world: spec_fn(AskView) -> Answer,
    blocks: spec_fn(u64) -> BlockView,
    chain: ChainView,
    low: u64,
    reached: u64,
    high: u64,
    last: Seq<u8>,
)
    requires
        low <= reached <= high < u64::MAX,
        low < high,
        forall|height: u64|
            low < height <= high ==> (#[trigger] blocks(height)).height == height && vouches(
                world,
                blocks(height),
                (height - 1) as u64,
            ),
        vouches(world, proof_block(last), high),
        on_the_way(chain, blocks, low, reached, high, last),
    ensures
        ({
            let left = blocks_between(blocks, low, high, last).skip(reached - low);
            let end = conversation(world, chain, next_sync_ask(low, left));
            &&& end.ask is None
            &&& end.chain.max_store_height == high
            &&& caught_up(end.chain, blocks, low, high, last)
            &&& end.effects == bodies_stored(blocks, reached, high)
        }),
    decreases high - reached,
{
    let all = blocks_between(blocks, low, high, last);
    let left = all.skip(reached - low);
    let rest = all.skip(reached - low + 1);
    if reached == high {
        let block = proof_block(last);
        assert(rest =~= seq![]);
        assert(left =~= seq![block] + rest);
        lemma_block_is_added(world, chain, block, rest, high);
        lemma_last_proof(chain, blocks, low, high, last);
    } else {
        let height = (reached + 1) as u64;
        let block = blocks(height);
        assert(all[reached - low] == block);
        assert(left =~= seq![block] + rest);
        lemma_block_is_added(world, chain, block, rest, reached);
        lemma_one_height_further(chain, blocks, low, reached, high, last);
        lemma_catches_up(
            world,
            blocks,
            sync_block_added(chain, block, reached),
            low,
            height,
            high,
            last,
        );
    }
}

/// A node that stands at one height and is sent the blocks up to another, each with the proof of
/// the block before it in its header, and then the proof of the last one, has all of them in its
/// queue afterwards, each with its own proof, and has their bodies stored, and nothing else done.
pub proof fn law_sync_response_catches_up(
    world: spec_fn(AskView) -> Answer,
    blocks: spec_fn(u64) -> BlockView,
    chain: ChainView,
    high: u64,
    last: Seq<u8>,
    msg: Message,
    msg_bytes: Seq<u8>,
)
    requires
        chain.current_height < high,
        chain.max_height < high < u64::MAX,
        chain.proof_type == Some(ProofType::Tendermint),
        forall|height: u64|
            chain.max_height < height <= high ==> (#[trigger] blocks(height)).height == height
                && vouches(world, blocks(height), (height - 1) as u64),
        vouches(world, proof_block(last), high),
        msg.payload matches Payload::SyncResponse(sync_res) && sync_res@ == blocks_between(
            blocks,
            chain.max_height,
            high,
            last,
        ),
    ensures
        ({
            let end = dealt_with(
                world,
                chain,
                RoutingKey { module: SubModules::Net, msg_type: MsgType::SyncResponse },
                msg,
                msg_bytes,
            );
            &&& end.ask is None
            &&& end.chain.max_store_height == high
            &&& caught_up(end.chain, blocks, chain.max_height, high, last)
            &&& end.effects == bodies_stored(blocks, chain.max_height, high)
        }),
{
    let low = chain.max_height;
    let all = blocks_between(blocks, low, high, last);
    assert(all.skip(0) =~= all);
    lemma_catches_up(world, blocks, chain, low, low, high, last);
}

proof fn lemma_blocks_of_heights_between(
    lookup: spec_fn(u64) -> Option<BlockView>,
    blocks: spec_fn(u64) -> BlockView,
    current_height: u64,
    current: Option<Seq<u8>>,
    low: u64,
    high: u64,
)
    requires
        low <= high < current_height,
        forall|height: u64|
            low < height <= high ==> #[trigger] lookup(height) == Some(blocks(height)),
    ensures
        blocks_of_heights(lookup, current_height, current, heights_between(low, high))
            == heights_between(low, high).map_values(blocks),
    decreases high - low,
{
    let heights = heights_between(low, high);
    if low < high {
        let below = (high - 1) as u64;
        assert(heights.drop_last() =~= heights_between(low, below));
        assert(heights.last() == high);
        lemma_blocks_of_heights_between(lookup, blocks, current_height, current, low, below);
        assert(heights.map_values(blocks) =~= heights_between(low, below).map_values(blocks)
            + seq![blocks(high)]);
    } else {
        assert(heights =~= seq![]);
        assert(heights.map_values(blocks) =~= seq![]);
    }
}

/// What a node is sent that asks for the blocks behind one height up to the current one is just
/// what it needs to catch up: the blocks in a row, and behind them the proof of the last.
pub proof fn law_sync_request_gets_what_catches_up(
    lookup: spec_fn(u64) -> Option<BlockView>,
    blocks: spec_fn(u64) -> BlockView,
    last: Seq<u8>,
    low: u64,
    high: u64,
)
    requires
        low < high,
        forall|height: u64|
            low < height <= high ==> #[trigger] lookup(height) == Some(blocks(height)),
    ensures
        blocks_of_heights(lookup, high, Some(last), heights_between(low, high)) == blocks_between(
            blocks,
            low,
            high,
            last,
        ),
{
    let heights = heights_between(low, high);
    let below = (high - 1) as u64;
    assert(heights.drop_last() =~= heights_between(low, below));
    assert(heights.last() == high);
    lemma_blocks_of_heights_between(lookup, blocks, high, Some(last), low, below);
    assert(blocks_of_heights(lookup, high, Some(last), heights) =~= blocks_between(
        blocks,
        low,
        high,
        last,
    ));
}

/// Which of the blocks that another node sends are taken, in order, each with the height of the
/// block that the proof in its header is for, by a chain that has reached `max_height`: those not
/// below that height, up to the first whose transaction root is wrong, and of them those whose
/// proof is of the consensus that the chain runs.
pub open spec fn blocks_taken(
    world: spec_fn(AskView) -> Answer,
    max_height: u64,
    proof_type: Option<ProofType>,
    blocks: Seq<BlockView>,
) -> Seq<(BlockView, u64)>
    decreases blocks.len(),
{
    if blocks.len() == 0 {
        seq![]
    } else {
        let block = blocks[0];
        let rest = blocks.drop_first();
        let others = blocks_taken(world, max_height, proof_type, rest);
        if block.height < max_height {
            others
        } else if block.height != u64::MAX && !world(
            AskView::CheckHash { block, rest },
        )->HashChecked_0 {
            seq![]
        } else if world(AskView::ProofType { block, rest })->ProofType_0 != proof_type {
            others
        } else {
            let height = world(AskView::TendermintHeight { block, rest })->TendermintHeight_0;
            seq![(block, proof_height(height))] + others
        }
    }
}

/// What adding some blocks comes to, one after the other, each with the height of the block that
/// the proof in its header is for.
pub open spec fn blocks_added(chain: ChainView, taken: Seq<(BlockView, u64)>) -> Outcome
    decreases taken.len(),
{
    if taken.len() == 0 {
        Outcome::idle(chain)
    } else {
        let (block, height) = taken[0];
        let others = blocks_added(sync_block_added(chain, block, height), taken.drop_first());
        Outcome {
            effects: sync_block_effects(chain, block, height) + others.effects,
            ..others
        }
    }
}

proof fn lemma_sync_response(
    world: spec_fn(AskView) -> Answer,
    chain: ChainView,
    blocks: Seq<BlockView>,
)
    requires
        conversation(world, chain, next_sync_ask(chain.max_height, blocks)).ask is None,
    ensures
        conversation(world, chain, next_sync_ask(chain.max_height, blocks)) == blocks_added(
            chain,
            blocks_taken(world, chain.max_height, chain.proof_type, blocks),
        ),
    decreases blocks.len(),
{
    let max_height = chain.max_height;
    let whole = conversation(world, chain, next_sync_ask(max_height, blocks));
    let taken = blocks_taken(world, max_height, chain.proof_type, blocks);
    if blocks.len() > 0 {
        let block = blocks[0];
        let rest = blocks.drop_first();
        let checked = AskView::CheckHash { block, rest };
        let typed = AskView::ProofType { block, rest };
        let read = AskView::TendermintHeight { block, rest };
        if block.height < max_height {
            lemma_sync_response(world, chain, rest);
        } else if block.height != u64::MAX && !world(checked)->HashChecked_0 {
            lemma_conversation_goes_on(world, chain, checked);
            assert(whole.effects =~= seq![]);
        } else {
            if block.height != u64::MAX {
                lemma_conversation_goes_on(world, chain, checked);
            }
            let second = conversation(world, chain, Some(typed));
            assert(whole.effects =~= second.effects);
            lemma_conversation_goes_on(world, chain, typed);
            if world(typed)->ProofType_0 != chain.proof_type {
                let others = conversation(world, chain, next_sync_ask(max_height, rest));
                assert(second.effects =~= others.effects);
                lemma_sync_response(world, chain, rest);
            } else {
                let third = conversation(world, chain, Some(read));
                assert(second.effects =~= third.effects);
                lemma_conversation_goes_on(world, chain, read);
                let height = proof_height(world(read)->TendermintHeight_0);
                let after = sync_block_added(chain, block, height);
                lemma_sync_response(world, after, rest);
                assert(taken.drop_first() =~= blocks_taken(
                    world,
                    max_height,
                    chain.proof_type,
                    rest,
                ));
            }
        }
    }
}

/// What the blocks that another node sends come to, whatever they are, if every question about
/// them gets an answer that can be gone on with: of those not below the height that the chain has
/// reached, up to the first whose transaction root is wrong, each whose proof is of the consensus
/// that the chain runs is added, in the order in which they came. That is all that changes, and
/// all that is done.
pub proof fn law_sync_response_adds_what_is_taken(
    world: spec_fn(AskView) -> Answer,
    chain: ChainView,
    msg: Message,
    msg_bytes: Seq<u8>,
)
    requires
        msg.payload is SyncResponse,
        dealt_with(
            world,
            chain,
            RoutingKey { module: SubModules::Net, msg_type: MsgType::SyncResponse },
            msg,
            msg_bytes,
        ).ask is None,
    ensures
        dealt_with(
            world,
            chain,
            RoutingKey { module: SubModules::Net, msg_type: MsgType::SyncResponse },
            msg,
            msg_bytes,
        ) == blocks_added(
            chain,
            blocks_taken(
                world,
                chain.max_height,
                chain.proof_type,
                msg.payload->SyncResponse_0@,
            ),
        ),
{
    let sent = msg.payload->SyncResponse_0@;
    let whole = conversation(world, chain, next_sync_ask(chain.max_height, sent));
    assert(seq![] + whole.effects =~= whole.effects);
    lemma_sync_response(world, chain, sent);
}

/// Whether a block of another node has been found to name the root of its transactions, and to
/// carry a proof of the given consensus.
pub open spec fn vetted(
    world: spec_fn(AskView) -> Answer,
    proof_type: Option<ProofType>,
    block: BlockView,
) -> bool {
    exists|rest: Seq<BlockView>| vetted_before(world, proof_type, block, rest)
}

/// The same, when these were the blocks that came behind it.
pub open spec fn vetted_before(
    world: spec_fn(AskView) -> Answer,
    proof_type: Option<ProofType>,
    block: BlockView,
    rest: Seq<BlockView>,
) -> bool {
    &&& world(AskView::CheckHash { block, rest }) == Answer::HashChecked(true)
    &&& world(AskView::ProofType { block, rest }) == Answer::ProofType(proof_type)
}

/// Whether of all blocks only such are to be stored that are among `sent` and are vetted, each
/// under its own height.
pub open spec fn stores_only_vetted(
    world: spec_fn(AskView) -> Answer,
    proof_type: Option<ProofType>,
    sent: Seq<BlockView>,
    effects: Seq<EffectView>,
) -> bool {
    forall|i: int|
        0 <= i < effects.len() ==> (#[trigger] effects[i] matches EffectView::SetBlockBody(
            height,
            block,
        ) ==> {
            &&& height == block.height
            &&& sent.contains(block)
            &&& vetted(world, proof_type, block)
        })
}

/// Whether a question about a block of another node comes after those that it has to come after.
spec fn vetted_so_far(
    world: spec_fn(AskView) -> Answer,
    proof_type: Option<ProofType>,
    sent: Seq<BlockView>,
    ask: Option<AskView>,
) -> bool {
    match ask {
        None => true,
        Some(AskView::CheckHash { block, rest }) => about_sent(sent, block, rest),
        Some(AskView::ProofType { block, rest }) => {
            &&& about_sent(sent, block, rest)
            &&& block.height != u64::MAX ==> world(AskView::CheckHash { block, rest })
                == Answer::HashChecked(true)
        },
        Some(AskView::TendermintHeight { block, rest }) => {
            &&& about_sent(sent, block, rest)
            &&& block.height != u64::MAX ==> vetted_before(world, proof_type, block, rest)
        },
        _ => false,
    }
}

proof fn lemma_stores_only_vetted(
    world: spec_fn(AskView) -> Answer,
    chain: ChainView,
    sent: Seq<BlockView>,
    ask: Option<AskView>,
)
    requires
        vetted_so_far(world, chain.proof_type, sent, ask),
    ensures
        stores_only_vetted(
            world,
            chain.proof_type,
            sent,
            conversation(world, chain, ask).effects,
        ),
    decreases conversation_left(ask),
{
    if ask is Some && can_resume(chain, ask->0, world(ask->0)) {
        let question = ask->0;
        let first = resume_outcome(chain, question, world(question));
        law_questions_run_out(chain, question, world(question));
        match question {
            AskView::ProofType { rest, .. } => {
                lemma_next_sync_ask_is_about_sent(chain.max_height, sent, rest);
            },
            AskView::TendermintHeight { block, rest } => {
                lemma_next_sync_ask_is_about_sent(first.chain.max_height, sent, rest);
            },
            _ => {},
        }
        lemma_stores_only_vetted(world, first.chain, sent, first.ask);
    }
}

/// Of the blocks that another node sends, only those are stored whose transaction root is
/// correct and whose proof is of the consensus that the chain runs.
pub proof fn law_only_vetted_blocks_are_stored(
    world: spec_fn(AskView) -> Answer,
    chain: ChainView,
    msg: Message,
    msg_bytes: Seq<u8>,
)
    requires
        msg.payload is SyncResponse,
    ensures
        stores_only_vetted(
            world,
            chain.proof_type,
            msg.payload->SyncResponse_0@,
            dealt_with(
                world,
                chain,
                RoutingKey { module: SubModules::Net, msg_type: MsgType::SyncResponse },
                msg,
                msg_bytes,
            ).effects,
        ),
{
    let sent = msg.payload->SyncResponse_0@;
    lemma_next_sync_ask_is_about_sent(chain.max_height, sent, sent);
    lemma_stores_only_vetted(
        world,
        chain,
        sent,
        next_sync_ask(chain.max_height, sent),
    );
}

} // verus!
