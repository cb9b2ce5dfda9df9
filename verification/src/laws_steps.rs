//! What each step does, in full: which messages and answers are taken, and what each of them comes
//! to. What concerns JSON-RPC clients stands in [`crate::laws_rpc`].

use crate::block::{Block, BlockInQueueView, BlockView, Proof, ProofType};
use crate::chain::ChainView;
use crate::consensus::consensus_outcome;
use crate::conversation::dealt_with;
use crate::dispatch::{can_dispatch, can_resume, dispatch_outcome, resume_outcome};
use crate::message::{
    Cmd, Message, MsgType, OperateType, OutgoingView, Payload, RequestBody, Resp, RoutingKey,
    SubModules,
};
use crate::snapshot::{snapshot_file, snapshot_outcome, take_snapshot_effect};
use crate::sync::{
    next_sync_ask, proof_height, sync_block_added, sync_block_effects, sync_blocks_outcome,
    sync_reply_outcome,
};
use crate::task::{Answer, AskView, EffectView, PackedWriterView};
use vstd::prelude::*;

verus! {

/// A message can be dealt with if it carries what its key announces. A request must ask something
/// too, about a hash of the right length if it names a transaction, and behind the newest stored
/// block there must be a height for a decided block. Under any other key every message can be
/// dealt with.
pub proof fn law_which_messages_are_taken(chain: ChainView, key: RoutingKey, msg: Message)
    ensures
        can_dispatch(chain, key, msg) <==> match (key.module, key.msg_type) {
            (SubModules::Jsonrpc, MsgType::Request) => match msg.payload {
                Payload::Request(req) => match req.req {
                    None => false,
                    Some(RequestBody::Transaction(hash)) => hash@.len() == 32,
                    Some(RequestBody::TransactionProof(hash)) => hash@.len() == 32,
                    Some(RequestBody::TransactionReceipt(hash)) => hash@.len() == 32,
                    Some(_) => true,
                },
                _ => false,
            },
            (SubModules::Executor, MsgType::ExecutedResult) => msg.payload is ExecutedResult,
            (SubModules::Consensus, MsgType::BlockWithProof) => msg.payload is BlockWithProof
                && chain.max_store_height != u64::MAX,
            (SubModules::Net, MsgType::SyncRequest) => msg.payload is SyncRequest,
            (SubModules::Net, MsgType::SyncResponse) => msg.payload is SyncResponse,
            (SubModules::Auth, MsgType::BlockTxHashesReq) => msg.payload is BlockTxHashesReq,
            (SubModules::Snapshot, MsgType::SnapshotReq) => msg.payload is SnapshotReq,
            _ => true,
        },
{
}

/// An answer can be gone on with if it is of the kind that the question wants. The hash of a block
/// must have the right length too, a height that is asked about must be one of those that were
/// named, and the proofs of the chain's own consensus must be Tendermint proofs.
pub proof fn law_which_answers_are_taken(chain: ChainView, ask: AskView, answer: Answer)
    ensures
        can_resume(chain, ask, answer) <==> match ask {
            AskView::ParamsByHash { .. } => match answer {
                Answer::ParamsByHash(Ok(params)) => params.hash@.len() == 32,
                Answer::ParamsByHash(Err(_)) => true,
                _ => false,
            },
            AskView::BlockByHash { .. } => answer is Block,
            AskView::ParamsByNumber { .. } => answer is ParamsByNumber,
            AskView::BlockById { .. } => answer is HashedBlock,
            AskView::RenderBlock { .. } => answer is Rendered,
            AskView::Transaction { .. } => answer is Bytes,
            AskView::TransactionProof { .. } => answer is Bytes,
            AskView::TransactionReceipt { .. } => answer is Receipt,
            AskView::Filter { .. } => answer is FilterRead,
            AskView::Logs { .. } => answer is Json,
            AskView::NewFilter { .. } => answer is FilterId,
            AskView::NewBlockFilter { .. } => answer is FilterId,
            AskView::UninstallFilter { .. } => answer is Removed,
            AskView::FilterChanges { .. } => answer is Json,
            AskView::FilterLogs { .. } => answer is FilterLogs,
            AskView::SyncBlock { heights, next, .. } => answer is Block && next < heights.len(),
            AskView::CurrentBlockProof { heights, next, .. } => answer is Proof && next
                < heights.len(),
            AskView::CheckHash { .. } => answer is HashChecked,
            AskView::ProofType { .. } => match answer {
                Answer::ProofType(Some(ProofType::Tendermint)) => true,
                Answer::ProofType(other) => other != chain.proof_type,
                _ => false,
            },
            AskView::TendermintHeight { .. } => answer is TendermintHeight && chain.proof_type
                == Some(ProofType::Tendermint),
            AskView::TransactionHashes { .. } => answer is TxHashes,
            AskView::OpenSnapshot { .. } => answer is SnapshotOpened,
            AskView::RootNodePath => answer is RootNodePath,
        },
{
}

/// A message under a key that the chain service does not know changes nothing, and nothing is
/// done or asked.
pub proof fn law_other_keys_are_passed_over(
    chain: ChainView,
    key: RoutingKey,
    msg: Message,
    msg_bytes: Seq<u8>,
)
    requires
        key.module == SubModules::Jsonrpc ==> key.msg_type != MsgType::Request,
        key.module == SubModules::Executor ==> key.msg_type != MsgType::ExecutedResult,
        key.module == SubModules::Consensus ==> key.msg_type != MsgType::BlockWithProof,
        key.module == SubModules::Net ==> key.msg_type != MsgType::SyncRequest && key.msg_type
            != MsgType::SyncResponse,
        key.module == SubModules::Auth ==> key.msg_type != MsgType::BlockTxHashesReq,
        key.module == SubModules::Snapshot ==> key.msg_type != MsgType::SnapshotReq,
    ensures
        dispatch_outcome(chain, key, msg, msg_bytes).chain == chain,
        dispatch_outcome(chain, key, msg, msg_bytes).effects.len() == 0,
        dispatch_outcome(chain, key, msg, msg_bytes).ask is None,
{
}

/// A result of the executor is handed to the block processor as it is, however the chain stands.
/// Nothing else is done, nothing is asked, and the chain stays as it is.
pub proof fn law_executed_results_are_handed_on(
    world: spec_fn(AskView) -> Answer,
    chain: ChainView,
    result: Vec<u8>,
    msg: Message,
    msg_bytes: Seq<u8>,
)
    requires
        msg.payload == Payload::ExecutedResult(result),
    ensures
        ({
            let key = RoutingKey {
                module: SubModules::Executor,
                msg_type: MsgType::ExecutedResult,
            };
            let first = dispatch_outcome(chain, key, msg, msg_bytes);
            let whole = dealt_with(world, chain, key, msg, msg_bytes);
            &&& can_dispatch(chain, key, msg)
            &&& first.chain == chain
            &&& first.effects == seq![EffectView::Execute(result@)]
            &&& first.ask is None
            &&& whole.chain == chain
            &&& whole.effects == seq![EffectView::Execute(result@)]
            &&& whole.ask is None
        }),
{
}

/// A decided block whose height is the one behind the newest stored block is taken, whatever the
/// queue holds: it goes into the queue with its proof, the newest stored height becomes its own,
/// and its proof and body are stored and its transactions announced, in this order and once each.
/// The rest of the chain stays as it is.
pub proof fn law_next_decided_block_is_taken(
    chain: ChainView,
    msg: Message,
    msg_bytes: Seq<u8>,
)
    requires
        msg.payload is BlockWithProof,
        msg.payload->BlockWithProof_0.blk.height == chain.max_store_height + 1,
    ensures
        ({
            let block = msg.payload->BlockWithProof_0.blk@;
            let decided = msg.payload->BlockWithProof_0.proof.content@;
            let outcome = dispatch_outcome(
                chain,
                RoutingKey { module: SubModules::Consensus, msg_type: MsgType::BlockWithProof },
                msg,
                msg_bytes,
            );
            let after = outcome.chain;
            &&& outcome == consensus_outcome(chain, block, decided)
            &&& outcome.ask is None
            &&& outcome.effects == seq![
                EffectView::SaveCurrentBlockProof(decided),
                EffectView::SetBlockBody(block.height, block),
                EffectView::StoreMaxStoreHeight(block.height),
                EffectView::DeliverBlockTxHashes(block.height, block),
            ]
            &&& after.max_store_height == block.height
            &&& after.block_map.contains_key(block.height)
            &&& after.block_map[block.height] == BlockInQueueView::ConsensusBlock(block, decided)
            &&& forall|other: u64|
                #![trigger after.block_map.contains_key(other)]
                #![trigger after.block_map[other]]
                other != block.height ==> {
                    &&& after.block_map.contains_key(other) <==> chain.block_map.contains_key(other)
                    &&& after.block_map[other] == chain.block_map[other]
                }
            &&& after.current_height == chain.current_height
            &&& after.current_hash == chain.current_hash
            &&& after.max_height == chain.max_height
            &&& after.proof_type == chain.proof_type
            &&& after.block_gas_limit == chain.block_gas_limit
            &&& after.account_gas_limit == chain.account_gas_limit
        }),
{
}

/// A decided block of any other height is dropped: nothing changes, and nothing is done or asked.
pub proof fn law_other_decided_blocks_are_dropped(
    chain: ChainView,
    msg: Message,
    msg_bytes: Seq<u8>,
)
    requires
        msg.payload is BlockWithProof,
        msg.payload->BlockWithProof_0.blk.height != chain.max_store_height + 1,
    ensures
        ({
            let outcome = dispatch_outcome(
                chain,
                RoutingKey { module: SubModules::Consensus, msg_type: MsgType::BlockWithProof },
                msg,
                msg_bytes,
            );
            &&& outcome == consensus_outcome(
                chain,
                msg.payload->BlockWithProof_0.blk@,
                msg.payload->BlockWithProof_0.proof@,
            )
            &&& outcome.chain == chain
            &&& outcome.effects.len() == 0
            &&& outcome.ask is None
        }),
{
}

/// Blocks that are decided one behind the other are all taken, also while none of them has been
/// executed.
pub proof fn law_decided_blocks_follow_each_other(
    chain: ChainView,
    one: BlockView,
    one_proof: Seq<u8>,
    two: BlockView,
    two_proof: Seq<u8>,
)
    requires
        one.height == chain.max_store_height + 1,
        two.height == one.height + 1,
    ensures
        ({
            let middle = consensus_outcome(chain, one, one_proof).chain;
            let after = consensus_outcome(middle, two, two_proof).chain;
            &&& after.max_store_height == chain.max_store_height + 2
            &&& after.block_map.contains_key(one.height)
            &&& after.block_map[one.height] == BlockInQueueView::ConsensusBlock(one, one_proof)
            &&& after.block_map.contains_key(two.height)
            &&& after.block_map[two.height] == BlockInQueueView::ConsensusBlock(two, two_proof)
        }),
{
}

/// A node that asks for blocks is served from its first height on, with nothing found yet, and
/// goes by the number that its message came under.
pub proof fn law_sync_requests_start_at_the_first_height(
    chain: ChainView,
    msg: Message,
    msg_bytes: Seq<u8>,
)
    requires
        msg.payload is SyncRequest,
    ensures
        ({
            let heights = msg.payload->SyncRequest_0.heights@;
            let outcome = dispatch_outcome(
                chain,
                RoutingKey { module: SubModules::Net, msg_type: MsgType::SyncRequest },
                msg,
                msg_bytes,
            );
            &&& outcome == sync_reply_outcome(chain, msg.origin, heights, 0, seq![])
            &&& outcome.chain == chain
            &&& outcome.effects.len() == 0
            &&& heights.len() == 0 ==> outcome.ask is None
            &&& heights.len() > 0 ==> outcome.ask == Some(
                AskView::SyncBlock { origin: msg.origin, heights, next: 0, found: seq![] },
            )
        }),
{
}

/// As long as there are heights left, the block of the next one is asked for. Behind the last one
/// all that was found is sent to the one node that asked, in one message, and nothing if nothing
/// was found.
pub proof fn law_sync_reply_goes_from_height_to_height(
    chain: ChainView,
    origin: u32,
    heights: Seq<u64>,
    next: int,
    found: Seq<BlockView>,
)
    ensures
        ({
            let outcome = sync_reply_outcome(chain, origin, heights, next, found);
            &&& outcome.chain == chain
            &&& next < heights.len() ==> {
                &&& outcome.effects.len() == 0
                &&& outcome.ask == Some(AskView::SyncBlock { origin, heights, next, found })
            }
            &&& next >= heights.len() ==> outcome.ask is None
            &&& next >= heights.len() && found.len() == 0 ==> outcome.effects.len() == 0
            &&& next >= heights.len() && found.len() > 0 ==> outcome.effects == seq![
                EffectView::Publish(
                    RoutingKey { module: SubModules::Chain, msg_type: MsgType::SyncResponse },
                    OutgoingView::SyncResponse {
                        operate: OperateType::Single,
                        origin,
                        blocks: found,
                    },
                ),
            ]
        }),
{
}

/// A block that another node asks for is put behind those that were found, and one that does not
/// exist is passed over. Behind the current block, and behind no other, its proof is asked for.
pub proof fn law_blocks_are_found_for_other_nodes(
    chain: ChainView,
    origin: u32,
    heights: Seq<u64>,
    next: int,
    found: Seq<BlockView>,
    block: Block,
)
    requires
        0 <= next < heights.len(),
    ensures
        ({
            let ask = AskView::SyncBlock { origin, heights, next, found };
            let there = resume_outcome(chain, ask, Answer::Block(Some(block)));
            let missing = resume_outcome(chain, ask, Answer::Block(None));
            let more = found.push(
                BlockView {
                    height: block.height,
                    proof: block.proof.content@,
                    rest: block.rest@,
                },
            );
            &&& missing == sync_reply_outcome(chain, origin, heights, next + 1, found)
            &&& heights[next] != chain.current_height ==> there == sync_reply_outcome(
                chain,
                origin,
                heights,
                next + 1,
                more,
            )
            &&& heights[next] == chain.current_height ==> {
                &&& there.chain == chain
                &&& there.effects.len() == 0
                &&& there.ask == Some(
                    AskView::CurrentBlockProof { origin, heights, next, found: more },
                )
            }
        }),
{
}

/// The proof of the current block is sent behind it, in a block that has no height of its own and
/// nothing else in it. If there is no proof, nothing is sent in its place.
pub proof fn law_current_proof_is_found_for_other_nodes(
    chain: ChainView,
    origin: u32,
    heights: Seq<u64>,
    next: int,
    found: Seq<BlockView>,
    current: Proof,
)
    requires
        0 <= next < heights.len(),
    ensures
        ({
            let ask = AskView::CurrentBlockProof { origin, heights, next, found };
            let there = resume_outcome(chain, ask, Answer::Proof(Some(current)));
            let missing = resume_outcome(chain, ask, Answer::Proof(None));
            &&& missing == sync_reply_outcome(chain, origin, heights, next + 1, found)
            &&& there == sync_reply_outcome(
                chain,
                origin,
                heights,
                next + 1,
                found.push(
                    BlockView { height: u64::MAX, proof: current.content@, rest: seq![] },
                ),
            )
        }),
{
}

/// Of some blocks that another node sends, the first that is not below the height that the chain
/// has reached is looked at, and all that came behind it are kept for later. A block that has
/// transactions is checked; one that only carries a proof has nothing to check.
pub proof fn law_first_new_block_is_looked_at(max_height: u64, blocks: Seq<BlockView>, first: int)
    requires
        0 <= first < blocks.len(),
        blocks[first].height >= max_height,
        forall|i: int| 0 <= i < first ==> (#[trigger] blocks[i]).height < max_height,
    ensures
        next_sync_ask(max_height, blocks) == Some(
            if blocks[first].height == u64::MAX {
                AskView::ProofType { block: blocks[first], rest: blocks.skip(first + 1) }
            } else {
                AskView::CheckHash { block: blocks[first], rest: blocks.skip(first + 1) }
            },
        ),
    decreases blocks.len(),
{
    let rest = blocks.drop_first();
    if first > 0 {
        assert(blocks[0].height < max_height);
        assert forall|i: int| 0 <= i < first - 1 implies (#[trigger] rest[i]).height
            < max_height by {
            assert(rest[i] == blocks[i + 1]);
        }
        law_first_new_block_is_looked_at(max_height, rest, first - 1);
        assert(rest.skip(first) =~= blocks.skip(first + 1));
    } else {
        assert(rest =~= blocks.skip(1));
    }
}

/// If all of the blocks that another node sends are below the height that the chain has reached,
/// none is looked at.
pub proof fn law_old_blocks_are_passed_over(max_height: u64, blocks: Seq<BlockView>)
    requires
        forall|i: int| 0 <= i < blocks.len() ==> (#[trigger] blocks[i]).height < max_height,
    ensures
        next_sync_ask(max_height, blocks) is None,
    decreases blocks.len(),
{
    if blocks.len() > 0 {
        let rest = blocks.drop_first();
        assert(blocks[0].height < max_height);
        assert forall|i: int| 0 <= i < rest.len() implies (#[trigger] rest[i]).height
            < max_height by {
            assert(rest[i] == blocks[i + 1]);
        }
        law_old_blocks_are_passed_over(max_height, rest);
    }
}

/// Blocks that another node sends change nothing by themselves: the first new one is looked at.
pub proof fn law_sync_responses_start_at_the_first_new_block(
    chain: ChainView,
    msg: Message,
    msg_bytes: Seq<u8>,
)
    requires
        msg.payload is SyncResponse,
    ensures
        ({
            let sent = msg.payload->SyncResponse_0@;
            let outcome = dispatch_outcome(
                chain,
                RoutingKey { module: SubModules::Net, msg_type: MsgType::SyncResponse },
                msg,
                msg_bytes,
            );
            &&& outcome == sync_blocks_outcome(chain, sent)
            &&& outcome.chain == chain
            &&& outcome.effects.len() == 0
            &&& outcome.ask == next_sync_ask(chain.max_height, sent)
        }),
{
}

/// A block of another node with a wrong transaction root ends it: neither it nor any block behind
/// it is looked at further. With a correct one, the consensus of its proof is looked at. Nothing
/// changes, and nothing is done.
pub proof fn law_wrong_root_ends_it(
    chain: ChainView,
    block: BlockView,
    rest: Seq<BlockView>,
    correct: bool,
)
    ensures
        ({
            let outcome = resume_outcome(
                chain,
                AskView::CheckHash { block, rest },
                Answer::HashChecked(correct),
            );
            &&& outcome.chain == chain
            &&& outcome.effects.len() == 0
            &&& correct ==> outcome.ask == Some(AskView::ProofType { block, rest })
            &&& !correct ==> outcome.ask is None
        }),
{
}

/// A block of another node whose proof is of the chain's consensus is gone on with, and the height
/// in its proof read. Any other is dropped, and the first new block behind it is looked at.
/// Nothing changes, and nothing is done.
pub proof fn law_other_consensus_is_dropped(
    chain: ChainView,
    block: BlockView,
    rest: Seq<BlockView>,
    proof_type: Option<ProofType>,
)
    ensures
        ({
            let outcome = resume_outcome(
                chain,
                AskView::ProofType { block, rest },
                Answer::ProofType(proof_type),
            );
            &&& outcome.chain == chain
            &&& outcome.effects.len() == 0
            &&& proof_type == chain.proof_type ==> outcome.ask == Some(
                AskView::TendermintHeight { block, rest },
            )
            &&& proof_type != chain.proof_type ==> outcome.ask == next_sync_ask(
                chain.max_height,
                rest,
            )
        }),
{
}

/// Once the height in the proof of a block of another node is known, the block is added by it, and
/// the first new block behind it is looked at. The proof of the first block has no height, which
/// counts as height zero.
pub proof fn law_blocks_are_added_by_their_proof(
    chain: ChainView,
    block: BlockView,
    rest: Seq<BlockView>,
    tendermint_height: usize,
    proved: u64,
)
    requires
        tendermint_height == usize::MAX ==> proved == 0,
        tendermint_height != usize::MAX ==> proved == tendermint_height,
    ensures
        ({
            let outcome = resume_outcome(
                chain,
                AskView::TendermintHeight { block, rest },
                Answer::TendermintHeight(tendermint_height),
            );
            &&& proof_height(tendermint_height) == proved
            &&& outcome.chain == sync_block_added(chain, block, proved)
            &&& outcome.effects == sync_block_effects(chain, block, proved)
            &&& outcome.ask == next_sync_ask(chain.max_height, rest)
        }),
{
}

/// A block of another node whose header has the proof of the block at the height that the chain
/// has reached, or of the newest stored block, is taken, whatever the queue holds: it goes into
/// the queue without a proof, the newest stored height becomes its own, and its body and that
/// height are stored, in this order and once each. The block that the proof is for gets it if it
/// came from another node and has none. The rest of the chain stays as it is.
pub proof fn law_block_that_follows_is_taken(chain: ChainView, block: BlockView, proved: u64)
    requires
        block.height != u64::MAX,
        proved == chain.max_height || proved == chain.max_store_height,
    ensures
        ({
            let after = sync_block_added(chain, block, proved);
            &&& sync_block_effects(chain, block, proved) == seq![
                EffectView::SetBlockBody(block.height, block),
                EffectView::StoreMaxStoreHeight(block.height),
            ]
            &&& after.max_store_height == block.height
            &&& after.block_map.contains_key(block.height)
            &&& after.block_map[block.height] == BlockInQueueView::SyncBlock(block, None)
            &&& proved != block.height && chain.block_map.contains_key(proved)
                ==> after.block_map[proved] == match chain.block_map[proved] {
                BlockInQueueView::SyncBlock(previous, None) => BlockInQueueView::SyncBlock(
                    previous,
                    Some(block.proof),
                ),
                entry => entry,
            }
            &&& forall|other: u64| #[trigger]
                after.block_map.contains_key(other) <==> other == block.height
                    || chain.block_map.contains_key(other)
            &&& forall|other: u64|
                other != block.height && other != proved ==> #[trigger] after.block_map[other]
                    == chain.block_map[other]
            &&& after.current_height == chain.current_height
            &&& after.current_hash == chain.current_hash
            &&& after.max_height == chain.max_height
            &&& after.proof_type == chain.proof_type
            &&& after.block_gas_limit == chain.block_gas_limit
            &&& after.account_gas_limit == chain.account_gas_limit
        }),
{
}

/// A block of another node whose header has any other proof is dropped: nothing changes, and
/// nothing is done.
pub proof fn law_block_that_does_not_follow_is_dropped(
    chain: ChainView,
    block: BlockView,
    proved: u64,
)
    requires
        block.height != u64::MAX,
        proved != chain.max_height,
        proved != chain.max_store_height,
    ensures
        sync_block_added(chain, block, proved) == chain,
        sync_block_effects(chain, block, proved).len() == 0,
{
}

/// A proof that comes by itself goes to the block that it is for, if that has not been executed
/// yet, came from another node and has none. Nothing else changes, and nothing is done.
pub proof fn law_lone_proof_goes_to_its_block(chain: ChainView, block: BlockView, proved: u64)
    requires
        block.height == u64::MAX,
    ensures
        ({
            let after = sync_block_added(chain, block, proved);
            let waiting = proved > chain.current_height && chain.block_map.contains_key(proved)
                && chain.block_map[proved] matches BlockInQueueView::SyncBlock(_, None);
            &&& sync_block_effects(chain, block, proved).len() == 0
            &&& !waiting ==> after == chain
            &&& waiting ==> after.block_map[proved] == BlockInQueueView::SyncBlock(
                chain.block_map[proved]->SyncBlock_0,
                Some(block.proof),
            )
            &&& forall|other: u64| #[trigger]
                after.block_map.contains_key(other) <==> chain.block_map.contains_key(other)
            &&& forall|other: u64|
                other != proved ==> #[trigger] after.block_map[other] == chain.block_map[other]
            &&& after.max_store_height == chain.max_store_height
            &&& after.current_height == chain.current_height
            &&& after.current_hash == chain.current_hash
            &&& after.max_height == chain.max_height
            &&& after.proof_type == chain.proof_type
            &&& after.block_gas_limit == chain.block_gas_limit
            &&& after.account_gas_limit == chain.account_gas_limit
        }),
{
}

/// Blocks of other nodes that come one behind the other are all taken, in whatever messages they
/// come, and each but the last has its proof then, if it had none.
pub proof fn law_blocks_of_other_nodes_follow_each_other(
    chain: ChainView,
    one: BlockView,
    two: BlockView,
)
    requires
        one.height < two.height < u64::MAX,
    ensures
        ({
            let middle = sync_block_added(chain, one, chain.max_store_height);
            let after = sync_block_added(middle, two, one.height);
            &&& after.max_store_height == two.height
            &&& after.block_map.contains_key(one.height)
            &&& after.block_map[one.height] == BlockInQueueView::SyncBlock(one, Some(two.proof))
            &&& after.block_map.contains_key(two.height)
            &&& after.block_map[two.height] == BlockInQueueView::SyncBlock(two, None)
        }),
{
}

/// The auth service's request is about the height that it names.
pub proof fn law_tx_hashes_are_looked_up(chain: ChainView, msg: Message, msg_bytes: Seq<u8>)
    requires
        msg.payload is BlockTxHashesReq,
    ensures
        ({
            let outcome = dispatch_outcome(
                chain,
                RoutingKey { module: SubModules::Auth, msg_type: MsgType::BlockTxHashesReq },
                msg,
                msg_bytes,
            );
            &&& outcome.chain == chain
            &&& outcome.effects.len() == 0
            &&& outcome.ask == Some(
                AskView::TransactionHashes { height: msg.payload->BlockTxHashesReq_0.height },
            )
        }),
{
}

/// The auth service is sent every transaction hash of the block, each in its place, with the
/// height and the gas limits of the moment, in one message.
pub proof fn law_every_tx_hash_is_sent(chain: ChainView, height: u64, hashes: Vec<[u8; 32]>)
    ensures
        ({
            let outcome = resume_outcome(
                chain,
                AskView::TransactionHashes { height },
                Answer::TxHashes(Some(hashes)),
            );
            &&& outcome.chain == chain
            &&& outcome.ask is None
            &&& outcome.effects.len() == 1
            &&& outcome.effects[0] matches EffectView::Publish(
                key,
                OutgoingView::BlockTxHashes(sent),
            )
            &&& key.module == SubModules::Chain
            &&& key.msg_type == MsgType::BlockTxHashes
            &&& sent.height == height
            &&& sent.block_gas_limit == chain.block_gas_limit
            &&& sent.account_gas_limit == chain.account_gas_limit
            &&& sent.tx_hashes.len() == hashes@.len()
            &&& forall|i: int|
                0 <= i < hashes@.len() ==> #[trigger] sent.tx_hashes[i] == hashes@[i]@
        }),
{
}

/// The auth service is sent nothing if there is no such block.
pub proof fn law_no_block_no_tx_hashes(chain: ChainView, height: u64)
    ensures
        ({
            let outcome = resume_outcome(
                chain,
                AskView::TransactionHashes { height },
                Answer::TxHashes(None),
            );
            &&& outcome.chain == chain
            &&& outcome.effects.len() == 0
            &&& outcome.ask is None
        }),
{
}

/// An order to take a snapshot has one taken from the current block on, by a writer that has
/// written nothing, and is acknowledged behind it.
pub proof fn law_snapshots_are_taken(chain: ChainView, msg: Message, msg_bytes: Seq<u8>)
    requires
        msg.payload is SnapshotReq,
        msg.payload->SnapshotReq_0.cmd == Cmd::Snapshot,
    ensures
        ({
            let taken = EffectView::TakeSnapshot {
                start_hash: chain.current_hash,
                writer: PackedWriterView {
                    file: "snap_chain.rlp"@,
                    block_hashes: seq![],
                    cur_len: 0,
                },
            };
            let outcome = dispatch_outcome(
                chain,
                RoutingKey { module: SubModules::Snapshot, msg_type: MsgType::SnapshotReq },
                msg,
                msg_bytes,
            );
            &&& take_snapshot_effect(chain) == taken
            &&& outcome == snapshot_outcome(chain, msg.payload->SnapshotReq_0)
            &&& outcome.chain == chain
            &&& outcome.ask is None
            &&& outcome.effects == seq![
                taken,
                EffectView::Publish(
                    RoutingKey { module: SubModules::Chain, msg_type: MsgType::SnapshotResp },
                    OutgoingView::SnapshotResp(Resp::SnapshotAck),
                ),
            ]
        }),
{
}

/// An order to restore opens the one snapshot file, and does nothing before that. An order that is
/// not for the chain service is dropped.
pub proof fn law_restoring_opens_the_snapshot(chain: ChainView, msg: Message, msg_bytes: Seq<u8>)
    requires
        msg.payload is SnapshotReq,
        msg.payload->SnapshotReq_0.cmd != Cmd::Snapshot,
    ensures
        ({
            let outcome = dispatch_outcome(
                chain,
                RoutingKey { module: SubModules::Snapshot, msg_type: MsgType::SnapshotReq },
                msg,
                msg_bytes,
            );
            &&& snapshot_file() == "snap_chain.rlp"@
            &&& outcome == snapshot_outcome(chain, msg.payload->SnapshotReq_0)
            &&& outcome.chain == chain
            &&& outcome.effects.len() == 0
            &&& msg.payload->SnapshotReq_0.cmd == Cmd::Restore ==> outcome.ask == Some(
                AskView::OpenSnapshot { file: "snap_chain.rlp"@ },
            )
            &&& msg.payload->SnapshotReq_0.cmd == Cmd::Other ==> outcome.ask is None
        }),
{
}

/// A snapshot that was opened is gone on with. If the file is none, or cannot be opened, the other
/// services are told where the chain stands, and the order is acknowledged, all the same.
pub proof fn law_opened_snapshot_is_restored(
    chain: ChainView,
    file: Seq<char>,
    opened: Result<bool, String>,
)
    ensures
        ({
            let outcome = resume_outcome(
                chain,
                AskView::OpenSnapshot { file },
                Answer::SnapshotOpened(opened),
            );
            let there = match opened {
                Ok(there) => there,
                Err(_) => false,
            };
            &&& outcome.chain == chain
            &&& there ==> outcome.effects.len() == 0
            &&& there ==> outcome.ask == Some(AskView::RootNodePath)
            &&& !there ==> outcome.ask is None
            &&& !there ==> outcome.effects == seq![
                EffectView::BroadcastCurrentStatus,
                EffectView::Publish(
                    RoutingKey { module: SubModules::Chain, msg_type: MsgType::SnapshotResp },
                    OutgoingView::SnapshotResp(Resp::RestoreAck),
                ),
            ]
        }),
{
}

/// The snapshot is restored, with recovery, under the directory of the node; then the other
/// services are told where the chain stands, and the order is acknowledged.
pub proof fn law_snapshot_is_restored_in_the_nodes_directory(chain: ChainView, path: String)
    ensures
        ({
            let outcome = resume_outcome(
                chain,
                AskView::RootNodePath,
                Answer::RootNodePath(path),
            );
            &&& outcome.chain == chain
            &&& outcome.ask is None
            &&& outcome.effects == seq![
                EffectView::RestoreSnapshot {
                    snapshot_root: path@ + "/snapshot_chain"@,
                    recover: true,
                },
                EffectView::BroadcastCurrentStatus,
                EffectView::Publish(
                    RoutingKey { module: SubModules::Chain, msg_type: MsgType::SnapshotResp },
                    OutgoingView::SnapshotResp(Resp::RestoreAck),
                ),
            ]
        }),
{
}

} // verus!
