//! What holds of forwarding as a whole.

use crate::block::{BlockInQueueView, BlockView, ProofType};
use crate::chain::ChainView;
use crate::consensus::consensus_outcome;
use crate::conversation::{
    conversation, conversation_left, dealt_with, law_questions_run_out,
};
use crate::dispatch::{can_dispatch, can_resume, dispatch_outcome, resume_outcome};
use crate::forward::Outcome;
use crate::message::{
    chain_key, BlockTxHashesView, Cmd, Message, MsgType, OutgoingView, Resp, RoutingKey,
    SnapshotReq, SubModules,
};
use crate::snapshot::{
    restore_effect, restore_ends, snapshot_effect, snapshot_file, snapshot_outcome,
    take_snapshot_effect,
};
use crate::sync::{next_sync_ask, proof_height, sync_block_added, sync_block_effects};
use crate::task::{Answer, AskView, EffectView, PackedWriterView};
use crate::tx_hashes::hash_bytes;
use vstd::prelude::*;

verus! {

/// The id of the request that a question is asked for.
pub open spec fn asked_for_request(ask: AskView) -> Option<Seq<u8>> {
    match ask {
        AskView::ParamsByHash { request_id, .. } => Some(request_id),
        AskView::BlockByHash { request_id, .. } => Some(request_id),
        AskView::ParamsByNumber { request_id, .. } => Some(request_id),
        AskView::BlockById { request_id, .. } => Some(request_id),
        AskView::RenderBlock { request_id, .. } => Some(request_id),
        AskView::Transaction { request_id, .. } => Some(request_id),
        AskView::TransactionProof { request_id, .. } => Some(request_id),
        AskView::TransactionReceipt { request_id, .. } => Some(request_id),
        AskView::Filter { request_id, .. } => Some(request_id),
        AskView::Logs { request_id, .. } => Some(request_id),
        AskView::NewFilter { request_id, .. } => Some(request_id),
        AskView::NewBlockFilter { request_id } => Some(request_id),
        AskView::UninstallFilter { request_id, .. } => Some(request_id),
        AskView::FilterChanges { request_id, .. } => Some(request_id),
        AskView::FilterLogs { request_id, .. } => Some(request_id),
        _ => None,
    }
}

/// Whether a question about a block of another node is about a block that was sent.
pub open spec fn about_sent(sent: Seq<BlockView>, block: BlockView, rest: Seq<BlockView>) -> bool {
    sent.contains(block) && all_sent(sent, rest)
}

/// Whether all of some blocks were sent.
pub open spec fn all_sent(sent: Seq<BlockView>, blocks: Seq<BlockView>) -> bool {
    forall|i: int| 0 <= i < blocks.len() ==> sent.contains(#[trigger] blocks[i])
}

/// Whether a question is one that a message can make forwarding ask, on a chain of the given
/// consensus.
pub open spec fn can_be_asked(
    proof_type: Option<ProofType>,
    key: RoutingKey,
    msg: Message,
    ask: AskView,
) -> bool {
    match (key.module, key.msg_type) {
        (SubModules::Jsonrpc, MsgType::Request) => asked_for_request(ask) == Some(
            msg.payload->Request_0.request_id@,
        ),
        (SubModules::Net, MsgType::SyncRequest) => {
            let wanted = msg.payload->SyncRequest_0.heights@;
            match ask {
                AskView::SyncBlock { origin, heights, next, .. } => origin == msg.origin && heights
                    == wanted && 0 <= next < wanted.len(),
                AskView::CurrentBlockProof { origin, heights, next, .. } => origin == msg.origin
                    && heights == wanted && 0 <= next < wanted.len(),
                _ => false,
            }
        },
        (SubModules::Net, MsgType::SyncResponse) => {
            let sent = msg.payload->SyncResponse_0@;
            match ask {
                AskView::CheckHash { block, rest } => about_sent(sent, block, rest),
                AskView::ProofType { block, rest } => about_sent(sent, block, rest),
                AskView::TendermintHeight { block, rest } => about_sent(sent, block, rest)
                    && proof_type == Some(ProofType::Tendermint),
                _ => false,
            }
        },
        (SubModules::Auth, MsgType::BlockTxHashesReq) => ask == (AskView::TransactionHashes {
            height: msg.payload->BlockTxHashesReq_0.height,
        }),
        (SubModules::Snapshot, MsgType::SnapshotReq) => {
            ||| ask == (AskView::OpenSnapshot { file: snapshot_file() })
            ||| ask == AskView::RootNodePath
        },
        _ => false,
    }
}

/// Whether all that a message can make forwarding ask gets an answer that it can go on with.
pub open spec fn answers_all(
    world: spec_fn(AskView) -> Answer,
    chain: ChainView,
    key: RoutingKey,
    msg: Message,
) -> bool {
    forall|ask: AskView| #[trigger]
        can_be_asked(chain.proof_type, key, msg, ask) ==> can_resume(chain, ask, world(ask))
}

/// What is asked next about some blocks that were sent is about one of them, and about its root
/// first, if it has transactions.
pub(crate) proof fn lemma_next_sync_ask_is_about_sent(
    max_height: u64,
    sent: Seq<BlockView>,
    blocks: Seq<BlockView>,
)
    requires
        all_sent(sent, blocks),
    ensures
        match next_sync_ask(max_height, blocks) {
            None => true,
            Some(AskView::CheckHash { block, rest }) => about_sent(sent, block, rest),
            Some(AskView::ProofType { block, rest }) => {
                &&& about_sent(sent, block, rest)
                &&& block.height == u64::MAX
            },
            _ => false,
        },
    decreases blocks.len(),
{
    if blocks.len() > 0 {
        let rest = blocks.drop_first();
        assert forall|i: int| 0 <= i < rest.len() implies sent.contains(#[trigger] rest[i]) by {
            assert(rest[i] == blocks[i + 1]);
        }
        assert(sent.contains(blocks[0]));
        lemma_next_sync_ask_is_about_sent(max_height, sent, rest);
    }
}

/// What a message makes forwarding ask first is a question that it can make it ask.
pub proof fn law_first_question_can_be_asked(
    chain: ChainView,
    key: RoutingKey,
    msg: Message,
    msg_bytes: Seq<u8>,
)
    requires
        can_dispatch(chain, key, msg),
    ensures
        dispatch_outcome(chain, key, msg, msg_bytes).ask matches Some(ask) ==> can_be_asked(
            chain.proof_type,
            key,
            msg,
            ask,
        ),
{
    if msg.payload is SyncResponse {
        let sent = msg.payload->SyncResponse_0@;
        lemma_next_sync_ask_is_about_sent(chain.max_height, sent, sent);
    }
}

/// What an answer makes forwarding ask next is a question that the message can make it ask.
pub proof fn law_next_question_can_be_asked(
    chain: ChainView,
    key: RoutingKey,
    msg: Message,
    ask: AskView,
    answer: Answer,
)
    requires
        can_be_asked(chain.proof_type, key, msg, ask),
        can_resume(chain, ask, answer),
    ensures
        resume_outcome(chain, ask, answer).ask matches Some(next) ==> can_be_asked(
            chain.proof_type,
            key,
            msg,
            next,
        ),
{
    let sent = msg.payload->SyncResponse_0@;
    match (ask, answer) {
        (AskView::ProofType { rest, .. }, _) => {
            lemma_next_sync_ask_is_about_sent(chain.max_height, sent, rest);
        },
        (AskView::TendermintHeight { block, rest }, Answer::TendermintHeight(height)) => {
            lemma_next_sync_ask_is_about_sent(
                sync_block_added(chain, block, proof_height(height)).max_height,
                sent,
                rest,
            );
        },
        _ => {},
    }
}

proof fn lemma_conversation_ends(
    world: spec_fn(AskView) -> Answer,
    chain: ChainView,
    key: RoutingKey,
    msg: Message,
    ask: Option<AskView>,
)
    requires
        answers_all(world, chain, key, msg),
        ask matches Some(question) ==> can_be_asked(chain.proof_type, key, msg, question),
    ensures
        conversation(world, chain, ask).ask is None,
    decreases conversation_left(ask),
{
    if ask is Some {
        let question = ask->0;
        let answer = world(question);
        let first = resume_outcome(chain, question, answer);
        law_questions_run_out(chain, question, answer);
        law_next_question_can_be_asked(chain, key, msg, question, answer);
        lemma_same_answers(world, chain, first.chain, key, msg);
        lemma_conversation_ends(world, first.chain, key, msg, first.ask);
    }
}

/// Which answers can be gone on with depends on the consensus of the chain alone.
proof fn lemma_same_answers(
    world: spec_fn(AskView) -> Answer,
    chain: ChainView,
    other: ChainView,
    key: RoutingKey,
    msg: Message,
)
    requires
        answers_all(world, chain, key, msg),
        other.proof_type == chain.proof_type,
    ensures
        answers_all(world, other, key, msg),
{
    assert forall|ask: AskView| #[trigger]
        can_be_asked(other.proof_type, key, msg, ask) implies can_resume(
        other,
        ask,
        world(ask),
    ) by {
        assert(can_be_asked(chain.proof_type, key, msg, ask));
        assert(can_resume(chain, ask, world(ask)));
    }
}

/// A message is dealt with to the end if all that it can make forwarding ask gets an answer that
/// can be gone on with.
pub proof fn law_messages_are_dealt_with(
    world: spec_fn(AskView) -> Answer,
    chain: ChainView,
    key: RoutingKey,
    msg: Message,
    msg_bytes: Seq<u8>,
)
    requires
        can_dispatch(chain, key, msg),
        answers_all(world, chain, key, msg),
    ensures
        dealt_with(world, chain, key, msg, msg_bytes).ask is None,
{
    let first = dispatch_outcome(chain, key, msg, msg_bytes);
    law_first_question_can_be_asked(chain, key, msg, msg_bytes);
    lemma_same_answers(world, chain, first.chain, key, msg);
    lemma_conversation_ends(world, first.chain, key, msg, first.ask);
}

/// How a step may change the chain, given what it lists to do: the queue keeps an entry under
/// every height that has one; a block whose body is stored, for the first time or because it has
/// come again, may take the entry of its height, and a proof that the entry had may be lost; in
/// every other entry the block stays, and a proof that it has is not replaced; and the height of
/// the newest stored block moves exactly as the chain's store is told to move it.
pub open spec fn changes_soundly(before: ChainView, outcome: Outcome) -> bool {
    let after = outcome.chain;
    &&& after.current_height == before.current_height
    &&& after.current_hash == before.current_hash
    &&& after.max_height == before.max_height
    &&& after.proof_type == before.proof_type
    &&& after.block_gas_limit == before.block_gas_limit
    &&& after.account_gas_limit == before.account_gas_limit
    &&& forall|key: u64| #[trigger]
        before.block_map.contains_key(key) ==> after.block_map.contains_key(key)
    &&& forall|key: u64| #[trigger]
        after.block_map.contains_key(key) ==> {
            ||| body_stored(outcome.effects, key, after.block_map[key].block())
            ||| {
                &&& before.block_map.contains_key(key)
                &&& keeps_proof(before.block_map[key], after.block_map[key])
            }
        }
    &&& {
        ||| after.max_store_height == before.max_store_height
        ||| outcome.effects.contains(EffectView::StoreMaxStoreHeight(after.max_store_height))
    }
    &&& forall|height: u64| #[trigger]
        outcome.effects.contains(EffectView::StoreMaxStoreHeight(height)) ==> height
            == after.max_store_height
}

/// Whether the body of a block is to be stored under a height.
pub open spec fn body_stored(effects: Seq<EffectView>, height: u64, block: BlockView) -> bool {
    effects.contains(EffectView::SetBlockBody(height, block))
}

/// Whether a queued block is still the same, with the proof that it had; or is one of another
/// node that had none and has one now.
pub open spec fn keeps_proof(before: BlockInQueueView, after: BlockInQueueView) -> bool {
    ||| after == before
    ||| {
        &&& before matches BlockInQueueView::SyncBlock(_, None)
        &&& after matches BlockInQueueView::SyncBlock(_, Some(_))
        &&& after.block() == before.block()
    }
}

/// A message changes the queue and the heights soundly.
pub proof fn law_dispatch_changes_soundly(
    chain: ChainView,
    key: RoutingKey,
    msg: Message,
    msg_bytes: Seq<u8>,
)
    requires
        can_dispatch(chain, key, msg),
    ensures
        changes_soundly(chain, dispatch_outcome(chain, key, msg, msg_bytes)),
{
    if msg.payload is BlockWithProof {
        let block = msg.payload->BlockWithProof_0.blk@;
        let decided = msg.payload->BlockWithProof_0.proof@;
        let effects = consensus_outcome(chain, block, decided).effects;
        if effects.len() > 0 {
            assert(effects[1] == EffectView::SetBlockBody(block.height, block));
            assert(effects[2] == EffectView::StoreMaxStoreHeight(block.height));
        }
    }
}

/// An answer changes the queue and the heights soundly.
pub proof fn law_resume_changes_soundly(chain: ChainView, ask: AskView, answer: Answer)
    requires
        can_resume(chain, ask, answer),
    ensures
        changes_soundly(chain, resume_outcome(chain, ask, answer)),
{
    match (ask, answer) {
        (AskView::TendermintHeight { block, .. }, Answer::TendermintHeight(height)) => {
            let effects = sync_block_effects(chain, block, proof_height(height));
            if effects.len() > 0 {
                assert(effects[0] == EffectView::SetBlockBody(block.height, block));
                assert(effects[1] == EffectView::StoreMaxStoreHeight(block.height));
            }
        },
        _ => {},
    }
}

/// Under a message, every block in the queue stays filed under its own height.
pub proof fn law_dispatch_keeps_queue_filed(
    chain: ChainView,
    key: RoutingKey,
    msg: Message,
    msg_bytes: Seq<u8>,
)
    requires
        can_dispatch(chain, key, msg),
        chain.filed_by_height(),
    ensures
        dispatch_outcome(chain, key, msg, msg_bytes).chain.filed_by_height(),
{
}

/// Under an answer, every block in the queue stays filed under its own height.
pub proof fn law_resume_keeps_queue_filed(chain: ChainView, ask: AskView, answer: Answer)
    requires
        can_resume(chain, ask, answer),
        chain.filed_by_height(),
    ensures
        resume_outcome(chain, ask, answer).chain.filed_by_height(),
{
}

/// A block that consensus has decided takes the newest stored height up by one if its height is
/// the next one, and changes nothing otherwise.
pub proof fn law_consensus_extends_by_one(chain: ChainView, block: BlockView, decided: Seq<u8>)
    ensures
        ({
            let outcome = consensus_outcome(chain, block, decided);
            if block.height == chain.max_store_height + 1 {
                &&& outcome.chain.max_store_height == chain.max_store_height + 1
                &&& outcome.chain.block_map == chain.block_map.insert(
                    outcome.chain.max_store_height,
                    BlockInQueueView::ConsensusBlock(block, decided),
                )
                &&& outcome.effects.len() == 4
                &&& outcome.ask is None
            } else {
                &&& outcome == Outcome::idle(chain)
                &&& outcome.chain == chain
                &&& outcome.effects.len() == 0
                &&& outcome.ask is None
            }
        }),
{
}

/// What restoring comes to: the snapshot is restored if `world` has one.
pub open spec fn restored(world: spec_fn(AskView) -> Answer) -> Seq<EffectView> {
    let opened = world(AskView::OpenSnapshot { file: snapshot_file() })->SnapshotOpened_0;
    if opened == Ok::<bool, String>(true) {
        seq![restore_effect(world(AskView::RootNodePath)->RootNodePath_0@)]
    } else {
        seq![]
    }
}

/// What an order of the snapshot tool makes the node do, from first to last.
pub open spec fn order_effects(
    world: spec_fn(AskView) -> Answer,
    chain: ChainView,
    req: SnapshotReq,
) -> Seq<EffectView> {
    match req.cmd {
        Cmd::Snapshot => seq![take_snapshot_effect(chain), snapshot_effect(Resp::SnapshotAck)],
        Cmd::Restore => restored(world) + restore_ends(),
        Cmd::Other => seq![],
    }
}

/// An order of the snapshot tool that is dealt with is acknowledged once, behind all that it makes
/// the node do, and an order to restore is so even if there is nothing to restore from. Any other
/// order is dropped.
pub proof fn law_snapshot_orders_are_acknowledged(
    world: spec_fn(AskView) -> Answer,
    chain: ChainView,
    key: RoutingKey,
    msg: Message,
    msg_bytes: Seq<u8>,
)
    requires
        key == (RoutingKey { module: SubModules::Snapshot, msg_type: MsgType::SnapshotReq }),
        can_dispatch(chain, key, msg),
        dealt_with(world, chain, key, msg, msg_bytes).ask is None,
    ensures
        dealt_with(world, chain, key, msg, msg_bytes) == Outcome::done(
            chain,
            order_effects(world, chain, msg.payload->SnapshotReq_0),
        ),
{
    reveal_with_fuel(conversation, 3);
    assert(dealt_with(world, chain, key, msg, msg_bytes).effects =~= order_effects(
        world,
        chain,
        msg.payload->SnapshotReq_0,
    ));
}

/// An order to take a snapshot has one taken from the current block on, by a writer that has
/// written nothing to its one file, whatever height and file the order names.
pub proof fn law_snapshot_is_of_the_current_block(chain: ChainView, req: SnapshotReq)
    requires
        req.cmd == Cmd::Snapshot,
    ensures
        snapshot_outcome(chain, req) == Outcome::done(
            chain,
            seq![
                EffectView::TakeSnapshot {
                    start_hash: chain.current_hash,
                    writer: PackedWriterView {
                        file: "snap_chain.rlp"@,
                        block_hashes: seq![],
                        cur_len: 0,
                    },
                },
                snapshot_effect(Resp::SnapshotAck),
            ],
        ),
{
}

/// What an order of the snapshot tool comes to depends on nothing but what it orders.
pub proof fn law_snapshot_orders_go_by_their_command(
    chain: ChainView,
    one: SnapshotReq,
    other: SnapshotReq,
)
    requires
        one.cmd == other.cmd,
    ensures
        snapshot_outcome(chain, one) == snapshot_outcome(chain, other),
{
}

/// The auth service is sent, in one message, the hashes of the transactions of the block that it
/// asks about, in their order, with the gas limits of the moment; or nothing, if there is no such
/// block.
pub proof fn law_tx_hashes_are_sent(
    world: spec_fn(AskView) -> Answer,
    chain: ChainView,
    key: RoutingKey,
    msg: Message,
    msg_bytes: Seq<u8>,
)
    requires
        key == (RoutingKey { module: SubModules::Auth, msg_type: MsgType::BlockTxHashesReq }),
        can_dispatch(chain, key, msg),
        dealt_with(world, chain, key, msg, msg_bytes).ask is None,
    ensures
        ({
            let height = msg.payload->BlockTxHashesReq_0.height;
            dealt_with(world, chain, key, msg, msg_bytes) == Outcome::done(
                chain,
                match world(AskView::TransactionHashes { height })->TxHashes_0 {
                    Some(hashes) => seq![
                        EffectView::Publish(
                            chain_key(MsgType::BlockTxHashes),
                            OutgoingView::BlockTxHashes(
                                BlockTxHashesView {
                                    height,
                                    tx_hashes: hash_bytes(hashes@),
                                    block_gas_limit: chain.block_gas_limit,
                                    account_gas_limit: chain.account_gas_limit,
                                },
                            ),
                        ),
                    ],
                    None => seq![],
                },
            )
        }),
        ({
            let height = msg.payload->BlockTxHashesReq_0.height;
            world(AskView::TransactionHashes { height })->TxHashes_0 matches Some(hashes) ==> {
                &&& hash_bytes(hashes@).len() == hashes@.len()
                &&& forall|i: int|
                    0 <= i < hashes@.len() ==> #[trigger] hash_bytes(hashes@)[i] == hashes@[i]@
            }
        }),
{
    let height = msg.payload->BlockTxHashesReq_0.height;
    let ask = AskView::TransactionHashes { height };
    reveal_with_fuel(conversation, 2);
    let outcome = dealt_with(world, chain, key, msg, msg_bytes);
    assert(outcome.effects =~= resume_outcome(chain, ask, world(ask)).effects);
}

} // verus!
