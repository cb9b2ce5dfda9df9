//! What the views show: all that a value holds, and nothing else.

use crate::block::{block_views, Block, BlockInQueue, BlockInQueueView, BlockView, Proof};
use crate::chain::Chain;
use crate::forward::{Forward, Outcome};
use crate::message::{
    BlockTxHashes, Outgoing, OutgoingView, Response, ResponseData, ResponseDataView, SyncResponse,
};
use crate::outside::{block_items, bytes_items};
use crate::task::{
    ask_view, effect_views, Ask, AskView, Effect, EffectView, PackedWriter,
};
use vstd::prelude::*;

verus! {

/// A block is seen with its height, its proof and everything else.
pub proof fn law_block_is_seen_whole(block: Block, other: Proof)
    ensures
        block@.height == block.height,
        block@.proof == block.proof.content@,
        block@.rest == block.rest@,
        other@ == other.content@,
{
}

/// Of some blocks, each is seen, in its place.
pub proof fn law_every_block_is_seen(blocks: Seq<Block>)
    ensures
        block_views(blocks).len() == blocks.len(),
        forall|i: int|
            0 <= i < blocks.len() ==> #[trigger] block_views(blocks)[i] == (BlockView {
                height: blocks[i].height,
                proof: blocks[i].proof.content@,
                rest: blocks[i].rest@,
            }),
{
}

/// Of the blocks that another node sends, each is seen, in its place.
pub proof fn law_every_sent_block_is_seen(sync_res: SyncResponse)
    ensures
        sync_res@.len() == block_items(sync_res.blocks).len(),
        forall|i: int|
            0 <= i < sync_res@.len() ==> #[trigger] sync_res@[i] == (BlockView {
                height: block_items(sync_res.blocks)[i].height,
                proof: block_items(sync_res.blocks)[i].proof.content@,
                rest: block_items(sync_res.blocks)[i].rest@,
            }),
{
}

/// An entry of the queue is seen as what it is, with its block and its proof.
pub proof fn law_entry_is_seen_whole(entry: BlockInQueue)
    ensures
        match entry {
            BlockInQueue::Proposal(block) => entry@ == BlockInQueueView::Proposal(block@),
            BlockInQueue::ConsensusBlock(block, decided) => entry@
                == BlockInQueueView::ConsensusBlock(block@, decided.content@),
            BlockInQueue::SyncBlock(block, Some(known)) => entry@ == BlockInQueueView::SyncBlock(
                block@,
                Some(known.content@),
            ),
            BlockInQueue::SyncBlock(block, None) => entry@ == BlockInQueueView::SyncBlock(
                block@,
                None,
            ),
        },
{
}

/// A chain is seen with all of its fields and every entry of its queue.
pub proof fn law_chain_is_seen_whole(chain: Chain)
    ensures
        chain@.current_height == chain.current_height,
        chain@.current_hash == chain.current_hash@,
        chain@.max_height == chain.max_height,
        chain@.max_store_height == chain.max_store_height,
        chain@.proof_type == chain.proof_type,
        chain@.block_gas_limit == chain.block_gas_limit,
        chain@.account_gas_limit == chain.account_gas_limit@,
        forall|key: u64| #[trigger]
            chain@.block_map.contains_key(key) <==> chain.block_map@.contains_key(key),
        forall|key: u64|
            chain.block_map@.contains_key(key) ==> #[trigger] chain@.block_map[key]
                == chain.block_map@[key]@,
{
}

/// The data of an answer is seen as what it is.
pub proof fn law_data_is_seen_whole(data: ResponseData)
    ensures
        match data {
            ResponseData::Absent => data@ == ResponseDataView::Absent,
            ResponseData::BlockNumber(height) => data@ == ResponseDataView::BlockNumber(height),
            ResponseData::Block(text) => data@ == ResponseDataView::Block(text@),
            ResponseData::Ts(bytes) => data@ == ResponseDataView::Ts(bytes@),
            ResponseData::TransactionProof(bytes) => data@ == ResponseDataView::TransactionProof(
                bytes@,
            ),
            ResponseData::Receipt(text) => data@ == ResponseDataView::Receipt(text@),
            ResponseData::Logs(text) => data@ == ResponseDataView::Logs(text@),
            ResponseData::FilterId(id) => data@ == ResponseDataView::FilterId(id),
            ResponseData::UninstallFilter(done) => data@ == ResponseDataView::UninstallFilter(done),
            ResponseData::FilterChanges(text) => data@ == ResponseDataView::FilterChanges(text@),
            ResponseData::FilterLogs(text) => data@ == ResponseDataView::FilterLogs(text@),
        },
{
}

/// An answer is seen with all of its fields.
pub proof fn law_response_is_seen_whole(response: Response)
    ensures
        response@.request_id == response.request_id@,
        response@.code == response.code,
        response@.error_msg == response.error_msg@,
        response@.data is Some <==> response.data is Some,
        response.data matches Some(data) ==> response@.data == Some(data@),
{
}

/// Transaction hashes are seen with their height and the gas limits.
pub proof fn law_tx_hashes_are_seen_whole(hashes: BlockTxHashes)
    ensures
        hashes@.height == hashes.height,
        hashes@.tx_hashes == bytes_items(hashes.tx_hashes),
        hashes@.block_gas_limit == hashes.block_gas_limit,
        hashes@.account_gas_limit == hashes.account_gas_limit@,
{
}

/// A message that goes out is seen as what it is, with all that it carries.
pub proof fn law_message_is_seen_whole(message: Outgoing)
    ensures
        match message {
            Outgoing::Raw(bytes) => message@ == OutgoingView::Raw(bytes@),
            Outgoing::Response(response) => message@ == OutgoingView::Response(response@),
            Outgoing::SnapshotResp(resp) => message@ == OutgoingView::SnapshotResp(resp),
            Outgoing::SyncResponse { operate, origin, sync_res } => message@
                == (OutgoingView::SyncResponse { operate, origin, blocks: sync_res@ }),
            Outgoing::BlockTxHashes(hashes) => message@ == OutgoingView::BlockTxHashes(hashes@),
        },
{
}

/// A writer is seen with its file, its hashes and its length.
pub proof fn law_writer_is_seen_whole(writer: PackedWriter)
    ensures
        writer@.file == writer.file@,
        writer@.block_hashes == writer.block_hashes@,
        writer@.cur_len == writer.cur_len,
{
}

/// Something to do is seen as what it is.
pub proof fn law_effect_is_seen_whole(effect: Effect)
    ensures
        match effect {
            Effect::Publish(key, message) => effect@ == EffectView::Publish(key, message@),
            Effect::Execute(bytes) => effect@ == EffectView::Execute(bytes@),
            Effect::SaveCurrentBlockProof(decided) => effect@ == EffectView::SaveCurrentBlockProof(
                decided.content@,
            ),
            Effect::SetBlockBody(height, block) => effect@ == EffectView::SetBlockBody(
                height,
                block@,
            ),
            Effect::StoreMaxStoreHeight(height) => effect@ == EffectView::StoreMaxStoreHeight(
                height,
            ),
            Effect::DeliverBlockTxHashes(height, block) => effect@
                == EffectView::DeliverBlockTxHashes(height, block@),
            Effect::BroadcastCurrentStatus => effect@ == EffectView::BroadcastCurrentStatus,
            Effect::TakeSnapshot { start_hash, writer } => effect@ == (EffectView::TakeSnapshot {
                start_hash: start_hash@,
                writer: writer@,
            }),
            Effect::RestoreSnapshot { snapshot_root, recover } => effect@
                == (EffectView::RestoreSnapshot { snapshot_root: snapshot_root@, recover }),
        },
{
}

/// Of some things to do, each is seen, in its place.
pub proof fn law_every_effect_is_seen(effects: Seq<Effect>)
    ensures
        effect_views(effects).len() == effects.len(),
        forall|i: int|
            0 <= i < effects.len() ==> #[trigger] effect_views(effects)[i] == effects[i]@,
{
}

/// A question is seen as what it is, with all that it carries.
pub proof fn law_question_is_seen_whole(ask: Ask)
    ensures
        match ask {
            Ask::ParamsByHash { request_id, rpc } => ask@ == (AskView::ParamsByHash {
                request_id: request_id@,
                rpc: rpc@,
            }),
            Ask::BlockByHash { request_id, hash, key, include_txs } => ask@
                == (AskView::BlockByHash {
                request_id: request_id@,
                hash: hash@,
                key: key@,
                include_txs,
            }),
            Ask::ParamsByNumber { request_id, rpc } => ask@ == (AskView::ParamsByNumber {
                request_id: request_id@,
                rpc: rpc@,
            }),
            Ask::BlockById { request_id, block_id, include_txs } => ask@ == (AskView::BlockById {
                request_id: request_id@,
                block_id,
                include_txs,
            }),
            Ask::RenderBlock { request_id, hash, include_txs, block } => ask@
                == (AskView::RenderBlock {
                request_id: request_id@,
                hash: hash@,
                include_txs,
                block: block@,
            }),
            Ask::Transaction { request_id, key } => ask@ == (AskView::Transaction {
                request_id: request_id@,
                key: key@,
            }),
            Ask::TransactionProof { request_id, key } => ask@ == (AskView::TransactionProof {
                request_id: request_id@,
                key: key@,
            }),
            Ask::TransactionReceipt { request_id, key } => ask@ == (AskView::TransactionReceipt {
                request_id: request_id@,
                key: key@,
            }),
            Ask::Filter { request_id, filter } => ask@ == (AskView::Filter {
                request_id: request_id@,
                filter: filter@,
            }),
            Ask::Logs { request_id, filter } => ask@ == (AskView::Logs {
                request_id: request_id@,
                filter: filter@,
            }),
            Ask::NewFilter { request_id, filter } => ask@ == (AskView::NewFilter {
                request_id: request_id@,
                filter: filter@,
            }),
            Ask::NewBlockFilter { request_id } => ask@ == (AskView::NewBlockFilter {
                request_id: request_id@,
            }),
            Ask::UninstallFilter { request_id, index } => ask@ == (AskView::UninstallFilter {
                request_id: request_id@,
                index,
            }),
            Ask::FilterChanges { request_id, index } => ask@ == (AskView::FilterChanges {
                request_id: request_id@,
                index,
            }),
            Ask::FilterLogs { request_id, index } => ask@ == (AskView::FilterLogs {
                request_id: request_id@,
                index,
            }),
            Ask::SyncBlock { origin, heights, next, found } => ask@ == (AskView::SyncBlock {
                origin,
                heights: heights@,
                next: next as int,
                found: block_views(block_items(found)),
            }),
            Ask::CurrentBlockProof { origin, heights, next, found } => ask@
                == (AskView::CurrentBlockProof {
                origin,
                heights: heights@,
                next: next as int,
                found: block_views(block_items(found)),
            }),
            Ask::CheckHash { block, rest } => ask@ == (AskView::CheckHash {
                block: block@,
                rest: block_views(rest@),
            }),
            Ask::ProofType { block, rest } => ask@ == (AskView::ProofType {
                block: block@,
                rest: block_views(rest@),
            }),
            Ask::TendermintHeight { block, rest } => ask@ == (AskView::TendermintHeight {
                block: block@,
                rest: block_views(rest@),
            }),
            Ask::TransactionHashes { height } => ask@ == (AskView::TransactionHashes {
                height,
            }),
            Ask::OpenSnapshot { file } => ask@ == (AskView::OpenSnapshot {
                file: file@,
            }),
            Ask::RootNodePath => ask@ == AskView::RootNodePath,
        },
        ask_view(Some(ask)) == Some(ask@),
        ask_view(None) is None,
{
}

/// What is left of a step that comes to an outcome: the chain stands as the outcome says, what
/// was to be done stays in front, what the outcome lists stands behind it, in order and without
/// anything else, and the question is the one that the outcome asks.
pub proof fn law_steps_reach_their_outcome(
    before: Forward,
    after: Forward,
    ask: Option<Ask>,
    outcome: Outcome,
)
    requires
        after.reached(before, ask, outcome),
    ensures
        after.chain@ == outcome.chain,
        after.effects@.len() == before.effects@.len() + outcome.effects.len(),
        forall|i: int|
            0 <= i < before.effects@.len() ==> #[trigger] after.effects@[i]@
                == before.effects@[i]@,
        forall|i: int|
            0 <= i < outcome.effects.len() ==> after.effects@[before.effects@.len() + i]@
                == #[trigger] outcome.effects[i],
        ask is Some <==> outcome.ask is Some,
        ask matches Some(question) ==> outcome.ask == Some(question@),
{
    let count = before.effects@.len() as int;
    let all = effect_views(after.effects@);
    assert(all.len() == after.effects@.len());
    assert forall|i: int| 0 <= i < before.effects@.len() implies #[trigger] after.effects@[i]@
        == before.effects@[i]@ by {
        assert(all[i] == effect_views(before.effects@)[i]);
    }
    assert forall|i: int| 0 <= i < outcome.effects.len() implies after.effects@[count + i]@
        == #[trigger] outcome.effects[i] by {
        assert(all[count + i] == outcome.effects[i]);
    }
}

} // verus!
