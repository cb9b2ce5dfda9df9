//! Where messages go, and where the answers to what was asked go.

use crate::block::{same_proof_type, Block, BlockView, ProofType};
use crate::chain::ChainView;
use crate::consensus::consensus_outcome;
use crate::forward::{Forward, Outcome};
use crate::message::{
    Message, MsgType, Payload, Request, RequestBody, ResponseData, ResponseDataView, RoutingKey,
    SubModules,
};
use crate::rpc::{
    answered, block_outcome, block_rendered, can_reply, filter_logs_found, filter_read_outcome,
    found_or_absent, hash_is_whole, hashed_block_outcome, params_by_hash_outcome, request_outcome,
    success,
};
use crate::snapshot::{root_node_path_outcome, snapshot_opened_outcome, snapshot_outcome};
use crate::sync::{
    hash_checked_outcome, proof_type_outcome, sync_block_outcome, sync_blocks_outcome,
    sync_proof_outcome, sync_reply_outcome, tendermint_height_outcome,
};
use crate::task::{Answer, Ask, AskView, Effect, EffectView};
use crate::tx_hashes::tx_hashes_outcome;
use vstd::prelude::*;
use vstd::slice::slice_to_vec;

verus! {

/// Whether a message can be dealt with: it carries what its key announces, and the height
/// behind the newest stored block exists where it is needed.
pub open spec fn can_dispatch(chain: ChainView, key: RoutingKey, msg: Message) -> bool {
    match (key.module, key.msg_type) {
        (SubModules::Jsonrpc, MsgType::Request) => msg.payload matches Payload::Request(req)
            && can_reply(req),
        (SubModules::Executor, MsgType::ExecutedResult) => msg.payload is ExecutedResult,
        (SubModules::Consensus, MsgType::BlockWithProof) => msg.payload is BlockWithProof
            && chain.max_store_height < u64::MAX,
        (SubModules::Net, MsgType::SyncRequest) => msg.payload is SyncRequest,
        (SubModules::Net, MsgType::SyncResponse) => msg.payload is SyncResponse,
        (SubModules::Auth, MsgType::BlockTxHashesReq) => msg.payload is BlockTxHashesReq,
        (SubModules::Snapshot, MsgType::SnapshotReq) => msg.payload is SnapshotReq,
        _ => true,
    }
}

/// What a message comes to. One under a key that the chain service does not know is dropped.
pub open spec fn dispatch_outcome(
    chain: ChainView,
    key: RoutingKey,
    msg: Message,
    msg_bytes: Seq<u8>,
) -> Outcome
    recommends
        can_dispatch(chain, key, msg),
{
    match (key.module, key.msg_type) {
        (SubModules::Jsonrpc, MsgType::Request) => request_outcome(
            chain,
            msg.payload->Request_0,
            msg_bytes,
        ),
        (SubModules::Executor, MsgType::ExecutedResult) => Outcome::done(
            chain,
            seq![EffectView::Execute(msg.payload->ExecutedResult_0@)],
        ),
        (SubModules::Consensus, MsgType::BlockWithProof) => consensus_outcome(
            chain,
            msg.payload->BlockWithProof_0.blk@,
            msg.payload->BlockWithProof_0.proof@,
        ),
        (SubModules::Net, MsgType::SyncRequest) => sync_reply_outcome(
            chain,
            msg.origin,
            msg.payload->SyncRequest_0.heights@,
            0,
            seq![],
        ),
        (SubModules::Net, MsgType::SyncResponse) => sync_blocks_outcome(
            chain,
            msg.payload->SyncResponse_0@,
        ),
        (SubModules::Auth, MsgType::BlockTxHashesReq) => Outcome::asking(
            chain,
            AskView::TransactionHashes { height: msg.payload->BlockTxHashesReq_0.height },
        ),
        (SubModules::Snapshot, MsgType::SnapshotReq) => snapshot_outcome(
            chain,
            msg.payload->SnapshotReq_0,
        ),
        _ => Outcome::idle(chain),
    }
}

/// Whether an answer can be gone on with: it answers what was asked, a hash in it is one, and
/// the proofs of a chain's own consensus are Tendermint proofs.
pub open spec fn can_resume(chain: ChainView, ask: AskView, answer: Answer) -> bool {
    match (ask, answer) {
        (AskView::ParamsByHash { .. }, Answer::ParamsByHash(params)) => params matches Ok(params)
            ==> params.hash@.len() == 32,
        (AskView::BlockByHash { .. }, Answer::Block(_)) => true,
        (AskView::ParamsByNumber { .. }, Answer::ParamsByNumber(_)) => true,
        (AskView::BlockById { .. }, Answer::HashedBlock(_)) => true,
        (AskView::RenderBlock { .. }, Answer::Rendered(_)) => true,
        (AskView::Transaction { .. }, Answer::Bytes(_)) => true,
        (AskView::TransactionProof { .. }, Answer::Bytes(_)) => true,
        (AskView::TransactionReceipt { .. }, Answer::Receipt(_)) => true,
        (AskView::Filter { .. }, Answer::FilterRead(_)) => true,
        (AskView::Logs { .. }, Answer::Json(_)) => true,
        (AskView::NewFilter { .. }, Answer::FilterId(_)) => true,
        (AskView::NewBlockFilter { .. }, Answer::FilterId(_)) => true,
        (AskView::UninstallFilter { .. }, Answer::Removed(_)) => true,
        (AskView::FilterChanges { .. }, Answer::Json(_)) => true,
        (AskView::FilterLogs { .. }, Answer::FilterLogs(_)) => true,
        (AskView::SyncBlock { heights, next, .. }, Answer::Block(_)) => next < heights.len(),
        (AskView::CurrentBlockProof { heights, next, .. }, Answer::Proof(_)) => next
            < heights.len(),
        (AskView::CheckHash { .. }, Answer::HashChecked(_)) => true,
        (AskView::ProofType { .. }, Answer::ProofType(proof_type)) => proof_type
            == chain.proof_type ==> proof_type == Some(ProofType::Tendermint),
        (AskView::TendermintHeight { .. }, Answer::TendermintHeight(_)) => chain.proof_type
            == Some(ProofType::Tendermint),
        (AskView::TransactionHashes { .. }, Answer::TxHashes(_)) => true,
        (AskView::OpenSnapshot { .. }, Answer::SnapshotOpened(_)) => true,
        (AskView::RootNodePath, Answer::RootNodePath(_)) => true,
        _ => false,
    }
}

/// What an answer comes to.
pub open spec fn resume_outcome(chain: ChainView, ask: AskView, answer: Answer) -> Outcome
    recommends
        can_resume(chain, ask, answer),
{
    match (ask, answer) {
        (
            AskView::ParamsByHash { request_id, .. },
            Answer::ParamsByHash(params),
        ) => params_by_hash_outcome(chain, request_id, params),
        (
            AskView::BlockByHash { request_id, hash, include_txs, .. },
            Answer::Block(block),
        ) => block_outcome(chain, request_id, hash, include_txs, block_view(block)),
        (
            AskView::ParamsByNumber { request_id, .. },
            Answer::ParamsByNumber(params),
        ) => Outcome::asking(
            chain,
            AskView::BlockById {
                request_id,
                block_id: params.block_id,
                include_txs: params.include_txs,
            },
        ),
        (
            AskView::BlockById { request_id, include_txs, .. },
            Answer::HashedBlock(block),
        ) => hashed_block_outcome(chain, request_id, include_txs, block),
        (AskView::RenderBlock { request_id, .. }, Answer::Rendered(rendered)) => answered(
            chain,
            block_rendered(request_id, rendered),
        ),
        (AskView::Transaction { request_id, .. }, Answer::Bytes(bytes)) => answered(
            chain,
            found_or_absent(
                request_id,
                match bytes {
                    Some(bytes) => Some(ResponseDataView::Ts(bytes@)),
                    None => None,
                },
            ),
        ),
        (AskView::TransactionProof { request_id, .. }, Answer::Bytes(bytes)) => answered(
            chain,
            found_or_absent(
                request_id,
                match bytes {
                    Some(bytes) => Some(ResponseDataView::TransactionProof(bytes@)),
                    None => None,
                },
            ),
        ),
        (AskView::TransactionReceipt { request_id, .. }, Answer::Receipt(text)) => answered(
            chain,
            found_or_absent(
                request_id,
                match text {
                    Some(text) => Some(ResponseDataView::Receipt(text@)),
                    None => None,
                },
            ),
        ),
        (
            AskView::Filter { request_id, filter },
            Answer::FilterRead(read),
        ) => filter_read_outcome(chain, request_id, filter, read),
        (AskView::Logs { request_id, .. }, Answer::Json(text)) => answered(
            chain,
            success(request_id, ResponseDataView::Logs(text@)),
        ),
        (AskView::NewFilter { request_id, .. }, Answer::FilterId(id)) => answered(
            chain,
            success(request_id, ResponseDataView::FilterId(id as u64)),
        ),
        (AskView::NewBlockFilter { request_id }, Answer::FilterId(id)) => answered(
            chain,
            success(request_id, ResponseDataView::FilterId(id as u64)),
        ),
        (AskView::UninstallFilter { request_id, .. }, Answer::Removed(removed)) => answered(
            chain,
            success(request_id, ResponseDataView::UninstallFilter(removed)),
        ),
        (AskView::FilterChanges { request_id, .. }, Answer::Json(text)) => answered(
            chain,
            success(request_id, ResponseDataView::FilterChanges(text@)),
        ),
        (AskView::FilterLogs { request_id, .. }, Answer::FilterLogs(logs)) => answered(
            chain,
            filter_logs_found(request_id, logs),
        ),
        (
            AskView::SyncBlock { origin, heights, next, found },
            Answer::Block(block),
        ) => sync_block_outcome(chain, origin, heights, next, found, block_view(block)),
        (
            AskView::CurrentBlockProof { origin, heights, next, found },
            Answer::Proof(current),
        ) => sync_proof_outcome(
            chain,
            origin,
            heights,
            next,
            found,
            match current {
                Some(current) => Some(current@),
                None => None,
            },
        ),
        (
            AskView::CheckHash { block, rest },
            Answer::HashChecked(correct),
        ) => hash_checked_outcome(chain, block, rest, correct),
        (
            AskView::ProofType { block, rest },
            Answer::ProofType(proof_type),
        ) => proof_type_outcome(chain, block, rest, proof_type),
        (
            AskView::TendermintHeight { block, rest },
            Answer::TendermintHeight(tendermint_height),
        ) => tendermint_height_outcome(chain, block, rest, tendermint_height),
        (AskView::TransactionHashes { height }, Answer::TxHashes(hashes)) => tx_hashes_outcome(
            chain,
            height,
            match hashes {
                Some(hashes) => Some(hashes@),
                None => None,
            },
        ),
        (AskView::OpenSnapshot { .. }, Answer::SnapshotOpened(opened)) => snapshot_opened_outcome(
            chain,
            opened,
        ),
        (AskView::RootNodePath, Answer::RootNodePath(path)) => root_node_path_outcome(chain, path@),
        _ => Outcome::idle(chain),
    }
}

/// What a block that may not exist holds.
pub open spec fn block_view(block: Option<Block>) -> Option<BlockView> {
    match block {
        Some(block) => Some(block@),
        None => None,
    }
}

fn has_whole_hash(body: &RequestBody) -> (whole: bool)
    ensures
        whole == hash_is_whole(*body),
{
    match body {
        RequestBody::Transaction(hash) => hash.len() == 32,
        RequestBody::TransactionProof(hash) => hash.len() == 32,
        RequestBody::TransactionReceipt(hash) => hash.len() == 32,
        _ => true,
    }
}

fn is_answerable(req: &Request) -> (answerable: bool)
    ensures
        answerable == can_reply(*req),
{
    match &req.req {
        Some(body) => has_whole_hash(body),
        None => false,
    }
}

impl Forward {
    /// Whether [`Forward::dispatch_msg`] can deal with a message.
    pub fn can_dispatch(&self, key: RoutingKey, msg: &Message) -> (can: bool)
        ensures
            can == can_dispatch(self.chain@, key, *msg),
    {
        match (key.module, key.msg_type) {
            (SubModules::Jsonrpc, MsgType::Request) => match &msg.payload {
                Payload::Request(req) => is_answerable(req),
                _ => false,
            },
            (SubModules::Executor, MsgType::ExecutedResult) => matches!(
                msg.payload,
                Payload::ExecutedResult(_)
            ),
            (SubModules::Consensus, MsgType::BlockWithProof) => matches!(
                msg.payload,
                Payload::BlockWithProof(_)
            ) && self.chain.max_store_height < u64::MAX,
            (SubModules::Net, MsgType::SyncRequest) => matches!(
                msg.payload,
                Payload::SyncRequest(_)
            ),
            (SubModules::Net, MsgType::SyncResponse) => matches!(
                msg.payload,
                Payload::SyncResponse(_)
            ),
            (SubModules::Auth, MsgType::BlockTxHashesReq) => matches!(
                msg.payload,
                Payload::BlockTxHashesReq(_)
            ),
            (SubModules::Snapshot, MsgType::SnapshotReq) => matches!(
                msg.payload,
                Payload::SnapshotReq(_)
            ),
            _ => true,
        }
    }

    /// Starts to deal with a message that came under a key; `msg_bytes` is the message as it
    /// came.
    pub fn dispatch_msg(&mut self, key: RoutingKey, msg: Message, msg_bytes: &[u8]) -> (ask: Option<
        Ask,
    >)
        requires
            can_dispatch(old(self).chain@, key, msg),
        ensures
            final(self).reached(
                *old(self),
                ask,
                dispatch_outcome(old(self).chain@, key, msg, msg_bytes@),
            ),
    {
        let origin: u32 = msg.origin;
        match (key.module, key.msg_type, msg.payload) {
            (SubModules::Jsonrpc, MsgType::Request, Payload::Request(req)) => self.reply_request(
                req,
                slice_to_vec(msg_bytes),
            ),
            (SubModules::Executor, MsgType::ExecutedResult, Payload::ExecutedResult(info)) => {
                self.emit(Effect::Execute(info));
                None
            },
            (
                SubModules::Consensus,
                MsgType::BlockWithProof,
                Payload::BlockWithProof(proof_blk),
            ) => {
                self.consensus_block_enqueue(proof_blk);
                None
            },
            (
                SubModules::Net,
                MsgType::SyncRequest,
                Payload::SyncRequest(sync_req),
            ) => self.reply_syn_req(sync_req, origin),
            (
                SubModules::Net,
                MsgType::SyncResponse,
                Payload::SyncResponse(sync_res),
            ) => self.deal_sync_blocks(sync_res),
            (
                SubModules::Auth,
                MsgType::BlockTxHashesReq,
                Payload::BlockTxHashesReq(req),
            ) => self.deal_block_tx_req(&req),
            (
                SubModules::Snapshot,
                MsgType::SnapshotReq,
                Payload::SnapshotReq(req),
            ) => self.deal_snapshot_req(req),
            _ => None,
        }
    }

    /// Whether [`Forward::resume`] can go on with an answer.
    pub fn can_resume(&self, ask: &Ask, answer: &Answer) -> (can: bool)
        ensures
            can == can_resume(self.chain@, ask@, *answer),
    {
        match (ask, answer) {
            (Ask::ParamsByHash { .. }, Answer::ParamsByHash(Ok(params))) => params.hash.len() == 32,
            (Ask::ParamsByHash { .. }, Answer::ParamsByHash(Err(_))) => true,
            (Ask::BlockByHash { .. }, Answer::Block(_)) => true,
            (Ask::ParamsByNumber { .. }, Answer::ParamsByNumber(_)) => true,
            (Ask::BlockById { .. }, Answer::HashedBlock(_)) => true,
            (Ask::RenderBlock { .. }, Answer::Rendered(_)) => true,
            (Ask::Transaction { .. }, Answer::Bytes(_)) => true,
            (Ask::TransactionProof { .. }, Answer::Bytes(_)) => true,
            (Ask::TransactionReceipt { .. }, Answer::Receipt(_)) => true,
            (Ask::Filter { .. }, Answer::FilterRead(_)) => true,
            (Ask::Logs { .. }, Answer::Json(_)) => true,
            (Ask::NewFilter { .. }, Answer::FilterId(_)) => true,
            (Ask::NewBlockFilter { .. }, Answer::FilterId(_)) => true,
            (Ask::UninstallFilter { .. }, Answer::Removed(_)) => true,
            (Ask::FilterChanges { .. }, Answer::Json(_)) => true,
            (Ask::FilterLogs { .. }, Answer::FilterLogs(_)) => true,
            (Ask::SyncBlock { heights, next, .. }, Answer::Block(_)) => *next < heights.len(),
            (Ask::CurrentBlockProof { heights, next, .. }, Answer::Proof(_)) => *next
                < heights.len(),
            (Ask::CheckHash { .. }, Answer::HashChecked(_)) => true,
            (Ask::ProofType { .. }, Answer::ProofType(proof_type)) => !same_proof_type(
                *proof_type,
                self.chain.proof_type,
            ) || same_proof_type(*proof_type, Some(ProofType::Tendermint)),
            (Ask::TendermintHeight { .. }, Answer::TendermintHeight(_)) => same_proof_type(
                self.chain.proof_type,
                Some(ProofType::Tendermint),
            ),
            (Ask::TransactionHashes { .. }, Answer::TxHashes(_)) => true,
            (Ask::OpenSnapshot { .. }, Answer::SnapshotOpened(_)) => true,
            (Ask::RootNodePath, Answer::RootNodePath(_)) => true,
            _ => false,
        }
    }

    /// Goes on with the answer to what was asked.
    pub fn resume(&mut self, ask: Ask, answer: Answer) -> (next: Option<Ask>)
        requires
            can_resume(old(self).chain@, ask@, answer),
        ensures
            final(self).reached(
                *old(self),
                next,
                resume_outcome(old(self).chain@, ask@, answer),
            ),
    {
        match (ask, answer) {
            (
                Ask::ParamsByHash { request_id, .. },
                Answer::ParamsByHash(params),
            ) => self.params_by_hash_read(request_id, params),
            (
                Ask::BlockByHash { request_id, hash, include_txs, .. },
                Answer::Block(block),
            ) => self.block_by_hash_found(request_id, hash, include_txs, block),
            (
                Ask::ParamsByNumber { request_id, .. },
                Answer::ParamsByNumber(params),
            ) => self.params_by_number_read(request_id, params),
            (
                Ask::BlockById { request_id, include_txs, .. },
                Answer::HashedBlock(block),
            ) => self.block_by_id_found(request_id, include_txs, block),
            (
                Ask::RenderBlock { request_id, .. },
                Answer::Rendered(rendered),
            ) => self.block_written(request_id, rendered),
            (
                Ask::Transaction { request_id, .. },
                Answer::Bytes(bytes),
            ) => self.succeed_if_found(
                request_id,
                match bytes {
                    Some(bytes) => Some(ResponseData::Ts(bytes)),
                    None => None,
                },
            ),
            (
                Ask::TransactionProof { request_id, .. },
                Answer::Bytes(bytes),
            ) => self.succeed_if_found(
                request_id,
                match bytes {
                    Some(bytes) => Some(ResponseData::TransactionProof(bytes)),
                    None => None,
                },
            ),
            (
                Ask::TransactionReceipt { request_id, .. },
                Answer::Receipt(text),
            ) => self.succeed_if_found(
                request_id,
                match text {
                    Some(text) => Some(ResponseData::Receipt(text)),
                    None => None,
                },
            ),
            (
                Ask::Filter { request_id, filter },
                Answer::FilterRead(read),
            ) => self.filter_read(request_id, filter, read),
            (Ask::Logs { request_id, .. }, Answer::Json(text)) => self.succeed(
                request_id,
                ResponseData::Logs(text),
            ),
            (Ask::NewFilter { request_id, .. }, Answer::FilterId(id)) => self.succeed(
                request_id,
                ResponseData::FilterId(id as u64),
            ),
            (Ask::NewBlockFilter { request_id }, Answer::FilterId(id)) => self.succeed(
                request_id,
                ResponseData::FilterId(id as u64),
            ),
            (Ask::UninstallFilter { request_id, .. }, Answer::Removed(removed)) => self.succeed(
                request_id,
                ResponseData::UninstallFilter(removed),
            ),
            (Ask::FilterChanges { request_id, .. }, Answer::Json(text)) => self.succeed(
                request_id,
                ResponseData::FilterChanges(text),
            ),
            (Ask::FilterLogs { request_id, .. }, Answer::FilterLogs(logs)) => self.filter_logs_read(
                request_id,
                logs,
            ),
            (
                Ask::SyncBlock { origin, heights, next, found },
                Answer::Block(block),
            ) => self.sync_block_found(origin, heights, next, found, block),
            (
                Ask::CurrentBlockProof { origin, heights, next, found },
                Answer::Proof(current),
            ) => self.current_proof_found(origin, heights, next, found, current),
            (
                Ask::CheckHash { block, rest },
                Answer::HashChecked(correct),
            ) => self.sync_hash_checked(block, rest, correct),
            (
                Ask::ProofType { block, rest },
                Answer::ProofType(proof_type),
            ) => self.sync_proof_type_read(block, rest, proof_type),
            (
                Ask::TendermintHeight { block, rest },
                Answer::TendermintHeight(tendermint_height),
            ) => self.sync_proof_height_read(block, rest, tendermint_height),
            (
                Ask::TransactionHashes { height },
                Answer::TxHashes(hashes),
            ) => self.tx_hashes_found(height, hashes),
            (
                Ask::OpenSnapshot { .. },
                Answer::SnapshotOpened(opened),
            ) => self.snapshot_opened(opened),
            (Ask::RootNodePath, Answer::RootNodePath(path)) => self.root_node_path_read(path),
            _ => None,
        }
    }
}

} // verus!
