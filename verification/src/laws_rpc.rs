//! What holds of requests of JSON-RPC clients, from the request to its answer.

use crate::block::{Block, BlockView};
use crate::chain::ChainView;
use crate::conversation::{conversation, dealt_with};
use crate::dispatch::{block_view, can_dispatch, dispatch_outcome, resume_outcome};
use crate::forward::Outcome;
use crate::message::{
    ErrorCode, Message, MsgType, OutgoingView, Request, RequestBody, ResponseDataView,
    ResponseView, RoutingKey, SubModules,
};
use crate::rpc::{
    blank, block_number, block_rendered, can_reply, failure, filter_logs_found, for_executor,
    relayed, request_outcome, response_effect, success, unreadable,
};
use crate::task::{
    Answer, AskView, BlockId, BlockParamsByHash, BlockParamsByNumber, EffectView,
};
use vstd::prelude::*;

verus! {

/// The answer to a request, in the end, for a block that a client knows by `hash`.
pub open spec fn block_response(
    world: spec_fn(AskView) -> Answer,
    request_id: Seq<u8>,
    hash: Seq<u8>,
    include_txs: bool,
    block: Option<BlockView>,
) -> ResponseView {
    match block {
        None => success(request_id, ResponseDataView::Absent),
        Some(block) => block_rendered(
            request_id,
            world(AskView::RenderBlock { request_id, hash, include_txs, block })->Rendered_0,
        ),
    }
}

/// The answer to a request, in the end: what `world` knows about the thing that is asked for.
pub open spec fn response_to(
    world: spec_fn(AskView) -> Answer,
    chain: ChainView,
    req: Request,
) -> ResponseView
    recommends
        can_reply(req),
        !for_executor(req.req->0),
{
    let request_id = req.request_id@;
    match req.req->0 {
        RequestBody::BlockNumber => success(
            request_id,
            ResponseDataView::BlockNumber(block_number(chain)),
        ),
        RequestBody::BlockByHash(rpc) => match world(
            AskView::ParamsByHash { request_id, rpc: rpc@ },
        )->ParamsByHash_0 {
            Err(text) => unreadable(request_id, text@),
            Ok(params) => {
                let hash = params.hash@;
                let include_txs = params.include_txs;
                let block = world(
                    AskView::BlockByHash { request_id, hash, key: hash, include_txs },
                )->Block_0;
                block_response(world, request_id, hash, include_txs, block_view(block))
            },
        },
        RequestBody::BlockByHeight(rpc) => {
            let params = world(
                AskView::ParamsByNumber { request_id, rpc: rpc@ },
            )->ParamsByNumber_0;
            let block_id = params.block_id;
            let include_txs = params.include_txs;
            match world(
                AskView::BlockById { request_id, block_id, include_txs },
            )->HashedBlock_0 {
                None => success(request_id, ResponseDataView::Absent),
                Some((hash, block)) => block_response(
                    world,
                    request_id,
                    hash@,
                    include_txs,
                    Some(block@),
                ),
            }
        },
        RequestBody::Transaction(hash) => match world(
            AskView::Transaction { request_id, key: hash@ },
        )->Bytes_0 {
            None => success(request_id, ResponseDataView::Absent),
            Some(bytes) => success(request_id, ResponseDataView::Ts(bytes@)),
        },
        RequestBody::TransactionProof(hash) => match world(
            AskView::TransactionProof { request_id, key: hash@ },
        )->Bytes_0 {
            None => success(request_id, ResponseDataView::Absent),
            Some(bytes) => success(request_id, ResponseDataView::TransactionProof(bytes@)),
        },
        RequestBody::TransactionReceipt(hash) => match world(
            AskView::TransactionReceipt { request_id, key: hash@ },
        )->Receipt_0 {
            None => success(request_id, ResponseDataView::Absent),
            Some(text) => success(request_id, ResponseDataView::Receipt(text@)),
        },
        RequestBody::Filter(filter) => match world(
            AskView::Filter { request_id, filter: filter@ },
        )->FilterRead_0 {
            Err(text) => failure(request_id, text@),
            Ok(()) => success(
                request_id,
                ResponseDataView::Logs(
                    world(AskView::Logs { request_id, filter: filter@ })->Json_0@,
                ),
            ),
        },
        RequestBody::NewFilter(filter) => success(
            request_id,
            ResponseDataView::FilterId(
                world(AskView::NewFilter { request_id, filter: filter@ })->FilterId_0 as u64,
            ),
        ),
        RequestBody::NewBlockFilter => success(
            request_id,
            ResponseDataView::FilterId(
                world(AskView::NewBlockFilter { request_id })->FilterId_0 as u64,
            ),
        ),
        RequestBody::UninstallFilter(filter_id) => success(
            request_id,
            ResponseDataView::UninstallFilter(
                world(
                    AskView::UninstallFilter { request_id, index: filter_id as usize },
                )->Removed_0,
            ),
        ),
        RequestBody::FilterChanges(filter_id) => success(
            request_id,
            ResponseDataView::FilterChanges(
                world(
                    AskView::FilterChanges { request_id, index: filter_id as usize },
                )->Json_0@,
            ),
        ),
        RequestBody::FilterLogs(filter_id) => filter_logs_found(
            request_id,
            world(AskView::FilterLogs { request_id, index: filter_id as usize })->FilterLogs_0,
        ),
        _ => blank(request_id),
    }
}

/// A request that is dealt with leads to exactly one message, and leaves the chain as it is. The
/// message is the request itself, byte for byte, if it is for the executor. It is the answer
/// otherwise, and that goes by the id of the request.
pub proof fn law_requests_are_answered_once(
    world: spec_fn(AskView) -> Answer,
    chain: ChainView,
    key: RoutingKey,
    msg: Message,
    msg_bytes: Seq<u8>,
)
    requires
        key == (RoutingKey { module: SubModules::Jsonrpc, msg_type: MsgType::Request }),
        can_dispatch(chain, key, msg),
        dealt_with(world, chain, key, msg, msg_bytes).ask is None,
    ensures
        ({
            let req = msg.payload->Request_0;
            let outcome = dealt_with(world, chain, key, msg, msg_bytes);
            if for_executor(req.req->0) {
                outcome == relayed(chain, msg_bytes)
            } else {
                &&& outcome == Outcome::done(
                    chain,
                    seq![response_effect(response_to(world, chain, req))],
                )
                &&& response_to(world, chain, req).request_id == req.request_id@
            }
        }),
{
    let req = msg.payload->Request_0;
    reveal_with_fuel(conversation, 4);
    let outcome = dealt_with(world, chain, key, msg, msg_bytes);
    if for_executor(req.req->0) {
        assert(outcome.effects =~= relayed(chain, msg_bytes).effects);
    } else {
        assert(outcome.effects =~= seq![response_effect(response_to(world, chain, req))]);
    }
}

/// A client that asks for the height is told that of the newest stored block; as long as there is
/// none, the height that the chain has reached.
pub proof fn law_clients_are_told_the_height(chain: ChainView, msg: Message, msg_bytes: Seq<u8>)
    requires
        msg.payload is Request,
        msg.payload->Request_0.req == Some(RequestBody::BlockNumber),
    ensures
        ({
            let outcome = dispatch_outcome(
                chain,
                RoutingKey { module: SubModules::Jsonrpc, msg_type: MsgType::Request },
                msg,
                msg_bytes,
            );
            let told = if chain.max_store_height == u64::MAX {
                chain.max_height
            } else {
                chain.max_store_height
            };
            &&& outcome.chain == chain
            &&& outcome.ask is None
            &&& outcome.effects == seq![
                EffectView::Publish(
                    RoutingKey { module: SubModules::Chain, msg_type: MsgType::Response },
                    OutgoingView::Response(
                        ResponseView {
                            request_id: msg.payload->Request_0.request_id@,
                            code: None,
                            error_msg: seq![],
                            data: Some(ResponseDataView::BlockNumber(told)),
                        },
                    ),
                ),
            ]
        }),
{
}

/// A request for the executor is handed on byte for byte, under the key of the chain service, and
/// nothing else is done or asked.
pub proof fn law_requests_for_the_executor_are_handed_on(
    chain: ChainView,
    msg: Message,
    msg_bytes: Seq<u8>,
)
    requires
        msg.payload is Request,
        msg.payload->Request_0.req matches Some(body) && (body == RequestBody::Call || body
            == RequestBody::TransactionCount || body == RequestBody::MetaData || body
            == RequestBody::Code || body == RequestBody::Abi || body == RequestBody::Balance),
    ensures
        ({
            let outcome = dispatch_outcome(
                chain,
                RoutingKey { module: SubModules::Jsonrpc, msg_type: MsgType::Request },
                msg,
                msg_bytes,
            );
            &&& outcome.chain == chain
            &&& outcome.ask is None
            &&& outcome.effects == seq![
                EffectView::Publish(
                    RoutingKey { module: SubModules::Chain, msg_type: MsgType::Request },
                    OutgoingView::Raw(msg_bytes),
                ),
            ]
        }),
{
}

/// A request that is not for the chain service gets an answer that says nothing but which request
/// it is for.
pub proof fn law_other_requests_get_a_blank_answer(
    chain: ChainView,
    msg: Message,
    msg_bytes: Seq<u8>,
)
    requires
        msg.payload is Request,
        msg.payload->Request_0.req == Some(RequestBody::Other),
    ensures
        ({
            let outcome = dispatch_outcome(
                chain,
                RoutingKey { module: SubModules::Jsonrpc, msg_type: MsgType::Request },
                msg,
                msg_bytes,
            );
            &&& outcome.chain == chain
            &&& outcome.ask is None
            &&& outcome.effects == seq![
                EffectView::Publish(
                    RoutingKey { module: SubModules::Chain, msg_type: MsgType::Response },
                    OutgoingView::Response(
                        ResponseView {
                            request_id: msg.payload->Request_0.request_id@,
                            code: None,
                            error_msg: seq![],
                            data: None,
                        },
                    ),
                ),
            ]
        }),
{
}

/// Any other request leads to one question, which has the id and the content of the request, and
/// nothing is done before that is answered.
pub proof fn law_requests_lead_to_their_question(
    chain: ChainView,
    msg: Message,
    msg_bytes: Seq<u8>,
)
    requires
        msg.payload is Request,
        msg.payload->Request_0.req is Some,
    ensures
        ({
            let request_id = msg.payload->Request_0.request_id@;
            let outcome = dispatch_outcome(
                chain,
                RoutingKey { module: SubModules::Jsonrpc, msg_type: MsgType::Request },
                msg,
                msg_bytes,
            );
            let question = match msg.payload->Request_0.req->0 {
                RequestBody::BlockByHash(rpc) => Some(
                    AskView::ParamsByHash { request_id, rpc: rpc@ },
                ),
                RequestBody::BlockByHeight(rpc) => Some(
                    AskView::ParamsByNumber { request_id, rpc: rpc@ },
                ),
                RequestBody::Transaction(hash) => Some(
                    AskView::Transaction { request_id, key: hash@ },
                ),
                RequestBody::TransactionProof(hash) => Some(
                    AskView::TransactionProof { request_id, key: hash@ },
                ),
                RequestBody::TransactionReceipt(hash) => Some(
                    AskView::TransactionReceipt { request_id, key: hash@ },
                ),
                RequestBody::Filter(filter) => Some(
                    AskView::Filter { request_id, filter: filter@ },
                ),
                RequestBody::NewFilter(filter) => Some(
                    AskView::NewFilter { request_id, filter: filter@ },
                ),
                RequestBody::NewBlockFilter => Some(AskView::NewBlockFilter { request_id }),
                RequestBody::UninstallFilter(number) => Some(
                    AskView::UninstallFilter { request_id, index: number as usize },
                ),
                RequestBody::FilterChanges(number) => Some(
                    AskView::FilterChanges { request_id, index: number as usize },
                ),
                RequestBody::FilterLogs(number) => Some(
                    AskView::FilterLogs { request_id, index: number as usize },
                ),
                _ => None,
            };
            &&& question is Some ==> outcome.chain == chain
            &&& question is Some ==> outcome.effects.len() == 0
            &&& outcome.ask == question
        }),
{
}

/// What holds of a request in a message holds of the request by itself.
pub proof fn law_requests_are_replied_to(chain: ChainView, msg: Message, msg_bytes: Seq<u8>)
    requires
        msg.payload is Request,
    ensures
        request_outcome(chain, msg.payload->Request_0, msg_bytes) == dispatch_outcome(
            chain,
            RoutingKey { module: SubModules::Jsonrpc, msg_type: MsgType::Request },
            msg,
            msg_bytes,
        ),
{
}

/// The block that parameters name by its hash is looked up by just that hash.
pub proof fn law_block_is_looked_up_by_its_hash(
    chain: ChainView,
    request_id: Seq<u8>,
    rpc: Seq<char>,
    params: BlockParamsByHash,
)
    ensures
        ({
            let outcome = resume_outcome(
                chain,
                AskView::ParamsByHash { request_id, rpc },
                Answer::ParamsByHash(Ok(params)),
            );
            &&& outcome.chain == chain
            &&& outcome.effects.len() == 0
            &&& outcome.ask == Some(
                AskView::BlockByHash {
                    request_id,
                    hash: params.hash@,
                    key: params.hash@,
                    include_txs: params.include_txs,
                },
            )
        }),
{
}

/// Parameters that cannot be read are an error, with its text in the place of the block.
pub proof fn law_unreadable_parameters_are_an_error(
    chain: ChainView,
    request_id: Seq<u8>,
    rpc: Seq<char>,
    text: String,
)
    ensures
        ({
            let outcome = resume_outcome(
                chain,
                AskView::ParamsByHash { request_id, rpc },
                Answer::ParamsByHash(Err(text)),
            );
            &&& outcome.chain == chain
            &&& outcome.ask is None
            &&& outcome.effects == seq![
                EffectView::Publish(
                    RoutingKey { module: SubModules::Chain, msg_type: MsgType::Response },
                    OutgoingView::Response(
                        ResponseView {
                            request_id: request_id,
                            code: Some(ErrorCode::QueryError),
                            error_msg: seq![],
                            data: Some(ResponseDataView::Block(text@)),
                        },
                    ),
                ),
            ]
        }),
{
}

/// The block that parameters name by its height is looked up as they name it.
pub proof fn law_block_is_looked_up_by_its_height(
    chain: ChainView,
    request_id: Seq<u8>,
    rpc: Seq<char>,
    params: BlockParamsByNumber,
)
    ensures
        ({
            let outcome = resume_outcome(
                chain,
                AskView::ParamsByNumber { request_id, rpc },
                Answer::ParamsByNumber(params),
            );
            &&& outcome.chain == chain
            &&& outcome.effects.len() == 0
            &&& outcome.ask == Some(
                AskView::BlockById {
                    request_id,
                    block_id: params.block_id,
                    include_txs: params.include_txs,
                },
            )
        }),
{
}

/// A block that is there under a hash is written for the client, under that hash.
pub proof fn law_block_with_the_hash_is_written(
    chain: ChainView,
    request_id: Seq<u8>,
    hash: Seq<u8>,
    key: Seq<u8>,
    include_txs: bool,
    block: Block,
)
    ensures
        ({
            let outcome = resume_outcome(
                chain,
                AskView::BlockByHash { request_id, hash, key, include_txs },
                Answer::Block(Some(block)),
            );
            &&& outcome.chain == chain
            &&& outcome.effects.len() == 0
            &&& outcome.ask == Some(
                AskView::RenderBlock {
                    request_id,
                    hash,
                    include_txs,
                    block: BlockView {
                        height: block.height,
                        proof: block.proof.content@,
                        rest: block.rest@,
                    },
                },
            )
        }),
{
}

/// A client is told if there is no block with the hash.
pub proof fn law_no_block_with_the_hash(
    chain: ChainView,
    request_id: Seq<u8>,
    hash: Seq<u8>,
    key: Seq<u8>,
    include_txs: bool,
)
    ensures
        ({
            let outcome = resume_outcome(
                chain,
                AskView::BlockByHash { request_id, hash, key, include_txs },
                Answer::Block(None),
            );
            &&& outcome.chain == chain
            &&& outcome.ask is None
            &&& outcome.effects == seq![
                EffectView::Publish(
                    RoutingKey { module: SubModules::Chain, msg_type: MsgType::Response },
                    OutgoingView::Response(
                        ResponseView {
                            request_id: request_id,
                            code: None,
                            error_msg: seq![],
                            data: Some(ResponseDataView::Absent),
                        },
                    ),
                ),
            ]
        }),
{
}

/// A block that is there at a height is written for the client, under its own hash.
pub proof fn law_block_at_the_height_is_written(
    chain: ChainView,
    request_id: Seq<u8>,
    block_id: BlockId,
    include_txs: bool,
    hash: [u8; 32],
    block: Block,
)
    ensures
        ({
            let outcome = resume_outcome(
                chain,
                AskView::BlockById { request_id, block_id, include_txs },
                Answer::HashedBlock(Some((hash, block))),
            );
            &&& outcome.chain == chain
            &&& outcome.effects.len() == 0
            &&& outcome.ask == Some(
                AskView::RenderBlock {
                    request_id,
                    hash: hash@,
                    include_txs,
                    block: BlockView {
                        height: block.height,
                        proof: block.proof.content@,
                        rest: block.rest@,
                    },
                },
            )
        }),
{
}

/// A client is told if there is no block at the height.
pub proof fn law_no_block_at_the_height(
    chain: ChainView,
    request_id: Seq<u8>,
    block_id: BlockId,
    include_txs: bool,
)
    ensures
        ({
            let outcome = resume_outcome(
                chain,
                AskView::BlockById { request_id, block_id, include_txs },
                Answer::HashedBlock(None),
            );
            &&& outcome.chain == chain
            &&& outcome.ask is None
            &&& outcome.effects == seq![
                EffectView::Publish(
                    RoutingKey { module: SubModules::Chain, msg_type: MsgType::Response },
                    OutgoingView::Response(
                        ResponseView {
                            request_id: request_id,
                            code: None,
                            error_msg: seq![],
                            data: Some(ResponseDataView::Absent),
                        },
                    ),
                ),
            ]
        }),
{
}

/// A block that has been written is sent to the client, whatever its text.
pub proof fn law_written_block_is_sent(
    chain: ChainView,
    request_id: Seq<u8>,
    hash: Seq<u8>,
    include_txs: bool,
    block: BlockView,
    text: String,
)
    ensures
        ({
            let outcome = resume_outcome(
                chain,
                AskView::RenderBlock { request_id, hash, include_txs, block },
                Answer::Rendered(Ok(text)),
            );
            &&& outcome.chain == chain
            &&& outcome.ask is None
            &&& outcome.effects == seq![
                EffectView::Publish(
                    RoutingKey { module: SubModules::Chain, msg_type: MsgType::Response },
                    OutgoingView::Response(
                        ResponseView {
                            request_id: request_id,
                            code: None,
                            error_msg: seq![],
                            data: Some(ResponseDataView::Block(text@)),
                        },
                    ),
                ),
            ]
        }),
{
}

/// A block that cannot be written is an error.
pub proof fn law_unwritten_block_is_an_error(
    chain: ChainView,
    request_id: Seq<u8>,
    hash: Seq<u8>,
    include_txs: bool,
    block: BlockView,
    text: String,
)
    ensures
        ({
            let outcome = resume_outcome(
                chain,
                AskView::RenderBlock { request_id, hash, include_txs, block },
                Answer::Rendered(Err(text)),
            );
            &&& outcome.chain == chain
            &&& outcome.ask is None
            &&& outcome.effects == seq![
                EffectView::Publish(
                    RoutingKey { module: SubModules::Chain, msg_type: MsgType::Response },
                    OutgoingView::Response(
                        ResponseView {
                            request_id: request_id,
                            code: Some(ErrorCode::QueryError),
                            error_msg: text@,
                            data: None,
                        },
                    ),
                ),
            ]
        }),
{
}

/// A transaction is sent to the client if it is there, and that it is not otherwise.
pub proof fn law_transaction_is_sent(
    chain: ChainView,
    request_id: Seq<u8>,
    key: Seq<u8>,
    found: Option<Vec<u8>>,
)
    ensures
        ({
            let outcome = resume_outcome(
                chain,
                AskView::Transaction { request_id, key },
                Answer::Bytes(found),
            );
            let data = match found {
                Some(found) => ResponseDataView::Ts(found@),
                None => ResponseDataView::Absent,
            };
            &&& outcome.chain == chain
            &&& outcome.ask is None
            &&& outcome.effects == seq![
                EffectView::Publish(
                    RoutingKey { module: SubModules::Chain, msg_type: MsgType::Response },
                    OutgoingView::Response(
                        ResponseView {
                            request_id: request_id,
                            code: None,
                            error_msg: seq![],
                            data: Some(data),
                        },
                    ),
                ),
            ]
        }),
{
}

/// The proof of a transaction is sent to the client if it is there, and that it is not otherwise.
pub proof fn law_transaction_proof_is_sent(
    chain: ChainView,
    request_id: Seq<u8>,
    key: Seq<u8>,
    found: Option<Vec<u8>>,
)
    ensures
        ({
            let outcome = resume_outcome(
                chain,
                AskView::TransactionProof { request_id, key },
                Answer::Bytes(found),
            );
            let data = match found {
                Some(found) => ResponseDataView::TransactionProof(found@),
                None => ResponseDataView::Absent,
            };
            &&& outcome.chain == chain
            &&& outcome.ask is None
            &&& outcome.effects == seq![
                EffectView::Publish(
                    RoutingKey { module: SubModules::Chain, msg_type: MsgType::Response },
                    OutgoingView::Response(
                        ResponseView {
                            request_id: request_id,
                            code: None,
                            error_msg: seq![],
                            data: Some(data),
                        },
                    ),
                ),
            ]
        }),
{
}

/// The receipt of a transaction is sent to the client if it is there, and that it is not otherwise.
pub proof fn law_receipt_is_sent(
    chain: ChainView,
    request_id: Seq<u8>,
    key: Seq<u8>,
    found: Option<String>,
)
    ensures
        ({
            let outcome = resume_outcome(
                chain,
                AskView::TransactionReceipt { request_id, key },
                Answer::Receipt(found),
            );
            let data = match found {
                Some(found) => ResponseDataView::Receipt(found@),
                None => ResponseDataView::Absent,
            };
            &&& outcome.chain == chain
            &&& outcome.ask is None
            &&& outcome.effects == seq![
                EffectView::Publish(
                    RoutingKey { module: SubModules::Chain, msg_type: MsgType::Response },
                    OutgoingView::Response(
                        ResponseView {
                            request_id: request_id,
                            code: None,
                            error_msg: seq![],
                            data: Some(data),
                        },
                    ),
                ),
            ]
        }),
{
}

/// Logs are looked up by a filter that can be read.
pub proof fn law_readable_filter_is_used(
    chain: ChainView,
    request_id: Seq<u8>,
    filter: Seq<char>,
)
    ensures
        ({
            let outcome = resume_outcome(
                chain,
                AskView::Filter { request_id, filter },
                Answer::FilterRead(Ok(())),
            );
            &&& outcome.chain == chain
            &&& outcome.effects.len() == 0
            &&& outcome.ask == Some(
                AskView::Logs { request_id, filter },
            )
        }),
{
}

/// A filter that cannot be read is an error.
pub proof fn law_unreadable_filter_is_an_error(
    chain: ChainView,
    request_id: Seq<u8>,
    filter: Seq<char>,
    text: String,
)
    ensures
        ({
            let outcome = resume_outcome(
                chain,
                AskView::Filter { request_id, filter },
                Answer::FilterRead(Err(text)),
            );
            &&& outcome.chain == chain
            &&& outcome.ask is None
            &&& outcome.effects == seq![
                EffectView::Publish(
                    RoutingKey { module: SubModules::Chain, msg_type: MsgType::Response },
                    OutgoingView::Response(
                        ResponseView {
                            request_id: request_id,
                            code: Some(ErrorCode::QueryError),
                            error_msg: text@,
                            data: None,
                        },
                    ),
                ),
            ]
        }),
{
}

/// The logs that a filter lets through are sent to the client.
pub proof fn law_logs_are_sent(
    chain: ChainView,
    request_id: Seq<u8>,
    filter: Seq<char>,
    text: String,
)
    ensures
        ({
            let outcome = resume_outcome(
                chain,
                AskView::Logs { request_id, filter },
                Answer::Json(text),
            );
            &&& outcome.chain == chain
            &&& outcome.ask is None
            &&& outcome.effects == seq![
                EffectView::Publish(
                    RoutingKey { module: SubModules::Chain, msg_type: MsgType::Response },
                    OutgoingView::Response(
                        ResponseView {
                            request_id: request_id,
                            code: None,
                            error_msg: seq![],
                            data: Some(ResponseDataView::Logs(text@)),
                        },
                    ),
                ),
            ]
        }),
{
}

/// The number of a new filter is sent to the client.
pub proof fn law_number_of_a_filter_is_sent(
    chain: ChainView,
    request_id: Seq<u8>,
    filter: Seq<char>,
    number: usize,
)
    ensures
        ({
            let outcome = resume_outcome(
                chain,
                AskView::NewFilter { request_id, filter },
                Answer::FilterId(number),
            );
            &&& outcome.chain == chain
            &&& outcome.ask is None
            &&& outcome.effects == seq![
                EffectView::Publish(
                    RoutingKey { module: SubModules::Chain, msg_type: MsgType::Response },
                    OutgoingView::Response(
                        ResponseView {
                            request_id: request_id,
                            code: None,
                            error_msg: seq![],
                            data: Some(ResponseDataView::FilterId(number as u64)),
                        },
                    ),
                ),
            ]
        }),
{
}

/// The number of a new block filter is sent to the client.
pub proof fn law_number_of_a_block_filter_is_sent(
    chain: ChainView,
    request_id: Seq<u8>,
    number: usize,
)
    ensures
        ({
            let outcome = resume_outcome(
                chain,
                AskView::NewBlockFilter { request_id },
                Answer::FilterId(number),
            );
            &&& outcome.chain == chain
            &&& outcome.ask is None
            &&& outcome.effects == seq![
                EffectView::Publish(
                    RoutingKey { module: SubModules::Chain, msg_type: MsgType::Response },
                    OutgoingView::Response(
                        ResponseView {
                            request_id: request_id,
                            code: None,
                            error_msg: seq![],
                            data: Some(ResponseDataView::FilterId(number as u64)),
                        },
                    ),
                ),
            ]
        }),
{
}

/// A client is told whether a filter was there to be removed.
pub proof fn law_removal_of_a_filter_is_told(
    chain: ChainView,
    request_id: Seq<u8>,
    index: usize,
    removed: bool,
)
    ensures
        ({
            let outcome = resume_outcome(
                chain,
                AskView::UninstallFilter { request_id, index },
                Answer::Removed(removed),
            );
            &&& outcome.chain == chain
            &&& outcome.ask is None
            &&& outcome.effects == seq![
                EffectView::Publish(
                    RoutingKey { module: SubModules::Chain, msg_type: MsgType::Response },
                    OutgoingView::Response(
                        ResponseView {
                            request_id: request_id,
                            code: None,
                            error_msg: seq![],
                            data: Some(ResponseDataView::UninstallFilter(removed)),
                        },
                    ),
                ),
            ]
        }),
{
}

/// What is new for a filter is sent to the client.
pub proof fn law_changes_of_a_filter_are_sent(
    chain: ChainView,
    request_id: Seq<u8>,
    index: usize,
    text: String,
)
    ensures
        ({
            let outcome = resume_outcome(
                chain,
                AskView::FilterChanges { request_id, index },
                Answer::Json(text),
            );
            &&& outcome.chain == chain
            &&& outcome.ask is None
            &&& outcome.effects == seq![
                EffectView::Publish(
                    RoutingKey { module: SubModules::Chain, msg_type: MsgType::Response },
                    OutgoingView::Response(
                        ResponseView {
                            request_id: request_id,
                            code: None,
                            error_msg: seq![],
                            data: Some(ResponseDataView::FilterChanges(text@)),
                        },
                    ),
                ),
            ]
        }),
{
}

/// All logs of a filter are sent to the client; a filter that does not exist has an empty list.
pub proof fn law_all_logs_of_a_filter_are_sent(
    chain: ChainView,
    request_id: Seq<u8>,
    index: usize,
    found: Option<String>,
)
    ensures
        ({
            let outcome = resume_outcome(
                chain,
                AskView::FilterLogs { request_id, index },
                Answer::FilterLogs(found),
            );
            let text = match found {
                Some(found) => found@,
                None => "[]"@,
            };
            &&& outcome.chain == chain
            &&& outcome.ask is None
            &&& outcome.effects == seq![
                EffectView::Publish(
                    RoutingKey { module: SubModules::Chain, msg_type: MsgType::Response },
                    OutgoingView::Response(
                        ResponseView {
                            request_id: request_id,
                            code: None,
                            error_msg: seq![],
                            data: Some(ResponseDataView::FilterLogs(text)),
                        },
                    ),
                ),
            ]
        }),
{
}

/// A client that asks for a block by its hash is sent the block that there is with this hash, as
/// it has been written, in one message.
pub proof fn law_block_by_hash_is_sent(
    world: spec_fn(AskView) -> Answer,
    chain: ChainView,
    rpc: String,
    params: BlockParamsByHash,
    block: Block,
    text: String,
    msg: Message,
    msg_bytes: Seq<u8>,
)
    requires
        msg.payload is Request,
        msg.payload->Request_0.req == Some(RequestBody::BlockByHash(rpc)),
        params.hash@.len() == 32,
        world(
            AskView::ParamsByHash { request_id: msg.payload->Request_0.request_id@, rpc: rpc@ },
        ) == Answer::ParamsByHash(Ok(params)),
        world(
            AskView::BlockByHash {
                request_id: msg.payload->Request_0.request_id@,
                hash: params.hash@,
                key: params.hash@,
                include_txs: params.include_txs,
            },
        ) == Answer::Block(Some(block)),
        world(
            AskView::RenderBlock {
                request_id: msg.payload->Request_0.request_id@,
                hash: params.hash@,
                include_txs: params.include_txs,
                block: block@,
            },
        ) == Answer::Rendered(Ok(text)),
    ensures
        ({
            let outcome = dealt_with(
                world,
                chain,
                RoutingKey { module: SubModules::Jsonrpc, msg_type: MsgType::Request },
                msg,
                msg_bytes,
            );
            &&& outcome.chain == chain
            &&& outcome.ask is None
            &&& outcome.effects == seq![
                EffectView::Publish(
                    RoutingKey { module: SubModules::Chain, msg_type: MsgType::Response },
                    OutgoingView::Response(
                        ResponseView {
                            request_id: msg.payload->Request_0.request_id@,
                            code: None,
                            error_msg: seq![],
                            data: Some(ResponseDataView::Block(text@)),
                        },
                    ),
                ),
            ]
        }),
{
    reveal_with_fuel(conversation, 4);
    let request_id = msg.payload->Request_0.request_id@;
    let outcome = dealt_with(
        world,
        chain,
        RoutingKey { module: SubModules::Jsonrpc, msg_type: MsgType::Request },
        msg,
        msg_bytes,
    );
    assert(outcome.effects =~= seq![
        EffectView::Publish(
            RoutingKey { module: SubModules::Chain, msg_type: MsgType::Response },
            OutgoingView::Response(
                ResponseView {
                    request_id: request_id,
                    code: None,
                    error_msg: seq![],
                    data: Some(ResponseDataView::Block(text@)),
                },
            ),
        ),
    ]);
}

/// A client that asks for a block by its height is sent the block that there is at this height,
/// as it has been written, in one message.
pub proof fn law_block_by_height_is_sent(
    world: spec_fn(AskView) -> Answer,
    chain: ChainView,
    rpc: String,
    params: BlockParamsByNumber,
    hash: [u8; 32],
    block: Block,
    text: String,
    msg: Message,
    msg_bytes: Seq<u8>,
)
    requires
        msg.payload is Request,
        msg.payload->Request_0.req == Some(RequestBody::BlockByHeight(rpc)),
        world(
            AskView::ParamsByNumber { request_id: msg.payload->Request_0.request_id@, rpc: rpc@ },
        ) == Answer::ParamsByNumber(params),
        world(
            AskView::BlockById {
                request_id: msg.payload->Request_0.request_id@,
                block_id: params.block_id,
                include_txs: params.include_txs,
            },
        ) == Answer::HashedBlock(Some((hash, block))),
        world(
            AskView::RenderBlock {
                request_id: msg.payload->Request_0.request_id@,
                hash: hash@,
                include_txs: params.include_txs,
                block: block@,
            },
        ) == Answer::Rendered(Ok(text)),
    ensures
        ({
            let outcome = dealt_with(
                world,
                chain,
                RoutingKey { module: SubModules::Jsonrpc, msg_type: MsgType::Request },
                msg,
                msg_bytes,
            );
            &&& outcome.chain == chain
            &&& outcome.ask is None
            &&& outcome.effects == seq![
                EffectView::Publish(
                    RoutingKey { module: SubModules::Chain, msg_type: MsgType::Response },
                    OutgoingView::Response(
                        ResponseView {
                            request_id: msg.payload->Request_0.request_id@,
                            code: None,
                            error_msg: seq![],
                            data: Some(ResponseDataView::Block(text@)),
                        },
                    ),
                ),
            ]
        }),
{
    reveal_with_fuel(conversation, 4);
    let request_id = msg.payload->Request_0.request_id@;
    let outcome = dealt_with(
        world,
        chain,
        RoutingKey { module: SubModules::Jsonrpc, msg_type: MsgType::Request },
        msg,
        msg_bytes,
    );
    assert(outcome.effects =~= seq![
        EffectView::Publish(
            RoutingKey { module: SubModules::Chain, msg_type: MsgType::Response },
            OutgoingView::Response(
                ResponseView {
                    request_id: request_id,
                    code: None,
                    error_msg: seq![],
                    data: Some(ResponseDataView::Block(text@)),
                },
            ),
        ),
    ]);
}

} // verus!
