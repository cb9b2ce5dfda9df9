//! Requests of JSON-RPC clients.

use crate::block::{Block, BlockView};
use crate::chain::ChainView;
use crate::forward::{Forward, Outcome};
use crate::message::{
    chain_key, ErrorCode, MsgType, Outgoing, OutgoingView, Request, RequestBody, Response,
    ResponseData, ResponseDataView, ResponseView,
};
use crate::outside::h256_from_slice;
use crate::task::{Ask, AskView, BlockParamsByHash, BlockParamsByNumber, EffectView};
use vstd::prelude::*;
use vstd::slice::slice_to_vec;

verus! {

/// The answer to a request: its data.
pub open spec fn success(request_id: Seq<u8>, data: ResponseDataView) -> ResponseView {
    ResponseView { request_id, code: None, error_msg: seq![], data: Some(data) }
}

/// The answer to a request that failed: why it did.
pub open spec fn failure(request_id: Seq<u8>, error_msg: Seq<char>) -> ResponseView {
    ResponseView { request_id, code: Some(ErrorCode::QueryError), error_msg, data: None }
}

/// The answer to a request whose parameters cannot be read: why they cannot, in the place of
/// the block.
pub open spec fn unreadable(request_id: Seq<u8>, text: Seq<char>) -> ResponseView {
    ResponseView {
        request_id,
        code: Some(ErrorCode::QueryError),
        error_msg: seq![],
        data: Some(ResponseDataView::Block(text)),
    }
}

/// The answer to a request that is not for the chain service: it says nothing.
pub open spec fn blank(request_id: Seq<u8>) -> ResponseView {
    ResponseView { request_id, code: None, error_msg: seq![], data: None }
}

/// The answer with a thing that may not exist.
pub open spec fn found_or_absent(
    request_id: Seq<u8>,
    data: Option<ResponseDataView>,
) -> ResponseView {
    match data {
        Some(data) => success(request_id, data),
        None => success(request_id, ResponseDataView::Absent),
    }
}

/// What putting an answer on the bus is.
pub open spec fn response_effect(response: ResponseView) -> EffectView {
    EffectView::Publish(chain_key(MsgType::Response), OutgoingView::Response(response))
}

/// A request is answered.
pub open spec fn answered(chain: ChainView, response: ResponseView) -> Outcome {
    Outcome::done(chain, seq![response_effect(response)])
}

/// A request is handed on, byte for byte, to the service that can answer it.
pub open spec fn relayed(chain: ChainView, imsg: Seq<u8>) -> Outcome {
    Outcome::done(
        chain,
        seq![EffectView::Publish(chain_key(MsgType::Request), OutgoingView::Raw(imsg))],
    )
}

/// Whether a question needs the state of the chain's accounts, which the executor has.
pub open spec fn for_executor(body: RequestBody) -> bool {
    match body {
        RequestBody::Call => true,
        RequestBody::TransactionCount => true,
        RequestBody::MetaData => true,
        RequestBody::Code => true,
        RequestBody::Abi => true,
        RequestBody::Balance => true,
        _ => false,
    }
}

/// The height that clients are told: that of the newest stored block, and as long as there is
/// none, the height that the chain has reached.
pub open spec fn block_number(chain: ChainView) -> u64 {
    if chain.max_store_height == u64::MAX {
        chain.max_height
    } else {
        chain.max_store_height
    }
}

/// Whether the hash in a question, if there is one, has the length of a hash.
pub open spec fn hash_is_whole(body: RequestBody) -> bool {
    match body {
        RequestBody::Transaction(hash) => hash@.len() == 32,
        RequestBody::TransactionProof(hash) => hash@.len() == 32,
        RequestBody::TransactionReceipt(hash) => hash@.len() == 32,
        _ => true,
    }
}

/// Whether a request asks something, and with a hash that is one where it needs one.
pub open spec fn can_reply(req: Request) -> bool {
    req.req matches Some(body) && hash_is_whole(body)
}

/// What a request comes to.
pub open spec fn request_outcome(chain: ChainView, req: Request, imsg: Seq<u8>) -> Outcome
    recommends
        can_reply(req),
{
    let id = req.request_id@;
    match req.req->0 {
        RequestBody::BlockNumber => answered(
            chain,
            success(id, ResponseDataView::BlockNumber(block_number(chain))),
        ),
        RequestBody::BlockByHash(rpc) => Outcome::asking(
            chain,
            AskView::ParamsByHash { request_id: id, rpc: rpc@ },
        ),
        RequestBody::BlockByHeight(rpc) => Outcome::asking(
            chain,
            AskView::ParamsByNumber { request_id: id, rpc: rpc@ },
        ),
        RequestBody::Transaction(hash) => Outcome::asking(
            chain,
            AskView::Transaction { request_id: id, key: hash@ },
        ),
        RequestBody::TransactionProof(hash) => Outcome::asking(
            chain,
            AskView::TransactionProof { request_id: id, key: hash@ },
        ),
        RequestBody::TransactionReceipt(hash) => Outcome::asking(
            chain,
            AskView::TransactionReceipt { request_id: id, key: hash@ },
        ),
        RequestBody::Filter(encoded) => Outcome::asking(
            chain,
            AskView::Filter { request_id: id, filter: encoded@ },
        ),
        RequestBody::NewFilter(encoded) => Outcome::asking(
            chain,
            AskView::NewFilter { request_id: id, filter: encoded@ },
        ),
        RequestBody::NewBlockFilter => Outcome::asking(
            chain,
            AskView::NewBlockFilter { request_id: id },
        ),
        RequestBody::UninstallFilter(filter_id) => Outcome::asking(
            chain,
            AskView::UninstallFilter { request_id: id, index: filter_id as usize },
        ),
        RequestBody::FilterChanges(filter_id) => Outcome::asking(
            chain,
            AskView::FilterChanges { request_id: id, index: filter_id as usize },
        ),
        RequestBody::FilterLogs(filter_id) => Outcome::asking(
            chain,
            AskView::FilterLogs { request_id: id, index: filter_id as usize },
        ),
        RequestBody::Other => answered(chain, blank(id)),
        _ => relayed(chain, imsg),
    }
}

/// The parameters that name a block by its hash have been read, or could not be.
pub open spec fn params_by_hash_outcome(
    chain: ChainView,
    id: Seq<u8>,
    params: Result<BlockParamsByHash, String>,
) -> Outcome {
    match params {
        Ok(params) => Outcome::asking(
            chain,
            AskView::BlockByHash {
                request_id: id,
                hash: params.hash@,
                key: params.hash@,
                include_txs: params.include_txs,
            },
        ),
        Err(text) => answered(chain, unreadable(id, text@)),
    }
}

/// A block has been looked up, which the client knows by `hash`.
pub open spec fn block_outcome(
    chain: ChainView,
    id: Seq<u8>,
    hash: Seq<u8>,
    include_txs: bool,
    block: Option<BlockView>,
) -> Outcome {
    match block {
        Some(block) => Outcome::asking(
            chain,
            AskView::RenderBlock { request_id: id, hash, include_txs, block },
        ),
        None => answered(chain, success(id, ResponseDataView::Absent)),
    }
}

/// A block has been looked up by its height, together with its hash.
pub open spec fn hashed_block_outcome(
    chain: ChainView,
    id: Seq<u8>,
    include_txs: bool,
    block: Option<([u8; 32], Block)>,
) -> Outcome {
    match block {
        Some((hash, block)) => block_outcome(chain, id, hash@, include_txs, Some(block@)),
        None => block_outcome(chain, id, seq![], include_txs, None),
    }
}

/// A block has been written as JSON text, or could not be.
pub open spec fn block_rendered(
    id: Seq<u8>,
    rendered: Result<String, String>,
) -> ResponseView {
    match rendered {
        Ok(data) => success(id, ResponseDataView::Block(data@)),
        Err(text) => failure(id, text@),
    }
}

/// The filter in a request for logs has been read, or could not be. Only one that can be read is
/// used.
pub open spec fn filter_read_outcome(
    chain: ChainView,
    id: Seq<u8>,
    filter: Seq<char>,
    read: Result<(), String>,
) -> Outcome {
    match read {
        Ok(()) => Outcome::asking(chain, AskView::Logs { request_id: id, filter }),
        Err(text) => answered(chain, failure(id, text@)),
    }
}

/// The logs of a filter have been looked up. A filter that does not exist has none, and none are
/// an empty list.
pub open spec fn filter_logs_found(id: Seq<u8>, logs: Option<String>) -> ResponseView {
    match logs {
        Some(text) => success(id, ResponseDataView::FilterLogs(text@)),
        None => success(id, ResponseDataView::FilterLogs("[]"@)),
    }
}

impl Forward {
    /// Answers a JSON-RPC request, or hands it on; `imsg` is the whole message that it came in.
    pub fn reply_request(&mut self, req: Request, imsg: Vec<u8>) -> (ask: Option<Ask>)
        requires
            can_reply(req),
        ensures
            final(self).reached(
                *old(self),
                ask,
                request_outcome(old(self).chain@, req, imsg@),
            ),
    {
        let request_id = req.request_id;
        match req.req.unwrap() {
            RequestBody::BlockNumber => {
                let mut height: u64 = self.chain.max_store_height;
                if height == u64::MAX {
                    height = self.chain.max_height;
                }
                self.succeed(request_id, ResponseData::BlockNumber(height))
            },
            RequestBody::BlockByHash(rpc) => Some(Ask::ParamsByHash { request_id, rpc }),
            RequestBody::BlockByHeight(rpc) => Some(Ask::ParamsByNumber { request_id, rpc }),
            RequestBody::Transaction(hash) => {
                let key = h256_from_slice(hash.as_slice());
                Some(Ask::Transaction { request_id, key })
            },
            RequestBody::TransactionProof(hash) => {
                let key = h256_from_slice(hash.as_slice());
                Some(Ask::TransactionProof { request_id, key })
            },
            RequestBody::TransactionReceipt(hash) => {
                let key = h256_from_slice(hash.as_slice());
                Some(Ask::TransactionReceipt { request_id, key })
            },
            RequestBody::Filter(filter) => Some(Ask::Filter { request_id, filter }),
            RequestBody::Call => self.relay(imsg),
            RequestBody::TransactionCount => self.relay(imsg),
            RequestBody::MetaData => self.relay(imsg),
            RequestBody::Code => self.relay(imsg),
            RequestBody::Abi => self.relay(imsg),
            RequestBody::Balance => self.relay(imsg),
            RequestBody::NewFilter(filter) => Some(Ask::NewFilter { request_id, filter }),
            RequestBody::NewBlockFilter => Some(Ask::NewBlockFilter { request_id }),
            RequestBody::UninstallFilter(filter_id) => Some(
                Ask::UninstallFilter { request_id, index: filter_id as usize },
            ),
            RequestBody::FilterChanges(filter_id) => Some(
                Ask::FilterChanges { request_id, index: filter_id as usize },
            ),
            RequestBody::FilterLogs(filter_id) => Some(
                Ask::FilterLogs { request_id, index: filter_id as usize },
            ),
            RequestBody::Other => self.respond(
                Response { request_id, code: None, error_msg: String::new(), data: None },
            ),
        }
    }

    fn relay(&mut self, imsg: Vec<u8>) -> (ask: Option<Ask>)
        ensures
            final(self).reached(*old(self), ask, relayed(old(self).chain@, imsg@)),
    {
        self.publish(MsgType::Request, Outgoing::Raw(imsg));
        None
    }

    fn respond(&mut self, response: Response) -> (ask: Option<Ask>)
        ensures
            final(self).reached(*old(self), ask, answered(old(self).chain@, response@)),
    {
        self.publish(MsgType::Response, Outgoing::Response(response));
        None
    }

    /// Answers a request with data.
    pub(crate) fn succeed(&mut self, request_id: Vec<u8>, data: ResponseData) -> (ask: Option<Ask>)
        ensures
            final(self).reached(
                *old(self),
                ask,
                answered(old(self).chain@, success(request_id@, data@)),
            ),
    {
        let response = Response {
            request_id,
            code: None,
            error_msg: String::new(),
            data: Some(data),
        };
        assert(response@.error_msg =~= seq![]);
        self.respond(response)
    }

    /// Answers a request that failed.
    pub(crate) fn fail(&mut self, request_id: Vec<u8>, error_msg: String) -> (ask: Option<Ask>)
        ensures
            final(self).reached(
                *old(self),
                ask,
                answered(old(self).chain@, failure(request_id@, error_msg@)),
            ),
    {
        self.respond(
            Response { request_id, code: Some(ErrorCode::QueryError), error_msg, data: None },
        )
    }

    /// Answers a request with a thing if it exists.
    pub(crate) fn succeed_if_found(
        &mut self,
        request_id: Vec<u8>,
        data: Option<ResponseData>,
    ) -> (ask: Option<Ask>)
        ensures
            final(self).reached(
                *old(self),
                ask,
                answered(
                    old(self).chain@,
                    found_or_absent(
                        request_id@,
                        match data {
                            Some(data) => Some(data@),
                            None => None,
                        },
                    ),
                ),
            ),
    {
        match data {
            Some(data) => self.succeed(request_id, data),
            None => self.succeed(request_id, ResponseData::Absent),
        }
    }

    /// Goes on with a request for a block by its hash once its parameters have been read.
    pub(crate) fn params_by_hash_read(
        &mut self,
        request_id: Vec<u8>,
        params: Result<BlockParamsByHash, String>,
    ) -> (ask: Option<Ask>)
        requires
            params matches Ok(params) ==> params.hash@.len() == 32,
        ensures
            final(self).reached(
                *old(self),
                ask,
                params_by_hash_outcome(old(self).chain@, request_id@, params),
            ),
    {
        match params {
            Ok(params) => {
                let key = h256_from_slice(params.hash.as_slice());
                Some(
                    Ask::BlockByHash {
                        request_id,
                        hash: params.hash,
                        key,
                        include_txs: params.include_txs,
                    },
                )
            },
            Err(text) => {
                let response = Response {
                    request_id,
                    code: Some(ErrorCode::QueryError),
                    error_msg: String::new(),
                    data: Some(ResponseData::Block(text)),
                };
                assert(response@.error_msg =~= seq![]);
                self.respond(response)
            },
        }
    }

    /// Goes on with a request for a block by its height once its parameters have been read.
    pub(crate) fn params_by_number_read(
        &mut self,
        request_id: Vec<u8>,
        params: BlockParamsByNumber,
    ) -> (ask: Option<Ask>)
        ensures
            final(self).reached(
                *old(self),
                ask,
                Outcome::asking(
                    old(self).chain@,
                    AskView::BlockById {
                        request_id: request_id@,
                        block_id: params.block_id,
                        include_txs: params.include_txs,
                    },
                ),
            ),
    {
        Some(
            Ask::BlockById {
                request_id,
                block_id: params.block_id,
                include_txs: params.include_txs,
            },
        )
    }

    /// Goes on with a request for a block once that has been looked up by its hash.
    pub(crate) fn block_by_hash_found(
        &mut self,
        request_id: Vec<u8>,
        hash: Vec<u8>,
        include_txs: bool,
        block: Option<Block>,
    ) -> (ask: Option<Ask>)
        ensures
            final(self).reached(
                *old(self),
                ask,
                block_outcome(
                    old(self).chain@,
                    request_id@,
                    hash@,
                    include_txs,
                    match block {
                        Some(block) => Some(block@),
                        None => None,
                    },
                ),
            ),
    {
        match block {
            Some(block) => Some(Ask::RenderBlock { request_id, hash, include_txs, block }),
            None => self.succeed(request_id, ResponseData::Absent),
        }
    }

    /// Goes on with a request for a block once that has been looked up by its height.
    pub(crate) fn block_by_id_found(
        &mut self,
        request_id: Vec<u8>,
        include_txs: bool,
        block: Option<([u8; 32], Block)>,
    ) -> (ask: Option<Ask>)
        ensures
            final(self).reached(
                *old(self),
                ask,
                hashed_block_outcome(old(self).chain@, request_id@, include_txs, block),
            ),
    {
        match block {
            Some((hash, block)) => {
                let hash: Vec<u8> = slice_to_vec(hash.as_slice());
                Some(Ask::RenderBlock { request_id, hash, include_txs, block })
            },
            None => self.succeed(request_id, ResponseData::Absent),
        }
    }

    /// Answers a request for a block that has been written as JSON text, or could not be.
    pub(crate) fn block_written(
        &mut self,
        request_id: Vec<u8>,
        rendered: Result<String, String>,
    ) -> (ask: Option<Ask>)
        ensures
            final(self).reached(
                *old(self),
                ask,
                answered(old(self).chain@, block_rendered(request_id@, rendered)),
            ),
    {
        match rendered {
            Ok(data) => self.succeed(request_id, ResponseData::Block(data)),
            Err(text) => self.fail(request_id, text),
        }
    }

    /// Answers a request for the logs of a filter, which may not exist.
    pub(crate) fn filter_logs_read(
        &mut self,
        request_id: Vec<u8>,
        logs: Option<String>,
    ) -> (ask: Option<Ask>)
        ensures
            final(self).reached(
                *old(self),
                ask,
                answered(old(self).chain@, filter_logs_found(request_id@, logs)),
            ),
    {
        let text = match logs {
            Some(text) => text,
            None => "[]".to_owned(),
        };
        self.succeed(request_id, ResponseData::FilterLogs(text))
    }

    /// Goes on with a request for logs once its filter has been read, or could not be.
    pub(crate) fn filter_read(
        &mut self,
        request_id: Vec<u8>,
        filter: String,
        read: Result<(), String>,
    ) -> (ask: Option<Ask>)
        ensures
            final(self).reached(
                *old(self),
                ask,
                filter_read_outcome(old(self).chain@, request_id@, filter@, read),
            ),
    {
        match read {
            Ok(()) => Some(Ask::Logs { request_id, filter }),
            Err(text) => self.fail(request_id, text),
        }
    }
}

} // verus!
