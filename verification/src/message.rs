//! The messages that the bus carries, and the keys that they travel under.

use crate::block::{block_views, Block, BlockView, Proof};
use crate::outside::{block_items, bytes_items};
use protobuf::RepeatedField;
use vstd::prelude::*;

verus! {

/// A service on the bus.
#[derive(Debug, Clone, Copy, PartialEq, Eq, Structural)]
pub enum SubModules {
    Auth,
    Chain,
    Consensus,
    Executor,
    Jsonrpc,
    Net,
    Snapshot,
    /// Any other service.
    Other,
}

/// The kind of a message.
#[derive(Debug, Clone, Copy, PartialEq, Eq, Structural)]
pub enum MsgType {
    BlockTxHashes,
    BlockTxHashesReq,
    BlockWithProof,
    ExecutedResult,
    Request,
    Response,
    SnapshotReq,
    SnapshotResp,
    SyncRequest,
    SyncResponse,
    /// Any other kind.
    Other,
}

/// Who sends a message, and its kind.
#[derive(Debug, Clone, Copy, PartialEq, Eq, Structural)]
pub struct RoutingKey {
    pub module: SubModules,
    pub msg_type: MsgType,
}

/// The key of what the chain service sends.
pub open spec fn chain_key(msg_type: MsgType) -> RoutingKey {
    RoutingKey { module: SubModules::Chain, msg_type }
}

/// What a JSON-RPC client asks for. Where the chain service only hands the message on, the
/// content of the question is left out.
#[derive(Debug, PartialEq, Eq)]
pub enum RequestBody {
    BlockNumber,
    /// Parameters as JSON text.
    BlockByHash(String),
    /// Parameters as JSON text.
    BlockByHeight(String),
    /// Hash of the transaction.
    Transaction(Vec<u8>),
    /// Hash of the transaction.
    TransactionProof(Vec<u8>),
    /// Hash of the transaction.
    TransactionReceipt(Vec<u8>),
    /// Filter as JSON text.
    Filter(String),
    Call,
    TransactionCount,
    MetaData,
    Code,
    Abi,
    Balance,
    /// Filter as JSON text.
    NewFilter(String),
    NewBlockFilter,
    /// Number of the filter.
    UninstallFilter(u64),
    /// Number of the filter.
    FilterChanges(u64),
    /// Number of the filter.
    FilterLogs(u64),
    /// A question that is not for the chain service.
    Other,
}

/// A JSON-RPC request.
#[derive(Debug, PartialEq, Eq)]
pub struct Request {
    pub request_id: Vec<u8>,
    pub req: Option<RequestBody>,
}

/// Why a request failed.
#[derive(Debug, Clone, Copy, PartialEq, Eq, Structural)]
pub enum ErrorCode {
    QueryError,
}

/// What a [`Response`] answers with.
#[derive(Debug, PartialEq, Eq)]
pub enum ResponseData {
    /// There is no such thing.
    Absent,
    BlockNumber(u64),
    /// A block as JSON text.
    Block(String),
    /// A transaction with its place, in wire form.
    Ts(Vec<u8>),
    /// In wire form.
    TransactionProof(Vec<u8>),
    /// A receipt as JSON text.
    Receipt(String),
    /// Logs as JSON text.
    Logs(String),
    FilterId(u64),
    UninstallFilter(bool),
    /// Logs as JSON text.
    FilterChanges(String),
    /// Logs as JSON text.
    FilterLogs(String),
}

/// What a [`ResponseData`] holds.
pub enum ResponseDataView {
    Absent,
    BlockNumber(u64),
    Block(Seq<char>),
    Ts(Seq<u8>),
    TransactionProof(Seq<u8>),
    Receipt(Seq<char>),
    Logs(Seq<char>),
    FilterId(u64),
    UninstallFilter(bool),
    FilterChanges(Seq<char>),
    FilterLogs(Seq<char>),
}

impl View for ResponseData {
    type V = ResponseDataView;

    open spec fn view(&self) -> ResponseDataView {
        match self {
            ResponseData::Absent => ResponseDataView::Absent,
            ResponseData::BlockNumber(height) => ResponseDataView::BlockNumber(*height),
            ResponseData::Block(text) => ResponseDataView::Block(text@),
            ResponseData::Ts(bytes) => ResponseDataView::Ts(bytes@),
            ResponseData::TransactionProof(bytes) => ResponseDataView::TransactionProof(bytes@),
            ResponseData::Receipt(text) => ResponseDataView::Receipt(text@),
            ResponseData::Logs(text) => ResponseDataView::Logs(text@),
            ResponseData::FilterId(id) => ResponseDataView::FilterId(*id),
            ResponseData::UninstallFilter(done) => ResponseDataView::UninstallFilter(*done),
            ResponseData::FilterChanges(text) => ResponseDataView::FilterChanges(text@),
            ResponseData::FilterLogs(text) => ResponseDataView::FilterLogs(text@),
        }
    }
}

/// The answer to a JSON-RPC request.
#[derive(Debug, PartialEq, Eq)]
pub struct Response {
    pub request_id: Vec<u8>,
    pub code: Option<ErrorCode>,
    pub error_msg: String,
    pub data: Option<ResponseData>,
}

/// What a [`Response`] holds.
pub struct ResponseView {
    pub request_id: Seq<u8>,
    pub code: Option<ErrorCode>,
    pub error_msg: Seq<char>,
    pub data: Option<ResponseDataView>,
}

impl View for Response {
    type V = ResponseView;

    open spec fn view(&self) -> ResponseView {
        ResponseView {
            request_id: self.request_id@,
            code: self.code,
            error_msg: self.error_msg@,
            data: match self.data {
                Some(data) => Some(data@),
                None => None,
            },
        }
    }
}

/// A block that consensus has decided, with its proof.
#[derive(Debug, PartialEq, Eq)]
pub struct BlockWithProof {
    pub blk: Block,
    pub proof: Proof,
}

/// A node asks another for the blocks of some heights.
#[derive(Debug, PartialEq, Eq)]
pub struct SyncRequest {
    pub heights: Vec<u64>,
}

/// Blocks for a node that asked for them.
#[derive(Debug, PartialEq, Eq)]
pub struct SyncResponse {
    pub blocks: RepeatedField<Block>,
}

impl View for SyncResponse {
    type V = Seq<BlockView>;

    open spec fn view(&self) -> Seq<BlockView> {
        block_views(block_items(self.blocks))
    }
}

/// The auth service asks for the transaction hashes of a block.
#[derive(Debug, PartialEq, Eq)]
pub struct BlockTxHashesReq {
    pub height: u64,
}

/// The transaction hashes of a block, and the gas limits of the moment.
#[derive(Debug, PartialEq, Eq)]
pub struct BlockTxHashes {
    pub height: u64,
    pub tx_hashes: RepeatedField<Vec<u8>>,
    pub block_gas_limit: u64,
    /// In wire form.
    pub account_gas_limit: Vec<u8>,
}

/// What a [`BlockTxHashes`] holds.
pub struct BlockTxHashesView {
    pub height: u64,
    pub tx_hashes: Seq<Seq<u8>>,
    pub block_gas_limit: u64,
    pub account_gas_limit: Seq<u8>,
}

impl View for BlockTxHashes {
    type V = BlockTxHashesView;

    open spec fn view(&self) -> BlockTxHashesView {
        BlockTxHashesView {
            height: self.height,
            tx_hashes: bytes_items(self.tx_hashes),
            block_gas_limit: self.block_gas_limit,
            account_gas_limit: self.account_gas_limit@,
        }
    }
}

/// What the snapshot tool orders.
#[derive(Debug, Clone, Copy, PartialEq, Eq, Structural)]
pub enum Cmd {
    Snapshot,
    Restore,
    /// An order that is not for the chain service.
    Other,
}

/// An order of the snapshot tool.
#[derive(Debug, PartialEq, Eq)]
pub struct SnapshotReq {
    pub cmd: Cmd,
    /// The height to start at.
    pub start_height: u64,
    /// The file to use.
    pub file: String,
}

/// What the snapshot tool is told.
#[derive(Debug, Clone, Copy, PartialEq, Eq, Structural)]
pub enum Resp {
    SnapshotAck,
    RestoreAck,
}

/// What a message carries.
#[derive(Debug, PartialEq, Eq)]
pub enum Payload {
    Request(Request),
    /// A result of the executor, in wire form.
    ExecutedResult(Vec<u8>),
    BlockWithProof(BlockWithProof),
    SyncRequest(SyncRequest),
    SyncResponse(SyncResponse),
    BlockTxHashesReq(BlockTxHashesReq),
    SnapshotReq(SnapshotReq),
    /// Anything else.
    Other,
}

/// A message as it comes in.
#[derive(Debug, PartialEq, Eq)]
pub struct Message {
    /// The node that it comes from.
    pub origin: u32,
    pub payload: Payload,
}

/// Which nodes a message is for.
#[derive(Debug, Clone, Copy, PartialEq, Eq, Structural)]
pub enum OperateType {
    /// The one node that is named.
    Single,
}

/// A message as it goes out.
#[derive(Debug, PartialEq, Eq)]
pub enum Outgoing {
    /// A message that came in, handed on byte for byte.
    Raw(Vec<u8>),
    Response(Response),
    SnapshotResp(Resp),
    /// Blocks for the nodes that `operate` and `origin` select.
    SyncResponse { operate: OperateType, origin: u32, sync_res: SyncResponse },
    BlockTxHashes(BlockTxHashes),
}

/// What an [`Outgoing`] holds.
pub enum OutgoingView {
    Raw(Seq<u8>),
    Response(ResponseView),
    SnapshotResp(Resp),
    SyncResponse { operate: OperateType, origin: u32, blocks: Seq<BlockView> },
    BlockTxHashes(BlockTxHashesView),
}

impl View for Outgoing {
    type V = OutgoingView;

    open spec fn view(&self) -> OutgoingView {
        match self {
            Outgoing::Raw(bytes) => OutgoingView::Raw(bytes@),
            Outgoing::Response(response) => OutgoingView::Response(response@),
            Outgoing::SnapshotResp(resp) => OutgoingView::SnapshotResp(*resp),
            Outgoing::SyncResponse { operate, origin, sync_res } => OutgoingView::SyncResponse {
                operate: *operate,
                origin: *origin,
                blocks: sync_res@,
            },
            Outgoing::BlockTxHashes(hashes) => OutgoingView::BlockTxHashes(hashes@),
        }
    }
}

} // verus!
