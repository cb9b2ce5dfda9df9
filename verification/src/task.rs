//! What forwarding asks of the chain's store and of the node, and what it has them do.

use crate::block::{block_views, Block, BlockView, Proof, ProofType};
use crate::message::{Outgoing, OutgoingView, RoutingKey};
use crate::outside::block_items;
use protobuf::RepeatedField;
use vstd::prelude::*;

verus! {

/// Where a snapshot is written to, and what has been written.
#[derive(Debug, PartialEq, Eq)]
pub struct PackedWriter {
    /// The file, which is made anew.
    pub file: String,
    /// Hashes of the chunks of blocks that have been written.
    pub block_hashes: Vec<[u8; 32]>,
    /// How many bytes have been written.
    pub cur_len: u64,
}

/// What a [`PackedWriter`] holds.
pub struct PackedWriterView {
    pub file: Seq<char>,
    pub block_hashes: Seq<[u8; 32]>,
    pub cur_len: u64,
}

impl View for PackedWriter {
    type V = PackedWriterView;

    open spec fn view(&self) -> PackedWriterView {
        PackedWriterView {
            file: self.file@,
            block_hashes: self.block_hashes@,
            cur_len: self.cur_len,
        }
    }
}

/// Something to do outside. Effects are done in the order in which they are listed.
#[derive(Debug, PartialEq, Eq)]
pub enum Effect {
    /// Put a message on the bus.
    Publish(RoutingKey, Outgoing),
    /// Hand a result of the executor, in wire form, to the block processor.
    Execute(Vec<u8>),
    /// Store the proof of the newest block that consensus has decided.
    SaveCurrentBlockProof(Proof),
    /// Store the body of a block under a height.
    SetBlockBody(u64, Block),
    /// Set the height of the newest block whose body is stored.
    StoreMaxStoreHeight(u64),
    /// Publish the hashes of the transactions of a block, which has the height that is given.
    DeliverBlockTxHashes(u64, Block),
    /// Tell the other services where the chain stands.
    BroadcastCurrentStatus,
    /// Write a snapshot that starts at the block with a hash.
    TakeSnapshot { start_hash: [u8; 32], writer: PackedWriter },
    /// Restore the chain from the snapshot that was opened, working under a directory, with or
    /// without recovery.
    RestoreSnapshot { snapshot_root: String, recover: bool },
}

/// What an [`Effect`] holds.
pub enum EffectView {
    Publish(RoutingKey, OutgoingView),
    Execute(Seq<u8>),
    SaveCurrentBlockProof(Seq<u8>),
    SetBlockBody(u64, BlockView),
    StoreMaxStoreHeight(u64),
    DeliverBlockTxHashes(u64, BlockView),
    BroadcastCurrentStatus,
    TakeSnapshot { start_hash: Seq<u8>, writer: PackedWriterView },
    RestoreSnapshot { snapshot_root: Seq<char>, recover: bool },
}

impl View for Effect {
    type V = EffectView;

    open spec fn view(&self) -> EffectView {
        match self {
            Effect::Publish(key, message) => EffectView::Publish(*key, message@),
            Effect::Execute(bytes) => EffectView::Execute(bytes@),
            Effect::SaveCurrentBlockProof(proof) => EffectView::SaveCurrentBlockProof(proof@),
            Effect::SetBlockBody(height, block) => EffectView::SetBlockBody(*height, block@),
            Effect::StoreMaxStoreHeight(height) => EffectView::StoreMaxStoreHeight(*height),
            Effect::DeliverBlockTxHashes(height, block) => EffectView::DeliverBlockTxHashes(
                *height,
                block@,
            ),
            Effect::BroadcastCurrentStatus => EffectView::BroadcastCurrentStatus,
            Effect::TakeSnapshot { start_hash, writer } => EffectView::TakeSnapshot {
                start_hash: start_hash@,
                writer: writer@,
            },
            Effect::RestoreSnapshot { snapshot_root, recover } => EffectView::RestoreSnapshot {
                snapshot_root: snapshot_root@,
                recover: *recover,
            },
        }
    }
}

/// What the effects of a sequence hold.
pub open spec fn effect_views(effects: Seq<Effect>) -> Seq<EffectView> {
    effects.map_values(|effect: Effect| effect@)
}

/// Which block of the chain is meant.
#[derive(Debug, Clone, Copy, PartialEq, Eq, Structural)]
pub enum BlockId {
    Number(u64),
    Earliest,
    Latest,
}

/// A question about the world outside, together with what is needed to go on once it is
/// answered. Each names the variants of [`Answer`] that answer it.
#[derive(Debug, PartialEq, Eq)]
pub enum Ask {
    /// What block do these parameters, JSON text, name by its hash?
    /// [`Answer::ParamsByHash`].
    ParamsByHash { request_id: Vec<u8>, rpc: String },
    /// The block with the hash `key`, which is `hash` as a hash. [`Answer::Block`].
    BlockByHash { request_id: Vec<u8>, hash: Vec<u8>, key: [u8; 32], include_txs: bool },
    /// What block do these parameters, JSON text, name by its height?
    /// [`Answer::ParamsByNumber`].
    ParamsByNumber { request_id: Vec<u8>, rpc: String },
    /// The block that is meant, and its hash. [`Answer::HashedBlock`].
    BlockById { request_id: Vec<u8>, block_id: BlockId, include_txs: bool },
    /// The block as JSON text for clients, under the hash that is given, with whole
    /// transactions or with their hashes. [`Answer::Rendered`].
    RenderBlock { request_id: Vec<u8>, hash: Vec<u8>, include_txs: bool, block: Block },
    /// The transaction with a hash. [`Answer::Bytes`].
    Transaction { request_id: Vec<u8>, key: [u8; 32] },
    /// The proof of the transaction with a hash. [`Answer::Bytes`].
    TransactionProof { request_id: Vec<u8>, key: [u8; 32] },
    /// The receipt of the transaction with a hash, as JSON text. [`Answer::Receipt`].
    TransactionReceipt { request_id: Vec<u8>, key: [u8; 32] },
    /// Can this filter, JSON text, be read? [`Answer::FilterRead`].
    Filter { request_id: Vec<u8>, filter: String },
    /// The logs that a filter, JSON text that can be read, lets through, as JSON text.
    /// [`Answer::Json`].
    Logs { request_id: Vec<u8>, filter: String },
    /// The number of a new filter, JSON text. [`Answer::FilterId`].
    NewFilter { request_id: Vec<u8>, filter: String },
    /// The number of a new block filter. [`Answer::FilterId`].
    NewBlockFilter { request_id: Vec<u8> },
    /// Whether a filter was there to be removed. [`Answer::Removed`].
    UninstallFilter { request_id: Vec<u8>, index: usize },
    /// What is new for a filter, as JSON text. [`Answer::Json`].
    FilterChanges { request_id: Vec<u8>, index: usize },
    /// All logs of a filter, as JSON text. [`Answer::FilterLogs`].
    FilterLogs { request_id: Vec<u8>, index: usize },
    /// The block at `heights[next]`. [`Answer::Block`].
    SyncBlock { origin: u32, heights: Vec<u64>, next: usize, found: RepeatedField<Block> },
    /// The proof of the current block. [`Answer::Proof`].
    CurrentBlockProof {
        origin: u32,
        heights: Vec<u64>,
        next: usize,
        found: RepeatedField<Block>,
    },
    /// Does the block's header name the root of its transactions? [`Answer::HashChecked`].
    CheckHash { block: Block, rest: Vec<Block> },
    /// The consensus that the block's proof belongs to. [`Answer::ProofType`].
    ProofType { block: Block, rest: Vec<Block> },
    /// The height in the block's proof, read as a Tendermint proof.
    /// [`Answer::TendermintHeight`].
    TendermintHeight { block: Block, rest: Vec<Block> },
    /// The hashes of the transactions of the block at a height. [`Answer::TxHashes`].
    TransactionHashes { height: u64 },
    /// Open a snapshot file. [`Answer::SnapshotOpened`].
    OpenSnapshot { file: String },
    /// The directory of this node. [`Answer::RootNodePath`].
    RootNodePath,
}

/// What an [`Ask`] holds.
pub enum AskView {
    ParamsByHash { request_id: Seq<u8>, rpc: Seq<char> },
    BlockByHash { request_id: Seq<u8>, hash: Seq<u8>, key: Seq<u8>, include_txs: bool },
    ParamsByNumber { request_id: Seq<u8>, rpc: Seq<char> },
    BlockById { request_id: Seq<u8>, block_id: BlockId, include_txs: bool },
    RenderBlock { request_id: Seq<u8>, hash: Seq<u8>, include_txs: bool, block: BlockView },
    Transaction { request_id: Seq<u8>, key: Seq<u8> },
    TransactionProof { request_id: Seq<u8>, key: Seq<u8> },
    TransactionReceipt { request_id: Seq<u8>, key: Seq<u8> },
    Filter { request_id: Seq<u8>, filter: Seq<char> },
    Logs { request_id: Seq<u8>, filter: Seq<char> },
    NewFilter { request_id: Seq<u8>, filter: Seq<char> },
    NewBlockFilter { request_id: Seq<u8> },
    UninstallFilter { request_id: Seq<u8>, index: usize },
    FilterChanges { request_id: Seq<u8>, index: usize },
    FilterLogs { request_id: Seq<u8>, index: usize },
    SyncBlock { origin: u32, heights: Seq<u64>, next: int, found: Seq<BlockView> },
    CurrentBlockProof { origin: u32, heights: Seq<u64>, next: int, found: Seq<BlockView> },
    CheckHash { block: BlockView, rest: Seq<BlockView> },
    ProofType { block: BlockView, rest: Seq<BlockView> },
    TendermintHeight { block: BlockView, rest: Seq<BlockView> },
    TransactionHashes { height: u64 },
    OpenSnapshot { file: Seq<char> },
    RootNodePath,
}

impl View for Ask {
    type V = AskView;

    open spec fn view(&self) -> AskView {
        match self {
            Ask::ParamsByHash { request_id, rpc } => AskView::ParamsByHash {
                request_id: request_id@,
                rpc: rpc@,
            },
            Ask::BlockByHash { request_id, hash, key, include_txs } => AskView::BlockByHash {
                request_id: request_id@,
                hash: hash@,
                key: key@,
                include_txs: *include_txs,
            },
            Ask::ParamsByNumber { request_id, rpc } => AskView::ParamsByNumber {
                request_id: request_id@,
                rpc: rpc@,
            },
            Ask::BlockById { request_id, block_id, include_txs } => AskView::BlockById {
                request_id: request_id@,
                block_id: *block_id,
                include_txs: *include_txs,
            },
            Ask::RenderBlock { request_id, hash, include_txs, block } => AskView::RenderBlock {
                request_id: request_id@,
                hash: hash@,
                include_txs: *include_txs,
                block: block@,
            },
            Ask::Transaction { request_id, key } => AskView::Transaction {
                request_id: request_id@,
                key: key@,
            },
            Ask::TransactionProof { request_id, key } => AskView::TransactionProof {
                request_id: request_id@,
                key: key@,
            },
            Ask::TransactionReceipt { request_id, key } => AskView::TransactionReceipt {
                request_id: request_id@,
                key: key@,
            },
            Ask::Filter { request_id, filter } => AskView::Filter {
                request_id: request_id@,
                filter: filter@,
            },
            Ask::Logs { request_id, filter } => AskView::Logs {
                request_id: request_id@,
                filter: filter@,
            },
            Ask::NewFilter { request_id, filter } => AskView::NewFilter {
                request_id: request_id@,
                filter: filter@,
            },
            Ask::NewBlockFilter { request_id } => AskView::NewBlockFilter {
                request_id: request_id@,
            },
            Ask::UninstallFilter { request_id, index } => AskView::UninstallFilter {
                request_id: request_id@,
                index: *index,
            },
            Ask::FilterChanges { request_id, index } => AskView::FilterChanges {
                request_id: request_id@,
                index: *index,
            },
            Ask::FilterLogs { request_id, index } => AskView::FilterLogs {
                request_id: request_id@,
                index: *index,
            },
            Ask::SyncBlock { origin, heights, next, found } => AskView::SyncBlock {
                origin: *origin,
                heights: heights@,
                next: *next as int,
                found: block_views(block_items(*found)),
            },
            Ask::CurrentBlockProof { origin, heights, next, found } => AskView::CurrentBlockProof {
                origin: *origin,
                heights: heights@,
                next: *next as int,
                found: block_views(block_items(*found)),
            },
            Ask::CheckHash { block, rest } => AskView::CheckHash {
                block: block@,
                rest: block_views(rest@),
            },
            Ask::ProofType { block, rest } => AskView::ProofType {
                block: block@,
                rest: block_views(rest@),
            },
            Ask::TendermintHeight { block, rest } => AskView::TendermintHeight {
                block: block@,
                rest: block_views(rest@),
            },
            Ask::TransactionHashes { height } => AskView::TransactionHashes { height: *height },
            Ask::OpenSnapshot { file } => AskView::OpenSnapshot { file: file@ },
            Ask::RootNodePath => AskView::RootNodePath,
        }
    }
}

/// What an [`Ask`] holds, if there is one.
pub open spec fn ask_view(ask: Option<Ask>) -> Option<AskView> {
    match ask {
        Some(ask) => Some(ask@),
        None => None,
    }
}

/// Which block a client wants, by its hash.
#[derive(Debug, PartialEq, Eq)]
pub struct BlockParamsByHash {
    pub hash: Vec<u8>,
    pub include_txs: bool,
}

/// Which block a client wants, by its height.
#[derive(Debug, Clone, Copy, PartialEq, Eq, Structural)]
pub struct BlockParamsByNumber {
    pub block_id: BlockId,
    pub include_txs: bool,
}

/// The answer to an [`Ask`].
#[derive(Debug, PartialEq, Eq)]
pub enum Answer {
    /// The parameters, or a text that says why they cannot be read.
    ParamsByHash(Result<BlockParamsByHash, String>),
    ParamsByNumber(BlockParamsByNumber),
    Block(Option<Block>),
    HashedBlock(Option<([u8; 32], Block)>),
    /// JSON text, or a text that says what went wrong.
    Rendered(Result<String, String>),
    Bytes(Option<Vec<u8>>),
    Receipt(Option<String>),
    /// That a filter can be read, or a text that says why it cannot.
    FilterRead(Result<(), String>),
    FilterId(usize),
    Removed(bool),
    Json(String),
    /// JSON text, if there is such a filter.
    FilterLogs(Option<String>),
    Proof(Option<Proof>),
    HashChecked(bool),
    ProofType(Option<ProofType>),
    TendermintHeight(usize),
    TxHashes(Option<Vec<[u8; 32]>>),
    /// Whether the file is a snapshot, or a text that says why it cannot be opened.
    SnapshotOpened(Result<bool, String>),
    RootNodePath(String),
}

} // verus!
