//! Blocks, their consensus proofs, and the entries of the block queue.

use vstd::prelude::*;
use vstd::slice::slice_to_vec;

verus! {

/// The consensus that a proof belongs to.
#[derive(Debug, Clone, Copy, PartialEq, Eq, Structural)]
pub enum ProofType {
    AuthorityRound,
    Raft,
    Tendermint,
}

/// Whether two proof types, either of which may be missing, are the same.
pub(crate) fn same_proof_type(left: Option<ProofType>, right: Option<ProofType>) -> (same: bool)
    ensures
        same == (left == right),
{
    match (left, right) {
        (Some(a), Some(b)) => a == b,
        (None, None) => true,
        _ => false,
    }
}

/// Copies bytes into a vector of their own.
pub(crate) fn copy_bytes(bytes: &Vec<u8>) -> (copy: Vec<u8>)
    ensures
        copy@ == bytes@,
{
    slice_to_vec(bytes.as_slice())
}

/// A consensus proof in wire form.
#[derive(Debug, PartialEq, Eq)]
pub struct Proof {
    pub content: Vec<u8>,
}

impl View for Proof {
    type V = Seq<u8>;

    open spec fn view(&self) -> Seq<u8> {
        self.content@
    }
}

impl Clone for Proof {
    fn clone(&self) -> (copy: Self)
        ensures
            copy@ == self@,
    {
        Proof { content: copy_bytes(&self.content) }
    }
}

/// A block: the two header fields that decide where it goes, and everything else (the other
/// header fields and the body) in wire form.
///
/// The proof in a header is the proof of the block one height below.
#[derive(Debug, PartialEq, Eq)]
pub struct Block {
    pub height: u64,
    pub proof: Proof,
    pub rest: Vec<u8>,
}

/// What a [`Block`] holds.
pub struct BlockView {
    pub height: u64,
    pub proof: Seq<u8>,
    pub rest: Seq<u8>,
}

impl View for Block {
    type V = BlockView;

    open spec fn view(&self) -> BlockView {
        BlockView { height: self.height, proof: self.proof@, rest: self.rest@ }
    }
}

impl Clone for Block {
    fn clone(&self) -> (copy: Self)
        ensures
            copy@ == self@,
    {
        Block { height: self.height, proof: self.proof.clone(), rest: copy_bytes(&self.rest) }
    }
}

/// What the blocks of a sequence hold.
pub open spec fn block_views(blocks: Seq<Block>) -> Seq<BlockView> {
    blocks.map_values(|block: Block| block@)
}

/// A block that waits to be executed.
#[derive(Debug, PartialEq, Eq)]
pub enum BlockInQueue {
    /// A block that is still voted on.
    Proposal(Block),
    /// A block that consensus has decided, with its proof.
    ConsensusBlock(Block, Proof),
    /// A block that another node has sent, with its proof once that is known.
    SyncBlock(Block, Option<Proof>),
}

/// What a [`BlockInQueue`] holds.
pub enum BlockInQueueView {
    Proposal(BlockView),
    ConsensusBlock(BlockView, Seq<u8>),
    SyncBlock(BlockView, Option<Seq<u8>>),
}

impl BlockInQueueView {
    /// The block that waits.
    pub open spec fn block(self) -> BlockView {
        match self {
            BlockInQueueView::Proposal(block) => block,
            BlockInQueueView::ConsensusBlock(block, _) => block,
            BlockInQueueView::SyncBlock(block, _) => block,
        }
    }
}

impl View for BlockInQueue {
    type V = BlockInQueueView;

    open spec fn view(&self) -> BlockInQueueView {
        match self {
            BlockInQueue::Proposal(block) => BlockInQueueView::Proposal(block@),
            BlockInQueue::ConsensusBlock(block, proof) => BlockInQueueView::ConsensusBlock(
                block@,
                proof@,
            ),
            BlockInQueue::SyncBlock(block, Some(proof)) => BlockInQueueView::SyncBlock(
                block@,
                Some(proof@),
            ),
            BlockInQueue::SyncBlock(block, None) => BlockInQueueView::SyncBlock(block@, None),
        }
    }
}

} // verus!
