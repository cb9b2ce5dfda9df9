//! The part of the chain's state that forwarding reads and writes.

use crate::block::{BlockInQueue, BlockInQueueView, Proof, ProofType};
use std::collections::BTreeMap;
use vstd::prelude::*;

verus! {

/// The state of the chain at one moment.
pub struct Chain {
    /// Height of the block that the chain has executed last.
    pub current_height: u64,
    /// Hash of that block.
    pub current_hash: [u8; 32],
    /// Height below which blocks are not taken from other nodes.
    pub max_height: u64,
    /// Height of the newest block whose body is stored; `u64::MAX` while there is none.
    pub max_store_height: u64,
    /// The consensus that this chain runs, if it is known.
    pub proof_type: Option<ProofType>,
    /// The blocks that wait to be executed, each under its height.
    pub block_map: BTreeMap<u64, BlockInQueue>,
    /// Gas limit of a block.
    pub block_gas_limit: u64,
    /// Gas limits of accounts, in wire form.
    pub account_gas_limit: Vec<u8>,
}

/// What a [`Chain`] holds.
pub struct ChainView {
    pub current_height: u64,
    pub current_hash: Seq<u8>,
    pub max_height: u64,
    pub max_store_height: u64,
    pub proof_type: Option<ProofType>,
    pub block_map: Map<u64, BlockInQueueView>,
    pub block_gas_limit: u64,
    pub account_gas_limit: Seq<u8>,
}

impl View for Chain {
    type V = ChainView;

    open spec fn view(&self) -> ChainView {
        ChainView {
            current_height: self.current_height,
            current_hash: self.current_hash@,
            max_height: self.max_height,
            max_store_height: self.max_store_height,
            proof_type: self.proof_type,
            block_map: self.block_map@.map_values(|entry: BlockInQueue| entry@),
            block_gas_limit: self.block_gas_limit,
            account_gas_limit: self.account_gas_limit@,
        }
    }
}

impl ChainView {
    /// The chain with one block more in its queue; one that stood under the same key is gone.
    pub open spec fn queued(self, key: u64, entry: BlockInQueueView) -> ChainView {
        ChainView { block_map: self.block_map.insert(key, entry), ..self }
    }

    /// The chain after a proof has come for the block under a key. It is kept if that block
    /// came from another node and has no proof yet, and is dropped otherwise.
    pub open spec fn proved(self, key: u64, proof: Seq<u8>) -> ChainView {
        if self.block_map.contains_key(key) {
            match self.block_map[key] {
                BlockInQueueView::SyncBlock(block, None) => self.queued(
                    key,
                    BlockInQueueView::SyncBlock(block, Some(proof)),
                ),
                _ => self,
            }
        } else {
            self
        }
    }

    /// The chain with another height of the newest block whose body is stored.
    pub open spec fn stored(self, height: u64) -> ChainView {
        ChainView { max_store_height: height, ..self }
    }

    /// Every block that waits stands in the queue under its own height.
    pub open spec fn filed_by_height(self) -> bool {
        forall|key: u64| #[trigger]
            self.block_map.contains_key(key) ==> self.block_map[key].block().height == key
    }
}

impl Chain {
    /// Puts a block in the queue, in the place of one that stands under the same key.
    pub(crate) fn queue_block(&mut self, key: u64, entry: BlockInQueue)
        ensures
            final(self)@ == old(self)@.queued(key, entry@),
    {
        broadcast use vstd::laws_cmp::group_laws_cmp;

        let ghost before = self.block_map@;
        self.block_map.insert(key, entry);
        assert(self@.block_map =~= before.map_values(|e: BlockInQueue| e@).insert(key, entry@));
    }

    /// Gives the block under a key its proof, if it came from another node and has none.
    pub(crate) fn set_proof(&mut self, key: u64, proof: &Proof)
        ensures
            final(self)@ == old(self)@.proved(key, proof@),
    {
        broadcast use vstd::laws_cmp::group_laws_cmp;

        let ghost before = self@;
        match self.block_map.remove(&key) {
            Some(BlockInQueue::SyncBlock(block, None)) => {
                self.queue_block(key, BlockInQueue::SyncBlock(block, Some(proof.clone())));
            },
            Some(entry) => {
                self.queue_block(key, entry);
            },
            None => {},
        }
        assert(self@.block_map =~= before.proved(key, proof@).block_map);
    }
}

} // verus!
