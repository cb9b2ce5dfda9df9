//! The transaction hashes of blocks, for the auth service.

use crate::block::copy_bytes;
use crate::chain::ChainView;
use crate::forward::{Forward, Outcome};
use crate::message::{
    chain_key, BlockTxHashes, BlockTxHashesReq, BlockTxHashesView, MsgType, Outgoing, OutgoingView,
};
use crate::outside::repeated_from_slice;
use crate::task::{Ask, AskView, EffectView};
use vstd::prelude::*;
use vstd::slice::slice_to_vec;

verus! {

/// Hashes as byte strings, in order.
pub open spec fn hash_bytes(hashes: Seq<[u8; 32]>) -> Seq<Seq<u8>> {
    hashes.map_values(|hash: [u8; 32]| hash@)
}

/// The hashes of a block have been looked up. They are sent, with the gas limits of the moment,
/// if there is such a block.
pub open spec fn tx_hashes_outcome(
    chain: ChainView,
    height: u64,
    hashes: Option<Seq<[u8; 32]>>,
) -> Outcome {
    match hashes {
        Some(hashes) => Outcome::done(
            chain,
            seq![
                EffectView::Publish(
                    chain_key(MsgType::BlockTxHashes),
                    OutgoingView::BlockTxHashes(
                        BlockTxHashesView {
                            height,
                            tx_hashes: hash_bytes(hashes),
                            block_gas_limit: chain.block_gas_limit,
                            account_gas_limit: chain.account_gas_limit,
                        },
                    ),
                ),
            ],
        ),
        None => Outcome::idle(chain),
    }
}

impl Forward {
    /// Answers the auth service, which wants the transaction hashes of a block.
    pub fn deal_block_tx_req(&mut self, block_tx_hashes_req: &BlockTxHashesReq) -> (ask: Option<
        Ask,
    >)
        ensures
            final(self).reached(
                *old(self),
                ask,
                Outcome::asking(
                    old(self).chain@,
                    AskView::TransactionHashes { height: block_tx_hashes_req.height },
                ),
            ),
    {
        Some(Ask::TransactionHashes { height: block_tx_hashes_req.height })
    }

    /// Goes on with the answer to the auth service once the hashes have been looked up.
    pub(crate) fn tx_hashes_found(
        &mut self,
        height: u64,
        tx_hashes: Option<Vec<[u8; 32]>>,
    ) -> (ask: Option<Ask>)
        ensures
            final(self).reached(
                *old(self),
                ask,
                tx_hashes_outcome(
                    old(self).chain@,
                    height,
                    match tx_hashes {
                        Some(hashes) => Some(hashes@),
                        None => None,
                    },
                ),
            ),
    {
        match tx_hashes {
            Some(hashes) => {
                let mut tx_hashes_in_u8: Vec<Vec<u8>> = Vec::new();
                for i in 0..hashes.len()
                    invariant
                        tx_hashes_in_u8@.len() == i,
                        forall|j: int|
                            0 <= j < i ==> #[trigger] tx_hashes_in_u8@[j]@ == hashes@[j]@,
                {
                    tx_hashes_in_u8.push(slice_to_vec(hashes[i].as_slice()));
                }
                assert(tx_hashes_in_u8@.map_values(|value: Vec<u8>| value@) =~= hash_bytes(
                    hashes@,
                ));
                let block_tx_hashes = BlockTxHashes {
                    height,
                    tx_hashes: repeated_from_slice(tx_hashes_in_u8.as_slice()),
                    block_gas_limit: self.chain.block_gas_limit,
                    account_gas_limit: copy_bytes(&self.chain.account_gas_limit),
                };
                self.publish(MsgType::BlockTxHashes, Outgoing::BlockTxHashes(block_tx_hashes));
            },
            None => {},
        }
        None
    }
}

} // verus!
