use cita_chain::block::{Block, BlockInQueue, Proof, ProofType};
use cita_chain::chain::Chain;
use cita_chain::forward::Forward;
use cita_chain::message::{
    BlockWithProof, Message, MsgType, OperateType, Outgoing, Payload, RoutingKey, SubModules,
    SyncRequest, SyncResponse,
};
use cita_chain::task::{Answer, Ask, Effect};
use protobuf::RepeatedField;
use std::collections::BTreeMap;

fn chain_at(height: u64) -> Chain {
    Chain {
        current_height: height,
        current_hash: [height as u8; 32],
        max_height: height,
        max_store_height: height,
        proof_type: Some(ProofType::Tendermint),
        block_map: BTreeMap::new(),
        block_gas_limit: 0,
        account_gas_limit: vec![],
    }
}

fn net(msg_type: MsgType) -> RoutingKey {
    RoutingKey { module: SubModules::Net, msg_type }
}

fn proof_of(height: u64) -> Proof {
    Proof { content: height.to_be_bytes().to_vec() }
}

/// The block at a height: its header has the proof of the block before it.
fn block(height: u64) -> Block {
    Block { height, proof: proof_of(height - 1), rest: vec![height as u8] }
}

fn marker(height: u64) -> Block {
    Block { height: u64::MAX, proof: proof_of(height), rest: vec![] }
}

fn height_in(proof: &Proof) -> usize {
    let mut bytes = [0; 8];
    bytes.copy_from_slice(&proof.content);
    u64::from_be_bytes(bytes) as usize
}

/// Answers as a node would that has the blocks up to `top`.
fn answer(ask: &Ask, top: u64, bad: u64) -> Answer {
    match ask {
        Ask::SyncBlock { heights, next, .. } => {
            let height = heights[*next];
            Answer::Block(if height <= top { Some(block(height)) } else { None })
        }
        Ask::CurrentBlockProof { .. } => Answer::Proof(Some(proof_of(top))),
        Ask::CheckHash { block, .. } => Answer::HashChecked(block.height != bad),
        Ask::ProofType { .. } => Answer::ProofType(Some(ProofType::Tendermint)),
        Ask::TendermintHeight { block, .. } => Answer::TendermintHeight(height_in(&block.proof)),
        _ => panic!("not asked here"),
    }
}

fn run(forward: &mut Forward, key: RoutingKey, payload: Payload, top: u64, bad: u64) {
    let msg = Message { origin: 11, payload };
    assert!(forward.can_dispatch(key, &msg));
    let mut ask = forward.dispatch_msg(key, msg, &[]);
    while let Some(question) = ask {
        let answer = answer(&question, top, bad);
        assert!(forward.can_resume(&question, &answer));
        ask = forward.resume(question, answer);
    }
}

fn served(current: u64, heights: Vec<u64>, top: u64) -> Vec<Effect> {
    let mut forward = Forward::new(chain_at(current));
    let payload = Payload::SyncRequest(SyncRequest { heights });
    run(&mut forward, net(MsgType::SyncRequest), payload, top, 0);
    forward.effects
}

fn received(chain: Chain, blocks: Vec<Block>, bad: u64) -> Forward {
    let mut forward = Forward::new(chain);
    let payload =
        Payload::SyncResponse(SyncResponse { blocks: RepeatedField::from_vec(blocks) });
    run(&mut forward, net(MsgType::SyncResponse), payload, 0, bad);
    forward
}

fn sent(blocks: Vec<Block>) -> Vec<Effect> {
    vec![Effect::Publish(
        RoutingKey { module: SubModules::Chain, msg_type: MsgType::SyncResponse },
        Outgoing::SyncResponse {
            operate: OperateType::Single,
            origin: 11,
            sync_res: SyncResponse { blocks: RepeatedField::from_vec(blocks) },
        },
    )]
}

fn stored(height: u64) -> Vec<Effect> {
    vec![
        Effect::SetBlockBody(height, block(height)),
        Effect::StoreMaxStoreHeight(height),
    ]
}

#[test]
fn blocks_are_served_in_the_order_of_the_heights() {
    assert_eq!(served(9, vec![5, 3, 20, 4], 9), sent(vec![block(5), block(3), block(4)]));
}

#[test]
fn the_current_block_is_followed_by_its_proof() {
    assert_eq!(served(5, vec![4, 5, 3], 5), sent(vec![block(4), block(5), marker(5), block(3)]));
}

#[test]
fn a_node_is_sent_nothing_if_there_is_nothing() {
    assert_eq!(served(5, vec![7, 8], 5), vec![]);
    assert_eq!(served(5, vec![], 5), vec![]);
}

#[test]
fn a_missing_proof_is_left_out() {
    let mut forward = Forward::new(chain_at(5));
    let ask = Ask::CurrentBlockProof {
        origin: 11,
        heights: vec![5],
        next: 0,
        found: RepeatedField::from_vec(vec![block(5)]),
    };
    assert_eq!(forward.resume(ask, Answer::Proof(None)), None);
    assert_eq!(forward.effects, sent(vec![block(5)]));
}

#[test]
fn a_node_catches_up_with_what_it_is_sent() {
    let blocks = match served(6, vec![4, 5, 6], 6).remove(0) {
        Effect::Publish(_, Outgoing::SyncResponse { sync_res, .. }) => sync_res.blocks.into_vec(),
        _ => panic!("no blocks"),
    };
    let forward = received(chain_at(3), blocks, 0);
    assert_eq!(forward.chain.max_store_height, 6);
    assert_eq!(forward.chain.block_map.len(), 3);
    for height in 4..7 {
        assert_eq!(
            forward.chain.block_map[&height],
            BlockInQueue::SyncBlock(block(height), Some(proof_of(height)))
        );
    }
    let mut effects = stored(4);
    effects.append(&mut stored(5));
    effects.append(&mut stored(6));
    assert_eq!(forward.effects, effects);
}

#[test]
fn the_last_block_waits_for_its_proof() {
    let forward = received(chain_at(3), vec![block(4), block(5)], 0);
    assert_eq!(
        forward.chain.block_map[&4],
        BlockInQueue::SyncBlock(block(4), Some(proof_of(4)))
    );
    assert_eq!(forward.chain.block_map[&5], BlockInQueue::SyncBlock(block(5), None));
}

#[test]
fn blocks_below_the_reached_height_are_passed_over() {
    let forward = received(chain_at(3), vec![block(1), block(2), block(4)], 0);
    assert_eq!(forward.chain.block_map.len(), 1);
    assert_eq!(forward.chain.max_store_height, 4);
}

#[test]
fn a_block_with_a_wrong_root_ends_it() {
    let forward = received(chain_at(3), vec![block(4), block(5), block(6)], 5);
    assert_eq!(forward.chain.max_store_height, 4);
    assert_eq!(forward.chain.block_map.len(), 1);
    assert_eq!(forward.effects, stored(4));
}

#[test]
fn the_blocks_that_are_taken_are_added_in_order() {
    let blocks = vec![block(2), block(4), block(9), block(5), marker(5), block(6), block(7)];
    let forward = received(chain_at(3), blocks, 6);
    let mut both = stored(4);
    both.extend(stored(5));
    assert_eq!(forward.effects, both);
    assert_eq!(forward.chain.max_store_height, 5);
    assert_eq!(forward.chain.block_map.len(), 2);
    assert_eq!(
        forward.chain.block_map[&4],
        BlockInQueue::SyncBlock(block(4), Some(proof_of(4)))
    );
    assert_eq!(
        forward.chain.block_map[&5],
        BlockInQueue::SyncBlock(block(5), Some(proof_of(5)))
    );
}

#[test]
fn a_block_that_comes_again_waits_for_its_proof_again() {
    let forward = received(chain_at(3), vec![block(4), marker(4), block(4)], 0);
    let mut both = stored(4);
    both.extend(stored(4));
    assert_eq!(forward.effects, both);
    assert_eq!(forward.chain.block_map[&4], BlockInQueue::SyncBlock(block(4), None));
}

#[test]
fn a_block_behind_a_gap_is_dropped() {
    let forward = received(chain_at(3), vec![block(6)], 0);
    assert_eq!(forward.chain.block_map.len(), 0);
    assert_eq!(forward.chain.max_store_height, 3);
    assert_eq!(forward.effects, vec![]);
}

#[test]
fn a_proof_is_not_replaced() {
    let mut chain = chain_at(3);
    let entry = BlockInQueue::SyncBlock(block(5), Some(Proof { content: vec![1] }));
    chain.block_map.insert(5, entry);
    let forward = received(chain, vec![marker(5)], 0);
    assert_eq!(
        forward.chain.block_map[&5],
        BlockInQueue::SyncBlock(block(5), Some(Proof { content: vec![1] }))
    );
}

#[test]
fn only_blocks_of_other_nodes_get_a_proof_that_comes_later() {
    let mut chain = chain_at(3);
    chain.block_map.insert(5, BlockInQueue::Proposal(block(5)));
    let forward = received(chain, vec![marker(5)], 0);
    assert_eq!(forward.chain.block_map[&5], BlockInQueue::Proposal(block(5)));
}

#[test]
fn a_lone_proof_for_what_is_executed_is_dropped() {
    let mut chain = chain_at(5);
    chain.block_map.insert(5, BlockInQueue::SyncBlock(block(5), None));
    let forward = received(chain, vec![marker(5)], 0);
    assert_eq!(forward.chain.block_map[&5], BlockInQueue::SyncBlock(block(5), None));
}

#[test]
fn the_first_block_has_a_proof_without_height() {
    let mut forward = Forward::new(chain_at(0));
    forward.add_sync_block(block(1), usize::MAX);
    assert_eq!(forward.chain.max_store_height, 1);
    assert_eq!(forward.chain.block_map[&1], BlockInQueue::SyncBlock(block(1), None));
}

#[test]
fn a_block_of_another_consensus_is_dropped() {
    let mut forward = Forward::new(chain_at(3));
    let ask = Ask::ProofType { block: block(4), rest: vec![block(5)] };
    let next = forward.resume(ask, Answer::ProofType(Some(ProofType::Raft)));
    assert_eq!(next, Some(Ask::CheckHash { block: block(5), rest: vec![] }));
    assert_eq!(forward.effects, vec![]);
}

#[test]
fn other_consensus_than_tendermint_cannot_be_gone_on_with() {
    let forward = Forward::new(Chain { proof_type: Some(ProofType::Raft), ..chain_at(3) });
    let ask = Ask::ProofType { block: block(4), rest: vec![] };
    assert!(!forward.can_resume(&ask, &Answer::ProofType(Some(ProofType::Raft))));
    assert!(forward.can_resume(&ask, &Answer::ProofType(Some(ProofType::Tendermint))));
    let read = Ask::TendermintHeight { block: block(4), rest: vec![] };
    assert!(!forward.can_resume(&read, &Answer::TendermintHeight(3)));
    let forward = Forward::new(Chain { proof_type: None, ..chain_at(3) });
    assert!(!forward.can_resume(&ask, &Answer::ProofType(None)));
}

fn decide(forward: &mut Forward, blk: Block) {
    let key = RoutingKey { module: SubModules::Consensus, msg_type: MsgType::BlockWithProof };
    let proof = Proof { content: vec![77] };
    let payload = Payload::BlockWithProof(BlockWithProof { blk, proof });
    run(forward, key, payload, 0, 0);
}

#[test]
fn the_next_decided_block_is_queued_and_stored() {
    let mut forward = Forward::new(chain_at(3));
    decide(&mut forward, block(4));
    assert_eq!(forward.chain.max_store_height, 4);
    assert_eq!(
        forward.chain.block_map[&4],
        BlockInQueue::ConsensusBlock(block(4), Proof { content: vec![77] })
    );
    assert_eq!(
        forward.effects,
        vec![
            Effect::SaveCurrentBlockProof(Proof { content: vec![77] }),
            Effect::SetBlockBody(4, block(4)),
            Effect::StoreMaxStoreHeight(4),
            Effect::DeliverBlockTxHashes(4, block(4)),
        ]
    );
}

#[test]
fn any_other_decided_block_is_dropped() {
    for height in [3, 5] {
        let mut forward = Forward::new(chain_at(3));
        decide(&mut forward, block(height));
        assert_eq!(forward.chain.max_store_height, 3);
        assert_eq!(forward.chain.block_map.len(), 0);
        assert_eq!(forward.effects, vec![]);
    }
}

#[test]
fn no_block_follows_on_the_last_height() {
    let forward = Forward::new(chain_at(u64::MAX));
    let key = RoutingKey { module: SubModules::Consensus, msg_type: MsgType::BlockWithProof };
    let msg = Message {
        origin: 0,
        payload: Payload::BlockWithProof(BlockWithProof { blk: block(1), proof: proof_of(1) }),
    };
    assert!(!forward.can_dispatch(key, &msg));
}

#[test]
fn the_queue_stays_filed_by_height() {
    let mut forward = received(chain_at(3), vec![block(4), block(5), marker(5)], 0);
    decide(&mut forward, block(6));
    let heights: Vec<u64> = forward
        .chain
        .block_map
        .iter()
        .map(|(key, entry)| {
            let height = match entry {
                BlockInQueue::Proposal(block) => block.height,
                BlockInQueue::ConsensusBlock(block, _) => block.height,
                BlockInQueue::SyncBlock(block, _) => block.height,
            };
            assert_eq!(*key, height);
            height
        })
        .collect();
    assert_eq!(heights, vec![4, 5, 6]);
    assert_eq!(forward.chain.max_store_height, 6);
}
