use cita_chain::chain::Chain;
use cita_chain::forward::Forward;
use cita_chain::message::{
    BlockTxHashes, BlockTxHashesReq, Cmd, Message, MsgType, Outgoing, Payload, Resp, RoutingKey,
    SnapshotReq, SubModules,
};
use cita_chain::snapshot::check_snapshot;
use cita_chain::task::{Answer, Ask, Effect, PackedWriter};
use protobuf::RepeatedField;
use std::collections::BTreeMap;

fn forward() -> Forward {
    Forward::new(Chain {
        current_height: 7,
        current_hash: [70; 32],
        max_height: 7,
        max_store_height: 9,
        proof_type: None,
        block_map: BTreeMap::new(),
        block_gas_limit: 100,
        account_gas_limit: vec![1, 2],
    })
}

fn key(module: SubModules, msg_type: MsgType) -> RoutingKey {
    RoutingKey { module, msg_type }
}

fn message(payload: Payload) -> Message {
    Message { origin: 3, payload }
}

fn order(forward: &mut Forward, cmd: Cmd) -> Option<Ask> {
    let key = key(SubModules::Snapshot, MsgType::SnapshotReq);
    let msg = message(Payload::SnapshotReq(SnapshotReq {
        cmd,
        start_height: 3,
        file: "elsewhere".to_string(),
    }));
    assert!(forward.can_dispatch(key, &msg));
    forward.dispatch_msg(key, msg, &[])
}

fn ack(resp: Resp) -> Effect {
    Effect::Publish(key(SubModules::Chain, MsgType::SnapshotResp), Outgoing::SnapshotResp(resp))
}

#[test]
fn results_of_the_executor_go_to_the_block_processor() {
    let mut forward = forward();
    let key = key(SubModules::Executor, MsgType::ExecutedResult);
    let msg = message(Payload::ExecutedResult(vec![8]));
    assert!(forward.can_dispatch(key, &msg));
    assert_eq!(forward.dispatch_msg(key, msg, &[1]), None);
    assert_eq!(forward.effects, vec![Effect::Execute(vec![8])]);
}

#[test]
fn unknown_keys_are_dropped() {
    let keys = vec![
        key(SubModules::Other, MsgType::Request),
        key(SubModules::Jsonrpc, MsgType::Other),
        key(SubModules::Net, MsgType::Request),
        key(SubModules::Chain, MsgType::SyncRequest),
    ];
    for key in keys {
        let mut forward = forward();
        let msg = message(Payload::ExecutedResult(vec![8]));
        assert!(forward.can_dispatch(key, &msg));
        assert_eq!(forward.dispatch_msg(key, msg, &[1]), None);
        assert_eq!(forward.effects, vec![]);
    }
}

#[test]
fn a_message_must_carry_what_its_key_announces() {
    let keys = vec![
        key(SubModules::Jsonrpc, MsgType::Request),
        key(SubModules::Executor, MsgType::ExecutedResult),
        key(SubModules::Consensus, MsgType::BlockWithProof),
        key(SubModules::Net, MsgType::SyncRequest),
        key(SubModules::Net, MsgType::SyncResponse),
        key(SubModules::Auth, MsgType::BlockTxHashesReq),
        key(SubModules::Snapshot, MsgType::SnapshotReq),
    ];
    for key in keys {
        assert!(!forward().can_dispatch(key, &message(Payload::Other)));
    }
}

#[test]
fn hashes_are_sent_to_the_auth_service() {
    let mut forward = forward();
    let req_key = key(SubModules::Auth, MsgType::BlockTxHashesReq);
    let msg = message(Payload::BlockTxHashesReq(BlockTxHashesReq { height: 6 }));
    assert!(forward.can_dispatch(req_key, &msg));
    let ask = forward.dispatch_msg(req_key, msg, &[]).unwrap();
    assert_eq!(ask, Ask::TransactionHashes { height: 6 });
    let answer = Answer::TxHashes(Some(vec![[1; 32], [2; 32]]));
    assert!(forward.can_resume(&ask, &answer));
    assert_eq!(forward.resume(ask, answer), None);
    let hashes = BlockTxHashes {
        height: 6,
        tx_hashes: RepeatedField::from_vec(vec![vec![1; 32], vec![2; 32]]),
        block_gas_limit: 100,
        account_gas_limit: vec![1, 2],
    };
    assert_eq!(
        forward.effects,
        vec![Effect::Publish(
            key(SubModules::Chain, MsgType::BlockTxHashes),
            Outgoing::BlockTxHashes(hashes),
        )]
    );
}

#[test]
fn hashes_of_a_block_that_is_not_there_are_not_sent() {
    let mut forward = forward();
    let ask = Ask::TransactionHashes { height: 6 };
    assert_eq!(forward.resume(ask, Answer::TxHashes(None)), None);
    assert_eq!(forward.effects, vec![]);
}

#[test]
fn a_snapshot_is_taken_and_acknowledged() {
    let mut forward = forward();
    assert_eq!(order(&mut forward, Cmd::Snapshot), None);
    assert_eq!(
        forward.effects,
        vec![
            Effect::TakeSnapshot {
                start_hash: [70; 32],
                writer: PackedWriter {
                    file: "snap_chain.rlp".to_string(),
                    block_hashes: vec![],
                    cur_len: 0,
                },
            },
            ack(Resp::SnapshotAck),
        ]
    );
}

#[test]
fn the_height_and_the_file_of_an_order_are_ignored() {
    let mut one = forward();
    one.take_snapshot(SnapshotReq {
        cmd: Cmd::Snapshot,
        start_height: 1,
        file: "a".to_string(),
    });
    let mut other = forward();
    other.take_snapshot(SnapshotReq {
        cmd: Cmd::Snapshot,
        start_height: 2,
        file: "b".to_string(),
    });
    assert_eq!(one.effects, other.effects);
    assert_eq!(one.effects.len(), 1);
}

#[test]
fn a_snapshot_is_restored_and_acknowledged() {
    let mut forward = forward();
    let ask = order(&mut forward, Cmd::Restore).unwrap();
    assert_eq!(ask, Ask::OpenSnapshot { file: "snap_chain.rlp".to_string() });
    let ask = forward.resume(ask, Answer::SnapshotOpened(Ok(true))).unwrap();
    assert_eq!(ask, Ask::RootNodePath);
    assert_eq!(forward.resume(ask, Answer::RootNodePath("/data/node".to_string())), None);
    assert_eq!(
        forward.effects,
        vec![
            Effect::RestoreSnapshot {
                snapshot_root: "/data/node/snapshot_chain".to_string(),
                recover: true,
            },
            Effect::BroadcastCurrentStatus,
            ack(Resp::RestoreAck),
        ]
    );
}

#[test]
fn a_restore_without_snapshot_is_acknowledged_too() {
    for opened in [Ok(false), Err("gone".to_string())] {
        let mut forward = forward();
        let ask = order(&mut forward, Cmd::Restore).unwrap();
        assert_eq!(forward.resume(ask, Answer::SnapshotOpened(opened)), None);
        assert_eq!(
            forward.effects,
            vec![Effect::BroadcastCurrentStatus, ack(Resp::RestoreAck)]
        );
    }
}

#[test]
fn other_orders_of_the_snapshot_tool_are_dropped() {
    let mut forward = forward();
    assert_eq!(order(&mut forward, Cmd::Other), None);
    assert_eq!(forward.effects, vec![]);
}

#[test]
fn what_is_wrong_with_a_snapshot_is_told() {
    assert_eq!(check_snapshot(Ok(true)), Ok(()));
    assert_eq!(
        check_snapshot(Ok(false)),
        Err("Snapshot file has invalid format.".to_string())
    );
    assert_eq!(
        check_snapshot(Err("gone".to_string())),
        Err("Couldn't open snapshot file: gone".to_string())
    );
}
