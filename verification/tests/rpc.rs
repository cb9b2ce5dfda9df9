use cita_chain::block::{Block, Proof, ProofType};
use cita_chain::chain::Chain;
use cita_chain::forward::Forward;
use cita_chain::message::{
    ErrorCode, Message, MsgType, Outgoing, Payload, Request, RequestBody, Response, ResponseData,
    RoutingKey, SubModules,
};
use cita_chain::task::{
    Answer, Ask, BlockId, BlockParamsByHash, BlockParamsByNumber, Effect,
};
use std::collections::BTreeMap;

fn chain() -> Chain {
    Chain {
        current_height: 7,
        current_hash: [70; 32],
        max_height: 7,
        max_store_height: 9,
        proof_type: Some(ProofType::Tendermint),
        block_map: BTreeMap::new(),
        block_gas_limit: 100,
        account_gas_limit: vec![1, 2],
    }
}

fn key() -> RoutingKey {
    RoutingKey { module: SubModules::Jsonrpc, msg_type: MsgType::Request }
}

fn message(body: RequestBody) -> Message {
    let request = Request { request_id: vec![42, 43], req: Some(body) };
    Message { origin: 0, payload: Payload::Request(request) }
}

fn start(forward: &mut Forward, body: RequestBody) -> Option<Ask> {
    let msg = message(body);
    assert!(forward.can_dispatch(key(), &msg));
    forward.dispatch_msg(key(), msg, &[5, 6, 7])
}

fn go_on(forward: &mut Forward, ask: Ask, answer: Answer) -> Option<Ask> {
    assert!(forward.can_resume(&ask, &answer));
    forward.resume(ask, answer)
}

fn response(code: Option<ErrorCode>, error_msg: &str, data: Option<ResponseData>) -> Effect {
    Effect::Publish(
        RoutingKey { module: SubModules::Chain, msg_type: MsgType::Response },
        Outgoing::Response(Response {
            request_id: vec![42, 43],
            code,
            error_msg: error_msg.to_string(),
            data,
        }),
    )
}

fn success(data: ResponseData) -> Vec<Effect> {
    vec![response(None, "", Some(data))]
}

fn block() -> Block {
    Block { height: 8, proof: Proof { content: vec![3] }, rest: vec![9, 9] }
}

/// One question, one answer.
fn exchange(body: RequestBody, question: Ask, answer: Answer) -> Vec<Effect> {
    let mut forward = Forward::new(chain());
    let ask = start(&mut forward, body).unwrap();
    assert_eq!(ask, question);
    assert!(forward.effects.is_empty());
    assert_eq!(go_on(&mut forward, ask, answer), None);
    forward.effects
}

#[test]
fn block_number_is_the_stored_height() {
    let mut forward = Forward::new(chain());
    assert_eq!(start(&mut forward, RequestBody::BlockNumber), None);
    assert_eq!(forward.effects, success(ResponseData::BlockNumber(9)));
}

#[test]
fn block_number_without_stored_block_is_the_reached_height() {
    let mut forward = Forward::new(Chain { max_store_height: u64::MAX, ..chain() });
    assert_eq!(start(&mut forward, RequestBody::BlockNumber), None);
    assert_eq!(forward.effects, success(ResponseData::BlockNumber(7)));
}

#[test]
fn block_by_hash_goes_through_lookup_and_rendering() {
    let mut forward = Forward::new(chain());
    let ask = start(&mut forward, RequestBody::BlockByHash("p".to_string())).unwrap();
    assert_eq!(ask, Ask::ParamsByHash { request_id: vec![42, 43], rpc: "p".to_string() });
    let params = BlockParamsByHash { hash: vec![4; 32], include_txs: true };
    let ask = go_on(&mut forward, ask, Answer::ParamsByHash(Ok(params))).unwrap();
    assert_eq!(
        ask,
        Ask::BlockByHash {
            request_id: vec![42, 43],
            hash: vec![4; 32],
            key: [4; 32],
            include_txs: true,
        }
    );
    let ask = go_on(&mut forward, ask, Answer::Block(Some(block()))).unwrap();
    assert_eq!(
        ask,
        Ask::RenderBlock {
            request_id: vec![42, 43],
            hash: vec![4; 32],
            include_txs: true,
            block: block(),
        }
    );
    assert!(forward.effects.is_empty());
    assert_eq!(go_on(&mut forward, ask, Answer::Rendered(Ok("{}".to_string()))), None);
    assert_eq!(forward.effects, success(ResponseData::Block("{}".to_string())));
}

#[test]
fn block_by_hash_that_is_not_there_is_absent() {
    let mut forward = Forward::new(chain());
    let ask = start(&mut forward, RequestBody::BlockByHash("p".to_string())).unwrap();
    let params = BlockParamsByHash { hash: vec![4; 32], include_txs: false };
    let ask = go_on(&mut forward, ask, Answer::ParamsByHash(Ok(params))).unwrap();
    assert_eq!(go_on(&mut forward, ask, Answer::Block(None)), None);
    assert_eq!(forward.effects, success(ResponseData::Absent));
}

#[test]
fn block_by_hash_with_unreadable_parameters_tells_why_in_the_block() {
    let effects = exchange(
        RequestBody::BlockByHash("p".to_string()),
        Ask::ParamsByHash { request_id: vec![42, 43], rpc: "p".to_string() },
        Answer::ParamsByHash(Err("Error(x)".to_string())),
    );
    let data = Some(ResponseData::Block("Error(x)".to_string()));
    assert_eq!(effects, vec![response(Some(ErrorCode::QueryError), "", data)]);
}

#[test]
fn block_that_cannot_be_rendered_is_a_query_error() {
    let mut forward = Forward::new(chain());
    let ask = Ask::RenderBlock {
        request_id: vec![42, 43],
        hash: vec![1],
        include_txs: false,
        block: block(),
    };
    let answer = Answer::Rendered(Err("Error(y)".to_string()));
    assert_eq!(go_on(&mut forward, ask, answer), None);
    assert_eq!(
        forward.effects,
        vec![response(Some(ErrorCode::QueryError), "Error(y)", None)]
    );
}

#[test]
fn block_by_height_is_rendered_under_its_own_hash() {
    let mut forward = Forward::new(chain());
    let ask = start(&mut forward, RequestBody::BlockByHeight("q".to_string())).unwrap();
    assert_eq!(ask, Ask::ParamsByNumber { request_id: vec![42, 43], rpc: "q".to_string() });
    let params = BlockParamsByNumber { block_id: BlockId::Number(8), include_txs: true };
    let ask = go_on(&mut forward, ask, Answer::ParamsByNumber(params)).unwrap();
    assert_eq!(
        ask,
        Ask::BlockById {
            request_id: vec![42, 43],
            block_id: BlockId::Number(8),
            include_txs: true,
        }
    );
    let mut hash = [7; 32];
    hash[0] = 1;
    let ask = go_on(&mut forward, ask, Answer::HashedBlock(Some((hash, block())))).unwrap();
    assert_eq!(
        ask,
        Ask::RenderBlock {
            request_id: vec![42, 43],
            hash: hash.to_vec(),
            include_txs: true,
            block: block(),
        }
    );
}

#[test]
fn block_by_height_that_is_not_there_is_absent() {
    let mut forward = Forward::new(chain());
    let ask = Ask::BlockById {
        request_id: vec![42, 43],
        block_id: BlockId::Latest,
        include_txs: false,
    };
    assert_eq!(go_on(&mut forward, ask, Answer::HashedBlock(None)), None);
    assert_eq!(forward.effects, success(ResponseData::Absent));
}

#[test]
fn transactions_are_looked_up_by_their_hash() {
    let mut hash = vec![0; 32];
    hash[31] = 1;
    let mut key = [0; 32];
    key[31] = 1;
    let question = Ask::Transaction { request_id: vec![42, 43], key };
    let found = exchange(
        RequestBody::Transaction(hash.clone()),
        question,
        Answer::Bytes(Some(vec![1])),
    );
    assert_eq!(found, success(ResponseData::Ts(vec![1])));
    let question = Ask::Transaction { request_id: vec![42, 43], key };
    let absent = exchange(RequestBody::Transaction(hash), question, Answer::Bytes(None));
    assert_eq!(absent, success(ResponseData::Absent));
}

#[test]
fn transaction_proofs_are_looked_up_by_hash() {
    let question = Ask::TransactionProof { request_id: vec![42, 43], key: [6; 32] };
    let found = exchange(
        RequestBody::TransactionProof(vec![6; 32]),
        question,
        Answer::Bytes(Some(vec![2])),
    );
    assert_eq!(found, success(ResponseData::TransactionProof(vec![2])));
    let question = Ask::TransactionProof { request_id: vec![42, 43], key: [6; 32] };
    let absent = exchange(
        RequestBody::TransactionProof(vec![6; 32]),
        question,
        Answer::Bytes(None),
    );
    assert_eq!(absent, success(ResponseData::Absent));
}

#[test]
fn receipts_are_looked_up_by_hash() {
    let question = Ask::TransactionReceipt { request_id: vec![42, 43], key: [8; 32] };
    let found = exchange(
        RequestBody::TransactionReceipt(vec![8; 32]),
        question,
        Answer::Receipt(Some("r".to_string())),
    );
    assert_eq!(found, success(ResponseData::Receipt("r".to_string())));
    let question = Ask::TransactionReceipt { request_id: vec![42, 43], key: [8; 32] };
    let absent = exchange(
        RequestBody::TransactionReceipt(vec![8; 32]),
        question,
        Answer::Receipt(None),
    );
    assert_eq!(absent, success(ResponseData::Absent));
}

#[test]
fn logs_are_asked_for_behind_a_filter_that_can_be_read() {
    let mut forward = Forward::new(chain());
    let ask = start(&mut forward, RequestBody::Filter("f".to_string())).unwrap();
    assert_eq!(ask, Ask::Filter { request_id: vec![42, 43], filter: "f".to_string() });
    let ask = go_on(&mut forward, ask, Answer::FilterRead(Ok(()))).unwrap();
    assert_eq!(ask, Ask::Logs { request_id: vec![42, 43], filter: "f".to_string() });
    assert!(forward.effects.is_empty());
    assert_eq!(go_on(&mut forward, ask, Answer::Json("[7]".to_string())), None);
    assert_eq!(forward.effects, success(ResponseData::Logs("[7]".to_string())));
}

#[test]
fn a_filter_that_cannot_be_read_is_an_error_and_no_logs_are_asked_for() {
    let failed = exchange(
        RequestBody::Filter("f".to_string()),
        Ask::Filter { request_id: vec![42, 43], filter: "f".to_string() },
        Answer::FilterRead(Err("Error(z)".to_string())),
    );
    assert_eq!(failed, vec![response(Some(ErrorCode::QueryError), "Error(z)", None)]);
}

#[test]
fn filters_are_made_and_removed() {
    let made = exchange(
        RequestBody::NewFilter("f".to_string()),
        Ask::NewFilter { request_id: vec![42, 43], filter: "f".to_string() },
        Answer::FilterId(3),
    );
    assert_eq!(made, success(ResponseData::FilterId(3)));
    let made = exchange(
        RequestBody::NewBlockFilter,
        Ask::NewBlockFilter { request_id: vec![42, 43] },
        Answer::FilterId(4),
    );
    assert_eq!(made, success(ResponseData::FilterId(4)));
    let removed = exchange(
        RequestBody::UninstallFilter(3),
        Ask::UninstallFilter { request_id: vec![42, 43], index: 3 },
        Answer::Removed(false),
    );
    assert_eq!(removed, success(ResponseData::UninstallFilter(false)));
}

#[test]
fn filters_are_read() {
    let changes = exchange(
        RequestBody::FilterChanges(5),
        Ask::FilterChanges { request_id: vec![42, 43], index: 5 },
        Answer::Json("c".to_string()),
    );
    assert_eq!(changes, success(ResponseData::FilterChanges("c".to_string())));
    let logs = exchange(
        RequestBody::FilterLogs(5),
        Ask::FilterLogs { request_id: vec![42, 43], index: 5 },
        Answer::FilterLogs(Some("l".to_string())),
    );
    assert_eq!(logs, success(ResponseData::FilterLogs("l".to_string())));
}

#[test]
fn a_filter_that_does_not_exist_has_no_logs() {
    let logs = exchange(
        RequestBody::FilterLogs(3),
        Ask::FilterLogs { request_id: vec![42, 43], index: 3 },
        Answer::FilterLogs(None),
    );
    assert_eq!(logs, success(ResponseData::FilterLogs("[]".to_string())));
}

#[test]
fn requests_for_the_executor_are_handed_on_byte_for_byte() {
    let bodies = vec![
        RequestBody::Call,
        RequestBody::TransactionCount,
        RequestBody::MetaData,
        RequestBody::Code,
        RequestBody::Abi,
        RequestBody::Balance,
    ];
    for body in bodies {
        let mut forward = Forward::new(chain());
        assert_eq!(start(&mut forward, body), None);
        let relay = Effect::Publish(
            RoutingKey { module: SubModules::Chain, msg_type: MsgType::Request },
            Outgoing::Raw(vec![5, 6, 7]),
        );
        assert_eq!(forward.effects, vec![relay]);
    }
}

#[test]
fn other_requests_get_a_blank_answer() {
    let mut forward = Forward::new(chain());
    assert_eq!(start(&mut forward, RequestBody::Other), None);
    assert_eq!(forward.effects, vec![response(None, "", None)]);
}

#[test]
fn requests_that_cannot_be_dealt_with_are_known_beforehand() {
    let forward = Forward::new(chain());
    let empty = Message {
        origin: 0,
        payload: Payload::Request(Request { request_id: vec![], req: None }),
    };
    assert!(!forward.can_dispatch(key(), &empty));
    let wrong = Message { origin: 0, payload: Payload::Other };
    assert!(!forward.can_dispatch(key(), &wrong));
    assert!(!forward.can_dispatch(key(), &message(RequestBody::Transaction(vec![1; 31]))));
    assert!(!forward.can_dispatch(key(), &message(RequestBody::TransactionProof(vec![]))));
    assert!(!forward.can_dispatch(key(), &message(RequestBody::TransactionReceipt(vec![1; 33]))));
    assert!(forward.can_dispatch(key(), &message(RequestBody::Transaction(vec![1; 32]))));
    let ask = Ask::ParamsByHash { request_id: vec![], rpc: String::new() };
    let short = BlockParamsByHash { hash: vec![0; 20], include_txs: false };
    assert!(!forward.can_resume(&ask, &Answer::ParamsByHash(Ok(short))));
    assert!(!forward.can_resume(&ask, &Answer::Removed(true)));
}
