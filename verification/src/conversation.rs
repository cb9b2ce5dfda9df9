//! Whole conversations: a message, and all that is asked and answered until it has been dealt
//! with.

use crate::block::BlockView;
use crate::chain::ChainView;
use crate::dispatch::{can_resume, dispatch_outcome, resume_outcome};
use crate::forward::Outcome;
use crate::message::{Message, RoutingKey};
use crate::sync::{next_sync_ask, proof_height, sync_block_added};
use crate::task::{Answer, AskView};
use vstd::prelude::*;

verus! {

/// How many questions can still follow on one.
pub open spec fn questions_left(ask: AskView) -> nat {
    match ask {
        AskView::ParamsByHash { .. } => 2,
        AskView::BlockByHash { .. } => 1,
        AskView::ParamsByNumber { .. } => 2,
        AskView::BlockById { .. } => 1,
        AskView::Filter { .. } => 1,
        AskView::SyncBlock { heights, next, .. } => (2 * (heights.len() - next)) as nat,
        AskView::CurrentBlockProof { heights, next, .. } => (2 * (heights.len() - next)
            - 1) as nat,
        AskView::CheckHash { rest, .. } => 3 * rest.len() + 2,
        AskView::ProofType { rest, .. } => 3 * rest.len() + 1,
        AskView::TendermintHeight { rest, .. } => 3 * rest.len(),
        AskView::OpenSnapshot { .. } => 1,
        _ => 0,
    }
}

/// The same for a question that may not be there.
pub open spec fn conversation_left(ask: Option<AskView>) -> nat {
    match ask {
        Some(ask) => questions_left(ask) + 1,
        None => 0,
    }
}

proof fn lemma_next_sync_ask_is_about_less(max_height: u64, blocks: Seq<BlockView>)
    ensures
        conversation_left(next_sync_ask(max_height, blocks)) <= 3 * blocks.len(),
    decreases blocks.len(),
{
    if blocks.len() > 0 {
        lemma_next_sync_ask_is_about_less(max_height, blocks.drop_first());
    }
}

/// Every answer leaves fewer questions to come: each message is dealt with in the end.
pub proof fn law_questions_run_out(chain: ChainView, ask: AskView, answer: Answer)
    requires
        can_resume(chain, ask, answer),
    ensures
        conversation_left(resume_outcome(chain, ask, answer).ask) < conversation_left(Some(ask)),
{
    match (ask, answer) {
        (AskView::ProofType { rest, .. }, _) => {
            lemma_next_sync_ask_is_about_less(chain.max_height, rest);
        },
        (AskView::TendermintHeight { block, rest }, Answer::TendermintHeight(height)) => {
            lemma_next_sync_ask_is_about_less(
                sync_block_added(chain, block, proof_height(height)).max_height,
                rest,
            );
        },
        _ => {},
    }
}

/// What a conversation comes to that begins with a question (or is over, if there is none) while
/// nobody else changes the chain. `world` gives the answers. The conversation breaks off, with
/// the question still open, where an answer cannot be gone on with.
pub open spec fn conversation(
    world: spec_fn(AskView) -> Answer,
    chain: ChainView,
    ask: Option<AskView>,
) -> Outcome
    decreases conversation_left(ask),
{
    match ask {
        Some(question) if can_resume(chain, question, world(question)) => {
            proof {
                law_questions_run_out(chain, question, world(question));
            }
            let first = resume_outcome(chain, question, world(question));
            let others = conversation(world, first.chain, first.ask);
            Outcome { effects: first.effects + others.effects, ..others }
        },
        _ => Outcome { chain, effects: seq![], ask },
    }
}

/// What a message comes to in the end.
pub open spec fn dealt_with(
    world: spec_fn(AskView) -> Answer,
    chain: ChainView,
    key: RoutingKey,
    msg: Message,
    msg_bytes: Seq<u8>,
) -> Outcome {
    let first = dispatch_outcome(chain, key, msg, msg_bytes);
    let others = conversation(world, first.chain, first.ask);
    Outcome { effects: first.effects + others.effects, ..others }
}

} // verus!
