//! The state of forwarding, and what a step of it does.

use crate::chain::{Chain, ChainView};
use crate::message::{MsgType, Outgoing, RoutingKey, SubModules};
use crate::task::{ask_view, effect_views, Ask, AskView, Effect, EffectView};
use vstd::prelude::*;

verus! {

/// Message forwarding and query data.
///
/// Whoever runs it keeps `chain` up to date, does the `effects` in order and takes them out,
/// and answers what is asked.
pub struct Forward {
    pub chain: Chain,
    pub effects: Vec<Effect>,
}

/// What a step of forwarding comes to: how the chain stands, what is to be done, and what is
/// asked before it can go on. Nothing is asked once a message has been dealt with.
pub struct Outcome {
    pub chain: ChainView,
    pub effects: Seq<EffectView>,
    pub ask: Option<AskView>,
}

impl Outcome {
    /// Nothing is to be done or asked.
    pub open spec fn idle(chain: ChainView) -> Outcome {
        Outcome { chain, effects: seq![], ask: None }
    }

    /// Something is asked.
    pub open spec fn asking(chain: ChainView, ask: AskView) -> Outcome {
        Outcome { chain, effects: seq![], ask: Some(ask) }
    }

    /// Something is to be done, and nothing is asked.
    pub open spec fn done(chain: ChainView, effects: Seq<EffectView>) -> Outcome {
        Outcome { chain, effects, ask: None }
    }
}

impl Forward {
    /// `self` is what `before` becomes by a step that comes to `outcome` and asks `ask`.
    pub open spec fn reached(self, before: Forward, ask: Option<Ask>, outcome: Outcome) -> bool {
        &&& self.chain@ == outcome.chain
        &&& effect_views(self.effects@) =~= effect_views(before.effects@) + outcome.effects
        &&& ask_view(ask) == outcome.ask
    }

    pub fn new(chain: Chain) -> (forward: Forward)
        ensures
            forward.chain == chain,
            forward.effects@ == Seq::<Effect>::empty(),
    {
        Forward { chain, effects: Vec::new() }
    }

    /// Lists something to do.
    pub(crate) fn emit(&mut self, effect: Effect)
        ensures
            final(self).chain == old(self).chain,
            effect_views(final(self).effects@) == effect_views(old(self).effects@).push(effect@),
    {
        let ghost before = self.effects@;
        self.effects.push(effect);
        assert(effect_views(self.effects@) =~= effect_views(before).push(effect@));
    }

    /// Lists a message of the chain service to put on the bus.
    pub(crate) fn publish(&mut self, msg_type: MsgType, message: Outgoing)
        ensures
            final(self).chain == old(self).chain,
            effect_views(final(self).effects@) == effect_views(old(self).effects@).push(
                EffectView::Publish(
                    RoutingKey { module: SubModules::Chain, msg_type },
                    message@,
                ),
            ),
    {
        self.emit(Effect::Publish(RoutingKey { module: SubModules::Chain, msg_type }, message));
    }
}

} // verus!
