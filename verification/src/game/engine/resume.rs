//! Going on after a prompt was answered.
use vstd::prelude::*;

use crate::game::effects::chain;
use crate::game::effects::chain::ChainOutcome;
use crate::game::outcome;
use crate::game::outcome::Outcome;
use crate::types::ability::EffectError;
use crate::types::events::GameEvent;
use crate::types::game_state::{GameModel, GameState};
use crate::types::prompts::{PromptModel, WaitingFor};

verus! {

/// The prompt is gone and the instructions that waited for its answer are taken out.
pub open spec fn answered(s: GameModel) -> GameModel {
    GameModel {
        waiting_for: PromptModel::Priority { player: s.priority_player },
        pending_continuation: None,
        ..s
    }
}

/// The instructions that waited for the answer follow; without any, priority goes on.
pub open spec fn resumed(o: Outcome) -> ChainOutcome {
    let ready = outcome::at(answered(o.state), o.events);
    match o.state.pending_continuation {
        None => ChainOutcome { after: ready, failure: None },
        Some(rest) => chain::chained(ready, rest, Seq::empty()),
    }
}

pub fn resume(state: &mut GameState, events: &mut Vec<GameEvent>) -> (r: Result<(), EffectError>)
    ensures
        ({
            let c = resumed(outcome::at(old(state)@, old(events)@));
            &&& outcome::at(final(state)@, final(events)@) == c.after
            &&& match c.failure {
                None => r is Ok,
                Some(message) => r matches Err(e) && e.message() == message,
            }
        }),
{
    state.waiting_for = WaitingFor::Priority { player: state.priority_player };
    match state.pending_continuation.take() {
        None => Ok(()),
        Some(cont) => chain::run_chain(state, *cont.chain, Vec::new(), events),
    }
}

} // verus!
