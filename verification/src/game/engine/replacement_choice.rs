//! Choosing among replacement effects (CR 616.1).
use vstd::prelude::*;

use crate::game::effects::draw;
use crate::game::effects::token;
use crate::game::engine::reply;
use crate::game::engine::reply::{EngineError, ErrorModel, Reply};
use crate::game::engine::resume;
use crate::game::outcome;
use crate::game::outcome::Outcome;
use crate::game::planechase;
use crate::game::replacement;
use crate::game::replacement::{ReplacementModel, ReplacementResult};
use crate::types::ability::EffectError;
use crate::types::events::GameEvent;
use crate::types::game_state::{GameModel, GameState};
use crate::types::prompts::{PromptModel, WaitingFor};
use crate::types::proposed_event::{ProposedEvent, ProposedModel};

verus! {

/// The event happens.
pub open spec fn performed(o: Outcome, e: ProposedModel) -> Outcome {
    match e {
        ProposedModel::CreateToken { owner, spec, enter_tapped, count, .. } =>
            token::tokens_entered(o, owner, spec, enter_tapped, count as nat),
        ProposedModel::Planeswalk { player, cause, count, .. } => planechase::planeswalked_times(
            o,
            player,
            cause,
            count as nat,
        ),
        ProposedModel::Draw { player, count, .. } => draw::drawn_within_limits(
            o,
            player,
            count as int,
        ),
    }
}

/// There are identifiers for everything that the event creates.
pub open spec fn performable(s: GameModel, e: ProposedModel) -> bool {
    match e {
        ProposedModel::CreateToken { count, .. } => s.next_object_id + count <= u64::MAX,
        ProposedModel::Planeswalk { .. } | ProposedModel::Draw { .. } => true,
    }
}

/// The event after the chosen effect applied to it: it is held against the remaining ones.
pub open spec fn choice_applied(s: GameModel, e: Option<ProposedModel>) -> Reply {
    match e {
        None => reply::resolved(resume::resumed(outcome::at(s, Seq::empty()))),
        Some(e1) => match replacement::replaced(s, e1) {
            ReplacementModel::Execute(e2) => if performable(s, e2) {
                reply::resolved(
                    resume::resumed(performed(outcome::at(s, Seq::empty()), e2)),
                )
            } else {
                reply::refused(s, ErrorModel::Effect("object identifiers are used up"@))
            },
            ReplacementModel::Prevented => reply::resolved(
                resume::resumed(outcome::at(s, Seq::empty())),
            ),
            ReplacementModel::NeedsChoice(player) => Reply {
                state: replacement::awaiting_choice(replacement::held(s, e1), player),
                result: Ok(Seq::empty()),
            },
        },
    }
}

/// The answer to a choice among replacement effects.
#[verifier::opaque]
pub open spec fn choose_reply(s: GameModel, index: usize) -> Reply {
    match (s.waiting_for, s.pending_replacement) {
        (PromptModel::ReplacementChoice { .. }, Some(e)) => {
            let c = replacement::candidates(s, e);
            if index < c.len() {
                choice_applied(
                    GameModel { pending_replacement: None, ..s },
                    replacement::replaced_once(e, c[index as int].0, c[index as int].1),
                )
            } else {
                reply::refused(s, ErrorModel::IllegalChoice)
            }
        },
        _ => reply::refused(s, ErrorModel::WrongPrompt),
    }
}

fn is_performable(state: &GameState, e: &ProposedEvent) -> (r: bool)
    ensures
        r == performable(state@, e@),
{
    match e {
        ProposedEvent::CreateToken { count, .. } => state.next_object_id <= u64::MAX
            - *count as u64,
        ProposedEvent::Planeswalk { .. } => true,
        ProposedEvent::Draw { .. } => true,
    }
}

fn perform(state: &mut GameState, e: ProposedEvent, events: &mut Vec<GameEvent>)
    requires
        performable(old(state)@, e@),
    ensures
        outcome::at(final(state)@, final(events)@) == performed(
            outcome::at(old(state)@, old(events)@),
            e@,
        ),
{
    match e {
        ProposedEvent::CreateToken { owner, spec, enter_tapped, count, .. } => {
            token::create_tokens(state, owner, *spec, enter_tapped, count, events);
        },
        ProposedEvent::Planeswalk { player, cause, count, .. } => {
            let ghost before = outcome::at(state@, events@);
            let mut i: u32 = 0;
            while i < count
                invariant
                    i <= count,
                    outcome::at(state@, events@) == planechase::planeswalked_times(
                        before,
                        player,
                        cause,
                        i as nat,
                    ),
                decreases count - i,
            {
                planechase::planeswalk(state, player, cause, events);
                i = i + 1;
            }
        },
        ProposedEvent::Draw { player, count, .. } => {
            draw::draw_within_limits(state, player, count, events);
        },
    }
}

fn apply_choice(state: &mut GameState, e: Option<ProposedEvent>) -> (r: Result<
    Vec<GameEvent>,
    EngineError,
>)
    ensures
        reply::agrees(
            r,
            final(state)@,
            choice_applied(
                old(state)@,
                match e {
                    Some(e1) => Some(e1@),
                    None => None,
                },
            ),
        ),
{
    let mut events: Vec<GameEvent> = Vec::new();
    match e {
        None => {
            let r = resume::resume(state, &mut events);
            reply::conclude(r, events)
        },
        Some(e1) => match replacement::replace_event(state, e1) {
            ReplacementResult::Execute(e2) => {
                if !is_performable(state, &e2) {
                    return Err(
                        EngineError::Effect(
                            EffectError::InvalidParam(
                                String::from_str("object identifiers are used up"),
                            ),
                        ),
                    );
                }
                perform(state, e2, &mut events);
                let r = resume::resume(state, &mut events);
                reply::conclude(r, events)
            },
            ReplacementResult::Prevented => {
                let r = resume::resume(state, &mut events);
                reply::conclude(r, events)
            },
            ReplacementResult::NeedsChoice(player) => {
                let prompt = replacement::replacement_choice_waiting_for(player, state);
                state.waiting_for = prompt;
                Ok(events)
            },
        },
    }
}

pub fn choose_replacement(state: &mut GameState, index: usize) -> (r: Result<
    Vec<GameEvent>,
    EngineError,
>)
    ensures
        reply::agrees(r, final(state)@, choose_reply(old(state)@, index)),
{
    proof {
        reveal(choose_reply);
    }
    match &state.waiting_for {
        WaitingFor::ReplacementChoice { .. } => {},
        _ => {
            return Err(EngineError::WrongPrompt);
        },
    }
    let chosen = match &state.pending_replacement {
        None => {
            return Err(EngineError::WrongPrompt);
        },
        Some(e) => {
            let c = replacement::event_candidates(state, e);
            if index >= c.len() {
                return Err(EngineError::IllegalChoice);
            }
            c[index]
        },
    };
    match state.pending_replacement.take() {
        None => Err(EngineError::WrongPrompt),
        Some(e) => {
            let next = replacement::apply_replacement(e, chosen.0, chosen.1);
            apply_choice(state, next)
        },
    }
}

} // verus!
