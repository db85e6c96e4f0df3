//! Planeswalking as an instruction (CR 701.31, CR 901.8).
//!
//! Every planeswalk goes through the replacement effects for "if you would planeswalk", whatever
//! its source.
use vstd::prelude::*;

use crate::game::outcome;
use crate::game::outcome::Outcome;
use crate::game::planechase;
use crate::game::replacement;
use crate::game::replacement::{ReplacementModel, ReplacementResult};
use crate::types::ability::{AbilityModel, EffectError, ResolvedAbility};
use crate::types::events::{GameEvent, PlaneswalkCause};
use crate::types::game_state::GameState;

verus! {

/// Why the controller of an ability planeswalks.
pub open spec fn cause_of(a: AbilityModel) -> PlaneswalkCause {
    if a.source_id.0 == planechase::PLANAR_ABILITY_SOURCE {
        PlaneswalkCause::PlanarDie
    } else {
        PlaneswalkCause::Instruction
    }
}

/// What a planeswalk instruction does: its controller planeswalks, or the game asks them which
/// replacement effect applies.
pub open spec fn walked(o: Outcome, a: AbilityModel) -> Outcome {
    let e = planechase::proposed_planeswalk(a.controller, cause_of(a), a.replacement_applied);
    let after = planechase::walked_through(o, a.controller, cause_of(a), a.replacement_applied);
    match replacement::replaced(o.state, e) {
        ReplacementModel::NeedsChoice(player) => Outcome {
            state: replacement::awaiting_choice(after.state, player),
            ..after
        },
        _ => after,
    }
}

/// Resolves a planeswalk instruction.
pub fn resolve(state: &mut GameState, ability: &ResolvedAbility, events: &mut Vec<GameEvent>) -> (r:
    Result<(), EffectError>)
    ensures
        r is Ok,
        outcome::at(final(state)@, final(events)@) == walked(
            outcome::at(old(state)@, old(events)@),
            ability@,
        ),
{
    let cause = if planechase::is_planar_ability_source(ability.source_id) {
        PlaneswalkCause::PlanarDie
    } else {
        PlaneswalkCause::Instruction
    };
    match planechase::planeswalk_through_replacements(
        state,
        ability.controller,
        cause,
        ability.replacement_applied.copied(),
        events,
    ) {
        ReplacementResult::Execute(_) => Ok(()),
        ReplacementResult::Prevented => Ok(()),
        ReplacementResult::NeedsChoice(player) => {
            let prompt = replacement::replacement_choice_waiting_for(player, state);
            state.waiting_for = prompt;
            Ok(())
        },
    }
}

} // verus!
