//! Life gain and loss (CR 119).
use vstd::prelude::*;

use crate::game::outcome;
use crate::game::outcome::Outcome;
use crate::game::players;
use crate::types::events::GameEvent;
use crate::types::game_state::GameState;
use crate::types::identifiers::PlayerId;
use crate::types::player::PlayerModel;

verus! {

/// A life total moved by `delta`, within what a life total can be.
pub open spec fn moved_life(life: int, delta: int) -> int {
    if life + delta > i32::MAX {
        i32::MAX as int
    } else if life + delta < i32::MIN {
        i32::MIN as int
    } else {
        life + delta
    }
}

/// A player's life total changes by `delta`; nothing happens for somebody not in the game or
/// without a change.
pub open spec fn life_changed(o: Outcome, player: PlayerId, delta: int) -> Outcome {
    let s = o.state;
    let i = players::seat(s, player);
    if delta == 0 || i >= s.players.len() {
        o
    } else {
        let life = moved_life(s.players[i].life as int, delta) as i32;
        Outcome {
            state: players::with_player(s, i, PlayerModel { life, ..s.players[i] }),
            events: o.events.push(GameEvent::LifeChanged { player_id: player, life }),
        }
    }
}

pub fn change_life(state: &mut GameState, player: PlayerId, delta: i64, events: &mut Vec<GameEvent>)
    requires
        -0x1_0000_0000 < delta < 0x1_0000_0000,
    ensures
        outcome::at(final(state)@, final(events)@) == life_changed(
            outcome::at(old(state)@, old(events)@),
            player,
            delta as int,
        ),
{
    let i: usize = players::find_player(state, player);
    if delta == 0 || i >= state.players.len() {
        return ;
    }
    let sum: i64 = state.players[i].life as i64 + delta;
    let life: i32 = if sum > i32::MAX as i64 {
        i32::MAX
    } else if sum < i32::MIN as i64 {
        i32::MIN
    } else {
        sum as i32
    };
    state.players[i].life = life;
    events.push(GameEvent::LifeChanged { player_id: player, life });
    proof {
        players::lemma_player_update(old(state).players@, i as int, state.players@[i as int]);
        assert(state@ =~= life_changed(
            outcome::at(old(state)@, old(events)@),
            player,
            delta as int,
        ).state);
    }
}

} // verus!
