//! What a player or spectator gets to see of a game.
use vstd::prelude::*;

use crate::shared;
use crate::types::game_state::{GameModel, GameState};
use crate::types::identifiers::{ObjectId, PlayerId};
use crate::types::phase::Phase;
use crate::types::player::{Player, PlayerModel};

verus! {

/// One player, as somebody at the table sees them: hands are hidden from everybody else, libraries
/// from all (CR 400.2).
#[derive(Clone, Debug, PartialEq, Eq)]
pub struct ClientPlayer {
    pub id: PlayerId,
    pub life: i32,
    /// The cards in hand; empty where they are hidden.
    pub hand: Vec<ObjectId>,
    pub hand_size: usize,
    pub library_size: usize,
    pub graveyard: Vec<ObjectId>,
    pub is_eliminated: bool,
}

/// A game without its hidden information.
#[derive(Clone, Debug, PartialEq, Eq)]
pub struct ClientState {
    pub players: Vec<ClientPlayer>,
    pub battlefield: Vec<ObjectId>,
    pub command_zone: Vec<ObjectId>,
    pub exile: Vec<ObjectId>,
    pub stack_size: usize,
    pub phase: Phase,
    pub turn_number: u32,
    pub active_player: PlayerId,
    pub priority_player: PlayerId,
}

/// The player is shown as `viewer` may see them.
pub open spec fn shows_player(c: ClientPlayer, p: PlayerModel, viewer: Option<PlayerId>) -> bool {
    &&& c.id == p.id
    &&& c.life == p.life
    &&& c.hand@ == if viewer == Some(p.id) {
        p.hand
    } else {
        Seq::empty()
    }
    &&& c.hand_size == p.hand.len()
    &&& c.library_size == p.library.len()
    &&& c.graveyard@ == p.graveyard
    &&& c.is_eliminated == p.is_eliminated
}

/// The game is shown as `viewer` may see it; a spectator is nobody's viewer.
pub open spec fn shows(c: ClientState, s: GameModel, viewer: Option<PlayerId>) -> bool {
    &&& c.players@.len() == s.players.len()
    &&& forall|i: int|
        0 <= i < s.players.len() ==> shows_player(#[trigger] c.players@[i], s.players[i], viewer)
    &&& c.battlefield@ == s.battlefield
    &&& c.command_zone@ == s.command_zone
    &&& c.exile@ == s.exile
    &&& c.stack_size == s.stack.len()
    &&& c.phase == s.phase
    &&& c.turn_number == s.turn_number
    &&& c.active_player == s.active_player
    &&& c.priority_player == s.priority_player
}

fn show_player(p: &Player, viewer: Option<PlayerId>) -> (r: ClientPlayer)
    ensures
        shows_player(r, p@, viewer),
{
    let own = match viewer {
        Some(v) => v == p.id,
        None => false,
    };
    ClientPlayer {
        id: p.id,
        life: p.life,
        hand: if own {
            shared::copy_all(&p.hand)
        } else {
            Vec::new()
        },
        hand_size: p.hand.len(),
        library_size: p.library.len(),
        graveyard: shared::copy_all(&p.graveyard),
        is_eliminated: p.is_eliminated,
    }
}

/// The game as `viewer` may see it.
pub fn filter_state_for_player(state: &GameState, viewer: Option<PlayerId>) -> (r: ClientState)
    ensures
        shows(r, state@, viewer),
{
    let mut players: Vec<ClientPlayer> = Vec::new();
    let mut i: usize = 0;
    while i < state.players.len()
        invariant
            i <= state.players.len(),
            players.len() == i,
            forall|j: int|
                0 <= j < i ==> shows_player(
                    #[trigger] players@[j],
                    state.players@[j]@,
                    viewer,
                ),
        decreases state.players.len() - i,
    {
        players.push(show_player(&state.players[i], viewer));
        i = i + 1;
    }
    ClientState {
        players,
        battlefield: shared::copy_all(&state.battlefield),
        command_zone: shared::copy_all(&state.command_zone),
        exile: shared::copy_all(&state.exile),
        stack_size: state.stack.len(),
        phase: state.phase,
        turn_number: state.turn_number,
        active_player: state.active_player,
        priority_player: state.priority_player,
    }
}

/// The same player to a viewer: what others hold in their hands, and what lies in libraries, may
/// differ.
pub open spec fn same_player_to(p: PlayerModel, q: PlayerModel, viewer: Option<PlayerId>) -> bool {
    &&& q == PlayerModel {
        hand: q.hand,
        library: q.library,
        mana: q.mana,
        cards_drawn_this_turn: q.cards_drawn_this_turn,
        ..p
    }
    &&& p.hand.len() == q.hand.len()
    &&& p.library.len() == q.library.len()
    &&& viewer == Some(p.id) ==> p.hand == q.hand
}

/// Nobody learns from their view what is in the hands of others or in a library: games that differ
/// in that alone look the same.
pub proof fn hidden_cards_do_not_show(
    c: ClientState,
    s: GameModel,
    t: GameModel,
    viewer: Option<PlayerId>,
)
    requires
        shows(c, s, viewer),
        t == (GameModel { players: t.players, ..s }),
        t.players.len() == s.players.len(),
        forall|i: int|
            0 <= i < s.players.len() ==> same_player_to(
                s.players[i],
                #[trigger] t.players[i],
                viewer,
            ),
    ensures
        shows(c, t, viewer),
{
    assert forall|i: int| 0 <= i < t.players.len() implies shows_player(
        #[trigger] c.players@[i],
        t.players[i],
        viewer,
    ) by {
        assert(same_player_to(s.players[i], t.players[i], viewer));
        assert(shows_player(c.players@[i], s.players[i], viewer));
    }
}

} // verus!
