//! Seats, turn order and who is still in the game.
use vstd::prelude::*;

use crate::types::game_state;
use crate::types::game_state::{GameModel, GameState, TurnDirection};
use crate::types::identifiers::PlayerId;
use crate::types::player::{Player, PlayerModel};

verus! {

/// Position of the first player with the given id at or after `from`, the number of players
/// without one.
pub open spec fn player_index(players: Seq<PlayerModel>, id: PlayerId, from: int) -> int
    decreases players.len() - from,
{
    if from >= players.len() {
        players.len() as int
    } else if players[from].id == id {
        from
    } else {
        player_index(players, id, from + 1)
    }
}

/// The position of a player in the game.
pub open spec fn seat(s: GameModel, id: PlayerId) -> int {
    player_index(s.players, id, 0)
}

/// The game knows the player.
pub open spec fn known(s: GameModel, id: PlayerId) -> bool {
    seat(s, id) < s.players.len()
}

/// The player is in the game and has not left it (CR 800.4).
pub open spec fn alive(s: GameModel, id: PlayerId) -> bool {
    known(s, id) && !s.players[seat(s, id)].is_eliminated
}

/// The game with one player changed.
pub open spec fn with_player(s: GameModel, i: int, p: PlayerModel) -> GameModel {
    GameModel { players: s.players.update(i, p), ..s }
}

pub proof fn lemma_player_index(players: Seq<PlayerModel>, id: PlayerId, from: int)
    requires
        0 <= from <= players.len(),
    ensures
        from <= player_index(players, id, from) <= players.len(),
        player_index(players, id, from) < players.len() ==> players[player_index(
            players,
            id,
            from,
        )].id == id,
        forall|j: int| from <= j < player_index(players, id, from) ==> players[j].id != id,
    decreases players.len() - from,
{
    if from < players.len() && players[from].id != id {
        lemma_player_index(players, id, from + 1);
    }
}

/// Changing one player of a list changes its model at that position.
pub proof fn lemma_player_update(players: Seq<Player>, i: int, p: Player)
    requires
        0 <= i < players.len(),
    ensures
        game_state::player_models(players.update(i, p)) == game_state::player_models(players).update(
            i,
            p@,
        ),
{
    assert(game_state::player_models(players.update(i, p)) =~= game_state::player_models(
        players,
    ).update(i, p@));
}

/// The position of a player; the number of players for one who is not in the game.
pub fn find_player(state: &GameState, id: PlayerId) -> (i: usize)
    ensures
        i == seat(state@, id),
        i <= state.players@.len(),
        i < state.players@.len() ==> state.players@[i as int].id == id,
{
    let mut i: usize = 0;
    while i < state.players.len() && state.players[i].id != id
        invariant
            i <= state.players.len(),
            player_index(state@.players, id, i as int) == seat(state@, id),
            state@.players.len() == state.players.len(),
        decreases state.players.len() - i,
    {
        i = i + 1;
    }
    proof {
        lemma_player_index(state@.players, id, 0);
    }
    i
}

pub fn is_alive(state: &GameState, id: PlayerId) -> (r: bool)
    ensures
        r == alive(state@, id),
{
    let i: usize = find_player(state, id);
    i < state.players.len() && !state.players[i].is_eliminated
}

/// The seat that is `offset` turns after the seat `start` at a table of `n`.
pub open spec fn turn_seat(start: int, offset: int, n: int, direction: TurnDirection) -> int {
    match direction {
        TurnDirection::Clockwise => (start + offset) % n,
        TurnDirection::Counterclockwise => (start - offset) % n,
    }
}

pub fn turn_order_index(start: usize, offset: usize, n: usize, direction: TurnDirection) -> (r:
    usize)
    requires
        start < n,
        offset <= n,
    ensures
        r == turn_seat(start as int, offset as int, n as int, direction),
        r < n,
{
    match direction {
        TurnDirection::Clockwise => {
            if offset < n - start {
                assert((start + offset) as int % n as int == start + offset) by (nonlinear_arith)
                    requires
                        0 <= start + offset < n,
                ;
                start + offset
            } else {
                let r: usize = offset - (n - start);
                assert((start + offset) as int % n as int == start + offset - n) by (nonlinear_arith)
                    requires
                        n > 0,
                        n <= start + offset < 2 * n,
                ;
                r
            }
        },
        TurnDirection::Counterclockwise => {
            if offset <= start {
                assert((start - offset) as int % n as int == start - offset) by (nonlinear_arith)
                    requires
                        0 <= start - offset < n,
                ;
                start - offset
            } else {
                let r: usize = n - (offset - start);
                assert((start - offset) as int % n as int == start - offset + n) by (nonlinear_arith)
                    requires
                        n > 0,
                        -n <= start - offset < 0,
                ;
                r
            }
        },
    }
}

/// The position of a player in the seat order, the first seat for one who has no seat.
pub open spec fn start_seat(order: Seq<PlayerId>, id: PlayerId, from: int) -> int
    decreases order.len() - from,
{
    if from >= order.len() {
        0
    } else if order[from] == id {
        from
    } else {
        start_seat(order, id, from + 1)
    }
}

pub fn find_seat(order: &Vec<PlayerId>, id: PlayerId) -> (r: usize)
    ensures
        r == start_seat(order@, id, 0),
        order@.len() > 0 ==> r < order@.len(),
{
    let mut i: usize = 0;
    while i < order.len()
        invariant
            i <= order.len(),
            start_seat(order@, id, i as int) == start_seat(order@, id, 0),
        decreases order.len() - i,
    {
        if order[i] == id {
            return i;
        }
        i = i + 1;
    }
    0
}

/// The first player alive at `offset` or more turns after the seat `start`; `otherwise` when the
/// round ends first.
pub open spec fn next_alive(s: GameModel, start: int, offset: int, otherwise: PlayerId) -> PlayerId
    decreases s.seat_order.len() - offset,
{
    let n = s.seat_order.len() as int;
    if offset >= n {
        otherwise
    } else {
        let p = s.seat_order[turn_seat(start, offset, n, s.turn_direction)];
        if alive(s, p) {
            p
        } else {
            next_alive(s, start, offset + 1, otherwise)
        }
    }
}

/// The next player in turn order who is still in the game, the player themselves if there is no
/// other one.
pub open spec fn following(s: GameModel, id: PlayerId) -> PlayerId {
    next_alive(s, start_seat(s.seat_order, id, 0), 1, id)
}

pub fn next_player(state: &GameState, id: PlayerId) -> (r: PlayerId)
    ensures
        r == following(state@, id),
{
    let n: usize = state.seat_order.len();
    let start: usize = find_seat(&state.seat_order, id);
    let mut offset: usize = 1;
    while offset < n
        invariant
            n == state.seat_order.len(),
            start == start_seat(state@.seat_order, id, 0),
            n > 0 ==> start < n,
            1 <= offset,
            n > 0 ==> offset <= n,
            next_alive(state@, start as int, offset as int, id) == next_alive(
                state@,
                start as int,
                1,
                id,
            ),
        decreases n - offset,
    {
        let p = state.seat_order[turn_order_index(start, offset, n, state.turn_direction)];
        if is_alive(state, p) {
            return p;
        }
        offset = offset + 1;
    }
    id
}

/// The players of a list, in order, who are alive and not the given one.
pub open spec fn others_alive(s: GameModel, order: Seq<PlayerId>, id: PlayerId) -> Seq<PlayerId>
    decreases order.len(),
{
    if order.len() == 0 {
        Seq::empty()
    } else {
        let front = others_alive(s, order.drop_last(), id);
        if order.last() != id && alive(s, order.last()) {
            front.push(order.last())
        } else {
            front
        }
    }
}

/// The opponents of a player who are still in the game, in seat order (CR 102.2).
pub fn opponents(state: &GameState, id: PlayerId) -> (r: Vec<PlayerId>)
    ensures
        r@ == others_alive(state@, state@.seat_order, id),
{
    let mut r: Vec<PlayerId> = Vec::new();
    let mut i: usize = 0;
    while i < state.seat_order.len()
        invariant
            i <= state.seat_order.len(),
            r@ == others_alive(state@, state.seat_order@.take(i as int), id),
        decreases state.seat_order.len() - i,
    {
        assert(state.seat_order@.take(i + 1).drop_last() =~= state.seat_order@.take(i as int));
        let p = state.seat_order[i];
        if p != id && is_alive(state, p) {
            r.push(p);
        }
        i = i + 1;
    }
    assert(state.seat_order@.take(i as int) =~= state.seat_order@);
    r
}

} // verus!
