//! What holds of seats and turn order.
use vstd::prelude::*;

use crate::game::players;
use crate::types::game_state::{GameModel, TurnDirection};
use crate::types::identifiers::PlayerId;

verus! {

/// The player is listed in the game, and their first entry says that they have not left it.
pub open spec fn in_game(s: GameModel, p: PlayerId) -> bool {
    exists|i: int|
        #![trigger s.players[i]]
        0 <= i < s.players.len() && s.players[i].id == p && !s.players[i].is_eliminated && (
        forall|j: int| 0 <= j < i ==> (#[trigger] s.players[j]).id != p)
}

/// How many turns after the player in one seat the player in another one is.
pub open spec fn turns_between(s: GameModel, from: int, to: int) -> int {
    let ahead = match s.turn_direction {
        TurnDirection::Clockwise => to - from,
        TurnDirection::Counterclockwise => from - to,
    };
    if ahead >= 0 {
        ahead
    } else {
        ahead + s.seat_order.len()
    }
}

/// A player counts as alive exactly if they are in the game.
pub proof fn alive_players_are_in_game(s: GameModel, p: PlayerId)
    ensures
        players::alive(s, p) == in_game(s, p),
{
    players::lemma_player_index(s.players, p, 0);
    let i = players::seat(s, p);
    if players::alive(s, p) {
        assert(s.players[i].id == p);
    }
    if in_game(s, p) {
        let k = choose|k: int|
            #![trigger s.players[k]]
            0 <= k < s.players.len() && s.players[k].id == p && !s.players[k].is_eliminated && (
            forall|j: int| 0 <= j < k ==> (#[trigger] s.players[j]).id != p);
        assert(k == i) by {
            if i < k {
                assert(s.players[i].id != p);
            }
        }
    }
}

/// The seat of a player at a table where nobody sits twice.
pub proof fn lemma_own_seat(order: Seq<PlayerId>, c: int, from: int)
    requires
        order.no_duplicates(),
        0 <= from <= c < order.len(),
    ensures
        players::start_seat(order, order[c], from) == c,
    decreases c - from,
{
    if from < c {
        lemma_own_seat(order, c, from + 1);
    }
}

/// Going around the table from a seat, the seat after `offset` turns is `offset` turns away.
pub proof fn lemma_turns(s: GameModel, c: int, offset: int)
    requires
        0 <= c < s.seat_order.len(),
        0 <= offset < s.seat_order.len(),
    ensures
        ({
            let x = players::turn_seat(c, offset, s.seat_order.len() as int, s.turn_direction);
            0 <= x < s.seat_order.len() && turns_between(s, c, x) == offset
        }),
{
    let n = s.seat_order.len() as int;
    match s.turn_direction {
        TurnDirection::Clockwise => {
            assert((c + offset) % n == if c + offset < n {
                c + offset
            } else {
                c + offset - n
            }) by (nonlinear_arith)
                requires
                    0 <= c < n,
                    0 <= offset < n,
            ;
        },
        TurnDirection::Counterclockwise => {
            assert((c - offset) % n == if c - offset >= 0 {
                c - offset
            } else {
                c - offset + n
            }) by (nonlinear_arith)
                requires
                    0 <= c < n,
                    0 <= offset < n,
            ;
        },
    }
}

proof fn lemma_next_alive(s: GameModel, c: int, offset: int, otherwise: PlayerId) -> (r: int)
    requires
        0 <= c < s.seat_order.len(),
        1 <= offset,
    ensures
        offset <= r,
        r < s.seat_order.len() ==> ({
            let x = players::turn_seat(c, r, s.seat_order.len() as int, s.turn_direction);
            players::alive(s, s.seat_order[x]) && players::next_alive(s, c, offset, otherwise)
                == s.seat_order[x]
        }),
        r >= s.seat_order.len() ==> players::next_alive(s, c, offset, otherwise) == otherwise,
        forall|k: int|
            offset <= k < r && k < s.seat_order.len() ==> !players::alive(
                s,
                s.seat_order[#[trigger] players::turn_seat(
                    c,
                    k,
                    s.seat_order.len() as int,
                    s.turn_direction,
                )],
            ),
    decreases s.seat_order.len() - offset,
{
    let n = s.seat_order.len() as int;
    if offset >= n {
        offset
    } else if players::alive(
        s,
        s.seat_order[players::turn_seat(c, offset, n, s.turn_direction)],
    ) {
        offset
    } else {
        lemma_next_alive(s, c, offset + 1, otherwise)
    }
}

/// A seat is as many turns away as it takes to get there.
proof fn lemma_turns_back(s: GameModel, c: int, x: int)
    requires
        0 <= c < s.seat_order.len(),
        0 <= x < s.seat_order.len(),
    ensures
        0 <= turns_between(s, c, x) < s.seat_order.len(),
        players::turn_seat(
            c,
            turns_between(s, c, x),
            s.seat_order.len() as int,
            s.turn_direction,
        ) == x,
        turns_between(s, c, x) == 0 <==> c == x,
{
    let n = s.seat_order.len() as int;
    let k = turns_between(s, c, x);
    match s.turn_direction {
        TurnDirection::Clockwise => {
            assert((c + k) % n == x) by (nonlinear_arith)
                requires
                    0 <= x < n,
                    c + k == x || c + k == x + n,
            ;
        },
        TurnDirection::Counterclockwise => {
            assert((c - k) % n == x) by (nonlinear_arith)
                requires
                    0 <= x < n,
                    c - k == x || c - k == x - n,
            ;
        },
    }
}

/// The player whose turn is after that of the player in the seat `c`: of those in the other seats
/// who are still in the game the one with the fewest turns in between; the player in the seat
/// themselves if there is none.
pub proof fn the_next_player_is_the_nearest(s: GameModel, c: int)
    requires
        s.seat_order.no_duplicates(),
        0 <= c < s.seat_order.len(),
    ensures
        ({
            let next = players::following(s, s.seat_order[c]);
            ||| {
                &&& next == s.seat_order[c]
                &&& forall|y: int|
                    0 <= y < s.seat_order.len() && y != c ==> !in_game(
                        s,
                        #[trigger] s.seat_order[y],
                    )
            }
            ||| exists|x: int|
                {
                    &&& 0 <= x < s.seat_order.len()
                    &&& x != c
                    &&& #[trigger] s.seat_order[x] == next
                    &&& in_game(s, next)
                    &&& forall|y: int|
                        0 <= y < s.seat_order.len() && y != c && in_game(
                            s,
                            #[trigger] s.seat_order[y],
                        ) ==> turns_between(s, c, x) <= turns_between(s, c, y)
                }
        }),
{
    let n = s.seat_order.len() as int;
    let id = s.seat_order[c];
    lemma_own_seat(s.seat_order, c, 0);
    let r = lemma_next_alive(s, c, 1, id);
    assert forall|y: int| 0 <= y < n && y != c && in_game(s, #[trigger] s.seat_order[y]) implies r
        <= turns_between(s, c, y) by {
        lemma_turns_back(s, c, y);
        alive_players_are_in_game(s, s.seat_order[y]);
        if turns_between(s, c, y) < r {
            assert(!players::alive(
                s,
                s.seat_order[players::turn_seat(c, turns_between(s, c, y), n, s.turn_direction)],
            ));
        }
    }
    if r < n {
        lemma_turns(s, c, r);
        let x = players::turn_seat(c, r, n, s.turn_direction);
        lemma_turns_back(s, c, x);
        alive_players_are_in_game(s, s.seat_order[x]);
        assert(s.seat_order[x] == players::following(s, id));
    } else {
        assert forall|y: int| 0 <= y < n && y != c implies !in_game(
            s,
            #[trigger] s.seat_order[y],
        ) by {
            lemma_turns_back(s, c, y);
        }
    }
}

/// The two players stand in this order somewhere in the list.
pub open spec fn stands_before(order: Seq<PlayerId>, p: PlayerId, q: PlayerId) -> bool {
    exists|x: int, y: int|
        #![trigger order[x], order[y]]
        0 <= x < y < order.len() && order[x] == p && order[y] == q
}

/// The opponents of a player, as they are offered for a choice: everybody else who is in the game,
/// in seat order.
pub proof fn opponents_are_the_others_in_the_game(s: GameModel, order: Seq<PlayerId>, id: PlayerId)
    ensures
        forall|p: PlayerId| #[trigger]
            players::others_alive(s, order, id).contains(p) <==> order.contains(p) && p != id
                && in_game(s, p),
        forall|i: int, j: int|
            0 <= i < j < players::others_alive(s, order, id).len() ==> #[trigger] stands_before(
                order,
                players::others_alive(s, order, id)[i],
                players::others_alive(s, order, id)[j],
            ),
    decreases order.len(),
{
    let r = players::others_alive(s, order, id);
    if order.len() > 0 {
        let front = order.drop_last();
        let last = order.last();
        let before = players::others_alive(s, front, id);
        opponents_are_the_others_in_the_game(s, front, id);
        alive_players_are_in_game(s, last);
        assert forall|p: PlayerId| #[trigger]
            r.contains(p) <==> order.contains(p) && p != id && in_game(s, p) by {
            assert(before.contains(p) <==> front.contains(p) && p != id && in_game(s, p));
            assert(order.contains(p) <==> front.contains(p) || p == last) by {
                if front.contains(p) {
                    let k = choose|k: int| 0 <= k < front.len() && front[k] == p;
                    assert(order[k] == p);
                }
                if p == last {
                    assert(order[order.len() - 1] == p);
                }
                if order.contains(p) {
                    let k = choose|k: int| 0 <= k < order.len() && order[k] == p;
                    if k < front.len() {
                        assert(front[k] == p);
                    }
                }
            }
            if last != id && players::alive(s, last) {
                assert(r == before.push(last));
                if before.contains(p) {
                    let k = choose|k: int| 0 <= k < before.len() && before[k] == p;
                    assert(r[k] == p);
                }
                if p == last {
                    assert(r[before.len() as int] == p);
                }
                if r.contains(p) && p != last {
                    let k = choose|k: int| 0 <= k < r.len() && r[k] == p;
                    assert(before[k] == p);
                }
            }
        }
        assert forall|i: int, j: int| 0 <= i < j < r.len() implies #[trigger] stands_before(
            order,
            r[i],
            r[j],
        ) by {
            if j < before.len() {
                assert(before[i] == r[i] && before[j] == r[j]);
                assert(stands_before(front, before[i], before[j]));
                let (x, y) = choose|x: int, y: int|
                    #![trigger front[x], front[y]]
                    0 <= x < y < front.len() && front[x] == before[i] && front[y] == before[j];
                assert(order[x] == r[i] && order[y] == r[j]);
            } else {
                assert(before[i] == r[i]);
                assert(before.contains(before[i]));
                assert(front.contains(before[i]));
                let x = choose|x: int| 0 <= x < front.len() && front[x] == before[i];
                assert(order[x] == r[i] && order[order.len() - 1] == r[j]);
            }
        }
    }
}

} // verus!
