//! What passing priority does.
use vstd::prelude::*;

use crate::game::engine::dispatch;
use crate::game::engine::priority;
use crate::game::engine::reply::ErrorModel;
use crate::game::players;
use crate::game::seat_laws;
use crate::types::actions::GameAction;
use crate::types::events::GameEvent;
use crate::types::game_state::GameModel;
use crate::types::identifiers::PlayerId;
use crate::types::payload_order_laws;
use crate::types::phase::Phase;
use crate::types::prompts::PromptModel;

verus! {

/// Those of a list who are in the game.
pub open spec fn those_in_game(s: GameModel, order: Seq<PlayerId>) -> Seq<PlayerId> {
    order.filter(|p: PlayerId| seat_laws::in_game(s, p))
}

proof fn lemma_count(s: GameModel, order: Seq<PlayerId>)
    ensures
        priority::alive_count(s, order) == those_in_game(s, order).len(),
    decreases order.len(),
{
    reveal(Seq::filter);
    if order.len() > 0 {
        lemma_count(s, order.drop_last());
        seat_laws::alive_players_are_in_game(s, order.last());
    }
}

/// A pass while somebody else in the game has not passed yet: the next player in turn order has
/// priority, one more player has passed, and nothing else changes.
pub proof fn passes_hand_priority_on(s: GameModel, player: PlayerId)
    requires
        s.waiting_for == (PromptModel::Priority { player }),
        s.consecutive_passes + 1 < those_in_game(s, s.seat_order).len(),
        s.consecutive_passes < u32::MAX,
    ensures
        ({
            let r = dispatch::action_reply(s, player, GameAction::PassPriority);
            let next = players::following(s, player);
            &&& r.result == Ok::<Seq<GameEvent>, ErrorModel>(Seq::empty())
            &&& r.state == (GameModel {
                consecutive_passes: (s.consecutive_passes + 1) as u32,
                priority_player: next,
                waiting_for: PromptModel::Priority { player: next },
                ..s
            })
        }),
{
    reveal(priority::pass_reply);
    lemma_count(s, s.seat_order);
    assert(s.waiting_for.actors()[0] == player);
}

/// The step after another one; after the last one of a turn comes the first one of the next.
pub open spec fn follows(p: Phase, q: Phase) -> bool {
    let n = payload_order_laws::phase_place(p) + 1;
    payload_order_laws::phase_place(q) == if n == 12 {
        0
    } else {
        n
    }
}

/// When everybody in the game has passed with an empty stack, the next step begins: the active
/// player has priority, nobody has passed, and all unspent mana is gone. After the cleanup step it is
/// the next player's turn, and the counts of drawn cards begin anew.
pub proof fn steps_end_when_all_pass(s: GameModel, player: PlayerId)
    requires
        s.waiting_for == (PromptModel::Priority { player }),
        s.consecutive_passes + 1 >= those_in_game(s, s.seat_order).len(),
        s.stack.len() == 0,
        s.turn_number < u32::MAX,
    ensures
        ({
            let r = dispatch::action_reply(s, player, GameAction::PassPriority);
            let t = r.state;
            let ends = s.phase == Phase::Cleanup;
            &&& r.result == Ok::<Seq<GameEvent>, ErrorModel>(Seq::empty())
            &&& t == (GameModel {
                phase: t.phase,
                players: t.players,
                active_player: t.active_player,
                priority_player: t.active_player,
                turn_number: t.turn_number,
                consecutive_passes: 0,
                waiting_for: PromptModel::Priority { player: t.active_player },
                ..s
            })
            &&& follows(s.phase, t.phase)
            &&& t.active_player == if ends {
                players::following(s, s.active_player)
            } else {
                s.active_player
            }
            &&& t.turn_number == s.turn_number + if ends {
                1int
            } else {
                0
            }
            &&& t.players.len() == s.players.len()
            &&& forall|i: int|
                0 <= i < s.players.len() ==> {
                    let p = #[trigger] t.players[i];
                    let q = s.players[i];
                    &&& p.mana.len() == 0
                    &&& p.cards_drawn_this_turn == if ends {
                        0
                    } else {
                        q.cards_drawn_this_turn
                    }
                    &&& p.id == q.id
                    &&& p.life == q.life
                    &&& p.library == q.library
                    &&& p.hand == q.hand
                    &&& p.graveyard == q.graveyard
                    &&& p.is_eliminated == q.is_eliminated
                }
        }),
{
    reveal(priority::pass_reply);
    lemma_count(s, s.seat_order);
    assert(s.waiting_for.actors()[0] == player);
}

/// Whoever the game does not wait for cannot act, whatever they try, and nothing changes.
pub proof fn only_those_asked_may_act(s: GameModel, player: PlayerId, action: GameAction)
    requires
        !s.waiting_for.actors().contains(player),
    ensures
        dispatch::action_reply(s, player, action).state == s,
        dispatch::action_reply(s, player, action).result == Err::<Seq<GameEvent>, ErrorModel>(
            ErrorModel::WrongPlayer,
        ),
{
}

} // verus!
