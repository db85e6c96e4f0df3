//! What answers to prompts do.
use vstd::prelude::*;

use crate::game::effects::basic;
use crate::game::effects::chain;
use crate::game::effects::draw;
use crate::game::effects::round_laws;
use crate::game::effects::token;
use crate::game::engine::cards;
use crate::game::engine::replacement_choice;
use crate::game::engine::reply::ErrorModel;
use crate::game::engine::trigger_order;
use crate::game::outcome;
use crate::game::outcome::Outcome;
use crate::game::planechase;
use crate::game::replacement;
use crate::game::zone_laws;
use crate::types::events::GameEvent;
use crate::types::game_state::GameModel;
use crate::types::identifiers::{ObjectId, PlayerId};
use crate::types::player::PlayerModel;
use crate::types::prompts::PromptModel;
use crate::types::proposed_event::ProposedModel;
use crate::types::replacements::ReplacementOutcome;
use crate::types::zones::Zone;

verus! {

proof fn lemma_not_chosen(list: Seq<ObjectId>, chosen: Seq<ObjectId>)
    ensures
        cards::not_chosen(list, chosen) == list.filter(|c: ObjectId| !chosen.contains(c)),
    decreases list.len(),
{
    reveal(Seq::filter);
    if list.len() > 0 {
        lemma_not_chosen(list.drop_last(), chosen);
    }
}

/// After scry the kept cards are on top of the library in the named order, then comes what was not
/// looked at, and the other cards that were looked at are at the bottom in their order.
pub proof fn scried_cards_are_kept_or_put_below(
    s: GameModel,
    player: PlayerId,
    looked: Seq<ObjectId>,
    kept: Seq<ObjectId>,
    i: int,
)
    requires
        s.waiting_for == (PromptModel::ScryChoice { player, cards: looked }),
        s.pending_continuation is None,
        round_laws::listed_at(s, player, i),
        looked == s.players[i].library.take(looked.len() as int),
        looked.len() <= s.players[i].library.len(),
        kept.no_duplicates(),
        forall|k: int| 0 <= k < kept.len() ==> looked.contains(#[trigger] kept[k]),
    ensures
        cards::select_reply(s, kept).result == Ok::<Seq<GameEvent>, ErrorModel>(Seq::empty()),
        cards::select_reply(s, kept).state == (GameModel {
            players: s.players.update(
                i,
                PlayerModel {
                    library: kept + s.players[i].library.skip(looked.len() as int) + looked.filter(
                        |c: ObjectId| !kept.contains(c),
                    ),
                    ..s.players[i]
                },
            ),
            waiting_for: PromptModel::Priority { player: s.priority_player },
            ..s
        }),
{
    reveal(cards::select_reply);
    round_laws::lemma_listed_at(s, player, i);
    lemma_not_chosen(looked, kept);
}

/// A choice of a card that was not looked at, or of one card twice, is refused, and changes nothing.
pub proof fn impossible_scry_choices_are_refused(
    s: GameModel,
    player: PlayerId,
    looked: Seq<ObjectId>,
    kept: Seq<ObjectId>,
    j: int,
    k: int,
)
    requires
        s.waiting_for == (PromptModel::ScryChoice { player, cards: looked }),
        ({
            ||| 0 <= k < kept.len() && !looked.contains(kept[k])
            ||| 0 <= j < k < kept.len() && kept[j] == kept[k]
        }),
    ensures
        cards::select_reply(s, kept).state == s,
        cards::select_reply(s, kept).result == Err::<Seq<GameEvent>, ErrorModel>(
            ErrorModel::IllegalChoice,
        ),
{
    reveal(cards::select_reply);
}

/// The cards are in the hand of their owner, the player in a place, each of them once.
pub open spec fn in_hand(s: GameModel, player: PlayerId, chosen: Seq<ObjectId>) -> bool {
    &&& chosen.no_duplicates()
    &&& forall|k: int|
        0 <= k < chosen.len() ==> {
            &&& s.objects.contains_key(#[trigger] chosen[k])
            &&& s.objects[chosen[k]].zone == Zone::Hand
            &&& s.objects[chosen[k]].owner == player
        }
}

/// Discarded cards come to lie in their owner's graveyard in the named order, and leave the hand.
/// Other cards and other players are not touched.
pub proof fn discarded_cards_are_in_the_graveyard(
    s: GameModel,
    player: PlayerId,
    chosen: Seq<ObjectId>,
    i: int,
    x: ObjectId,
)
    requires
        round_laws::listed_at(s, player, i),
        in_hand(s, player, chosen),
    ensures
        ({
            let t = basic::all_discarded(s, chosen);
            &&& round_laws::listed_at(t, player, i)
            &&& t.players.len() == s.players.len()
            &&& t.players[i].graveyard == s.players[i].graveyard + chosen
            &&& t.players[i].hand.contains(x) <==> s.players[i].hand.contains(x)
                && !chosen.contains(x)
            &&& t.players[i].library == s.players[i].library
            &&& t.players[i].life == s.players[i].life
            &&& t.objects.dom() == s.objects.dom()
            &&& s.objects.contains_key(x) ==> if chosen.contains(x) {
                t.objects[x].zone == Zone::Graveyard
            } else {
                t.objects[x] == s.objects[x]
            }
            &&& forall|j: int|
                0 <= j < s.players.len() && j != i ==> #[trigger] t.players[j] == s.players[j]
        }),
    decreases chosen.len(),
{
    if chosen.len() > 0 {
        let front = chosen.drop_last();
        let last = chosen.last();
        assert(in_hand(s, player, front)) by {
            assert forall|k: int| 0 <= k < front.len() implies {
                &&& s.objects.contains_key(#[trigger] front[k])
                &&& s.objects[front[k]].zone == Zone::Hand
                &&& s.objects[front[k]].owner == player
            } by {
                assert(front[k] == chosen[k]);
            }
        }
        assert(!front.contains(last)) by {
            if front.contains(last) {
                let k = choose|k: int| 0 <= k < front.len() && front[k] == last;
                assert(chosen[k] == chosen[chosen.len() - 1]);
            }
        }
        assert(chosen.contains(x) <==> front.contains(x) || x == last) by {
            assert(chosen[chosen.len() - 1] == last);
            if front.contains(x) {
                let k = choose|k: int| 0 <= k < front.len() && front[k] == x;
                assert(chosen[k] == x);
            }
            if chosen.contains(x) && x != last {
                let k = choose|k: int| 0 <= k < chosen.len() && chosen[k] == x;
                assert(front[k] == x);
            }
        }
        assert(last == chosen[chosen.len() - 1]);
        discarded_cards_are_in_the_graveyard(s, player, front, i, x);
        discarded_cards_are_in_the_graveyard(s, player, front, i, last);
        let m = basic::all_discarded(s, front);
        assert(m.objects.contains_key(last));
        assert(m.objects[last] == s.objects[last]);
        zone_laws::what_moving_does(m, last, Zone::Hand, Zone::Graveyard, i, Zone::Library, x);
        zone_laws::what_moving_does(m, last, Zone::Hand, Zone::Graveyard, i, Zone::Library, last);
        let t = basic::all_discarded(s, chosen);
        assert(m.players[i].graveyard.push(last) =~= s.players[i].graveyard + chosen);
        assert forall|j: int| 0 <= j < s.players.len() && j != i implies #[trigger] t.players[j]
            == s.players[j] by {
            assert(m.players[j] == s.players[j]);
        }
        assert(round_laws::listed_at(t, player, i)) by {
            assert forall|j: int| 0 <= j < i implies (#[trigger] t.players[j]).id != player by {
                assert(s.players[j].id != player);
            }
        }
    } else {
        assert(s.players[i].graveyard + chosen =~= s.players[i].graveyard);
    }
}

/// A player who has to discard discards the cards they name, and the game goes on.
pub proof fn named_cards_are_discarded(
    s: GameModel,
    player: PlayerId,
    chosen: Seq<ObjectId>,
    i: int,
)
    requires
        s.waiting_for == (PromptModel::DiscardChoice { player, count: chosen.len() as usize }),
        chosen.len() <= usize::MAX,
        s.pending_continuation is None,
        round_laws::listed_at(s, player, i),
        in_hand(s, player, chosen),
        forall|k: int| 0 <= k < chosen.len() ==> s.players[i].hand.contains(#[trigger] chosen[k]),
    ensures
        ({
            let r = cards::select_reply(s, chosen);
            &&& r.result == Ok::<Seq<GameEvent>, ErrorModel>(Seq::empty())
            &&& r.state.waiting_for is Priority
            &&& r.state.players[i].graveyard == s.players[i].graveyard + chosen
            &&& forall|x: ObjectId| #[trigger]
                r.state.players[i].hand.contains(x) <==> s.players[i].hand.contains(x)
                    && !chosen.contains(x)
        }),
{
    reveal(cards::select_reply);
    round_laws::lemma_listed_at(s, player, i);
    let t = basic::all_discarded(s, chosen);
    assert forall|x: ObjectId| #[trigger] t.players[i].hand.contains(x) <==> s.players[i].hand.contains(
        x,
    ) && !chosen.contains(x) by {
        discarded_cards_are_in_the_graveyard(s, player, chosen, i, x);
    }
    discarded_cards_are_in_the_graveyard(s, player, chosen, i, ObjectId(0));
    lemma_discards_keep_the_rest(s, chosen);
}

proof fn lemma_discards_keep_the_rest(s: GameModel, chosen: Seq<ObjectId>)
    ensures
        basic::all_discarded(s, chosen).pending_continuation == s.pending_continuation,
        basic::all_discarded(s, chosen).waiting_for == s.waiting_for,
    decreases chosen.len(),
{
    if chosen.len() > 0 {
        lemma_discards_keep_the_rest(s, chosen.drop_last());
    }
}

/// A choice of too few or too many cards, of one card twice or of a card that is not in the hand is
/// refused, and changes nothing.
pub proof fn impossible_discards_are_refused(
    s: GameModel,
    player: PlayerId,
    count: usize,
    chosen: Seq<ObjectId>,
    i: int,
    j: int,
    k: int,
)
    requires
        s.waiting_for == (PromptModel::DiscardChoice { player, count }),
        round_laws::listed_at(s, player, i),
        ({
            ||| chosen.len() != count
            ||| 0 <= k < chosen.len() && !s.players[i].hand.contains(chosen[k])
            ||| 0 <= j < k < chosen.len() && chosen[j] == chosen[k]
        }),
    ensures
        cards::select_reply(s, chosen).state == s,
        cards::select_reply(s, chosen).result == Err::<Seq<GameEvent>, ErrorModel>(
            ErrorModel::IllegalChoice,
        ),
{
    reveal(cards::select_reply);
    round_laws::lemma_listed_at(s, player, i);
}

/// Where the abilities that triggered are named in an order, the one named first comes to lie lowest
/// and what is below them stays. The active player has priority next.
pub proof fn triggers_lie_in_the_named_order(s: GameModel, order: Seq<usize>, k: int)
    requires
        s.waiting_for is OrderTriggers,
        s.waiting_for->OrderTriggers_count <= s.stack.len(),
        order.len() == s.waiting_for->OrderTriggers_count,
        order.no_duplicates(),
        forall|j: int| 0 <= j < order.len() ==> #[trigger] order[j] < order.len(),
    ensures
        ({
            let r = trigger_order::order_reply(s, order);
            let below = s.stack.len() - order.len();
            &&& r.result == Ok::<Seq<GameEvent>, ErrorModel>(Seq::empty())
            &&& r.state == (GameModel {
                stack: r.state.stack,
                consecutive_passes: 0,
                priority_player: s.active_player,
                waiting_for: PromptModel::Priority { player: s.active_player },
                ..s
            })
            &&& r.state.stack.len() == s.stack.len()
            &&& 0 <= k < below ==> r.state.stack[k] == s.stack[k]
            &&& below <= k < s.stack.len() ==> r.state.stack[k] == s.stack[below + order[k - below]]
        }),
{
    reveal(trigger_order::order_reply);
}

/// An order that leaves an ability out, or names one twice or one that is not there, is refused, and
/// changes nothing.
pub proof fn impossible_orders_are_refused(s: GameModel, order: Seq<usize>, j: int, k: int)
    requires
        s.waiting_for is OrderTriggers,
        ({
            let count = s.waiting_for->OrderTriggers_count;
            ||| order.len() != count
            ||| 0 <= k < order.len() && order[k] >= count
            ||| 0 <= j < k < order.len() && order[j] == order[k]
        }),
    ensures
        trigger_order::order_reply(s, order).state == s,
        trigger_order::order_reply(s, order).result == Err::<Seq<GameEvent>, ErrorModel>(
            ErrorModel::IllegalChoice,
        ),
{
    reveal(trigger_order::order_reply);
}

/// Without a named order the abilities stay as they lie, and the active player has priority.
pub proof fn kept_triggers_stay_as_they_lie(s: GameModel)
    requires
        s.waiting_for is OrderTriggers,
    ensures
        trigger_order::keep_reply(s).result == Ok::<Seq<GameEvent>, ErrorModel>(Seq::empty()),
        trigger_order::keep_reply(s).state == (GameModel {
            consecutive_passes: 0,
            priority_player: s.active_player,
            waiting_for: PromptModel::Priority { player: s.active_player },
            ..s
        }),
{
    reveal(trigger_order::keep_reply);
}

/// A choice of a replacement effect that does not apply is refused, and changes nothing.
pub proof fn impossible_replacements_are_refused(s: GameModel, e: ProposedModel, index: usize)
    requires
        s.waiting_for is ReplacementChoice,
        s.pending_replacement == Some(e),
        index >= replacement::candidates(s, e).len(),
    ensures
        replacement_choice::choose_reply(s, index).state == s,
        replacement_choice::choose_reply(s, index).result == Err::<Seq<GameEvent>, ErrorModel>(
            ErrorModel::IllegalChoice,
        ),
{
    reveal(replacement_choice::choose_reply);
}

/// An event that the chosen effect prevents does not happen: what waited for it follows, or the game
/// goes on as it was.
pub proof fn prevented_events_do_not_happen(s: GameModel, e: ProposedModel, index: usize)
    requires
        s.waiting_for is ReplacementChoice,
        s.pending_replacement == Some(e),
        index < replacement::candidates(s, e).len(),
        replacement::candidates(s, e)[index as int].1 == ReplacementOutcome::Prevent,
    ensures
        ({
            let r = replacement_choice::choose_reply(s, index);
            let after = GameModel {
                pending_replacement: None,
                pending_continuation: None,
                waiting_for: PromptModel::Priority { player: s.priority_player },
                ..s
            };
            match s.pending_continuation {
                None => r.state == after && r.result == Ok::<Seq<GameEvent>, ErrorModel>(
                    Seq::empty(),
                ),
                Some(rest) => {
                    let c = chain::chained(outcome::at(after, Seq::empty()), rest, Seq::empty());
                    &&& r.state == c.after.state
                    &&& c.failure is None ==> r.result == Ok::<Seq<GameEvent>, ErrorModel>(
                        c.after.events,
                    )
                    &&& c.failure is Some ==> r.result == Err::<Seq<GameEvent>, ErrorModel>(
                        ErrorModel::Effect(c.failure->Some_0),
                    )
                },
            }
        }),
{
    reveal(replacement_choice::choose_reply);
}

/// Tokens of an event that the chosen effect doubles, and no other effect applies to, enter twice as
/// often. Then the game goes on.
pub proof fn doubled_tokens_enter(s: GameModel, e: ProposedModel, index: usize, after: Outcome)
    requires
        s.waiting_for is ReplacementChoice,
        s.pending_replacement == Some(e),
        index < replacement::candidates(s, e).len(),
        replacement::candidates(s, e)[index as int].1 == ReplacementOutcome::Double,
        e is CreateToken,
        e->CreateToken_count <= 0x7fff_ffff,
        s.next_object_id + 2 * e->CreateToken_count <= u64::MAX,
        ({
            let s2 = GameModel { pending_replacement: None, ..s };
            &&& replacement::candidates(
                s2,
                ProposedModel::CreateToken {
                    owner: e->CreateToken_owner,
                    spec: e->CreateToken_spec,
                    enter_tapped: e->CreateToken_enter_tapped,
                    count: (2 * e->CreateToken_count) as u32,
                    applied: e->CreateToken_applied.push(
                        replacement::candidates(s, e)[index as int].0,
                    ),
                },
            ).len() == 0
            &&& after == token::tokens_entered(
                outcome::at(s2, Seq::empty()),
                e->CreateToken_owner,
                e->CreateToken_spec,
                e->CreateToken_enter_tapped,
                (2 * e->CreateToken_count) as nat,
            )
            &&& after.state.pending_continuation is None
        }),
    ensures
        replacement_choice::choose_reply(s, index).result == Ok::<Seq<GameEvent>, ErrorModel>(
            after.events,
        ),
        replacement_choice::choose_reply(s, index).state == (GameModel {
            waiting_for: PromptModel::Priority { player: after.state.priority_player },
            ..after.state
        }),
{
    reveal(replacement_choice::choose_reply);
}

/// Players of a draw that the chosen effect doubles, and no other effect applies to, draw twice as
/// many cards, within their limits.
pub proof fn doubled_draws_happen(s: GameModel, e: ProposedModel, index: usize, after: Outcome)
    requires
        s.waiting_for is ReplacementChoice,
        s.pending_replacement == Some(e),
        index < replacement::candidates(s, e).len(),
        replacement::candidates(s, e)[index as int].1 == ReplacementOutcome::Double,
        e is Draw,
        e->Draw_count <= 0x7fff_ffff,
        ({
            let s2 = GameModel { pending_replacement: None, ..s };
            &&& replacement::candidates(
                s2,
                ProposedModel::Draw {
                    player: e->Draw_player,
                    count: (2 * e->Draw_count) as u32,
                    applied: e->Draw_applied.push(replacement::candidates(s, e)[index as int].0),
                },
            ).len() == 0
            &&& after == draw::drawn_within_limits(
                outcome::at(s2, Seq::empty()),
                e->Draw_player,
                2 * e->Draw_count,
            )
            &&& after.state.pending_continuation is None
        }),
    ensures
        replacement_choice::choose_reply(s, index).result == Ok::<Seq<GameEvent>, ErrorModel>(
            after.events,
        ),
        replacement_choice::choose_reply(s, index).state == (GameModel {
            waiting_for: PromptModel::Priority { player: after.state.priority_player },
            ..after.state
        }),
{
    reveal(replacement_choice::choose_reply);
}

/// Instructions to planeswalk that the chosen effect doubles, and no other effect applies to, are
/// carried out twice as often.
pub proof fn doubled_planeswalks_happen(
    s: GameModel,
    e: ProposedModel,
    index: usize,
    after: Outcome,
)
    requires
        s.waiting_for is ReplacementChoice,
        s.pending_replacement == Some(e),
        index < replacement::candidates(s, e).len(),
        replacement::candidates(s, e)[index as int].1 == ReplacementOutcome::Double,
        e is Planeswalk,
        e->Planeswalk_count <= 0x7fff_ffff,
        ({
            let s2 = GameModel { pending_replacement: None, ..s };
            &&& replacement::candidates(
                s2,
                ProposedModel::Planeswalk {
                    player: e->Planeswalk_player,
                    cause: e->Planeswalk_cause,
                    count: (2 * e->Planeswalk_count) as u32,
                    applied: e->Planeswalk_applied.push(
                        replacement::candidates(s, e)[index as int].0,
                    ),
                },
            ).len() == 0
            &&& after == planechase::planeswalked_times(
                outcome::at(s2, Seq::empty()),
                e->Planeswalk_player,
                e->Planeswalk_cause,
                (2 * e->Planeswalk_count) as nat,
            )
            &&& after.state.pending_continuation is None
        }),
    ensures
        replacement_choice::choose_reply(s, index).result == Ok::<Seq<GameEvent>, ErrorModel>(
            after.events,
        ),
        replacement_choice::choose_reply(s, index).state == (GameModel {
            waiting_for: PromptModel::Priority { player: after.state.priority_player },
            ..after.state
        }),
{
    reveal(replacement_choice::choose_reply);
}

} // verus!
