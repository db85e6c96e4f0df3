//! What casting a spell and promising a gift does.
use vstd::prelude::*;

use crate::game::effects::round_laws;
use crate::game::engine::casting;
use crate::game::engine::reply::ErrorModel;
use crate::game::mana_payment;
use crate::game::players;
use crate::game::seat_laws;
use crate::types::action_payloads::CastPaymentMode;
use crate::types::card_type::CoreType;
use crate::types::events::GameEvent;
use crate::types::game_state::{GameModel, PendingCastModel};
use crate::types::identifiers::{CardId, ObjectId, PlayerId};
use crate::types::phase::Phase;
use crate::types::prompts::PromptModel;
use crate::types::zones::Zone;

verus! {

/// A cast that is accepted: the game waited for somebody with priority, and the card is the player's
/// own in their hand, an instant or cast in their own main phase with nothing on the stack.
pub proof fn only_cards_in_hand_are_cast(
    s: GameModel,
    player: PlayerId,
    id: ObjectId,
    card_id: CardId,
    targets: Seq<ObjectId>,
    mode: CastPaymentMode,
)
    requires
        casting::cast_reply(s, player, id, card_id, targets, mode).result is Ok,
    ensures
        s.waiting_for is Priority,
        s.objects.contains_key(id),
        s.objects[id].zone == Zone::Hand,
        s.objects[id].owner == player,
        s.objects[id].card_id == card_id,
        (exists|i: int|
            0 <= i < s.objects[id].core_types.len() && #[trigger] s.objects[id].core_types[i]
                == CoreType::Instant) || (s.active_player == player && s.stack.len() == 0 && (s.phase
            == Phase::PreCombatMain || s.phase == Phase::PostCombatMain)),
{
    reveal(casting::cast_reply);
    if s.objects[id].core_types.contains(CoreType::Instant) {
        let i = choose|i: int|
            0 <= i < s.objects[id].core_types.len() && s.objects[id].core_types[i]
                == CoreType::Instant;
        assert(s.objects[id].core_types[i] == CoreType::Instant);
    }
}

/// The spell is on the stack, above what was there, with what was decided while it was cast; its
/// controller has priority, nobody has passed, and nothing is being cast any more.
pub open spec fn is_on_the_stack(s: GameModel, t: GameModel, c: PendingCastModel) -> bool {
    &&& t.stack.len() == s.stack.len() + 1
    &&& t.stack.drop_last() == s.stack
    &&& t.stack.last().source_id == c.object_id
    &&& t.stack.last().controller == c.controller
    &&& t.stack.last().is_spell
    &&& t.stack.last().context == c.context
    &&& (t.stack.last().ability is Some <==> s.objects[c.object_id].spell_ability is Some)
    &&& t.stack.last().ability matches Some(a) ==> {
        &&& a.targets == c.targets
        &&& a.controller == c.controller
        &&& a.source_id == c.object_id
        &&& a.context == c.context
    }
    &&& t.waiting_for == (PromptModel::Priority { player: c.controller })
    &&& t.priority_player == c.controller
    &&& t.consecutive_passes == 0
    &&& t.pending_cast is None
    &&& t.objects.contains_key(c.object_id)
    &&& t.objects[c.object_id].zone == Zone::Stack
    &&& t.objects[c.object_id].controller == c.controller
}

/// Completing a cast puts the spell on the stack if its controller can pay for it, and is refused
/// without any change if not.
pub proof fn completed_casts_are_on_the_stack(s: GameModel, c: PendingCastModel, i: int)
    requires
        round_laws::listed_at(s, c.controller, i),
        s.objects.contains_key(c.object_id),
        s.objects[c.object_id].zone == Zone::Hand,
    ensures
        ({
            let r = casting::finish_reply(s, c);
            if mana_payment::payable(s.players[i].mana, s.objects[c.object_id].mana_cost, 1) {
                &&& r.result == Ok::<Seq<GameEvent>, ErrorModel>(Seq::empty())
                &&& is_on_the_stack(s, r.state, c)
            } else {
                r.state == s && r.result == Err::<Seq<GameEvent>, ErrorModel>(
                    ErrorModel::Unaffordable,
                )
            }
        }),
{
    reveal(casting::finish_reply);
    round_laws::lemma_listed_at(s, c.controller, i);
    let t = casting::spell_cast(s, c);
    assert(t.stack.drop_last() =~= s.stack);
    if let Some(def) = s.objects[c.object_id].spell_ability {
        assert(t.stack.last().ability is Some);
    }
}

/// Only others who are in the game are offered a gift. With one of them it is promised to that one at
/// once; with several the player is asked; without any it cannot be promised.
pub proof fn gifts_are_promised_to_opponents(s: GameModel, c: PendingCastModel)
    requires
        s.waiting_for matches PromptModel::OptionalCostChoice { player, object_id } && player
            == c.controller && object_id == c.object_id,
        s.pending_cast == Some(c),
    ensures
        ({
            let r = casting::optional_cost_reply(s, true);
            let opponents = players::others_alive(s, s.seat_order, c.controller);
            &&& forall|p: PlayerId| #[trigger]
                opponents.contains(p) <==> s.seat_order.contains(p) && p != c.controller
                    && seat_laws::in_game(s, p)
            &&& opponents.len() == 0 ==> r.state == s && r.result == Err::<
                Seq<GameEvent>,
                ErrorModel,
            >(ErrorModel::IllegalChoice)
            &&& opponents.len() > 1 ==> {
                &&& r.result is Ok
                &&& r.state == (GameModel {
                    waiting_for: PromptModel::GiftChooseOpponent {
                        player: c.controller,
                        object_id: c.object_id,
                        opponents,
                    },
                    ..s
                })
            }
            &&& opponents.len() == 1 && c.payment_mode == CastPaymentMode::Manual ==> {
                &&& r.result is Ok
                &&& r.state.waiting_for == (PromptModel::ManaPayment { player: c.controller })
                &&& r.state.pending_cast matches Some(d) && {
                    &&& d.context.additional_cost_paid
                    &&& d.context.gift_recipient == Some(opponents[0])
                    &&& d.object_id == c.object_id
                    &&& d.controller == c.controller
                    &&& d.targets == c.targets
                }
            }
        }),
{
    reveal(casting::optional_cost_reply);
    seat_laws::opponents_are_the_others_in_the_game(s, s.seat_order, c.controller);
}

/// The spell that is cast with a promise carries it: whoever was chosen among the offered opponents is
/// the recipient. Anybody else cannot be chosen.
pub proof fn the_promise_goes_with_the_spell(
    s: GameModel,
    c: PendingCastModel,
    chosen: PlayerId,
    i: int,
)
    requires
        s.waiting_for is GiftChooseOpponent,
        s.pending_cast == Some(c),
        c.payment_mode == CastPaymentMode::Auto,
        round_laws::listed_at(s, c.controller, i),
        s.objects.contains_key(c.object_id),
        s.objects[c.object_id].zone == Zone::Hand,
        mana_payment::payable(s.players[i].mana, s.objects[c.object_id].mana_cost, 1),
    ensures
        ({
            let r = casting::recipient_reply(s, chosen);
            if s.waiting_for->GiftChooseOpponent_opponents.contains(chosen) {
                &&& r.result is Ok
                &&& r.state.stack.len() == s.stack.len() + 1
                &&& r.state.stack.last().source_id == c.object_id
                &&& r.state.stack.last().context.additional_cost_paid
                &&& r.state.stack.last().context.gift_recipient == Some(chosen)
            } else {
                r.state == s && r.result == Err::<Seq<GameEvent>, ErrorModel>(
                    ErrorModel::IllegalChoice,
                )
            }
        }),
{
    reveal(casting::recipient_reply);
    let d = casting::promised_to(c, chosen);
    completed_casts_are_on_the_stack(s, d, i);
}

/// A player who does not promise the gift casts the spell as it was announced.
pub proof fn declined_gifts_are_not_promised(s: GameModel, c: PendingCastModel, i: int)
    requires
        s.waiting_for is OptionalCostChoice,
        s.pending_cast == Some(c),
        c.payment_mode == CastPaymentMode::Auto,
        round_laws::listed_at(s, c.controller, i),
        s.objects.contains_key(c.object_id),
        s.objects[c.object_id].zone == Zone::Hand,
        mana_payment::payable(s.players[i].mana, s.objects[c.object_id].mana_cost, 1),
    ensures
        casting::optional_cost_reply(s, false).result is Ok,
        is_on_the_stack(s, casting::optional_cost_reply(s, false).state, c),
{
    reveal(casting::optional_cost_reply);
    completed_casts_are_on_the_stack(s, c, i);
}

/// A spell that is taken back stays in the hand: nothing changes but that its player has priority.
pub proof fn cancelled_casts_change_nothing(s: GameModel, c: PendingCastModel)
    requires
        s.waiting_for is ManaPayment,
        s.pending_cast == Some(c),
    ensures
        casting::cancel_reply(s).result is Ok,
        casting::cancel_reply(s).state == (GameModel {
            pending_cast: None,
            priority_player: c.controller,
            waiting_for: PromptModel::Priority { player: c.controller },
            ..s
        }),
{
    reveal(casting::cancel_reply);
}

} // verus!
