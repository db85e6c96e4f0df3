//! Which actions are listed.
use vstd::prelude::*;

use crate::game::effects::round_laws;
use crate::game::engine::casting;
use crate::game::legal_actions;
use crate::types::action_payloads::CastPaymentMode;
use crate::types::actions::GameAction;
use crate::types::game_state::GameModel;
use crate::types::identifiers::{ObjectId, PlayerId};
use crate::types::prompts::PromptModel;

verus! {

proof fn lemma_castable_listed(s: GameModel, player: PlayerId, ids: Seq<ObjectId>, id: ObjectId)
    ensures
        legal_actions::castable_cards(s, player, ids).contains(id) <==> ids.contains(id)
            && legal_actions::can_cast(s, player, id),
    decreases ids.len(),
{
    let all = legal_actions::castable_cards(s, player, ids);
    if ids.len() > 0 {
        let before = ids.drop_last();
        let last = ids.last();
        lemma_castable_listed(s, player, before, id);
        let front = legal_actions::castable_cards(s, player, before);
        assert(ids.contains(id) <==> before.contains(id) || id == last) by {
            assert(ids[ids.len() - 1] == last);
            if before.contains(id) {
                let k = choose|k: int| 0 <= k < before.len() && before[k] == id;
                assert(ids[k] == id);
            }
            if ids.contains(id) && id != last {
                let k = choose|k: int| 0 <= k < ids.len() && ids[k] == id;
                assert(before[k] == id);
            }
        }
        if legal_actions::can_cast(s, player, last) {
            assert(all[front.len() as int] == last);
            if front.contains(id) {
                let k = choose|k: int| 0 <= k < front.len() && front[k] == id;
                assert(all[k] == id);
            }
            if all.contains(id) && id != last {
                let k = choose|k: int| 0 <= k < all.len() && all[k] == id;
                assert(front[k] == id);
            }
        }
    }
}

/// A player with priority is offered to cast a card from their hand exactly if they may cast it now
/// and can pay for it.
pub proof fn playable_cards_are_listed(
    s: GameModel,
    list: Seq<GameAction>,
    player: PlayerId,
    id: ObjectId,
    i: int,
)
    requires
        legal_actions::lists_actions(s, list),
        s.waiting_for == (PromptModel::Priority { player }),
        round_laws::listed_at(s, player, i),
        s.players[i].hand.contains(id),
    ensures
        (exists|k: int|
            0 <= k < list.len() && (#[trigger] list[k] matches GameAction::CastSpell {
                object_id,
                ..
            } && object_id == id)) <==> casting::castable(s, player, id, s.objects[id].card_id)
            && casting::affordable(s, player, id),
{
    round_laws::lemma_listed_at(s, player, i);
    let hand = s.players[i].hand;
    let cards = legal_actions::castable_cards(s, player, hand);
    lemma_castable_listed(s, player, hand, id);
    if cards.contains(id) {
        let k = choose|k: int| 0 <= k < cards.len() && cards[k] == id;
        assert(legal_actions::casts(s, list[k + 1], cards[k]));
    }
    if exists|k: int|
        0 <= k < list.len() && (#[trigger] list[k] matches GameAction::CastSpell { object_id, .. }
            && object_id == id) {
        let k = choose|k: int|
            0 <= k < list.len() && (#[trigger] list[k] matches GameAction::CastSpell {
                object_id,
                ..
            } && object_id == id);
        assert(k > 0);
        assert(legal_actions::casts(s, list[(k - 1) + 1], cards[k - 1]));
        assert(cards[k - 1] == id);
    }
}

/// With priority only passing and casting are listed, and the listed way to cast a card names no
/// targets and leaves the payment to the game.
pub proof fn priority_lists_passing_and_casting(
    s: GameModel,
    list: Seq<GameAction>,
    player: PlayerId,
    k: int,
)
    requires
        legal_actions::lists_actions(s, list),
        s.waiting_for == (PromptModel::Priority { player }),
        0 <= k < list.len(),
    ensures
        list[k] == GameAction::PassPriority || (list[k] matches GameAction::CastSpell {
            object_id,
            card_id,
            targets,
            payment_mode,
        } && card_id == s.objects[object_id].card_id && targets@.len() == 0 && payment_mode
            == CastPaymentMode::Auto),
{
    let cards = legal_actions::castable_cards(s, player, legal_actions::hand_of(s, player));
    if k > 0 {
        assert(legal_actions::casts(s, list[(k - 1) + 1], cards[k - 1]));
    }
}

/// A bidder may pass, or top the high bid by one as far as that can be counted.
pub proof fn bidders_may_pass_or_top_the_bid(s: GameModel, list: Seq<GameAction>, amount: u32)
    requires
        legal_actions::lists_actions(s, list),
        s.waiting_for is LifeAuctionBid,
    ensures
        list.contains(GameAction::PassLifeAuction),
        list.contains(GameAction::SubmitLifeAuctionBid { amount }) <==> amount
            == s.waiting_for->LifeAuctionBid_high_bid + 1,
        list.len() <= 2,
{
    assert(list[0] == GameAction::PassLifeAuction);
    let high = s.waiting_for->LifeAuctionBid_high_bid;
    if high < u32::MAX {
        assert(list[1] == GameAction::SubmitLifeAuctionBid { amount: (high + 1) as u32 });
    }
}

/// While a spell is paid for, a player may take it back, and may end the payment if it can be ended.
pub proof fn payers_may_pay_or_cancel(s: GameModel, list: Seq<GameAction>)
    requires
        legal_actions::lists_actions(s, list),
        s.waiting_for is ManaPayment,
    ensures
        list.contains(GameAction::PassPriority) <==> casting::can_settle(s),
        list.contains(GameAction::CancelCast) <==> s.pending_cast is Some || !casting::can_settle(s),
{
    if casting::can_settle(s) {
        assert(list[0] == GameAction::PassPriority);
        if s.pending_cast is Some {
            assert(list[1] == GameAction::CancelCast);
        }
    } else {
        assert(list[0] == GameAction::CancelCast);
    }
}

/// Where cards, modes, targets, amounts or replacement effects are chosen, no action is listed.
pub proof fn choices_are_not_listed(s: GameModel, list: Seq<GameAction>)
    requires
        legal_actions::lists_actions(s, list),
        s.waiting_for is ScryChoice || s.waiting_for is DiscardChoice
            || s.waiting_for is ReplacementChoice || s.waiting_for is AbilityModeChoice
            || s.waiting_for is TriggerTargetSelection || s.waiting_for is PayAmountChoice
            || s.waiting_for is GameOver,
    ensures
        list.len() == 0,
{
}

/// The actions about objects: with priority there is one for each card that can be cast, and its cost
/// is the printed one. Without priority there are none.
pub proof fn castable_cards_are_grouped(
    s: GameModel,
    list: Seq<(ObjectId, Vec<GameAction>)>,
    k: int,
)
    requires
        legal_actions::groups_actions(s, list),
    ensures
        !(s.waiting_for is Priority) ==> list.len() == 0,
        0 <= k < list.len() ==> list[k].1@.len() == 1 && (list[k].1@[0] matches
            GameAction::CastSpell { object_id, .. } && object_id == list[k].0),
        legal_actions::costs_to_cast(s).len() == list.len(),
        0 <= k < list.len() ==> legal_actions::costs_to_cast(s)[k] == (
            list[k].0,
            s.objects[list[k].0].mana_cost,
        ),
{
}

/// A card of the hand is among those with actions exactly if it can be cast and paid for.
pub proof fn castable_cards_have_a_group(
    s: GameModel,
    list: Seq<(ObjectId, Vec<GameAction>)>,
    player: PlayerId,
    id: ObjectId,
    i: int,
)
    requires
        legal_actions::groups_actions(s, list),
        s.waiting_for == (PromptModel::Priority { player }),
        round_laws::listed_at(s, player, i),
        s.players[i].hand.contains(id),
    ensures
        (exists|k: int| 0 <= k < list.len() && (#[trigger] list[k]).0 == id) <==> casting::castable(
            s,
            player,
            id,
            s.objects[id].card_id,
        ) && casting::affordable(s, player, id),
{
    round_laws::lemma_listed_at(s, player, i);
    let cards = legal_actions::castable_cards(s, player, s.players[i].hand);
    lemma_castable_listed(s, player, s.players[i].hand, id);
    if cards.contains(id) {
        let k = choose|k: int| 0 <= k < cards.len() && cards[k] == id;
        assert(list[k].0 == id);
    }
    if exists|k: int| 0 <= k < list.len() && (#[trigger] list[k]).0 == id {
        let k = choose|k: int| 0 <= k < list.len() && (#[trigger] list[k]).0 == id;
        assert(cards[k] == id);
    }
}

} // verus!
