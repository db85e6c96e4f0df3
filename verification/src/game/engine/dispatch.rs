//! Submitting actions to a game.
use vstd::prelude::*;

use crate::game::engine::auction;
use crate::game::engine::cards;
use crate::game::engine::casting;
use crate::game::engine::modes;
use crate::game::engine::priority;
use crate::game::engine::replacement_choice;
use crate::game::engine::reply;
use crate::game::engine::reply::{EngineError, ErrorModel, Reply};
use crate::game::engine::trigger_order;
use crate::types::action_payloads::{CastPaymentMode, TargetRef};
use crate::types::actions::GameAction;
use crate::types::events::GameEvent;
use crate::types::game_state::{GameModel, GameState};
use crate::types::identifiers::{CardId, ObjectId, PlayerId};
use crate::types::prompts::{PromptModel, WaitingFor};

verus! {

/// What passing brings about: it ends the payment for a spell, leaves triggered abilities in their
/// order, or passes priority.
pub open spec fn passing_reply(s: GameModel, player: PlayerId) -> Reply {
    match s.waiting_for {
        PromptModel::ManaPayment { .. } => casting::settle_reply(s, player),
        PromptModel::OrderTriggers { .. } => trigger_order::keep_reply(s),
        _ => priority::pass_reply(s, player),
    }
}

/// What an action of a player brings about. Only a player whose decision the game waits for may
/// act, and only with an answer to the current prompt.
pub open spec fn action_reply(s: GameModel, player: PlayerId, action: GameAction) -> Reply {
    if !s.waiting_for.actors().contains(player) {
        reply::refused(s, ErrorModel::WrongPlayer)
    } else {
        match action {
            GameAction::PassPriority => passing_reply(s, player),
            GameAction::CastSpell { object_id, card_id, targets, payment_mode } =>
                casting::cast_reply(s, player, object_id, card_id, targets@, payment_mode),
            GameAction::CancelCast => casting::cancel_reply(s),
            GameAction::OrderTriggers { order } => trigger_order::order_reply(s, order@),
            GameAction::DecideOptionalCost { pay } => casting::optional_cost_reply(s, pay),
            GameAction::ChooseGiftRecipient { opponent } => casting::recipient_reply(s, opponent),
            GameAction::SelectCards { cards } => cards::select_reply(s, cards@),
            GameAction::ChooseReplacement { index } => replacement_choice::choose_reply(s, index),
            GameAction::SelectModes { indices } => modes::select_reply(s, indices@),
            GameAction::ChooseTarget { target } => modes::target_reply(s, target),
            GameAction::SubmitPayAmount { amount } => auction::opening_reply(s, player, amount),
            GameAction::SubmitLifeAuctionBid { amount } => auction::bid_reply(s, player, amount),
            GameAction::PassLifeAuction => auction::pass_reply(s),
            _ => reply::refused(s, ErrorModel::WrongPrompt),
        }
    }
}

fn is_actor(state: &GameState, player: PlayerId) -> (r: bool)
    ensures
        r == state@.waiting_for.actors().contains(player),
{
    let actors = state.waiting_for.acting_players();
    let mut i: usize = 0;
    while i < actors.len()
        invariant
            i <= actors.len(),
            actors@ == state@.waiting_for.actors(),
            forall|j: int| 0 <= j < i ==> actors@[j] != player,
        decreases actors.len() - i,
    {
        if actors[i] == player {
            return true;
        }
        i = i + 1;
    }
    false
}

fn pass(state: &mut GameState, player: PlayerId) -> (r: Result<Vec<GameEvent>, EngineError>)
    ensures
        reply::agrees(r, final(state)@, passing_reply(old(state)@, player)),
{
    match &state.waiting_for {
        WaitingFor::ManaPayment { .. } => casting::settle_payment(state, player),
        WaitingFor::OrderTriggers { .. } => trigger_order::keep_order(state),
        _ => priority::pass_priority(state, player),
    }
}

/// Applies an action of a player to the game.
pub fn apply(state: &mut GameState, player: PlayerId, action: GameAction) -> (r: Result<
    Vec<GameEvent>,
    EngineError,
>)
    ensures
        reply::agrees(r, final(state)@, action_reply(old(state)@, player, action)),
{
    if !is_actor(state, player) {
        return Err(EngineError::WrongPlayer);
    }
    match action {
        GameAction::PassPriority => pass(state, player),
        GameAction::CastSpell { object_id, card_id, targets, payment_mode } => casting::cast_spell(
            state,
            player,
            object_id,
            card_id,
            targets,
            payment_mode,
        ),
        GameAction::CancelCast => casting::cancel_cast(state),
        GameAction::OrderTriggers { order } => trigger_order::order_triggers(state, order),
        GameAction::DecideOptionalCost { pay } => casting::decide_optional_cost(state, pay),
        GameAction::ChooseGiftRecipient { opponent } => casting::choose_gift_recipient(
            state,
            opponent,
        ),
        GameAction::SelectCards { cards } => cards::select(state, cards),
        GameAction::ChooseReplacement { index } => replacement_choice::choose_replacement(
            state,
            index,
        ),
        GameAction::SelectModes { indices } => modes::select_modes(state, indices),
        GameAction::ChooseTarget { target } => modes::choose_target(state, target),
        GameAction::SubmitPayAmount { amount } => auction::announce_opening(state, player, amount),
        GameAction::SubmitLifeAuctionBid { amount } => auction::bid(state, player, amount),
        GameAction::PassLifeAuction => auction::pass(state),
        _ => Err(EngineError::WrongPrompt),
    }
}

proof fn lemma_passing(s: GameModel, player: PlayerId)
    ensures
        reply::harmless(s, passing_reply(s, player)),
{
    reveal(priority::pass_reply);
    reveal(casting::settle_reply);
    reveal(casting::finish_reply);
    reveal(trigger_order::keep_reply);
}

proof fn lemma_casting_cancel(s: GameModel)
    ensures
        reply::harmless(s, casting::cancel_reply(s)),
{
    reveal(casting::cancel_reply);
}

proof fn lemma_trigger_order(s: GameModel, order: Seq<usize>)
    ensures
        reply::harmless(s, trigger_order::order_reply(s, order)),
{
    reveal(trigger_order::order_reply);
}

proof fn lemma_casting_cast(
    s: GameModel,
    player: PlayerId,
    id: ObjectId,
    card_id: CardId,
    targets: Seq<ObjectId>,
    payment_mode: CastPaymentMode,
)
    ensures
        reply::harmless(s, casting::cast_reply(s, player, id, card_id, targets, payment_mode)),
{
    reveal(casting::cast_reply);
    reveal(casting::finish_reply);
}

proof fn lemma_casting_optional_cost(s: GameModel, pay: bool)
    ensures
        reply::harmless(s, casting::optional_cost_reply(s, pay)),
{
    reveal(casting::optional_cost_reply);
    reveal(casting::finish_reply);
}

proof fn lemma_casting_recipient(s: GameModel, opponent: PlayerId)
    ensures
        reply::harmless(s, casting::recipient_reply(s, opponent)),
{
    reveal(casting::recipient_reply);
    reveal(casting::finish_reply);
}

proof fn lemma_cards_select(s: GameModel, chosen: Seq<ObjectId>)
    ensures
        reply::harmless(s, cards::select_reply(s, chosen)),
{
    reveal(cards::select_reply);
}

proof fn lemma_replacement_choice_choose(s: GameModel, index: usize)
    ensures
        reply::harmless(s, replacement_choice::choose_reply(s, index)),
{
    reveal(replacement_choice::choose_reply);
}

proof fn lemma_modes_select(s: GameModel, indices: Seq<usize>)
    ensures
        reply::harmless(s, modes::select_reply(s, indices)),
{
    reveal(modes::select_reply);
}

proof fn lemma_modes_target(s: GameModel, target: Option<TargetRef>)
    ensures
        reply::harmless(s, modes::target_reply(s, target)),
{
    reveal(modes::target_reply);
}

proof fn lemma_auction_opening(s: GameModel, player: PlayerId, amount: u32)
    ensures
        reply::harmless(s, auction::opening_reply(s, player, amount)),
{
    reveal(auction::opening_reply);
}

proof fn lemma_auction_bid(s: GameModel, player: PlayerId, amount: u32)
    ensures
        reply::harmless(s, auction::bid_reply(s, player, amount)),
{
    reveal(auction::bid_reply);
}

proof fn lemma_auction_pass(s: GameModel)
    ensures
        reply::harmless(s, auction::pass_reply(s)),
{
    reveal(auction::pass_reply);
}

/// An action that is refused changes nothing; only instructions that fail while they resolve may
/// leave traces.
pub proof fn refused_actions_change_nothing(s: GameModel, player: PlayerId, action: GameAction)
    ensures
        reply::harmless(s, action_reply(s, player, action)),
{
    match action {
        GameAction::PassPriority => lemma_passing(s, player),
        GameAction::CastSpell { object_id, card_id, targets, payment_mode } => lemma_casting_cast(
            s,
            player,
            object_id,
            card_id,
            targets@,
            payment_mode,
        ),
        GameAction::CancelCast => lemma_casting_cancel(s),
        GameAction::OrderTriggers { order } => lemma_trigger_order(s, order@),
        GameAction::DecideOptionalCost { pay } => lemma_casting_optional_cost(s, pay),
        GameAction::ChooseGiftRecipient { opponent } => lemma_casting_recipient(s, opponent),
        GameAction::SelectCards { cards } => lemma_cards_select(s, cards@),
        GameAction::ChooseReplacement { index } => lemma_replacement_choice_choose(s, index),
        GameAction::SelectModes { indices } => lemma_modes_select(s, indices@),
        GameAction::ChooseTarget { target } => lemma_modes_target(s, target),
        GameAction::SubmitPayAmount { amount } => lemma_auction_opening(s, player, amount),
        GameAction::SubmitLifeAuctionBid { amount } => lemma_auction_bid(s, player, amount),
        GameAction::PassLifeAuction => lemma_auction_pass(s),
        _ => {},
    }
}

} // verus!
