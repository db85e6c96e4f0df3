//! The actions that a player can take.
use vstd::prelude::*;

use crate::game::engine::casting;
use crate::game::engine::dispatch;
use crate::game::engine::trigger_order;
use crate::game::players;
use crate::types::action_payloads::CastPaymentMode;
use crate::types::actions::GameAction;
use crate::types::game_state::{GameModel, GameState};
use crate::types::identifiers::{ObjectId, PlayerId};
use crate::types::mana_cost::ManaCost;
use crate::types::prompts::{PromptModel, WaitingFor};

verus! {

/// The player can cast the card now.
pub open spec fn can_cast(s: GameModel, player: PlayerId, id: ObjectId) -> bool {
    casting::castable(s, player, id, s.objects[id].card_id) && casting::affordable(s, player, id)
}

/// The cards of a list that a player can cast, in order.
pub open spec fn castable_cards(s: GameModel, player: PlayerId, ids: Seq<ObjectId>) -> Seq<ObjectId>
    decreases ids.len(),
{
    if ids.len() == 0 {
        Seq::empty()
    } else {
        let front = castable_cards(s, player, ids.drop_last());
        if can_cast(s, player, ids.last()) {
            front.push(ids.last())
        } else {
            front
        }
    }
}

pub open spec fn hand_of(s: GameModel, player: PlayerId) -> Seq<ObjectId> {
    let i = players::seat(s, player);
    if i < s.players.len() {
        s.players[i].hand
    } else {
        Seq::empty()
    }
}

/// The action casts a card without targets.
pub open spec fn casts(s: GameModel, action: GameAction, id: ObjectId) -> bool {
    action matches GameAction::CastSpell { object_id, card_id, targets, payment_mode } && object_id
        == id && card_id == s.objects[id].card_id && targets@.len() == 0 && payment_mode
        == CastPaymentMode::Auto
}

/// The action puts triggered abilities in the order in which they lie.
pub open spec fn keeps_order(action: GameAction, count: usize) -> bool {
    action matches GameAction::OrderTriggers { order } && order@ == trigger_order::identity(count)
}

/// Passing is listed: with priority, to leave triggered abilities in their order, and to pay for a
/// spell if there is enough mana.
pub open spec fn may_pass(s: GameModel) -> bool {
    match s.waiting_for {
        PromptModel::Priority { .. } => true,
        PromptModel::OrderTriggers { .. } => true,
        PromptModel::ManaPayment { .. } => casting::can_settle(s),
        _ => false,
    }
}

/// The list holds what the players can do: with priority, to pass and to cast a card from the hand;
/// while a spell is paid for, to end the payment and to take the spell back; for triggered
/// abilities, to leave them in their order; in an auction, to pass and to top the high bid by one.
/// Nothing else is listed.
pub open spec fn lists_actions(s: GameModel, list: Seq<GameAction>) -> bool {
    match s.waiting_for {
        PromptModel::Priority { player } => {
            let cards = castable_cards(s, player, hand_of(s, player));
            &&& list.len() == cards.len() + 1
            &&& list[0] == GameAction::PassPriority
            &&& forall|i: int|
                0 <= i < cards.len() ==> #[trigger] casts(s, list[i + 1], cards[i])
        },
        PromptModel::ManaPayment { .. } => match (casting::can_settle(s), s.pending_cast) {
            (true, Some(_)) => list =~= seq![GameAction::PassPriority, GameAction::CancelCast],
            (true, None) => list =~= seq![GameAction::PassPriority],
            (false, _) => list =~= seq![GameAction::CancelCast],
        },
        PromptModel::OrderTriggers { count, .. } => {
            &&& list.len() == if count <= s.stack.len() {
                2int
            } else {
                1
            }
            &&& list[0] == GameAction::PassPriority
            &&& count <= s.stack.len() ==> keeps_order(list[1], count)
        },
        PromptModel::LifeAuctionBid { high_bid, .. } => if high_bid < u32::MAX {
            list =~= seq![
                GameAction::PassLifeAuction,
                GameAction::SubmitLifeAuctionBid { amount: (high_bid + 1) as u32 },
            ]
        } else {
            list =~= seq![GameAction::PassLifeAuction]
        },
        _ => list.len() == 0,
    }
}

fn is_castable_card(state: &GameState, player: PlayerId, id: ObjectId) -> (r: bool)
    ensures
        r == can_cast(state@, player, id),
{
    match state.objects.get(&id) {
        None => false,
        Some(obj) => casting::is_castable(state, player, id, obj.card_id)
            && casting::is_affordable(state, player, id),
    }
}

fn positions(count: usize) -> (r: Vec<usize>)
    ensures
        r@ == trigger_order::identity(count),
{
    let mut r: Vec<usize> = Vec::new();
    let mut i: usize = 0;
    while i < count
        invariant
            i <= count,
            r@ == trigger_order::identity(count).take(i as int),
        decreases count - i,
    {
        r.push(i);
        i = i + 1;
        assert(r@ =~= trigger_order::identity(count).take(i as int));
    }
    assert(r@ =~= trigger_order::identity(count));
    r
}

/// The actions that the players can take.
pub fn legal_actions(state: &GameState) -> (r: Vec<GameAction>)
    ensures
        lists_actions(state@, r@),
{
    let mut r: Vec<GameAction> = Vec::new();
    match &state.waiting_for {
        WaitingFor::Priority { player } => {
            r.push(GameAction::PassPriority);
            let p: usize = players::find_player(state, *player);
            if p < state.players.len() {
                let hand = &state.players[p].hand;
                let mut i: usize = 0;
                while i < hand.len()
                    invariant
                        i <= hand.len(),
                        r@.len() == castable_cards(state@, *player, hand@.take(i as int)).len()
                            + 1,
                        r@[0] == GameAction::PassPriority,
                        forall|k: int|
                            0 <= k < r@.len() - 1 ==> #[trigger] casts(
                                state@,
                                r@[k + 1],
                                castable_cards(state@, *player, hand@.take(i as int))[k],
                            ),
                    decreases hand.len() - i,
                {
                    assert(hand@.take(i + 1).drop_last() =~= hand@.take(i as int));
                    let id = hand[i];
                    let ghost before = castable_cards(state@, *player, hand@.take(i as int));
                    let ghost listed = r@;
                    if is_castable_card(state, *player, id) {
                        if let Some(obj) = state.objects.get(&id) {
                            r.push(
                                GameAction::CastSpell {
                                    object_id: id,
                                    card_id: obj.card_id,
                                    targets: Vec::new(),
                                    payment_mode: CastPaymentMode::Auto,
                                },
                            );
                        }
                    }
                    i = i + 1;
                    proof {
                        let after = castable_cards(state@, *player, hand@.take(i as int));
                        assert forall|k: int| 0 <= k < r@.len() - 1 implies #[trigger] casts(
                            state@,
                            r@[k + 1],
                            after[k],
                        ) by {
                            if k < before.len() {
                                assert(casts(state@, listed[k + 1], before[k]));
                            }
                        }
                    }
                }
                assert(hand@.take(i as int) =~= hand@);
            }
        },
        WaitingFor::ManaPayment { .. } => {
            if casting::is_payment_covered(state) {
                r.push(GameAction::PassPriority);
            }
            if state.pending_cast.is_some() {
                r.push(GameAction::CancelCast);
            }
        },
        WaitingFor::OrderTriggers { count, .. } => {
            r.push(GameAction::PassPriority);
            assert(state@.stack.len() == state.stack@.len());
            if *count <= state.stack.len() {
                r.push(GameAction::OrderTriggers { order: positions(*count) });
            }
        },
        WaitingFor::LifeAuctionBid { high_bid, .. } => {
            r.push(GameAction::PassLifeAuction);
            if *high_bid < u32::MAX {
                r.push(GameAction::SubmitLifeAuctionBid { amount: *high_bid + 1 });
            }
        },
        _ => {},
    }
    r
}

/// The cards that can be cast, in order of the hand; none without priority.
pub open spec fn cards_to_cast(s: GameModel) -> Seq<ObjectId> {
    match s.waiting_for {
        PromptModel::Priority { player } => castable_cards(s, player, hand_of(s, player)),
        _ => Seq::empty(),
    }
}

/// What the cards that can be cast cost.
pub open spec fn costs_to_cast(s: GameModel) -> Seq<(ObjectId, ManaCost)> {
    let cards = cards_to_cast(s);
    Seq::new(cards.len(), |i: int| (cards[i], s.objects[cards[i]].mana_cost))
}

/// The list holds the actions about each object: each card that can be cast has one.
pub open spec fn groups_actions(s: GameModel, list: Seq<(ObjectId, Vec<GameAction>)>) -> bool {
    let cards = cards_to_cast(s);
    &&& list.len() == cards.len()
    &&& forall|i: int|
        0 <= i < cards.len() ==> (#[trigger] list[i]).0 == cards[i] && list[i].1@.len() == 1
            && casts(s, list[i].1@[0], cards[i])
}

fn find_cards_to_cast(state: &GameState) -> (r: Vec<ObjectId>)
    ensures
        r@ == cards_to_cast(state@),
{
    let mut r: Vec<ObjectId> = Vec::new();
    if let WaitingFor::Priority { player } = &state.waiting_for {
        let p: usize = players::find_player(state, *player);
        if p < state.players.len() {
            let hand = &state.players[p].hand;
            let mut i: usize = 0;
            while i < hand.len()
                invariant
                    i <= hand.len(),
                    r@ == castable_cards(state@, *player, hand@.take(i as int)),
                decreases hand.len() - i,
            {
                assert(hand@.take(i + 1).drop_last() =~= hand@.take(i as int));
                if is_castable_card(state, *player, hand[i]) {
                    r.push(hand[i]);
                }
                i = i + 1;
            }
            assert(hand@.take(i as int) =~= hand@);
        }
    }
    r
}

/// All listed cards can be cast.
proof fn lemma_cards_exist(s: GameModel)
    ensures
        forall|i: int|
            0 <= i < cards_to_cast(s).len() ==> s.objects.contains_key(
                #[trigger] cards_to_cast(s)[i],
            ),
{
    if let PromptModel::Priority { player } = s.waiting_for {
        let hand = hand_of(s, player);
        assert forall|i: int| 0 <= i < cards_to_cast(s).len() implies s.objects.contains_key(
            #[trigger] cards_to_cast(s)[i],
        ) by {
            lemma_castable(s, player, hand, i);
        }
    }
}

/// What the cards that can be cast cost.
pub fn spell_costs(state: &GameState) -> (r: Vec<(ObjectId, ManaCost)>)
    ensures
        r@ == costs_to_cast(state@),
{
    let cards = find_cards_to_cast(state);
    proof {
        lemma_cards_exist(state@);
    }
    let mut r: Vec<(ObjectId, ManaCost)> = Vec::new();
    let mut i: usize = 0;
    while i < cards.len()
        invariant
            i <= cards.len(),
            cards@ == cards_to_cast(state@),
            forall|j: int|
                0 <= j < cards@.len() ==> state@.objects.contains_key(#[trigger] cards@[j]),
            r@ == costs_to_cast(state@).take(i as int),
        decreases cards.len() - i,
    {
        assert(state@.objects.contains_key(cards@[i as int]));
        if let Some(obj) = state.objects.get(&cards[i]) {
            r.push((cards[i], obj.mana_cost));
        }
        i = i + 1;
        assert(r@ =~= costs_to_cast(state@).take(i as int));
    }
    assert(r@ =~= costs_to_cast(state@));
    r
}

/// The actions about each object.
pub fn legal_actions_by_object(state: &GameState) -> (r: Vec<(ObjectId, Vec<GameAction>)>)
    ensures
        groups_actions(state@, r@),
{
    let cards = find_cards_to_cast(state);
    proof {
        lemma_cards_exist(state@);
    }
    let mut r: Vec<(ObjectId, Vec<GameAction>)> = Vec::new();
    let mut i: usize = 0;
    while i < cards.len()
        invariant
            i <= cards.len(),
            cards@ == cards_to_cast(state@),
            forall|j: int|
                0 <= j < cards@.len() ==> state@.objects.contains_key(#[trigger] cards@[j]),
            r@.len() == i,
            forall|j: int|
                0 <= j < i ==> (#[trigger] r@[j]).0 == cards@[j] && r@[j].1@.len() == 1 && casts(
                    state@,
                    r@[j].1@[0],
                    cards@[j],
                ),
        decreases cards.len() - i,
    {
        assert(state@.objects.contains_key(cards@[i as int]));
        if let Some(obj) = state.objects.get(&cards[i]) {
            let cast = GameAction::CastSpell {
                object_id: cards[i],
                card_id: obj.card_id,
                targets: Vec::new(),
                payment_mode: CastPaymentMode::Auto,
            };
            r.push((cards[i], vec![cast]));
        }
        i = i + 1;
    }
    r
}

/// Passing is listed exactly where it is legal.
pub proof fn passing_is_listed(s: GameModel, list: Seq<GameAction>)
    requires
        lists_actions(s, list),
    ensures
        may_pass(s) == list.contains(GameAction::PassPriority),
{
    if may_pass(s) {
        assert(list[0] == GameAction::PassPriority);
    } else {
        assert forall|i: int| 0 <= i < list.len() implies #[trigger] list[i]
            != GameAction::PassPriority by {}
    }
}

/// The action is accepted: it has its effect, unless an instruction fails while it resolves.
pub open spec fn accepted(s: GameModel, player: PlayerId, action: GameAction) -> bool {
    dispatch::action_reply(s, player, action).result matches Err(e) ==> e is Effect
}

/// Whoever is listed as acting can take every listed action.
pub proof fn legal_actions_are_accepted(
    s: GameModel,
    list: Seq<GameAction>,
    player: PlayerId,
    i: int,
)
    requires
        lists_actions(s, list),
        s.waiting_for.actors().contains(player),
        0 <= i < list.len(),
        s.waiting_for matches PromptModel::LifeAuctionBid { round_index, .. } ==> round_index
            < usize::MAX,
    ensures
        accepted(s, player, list[i]),
{
    reveal(crate::game::engine::priority::pass_reply);
    reveal(crate::game::engine::casting::cast_reply);
    reveal(crate::game::engine::casting::finish_reply);
    reveal(crate::game::engine::casting::settle_reply);
    reveal(crate::game::engine::casting::cancel_reply);
    reveal(crate::game::engine::trigger_order::keep_reply);
    reveal(crate::game::engine::trigger_order::order_reply);
    reveal(crate::game::engine::auction::pass_reply);
    reveal(crate::game::engine::auction::bid_reply);
    match s.waiting_for {
        PromptModel::Priority { player: p } => {
            assert(player == p);
            let cards = castable_cards(s, p, hand_of(s, p));
            if i > 0 {
                assert(casts(s, list[(i - 1) + 1], cards[i - 1]));
                lemma_castable(s, p, hand_of(s, p), i - 1);
            }
        },
        PromptModel::OrderTriggers { count, .. } => {
            if i == 1 {
                assert(keeps_order(list[1], count));
                assert(trigger_order::is_order(trigger_order::identity(count), count));
            }
        },
        _ => {},
    }
}

proof fn lemma_castable(s: GameModel, player: PlayerId, ids: Seq<ObjectId>, k: int)
    requires
        0 <= k < castable_cards(s, player, ids).len(),
    ensures
        can_cast(s, player, castable_cards(s, player, ids)[k]),
    decreases ids.len(),
{
    if ids.len() > 0 {
        let front = castable_cards(s, player, ids.drop_last());
        if k < front.len() {
            lemma_castable(s, player, ids.drop_last(), k);
        }
    }
}

} // verus!
