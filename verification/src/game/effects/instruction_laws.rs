//! What single instructions do to the game.
use vstd::prelude::*;

use crate::game::effects::basic;
use crate::game::effects::bidding_laws;
use crate::game::effects::life;
use crate::game::effects::round_laws;
use crate::game::filter;
use crate::game::outcome::Outcome;
use crate::game::quantity;
use crate::game::zones;
use crate::types::ability::AbilityModel;
use crate::types::action_payloads::TargetRef;
use crate::types::events::GameEvent;
use crate::types::game_state::{GameModel, StackModel};
use crate::types::identifiers::{ObjectId, PlayerId};
use crate::types::player::PlayerModel;
use crate::types::prompts::PromptModel;
use crate::types::quantity::{QuantityExpr, QuantityRef};
use crate::types::target_filter::{ControllerRef, TargetFilter};
use crate::types::zones::Zone;

verus! {

/// A change of life changes the life total of the one player by as much, up to the largest and down
/// to the smallest number that a life total can be, and is reported with the new total. Without a
/// change nothing happens.
pub proof fn life_changes_by_as_much(o: Outcome, player: PlayerId, delta: int, i: int)
    requires
        round_laws::listed_at(o.state, player, i),
    ensures
        ({
            let after = life::life_changed(o, player, delta);
            let sum = o.state.players[i].life + delta;
            if delta == 0 {
                after == o
            } else {
                &&& after.state == (GameModel {
                    players: o.state.players.update(
                        i,
                        PlayerModel { life: after.state.players[i].life, ..o.state.players[i] },
                    ),
                    ..o.state
                })
                &&& i32::MIN <= sum <= i32::MAX ==> after.state.players[i].life == sum
                &&& sum > i32::MAX ==> after.state.players[i].life == i32::MAX
                &&& sum < i32::MIN ==> after.state.players[i].life == i32::MIN
                &&& after.events == o.events.push(
                    GameEvent::LifeChanged {
                        player_id: player,
                        life: after.state.players[i].life,
                    },
                )
            }
        }),
{
    round_laws::lemma_listed_at(o.state, player, i);
}

/// The player is the first one among the targets.
pub open spec fn is_first_player(targets: Seq<TargetRef>, p: PlayerId) -> bool {
    exists|k: int|
        #![trigger targets[k]]
        0 <= k < targets.len() && targets[k] == TargetRef::Player(p) && (forall|j: int|
            0 <= j < k ==> !(#[trigger] targets[j] is Player))
}

proof fn lemma_first_player(targets: Seq<TargetRef>, p: PlayerId)
    ensures
        (filter::first_player(targets) == Some(p)) == is_first_player(targets, p),
    decreases targets.len(),
{
    if targets.len() > 0 {
        let rest = targets.drop_first();
        lemma_first_player(rest, p);
        if targets[0] is Player {
            if is_first_player(targets, p) {
                let k = choose|k: int|
                    #![trigger targets[k]]
                    0 <= k < targets.len() && targets[k] == TargetRef::Player(p) && (forall|j: int|
                        0 <= j < k ==> !(#[trigger] targets[j] is Player));
                if k > 0 {
                    assert(!(targets[0] is Player));
                }
            }
        } else {
            if is_first_player(rest, p) {
                let k = choose|k: int|
                    #![trigger rest[k]]
                    0 <= k < rest.len() && rest[k] == TargetRef::Player(p) && (forall|j: int|
                        0 <= j < k ==> !(#[trigger] rest[j] is Player));
                assert(targets[k + 1] == TargetRef::Player(p));
                assert forall|j: int| 0 <= j < k + 1 implies !(#[trigger] targets[j] is Player) by {
                    if j > 0 {
                        assert(!(rest[j - 1] is Player));
                    }
                }
            }
            if is_first_player(targets, p) {
                let k = choose|k: int|
                    #![trigger targets[k]]
                    0 <= k < targets.len() && targets[k] == TargetRef::Player(p) && (forall|j: int|
                        0 <= j < k ==> !(#[trigger] targets[j] is Player));
                assert(rest[k - 1] == TargetRef::Player(p));
                assert forall|j: int| 0 <= j < k - 1 implies !(#[trigger] rest[j] is Player) by {
                    assert(!(targets[j + 1] is Player));
                }
            }
        }
    }
}

/// Whom a reference to a player means: "you" is the controller, the active player the one whose turn
/// it is, the target player the first player among the targets, and the controller of the target the
/// one who controls the first object among them. "An opponent" means nobody in particular.
pub proof fn whom_references_mean(
    s: GameModel,
    controller: Option<PlayerId>,
    targets: Seq<TargetRef>,
    p: PlayerId,
)
    ensures
        filter::named_player(s, controller, targets, ControllerRef::You) == controller,
        filter::named_player(s, controller, targets, ControllerRef::ActivePlayer) == Some(
            s.active_player,
        ),
        filter::named_player(s, controller, targets, ControllerRef::Opponent) is None,
        filter::named_player(s, controller, targets, ControllerRef::TargetPlayer) == Some(p)
            <==> is_first_player(targets, p),
        filter::named_player(s, controller, targets, ControllerRef::ParentTargetController) == Some(
            p,
        ) <==> exists|id: ObjectId| #[trigger]
            bidding_laws::is_first_object(targets, id) && s.objects.contains_key(id)
                && s.objects[id].controller == p,
{
    lemma_first_player(targets, p);
    let first = filter::first_object(targets);
    if first is Some {
        bidding_laws::lemma_first_object(targets, first->Some_0);
    }
    assert forall|x: ObjectId| #[trigger] bidding_laws::is_first_object(targets, x) implies first
        == Some(x) by {
        bidding_laws::lemma_first_object(targets, x);
    }
}

/// Whom and what an instruction applies to.
pub proof fn whom_instructions_apply_to(s: GameModel, a: AbilityModel, p: PlayerId, id: ObjectId)
    ensures
        basic::player_of(s, a, TargetFilter::Controller) == Some(a.controller),
        basic::player_of(s, a, TargetFilter::Player) == Some(p) <==> is_first_player(a.targets, p),
        basic::player_of(s, a, TargetFilter::ParentTarget) == Some(p) <==> is_first_player(
            a.targets,
            p,
        ),
        basic::player_of(s, a, TargetFilter::WinningBidder) == Some(p) <==> (
        s.last_life_auction matches Some(auction) && auction.0 == p),
        basic::object_of(a, TargetFilter::SelfRef) == Some(a.source_id),
        basic::object_of(a, TargetFilter::ParentTarget) == Some(id)
            <==> bidding_laws::is_first_object(a.targets, id),
{
    lemma_first_player(a.targets, p);
    bidding_laws::lemma_first_object(a.targets, id);
}

/// The numbers that instructions read: a fixed one, the winning bid, how often a cost was paid, the
/// size of the controller's hand.
pub proof fn what_quantities_are(s: GameModel, controller: PlayerId, n: i32, i: int)
    requires
        round_laws::listed_at(s, controller, i),
        s.players[i].hand.len() <= u32::MAX,
    ensures
        quantity::quantity(s, controller, QuantityExpr::Fixed { value: n }) == n,
        s.last_life_auction matches Some(auction) ==> quantity::quantity(
            s,
            controller,
            QuantityExpr::Ref { qty: QuantityRef::WinningBidAmount },
        ) == auction.1,
        s.repeated_payment matches Some(frame) ==> quantity::quantity(
            s,
            controller,
            QuantityExpr::Ref { qty: QuantityRef::TimesCostPaidThisResolution },
        ) == frame.optional_cost_payments_this_resolution,
        quantity::quantity(s, controller, QuantityExpr::Ref { qty: QuantityRef::HandSize })
            == s.players[i].hand.len(),
{
    round_laws::lemma_listed_at(s, controller, i);
}

/// A player who scries looks at as many cards from the top of their library as they are to, or at all
/// of them if there are fewer.
pub proof fn scrying_looks_at_the_top(s: GameModel, player: PlayerId, count: int, i: int)
    requires
        round_laws::listed_at(s, player, i),
        count > 0,
    ensures
        ({
            let t = basic::scry_started(s, player, count);
            let library = s.players[i].library;
            if library.len() == 0 {
                t == s
            } else {
                &&& t == (GameModel { waiting_for: t.waiting_for, ..s })
                &&& t.waiting_for matches PromptModel::ScryChoice { player: p, cards } && {
                    &&& p == player
                    &&& cards.len() == if count < library.len() {
                        count
                    } else {
                        library.len() as int
                    }
                    &&& forall|k: int| 0 <= k < cards.len() ==> #[trigger] cards[k] == library[k]
                }
            }
        }),
{
    round_laws::lemma_listed_at(s, player, i);
}

/// A player with more cards than they are to discard is asked which.
pub proof fn large_hands_choose_discards(s: GameModel, player: PlayerId, count: int, i: int)
    requires
        round_laws::listed_at(s, player, i),
        0 < count < s.players[i].hand.len(),
        count <= usize::MAX,
    ensures
        basic::discard_started(s, player, count) == (GameModel {
            waiting_for: PromptModel::DiscardChoice { player, count: count as usize },
            ..s
        }),
{
    round_laws::lemma_listed_at(s, player, i);
}

/// The spell of an object is the first one on the stack, counted from the bottom.
pub open spec fn first_spell_at(stack: Seq<StackModel>, id: ObjectId, k: int) -> bool {
    &&& 0 <= k < stack.len()
    &&& stack[k].is_spell
    &&& stack[k].source_id == id
    &&& forall|j: int|
        0 <= j < k ==> !((#[trigger] stack[j]).is_spell && stack[j].source_id == id)
}

proof fn lemma_spell_index(stack: Seq<StackModel>, id: ObjectId, from: int, k: int)
    requires
        0 <= from <= k <= stack.len(),
        forall|j: int|
            from <= j < k ==> !((#[trigger] stack[j]).is_spell && stack[j].source_id == id),
        k < stack.len() ==> stack[k].is_spell && stack[k].source_id == id,
    ensures
        basic::spell_index(stack, id, from) == k,
    decreases k - from,
{
    if from < k {
        assert(!(stack[from].is_spell && stack[from].source_id == id));
        lemma_spell_index(stack, id, from + 1, k);
    }
}

/// A countered spell leaves the stack, the other entries stay in order, and its card goes to the
/// graveyard. What is no spell on the stack cannot be countered.
pub proof fn countered_spells_leave_the_stack(o: Outcome, id: ObjectId, k: int)
    ensures
        first_spell_at(o.state.stack, id, k) ==> {
            let after = basic::countered(o, id);
            &&& after.state.stack == o.state.stack.remove(k)
            &&& o.state.objects.contains_key(id) ==> after.state.objects[id].zone == Zone::Graveyard
            &&& after.events == o.events.push(GameEvent::SpellCountered { object_id: id })
        },
        (forall|j: int|
            0 <= j < o.state.stack.len() ==> !((#[trigger] o.state.stack[j]).is_spell
                && o.state.stack[j].source_id == id)) ==> basic::countered(o, id) == o,
{
    if first_spell_at(o.state.stack, id, k) {
        lemma_spell_index(o.state.stack, id, 0, k);
        lemma_moving_keeps_the_stack(
            GameModel { stack: o.state.stack.remove(k), ..o.state },
            id,
            Zone::Graveyard,
        );
    }
    if forall|j: int|
        0 <= j < o.state.stack.len() ==> !((#[trigger] o.state.stack[j]).is_spell
            && o.state.stack[j].source_id == id) {
        lemma_spell_index(o.state.stack, id, 0, o.state.stack.len() as int);
    }
}

proof fn lemma_moving_keeps_the_stack(s: GameModel, id: ObjectId, to: Zone)
    ensures
        zones::moved(s, id, to).stack == s.stack,
        s.objects.contains_key(id) ==> zones::moved(s, id, to).objects.contains_key(id)
            && zones::moved(s, id, to).objects[id].zone == to,
{
}

} // verus!
