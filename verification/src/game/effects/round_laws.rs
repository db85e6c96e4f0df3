//! What a decision in a life auction does to the prompt, and what the payoff does to the game.
use vstd::prelude::*;

use crate::game::effects::auction_laws;
use crate::game::effects::bidding_laws;
use crate::game::effects::chain;
use crate::game::effects::chain::ChainOutcome;
use crate::game::effects::life_auction;
use crate::game::effects::life_auction::RoundModel;
use crate::game::engine::auction;
use crate::game::engine::reply::{ErrorModel, Reply};
use crate::game::game_object::ObjectModel;
use crate::game::outcome;
use crate::game::outcome::Outcome;
use crate::game::players;
use crate::game::seat_laws;
use crate::types::ability::{
    AbilityCondition, AbilityModel, Effect, EffectKind, LifeAuctionParticipants,
};
use crate::types::action_payloads::TargetRef;
use crate::types::events::GameEvent;
use crate::types::game_state::GameModel;
use crate::types::identifiers::{ObjectId, PlayerId};
use crate::types::player::PlayerModel;
use crate::types::prompts::{PayableResource, PromptModel};
use crate::types::quantity::{QuantityExpr, QuantityRef};
use crate::types::target_filter::{ControllerRef, TargetFilter};

verus! {

/// The round of bidding that a game waits in: somebody of those who bid is asked.
pub open spec fn bidding(s: GameModel) -> bool {
    s.waiting_for matches PromptModel::LifeAuctionBid {
        participants,
        round_index,
        passes_since_raise,
        ..
    } && {
        &&& 0 < participants.len() <= u32::MAX
        &&& round_index < participants.len()
        &&& passes_since_raise < u32::MAX
    }
}

/// Who is asked after the one in a place, among `n`.
pub open spec fn next_place(k: int, n: int) -> int {
    if k + 1 == n {
        0
    } else {
        k + 1
    }
}

/// The game asks the next one of those who bid, with this high bid, and is the same otherwise.
pub open spec fn asks_next(
    s: GameModel,
    r: Reply,
    bid: u32,
    bidder: PlayerId,
    passes: int,
) -> bool {
    let list = s.waiting_for->LifeAuctionBid_participants;
    let next = next_place(s.waiting_for->LifeAuctionBid_round_index as int, list.len() as int);
    &&& r.result matches Ok(events) && events.len() == 0
    &&& r.state == (GameModel { waiting_for: r.state.waiting_for, ..s })
    &&& r.state.waiting_for matches PromptModel::LifeAuctionBid {
        player,
        participants,
        round_index,
        high_bid,
        high_bidder,
        passes_since_raise,
        controller,
        source_id,
    } && {
        &&& player == list[next]
        &&& participants == list
        &&& round_index == next
        &&& high_bid == bid
        &&& high_bidder == bidder
        &&& passes_since_raise == passes
        &&& controller == s.waiting_for->LifeAuctionBid_controller
        &&& source_id == s.waiting_for->LifeAuctionBid_source_id
    }
}

/// An auction without a payoff is over: the game knows who won it at which bid, its controller has
/// priority, and the end of the auction is reported.
pub open spec fn is_over(s: GameModel, r: Reply, bid: u32, winner: PlayerId) -> bool {
    let source_id = s.waiting_for->LifeAuctionBid_source_id;
    &&& r.result matches Ok(events) && events == seq![
        GameEvent::EffectResolved { kind: EffectKind::LifeAuction, source_id, subject: None },
    ]
    &&& r.state == (GameModel {
        waiting_for: PromptModel::Priority { player: s.waiting_for->LifeAuctionBid_controller },
        last_life_auction: Some((winner, bid)),
        ..s
    })
}

proof fn lemma_next_place(k: int, n: int)
    requires
        0 <= k < n,
    ensures
        (k + 1) % n == next_place(k, n),
        next_place(k, n) % n == next_place(k, n),
{
    if k + 1 == n {
        assert(n % n == 0) by (nonlinear_arith)
            requires
                n > 0,
        ;
        assert(0int % n == 0) by (nonlinear_arith)
            requires
                n > 0,
        ;
    } else {
        assert((k + 1) % n == k + 1) by (nonlinear_arith)
            requires
                0 <= k + 1 < n,
        ;
    }
}

/// A pass: as long as somebody besides the high bidder has not passed since the last raise, the next
/// one is asked, at the same high bid. When all of them have, the high bidder has won.
pub proof fn what_a_pass_does(s: GameModel)
    requires
        bidding(s),
        s.pending_continuation is None,
    ensures
        ({
            let r = auction::pass_reply(s);
            let n = s.waiting_for->LifeAuctionBid_participants.len();
            let bid = s.waiting_for->LifeAuctionBid_high_bid;
            let bidder = s.waiting_for->LifeAuctionBid_high_bidder;
            let passes = s.waiting_for->LifeAuctionBid_passes_since_raise + 1;
            if passes < n - 1 {
                asks_next(s, r, bid, bidder, passes)
            } else {
                is_over(s, r, bid, bidder)
            }
        }),
{
    reveal(auction::pass_reply);
    let n = s.waiting_for->LifeAuctionBid_participants.len() as int;
    lemma_next_place(s.waiting_for->LifeAuctionBid_round_index as int, n);
    assert(Seq::<GameEvent>::empty().push(
        life_auction::auction_report(s.waiting_for->LifeAuctionBid_source_id),
    ) =~= seq![life_auction::auction_report(s.waiting_for->LifeAuctionBid_source_id)]);
}

/// A bid that tops the high bid is the high bid, of whoever made it, and nobody has passed since;
/// the next one is asked, or the bidder has won if nobody else bids. Any other bid is refused and
/// changes nothing.
pub proof fn what_a_bid_does(s: GameModel, player: PlayerId, amount: u32)
    requires
        bidding(s),
        s.pending_continuation is None,
    ensures
        ({
            let r = auction::bid_reply(s, player, amount);
            if amount <= s.waiting_for->LifeAuctionBid_high_bid {
                r.state == s && r.result == Err::<Seq<GameEvent>, ErrorModel>(
                    ErrorModel::IllegalChoice,
                )
            } else if s.waiting_for->LifeAuctionBid_participants.len() > 1 {
                asks_next(s, r, amount, player, 0)
            } else {
                is_over(s, r, amount, player)
            }
        }),
{
    reveal(auction::bid_reply);
    let n = s.waiting_for->LifeAuctionBid_participants.len() as int;
    lemma_next_place(s.waiting_for->LifeAuctionBid_round_index as int, n);
    assert(Seq::<GameEvent>::empty().push(
        life_auction::auction_report(s.waiting_for->LifeAuctionBid_source_id),
    ) =~= seq![life_auction::auction_report(s.waiting_for->LifeAuctionBid_source_id)]);
}

/// Nobody can pass or bid while the game waits for something else.
pub proof fn no_bidding_at_other_prompts(s: GameModel, player: PlayerId, amount: u32)
    requires
        !(s.waiting_for is LifeAuctionBid),
    ensures
        auction::pass_reply(s).state == s,
        auction::pass_reply(s).result == Err::<Seq<GameEvent>, ErrorModel>(ErrorModel::WrongPrompt),
        auction::bid_reply(s, player, amount).state == s,
        auction::bid_reply(s, player, amount).result == Err::<Seq<GameEvent>, ErrorModel>(
            ErrorModel::WrongPrompt,
        ),
{
    reveal(auction::pass_reply);
    reveal(auction::bid_reply);
}

/// The announced opening bid, between the offered bounds, is the high bid of whoever announced it;
/// the second of those who bid is asked, if there is one. A bid out of bounds is refused.
pub proof fn what_an_opening_bid_does(s: GameModel, player: PlayerId, amount: u32)
    requires
        s.waiting_for matches PromptModel::PayAmountChoice { resource, .. } && resource
            == PayableResource::Life,
        s.pending_life_auction_participants matches Some(list) && 0 < list.len() <= usize::MAX,
    ensures
        ({
            let r = auction::opening_reply(s, player, amount);
            let list = s.pending_life_auction_participants->Some_0;
            let place: int = if list.len() == 1 {
                0
            } else {
                1
            };
            if s.waiting_for->PayAmountChoice_min <= amount
                <= s.waiting_for->PayAmountChoice_max && amount <= i32::MAX {
                &&& r.result matches Ok(events) && events.len() == 0
                &&& r.state == (GameModel {
                    waiting_for: r.state.waiting_for,
                    pending_life_auction_participants: None,
                    last_effect_count: Some(amount as i32),
                    ..s
                })
                &&& r.state.waiting_for matches PromptModel::LifeAuctionBid {
                    player: asked,
                    participants,
                    round_index,
                    high_bid,
                    high_bidder,
                    passes_since_raise,
                    controller,
                    source_id,
                } && {
                    &&& asked == list[place]
                    &&& participants == list
                    &&& round_index == place
                    &&& high_bid == amount
                    &&& high_bidder == player
                    &&& passes_since_raise == 0
                    &&& controller == player
                    &&& source_id == s.waiting_for->PayAmountChoice_source_id
                }
            } else {
                r.state == s && r.result == Err::<Seq<GameEvent>, ErrorModel>(
                    ErrorModel::IllegalChoice,
                )
            }
        }),
{
    reveal(auction::opening_reply);
    let n = s.pending_life_auction_participants->Some_0.len() as int;
    assert(1int % n == if n == 1 {
        0int
    } else {
        1
    }) by (nonlinear_arith)
        requires
            n > 0,
    ;
}

/// The player is the first one listed under their name.
pub open spec fn listed_at(s: GameModel, p: PlayerId, i: int) -> bool {
    &&& 0 <= i < s.players.len()
    &&& s.players[i].id == p
    &&& forall|j: int| 0 <= j < i ==> (#[trigger] s.players[j]).id != p
}

pub proof fn lemma_listed_at(s: GameModel, p: PlayerId, i: int)
    requires
        listed_at(s, p, i),
    ensures
        players::seat(s, p) == i,
{
    players::lemma_player_index(s.players, p, 0);
    let k = players::seat(s, p);
    if k < i {
        assert(s.players[k].id != p);
    }
}

/// Only the life total of the player in a place changed.
pub open spec fn only_life_changed(s: GameModel, t: GameModel, i: int) -> bool {
    t == (GameModel {
        players: s.players.update(i, PlayerModel { life: t.players[i].life, ..s.players[i] }),
        ..s
    })
}

/// The payoff of an auction that says that the winner loses the winning bid takes exactly the bid
/// from the winner's life total, and changes nothing else.
pub proof fn the_winner_pays_the_bid(
    o: Outcome,
    a: AbilityModel,
    winner: PlayerId,
    bid: u32,
    i: int,
)
    requires
        a.effect == (Effect::LoseLife {
            amount: QuantityExpr::Ref { qty: QuantityRef::WinningBidAmount },
            target: Some(TargetFilter::WinningBidder),
        }),
        o.state.last_life_auction == Some((winner, bid)),
        listed_at(o.state, winner, i),
        o.state.players[i].life - bid >= i32::MIN,
    ensures
        chain::effect_done(o, a) matches Ok(after) && {
            &&& only_life_changed(o.state, after.state, i)
            &&& after.state.players[i].life == o.state.players[i].life - bid
        },
{
    reveal(chain::effect_done);
    lemma_listed_at(o.state, winner, i);
    let after = chain::effect_done(o, a)->Ok_0;
    if bid == 0 {
        assert(o.state.players.update(i, o.state.players[i]) =~= o.state.players);
    }
}

/// The payoff that hands over the targeted creature gives it to the winner, and changes nothing
/// else of it.
pub proof fn the_winner_gets_the_creature(
    o: Outcome,
    a: AbilityModel,
    winner: PlayerId,
    bid: u32,
    id: ObjectId,
)
    requires
        a.effect == (Effect::GiveControl {
            target: TargetFilter::ParentTarget,
            recipient: TargetFilter::WinningBidder,
        }),
        o.state.last_life_auction == Some((winner, bid)),
        bidding_laws::is_first_object(a.targets, id),
        o.state.objects.contains_key(id),
    ensures
        chain::effect_done(o, a) matches Ok(after) && {
            &&& after.state == (GameModel { objects: after.state.objects, ..o.state })
            &&& after.state.objects.dom() == o.state.objects.dom()
            &&& after.state.objects[id].controller == winner
            &&& after.state.objects[id] == (ObjectModel {
                controller: winner,
                ..o.state.objects[id]
            })
            &&& forall|other: ObjectId|
                other != id && o.state.objects.contains_key(other) ==> #[trigger]
                after.state.objects[other] == o.state.objects[other]
        },
{
    reveal(chain::effect_done);
    bidding_laws::lemma_first_object(a.targets, id);
    assert(o.state.objects.insert(
        id,
        ObjectModel { controller: winner, ..o.state.objects[id] },
    ).dom() =~= o.state.objects.dom());
}

/// An instruction for the case that its controller won the bidding is carried out exactly if they
/// did.
pub proof fn only_winners_get_the_conditional_payoff(s: GameModel, a: AbilityModel)
    requires
        a.condition == Some(AbilityCondition::AuctionWinnerIs { player: ControllerRef::You }),
    ensures
        chain::condition_met(s, a) <==> (s.last_life_auction matches Some(auction) && auction.0
            == a.controller),
{
}

/// Bidding that opens once the controller has announced a bid: the announced number is the high bid,
/// nothing if none or a negative one was announced; the second of those who wait is asked, if there
/// is one.
pub proof fn what_opens_after_the_announcement(
    s: GameModel,
    opener: PlayerId,
    source: ObjectId,
    list: Seq<PlayerId>,
)
    requires
        s.pending_life_auction_participants == Some(list),
        0 < list.len() <= usize::MAX,
    ensures
        ({
            let t = life_auction::begun(s, opener, source);
            let place: int = if list.len() == 1 {
                0
            } else {
                1
            };
            &&& t == (GameModel {
                waiting_for: t.waiting_for,
                pending_life_auction_participants: None,
                ..s
            })
            &&& t.waiting_for matches PromptModel::LifeAuctionBid {
                player,
                participants,
                round_index,
                high_bid,
                high_bidder,
                passes_since_raise,
                controller,
                source_id,
            } && {
                &&& player == list[place]
                &&& participants == list
                &&& round_index == place
                &&& high_bid == if s.last_effect_count matches Some(n) && n > 0 {
                    s.last_effect_count->Some_0 as int
                } else {
                    0
                }
                &&& high_bidder == opener
                &&& passes_since_raise == 0
                &&& controller == opener
                &&& source_id == source
            }
        }),
{
    let n = list.len() as int;
    assert(1int % n == if n == 1 {
        0int
    } else {
        1
    }) by (nonlinear_arith)
        requires
            n > 0,
    ;
}

/// Without anybody who bids, a decision changes nothing.
pub proof fn no_bidders_no_auction(o: Outcome, r: RoundModel)
    requires
        r.participants.len() == 0,
    ensures
        life_auction::advanced(o, r).after == o,
        life_auction::advanced(o, r).failure is None,
{
}

/// The instruction that the winner of an auction loses the winning bid.
pub open spec fn is_paying_the_bid(a: AbilityModel) -> bool {
    &&& a.effect == (Effect::LoseLife {
        amount: QuantityExpr::Ref { qty: QuantityRef::WinningBidAmount },
        target: Some(TargetFilter::WinningBidder),
    })
    &&& a.condition is None
}

/// The instruction that the winner of an auction gains control of the target.
pub open spec fn is_taking_the_target(a: AbilityModel) -> bool {
    &&& a.effect == (Effect::GiveControl {
        target: TargetFilter::ParentTarget,
        recipient: TargetFilter::WinningBidder,
    })
    &&& a.condition is None
    &&& a.sub_ability is None
}

/// The end of an auction whose payoff is that the winner loses the bid: the game knows the winner
/// and the bid, the winner has lost as much life, the controller of the auction has priority, and
/// everything is reported in order.
pub proof fn the_end_of_an_auction_for_life(
    o: Outcome,
    winner: PlayerId,
    bid: u32,
    controller: PlayerId,
    source_id: ObjectId,
    i: int,
)
    requires
        o.state.pending_continuation matches Some(payoff) && is_paying_the_bid(payoff)
            && payoff.sub_ability is None,
        listed_at(o.state, winner, i),
        o.state.players[i].life - bid >= i32::MIN,
        bid > 0,
    ensures
        ({
            let c = life_auction::finalized(o, winner, bid, controller, source_id);
            let s = o.state;
            let life = s.players[i].life - bid;
            &&& c.failure is None
            &&& c.after.state == (GameModel {
                waiting_for: PromptModel::Priority { player: controller },
                pending_continuation: None,
                last_life_auction: Some((winner, bid)),
                players: s.players.update(i, PlayerModel { life: life as i32, ..s.players[i] }),
                ..s
            })
            &&& c.after.events == o.events + seq![
                GameEvent::EffectResolved {
                    kind: EffectKind::LifeAuction,
                    source_id,
                    subject: None,
                },
                GameEvent::LifeChanged { player_id: winner, life: life as i32 },
                GameEvent::EffectResolved {
                    kind: EffectKind::LoseLife,
                    source_id: s.pending_continuation->Some_0.source_id,
                    subject: None,
                },
            ]
        }),
{
    reveal(chain::chained);
    reveal(chain::effect_done);
    let s = o.state;
    let payoff = s.pending_continuation->Some_0;
    let settled = outcome::at(
        life_auction::settled_state(s, winner, bid, controller),
        o.events.push(life_auction::auction_report(source_id)),
    );
    lemma_listed_at(s, winner, i);
    assert(listed_at(settled.state, winner, i));
    lemma_listed_at(settled.state, winner, i);
    let c = life_auction::finalized(o, winner, bid, controller, source_id);
    let life = s.players[i].life - bid;
    assert(c.after.events =~= o.events + seq![
        GameEvent::EffectResolved { kind: EffectKind::LifeAuction, source_id, subject: None },
        GameEvent::LifeChanged { player_id: winner, life: life as i32 },
        GameEvent::EffectResolved {
            kind: EffectKind::LoseLife,
            source_id: payoff.source_id,
            subject: None,
        },
    ]);
}

/// The end of an auction for a creature: the winner has lost as much life as they bid and controls
/// the creature, and nothing else of the creature changed.
pub proof fn the_end_of_an_auction_for_a_creature(
    o: Outcome,
    winner: PlayerId,
    bid: u32,
    controller: PlayerId,
    source_id: ObjectId,
    i: int,
    id: ObjectId,
)
    requires
        o.state.pending_continuation matches Some(payoff) && {
            &&& is_paying_the_bid(payoff)
            &&& payoff.sub_ability matches Some(next) && is_taking_the_target(*next)
                && next.targets.len() == 0
            &&& bidding_laws::is_first_object(payoff.targets, id)
        },
        listed_at(o.state, winner, i),
        o.state.players[i].life - bid >= i32::MIN,
        o.state.objects.contains_key(id),
    ensures
        ({
            let c = life_auction::finalized(o, winner, bid, controller, source_id);
            let s = o.state;
            let life = s.players[i].life - bid;
            &&& c.failure is None
            &&& c.after.state == (GameModel {
                waiting_for: PromptModel::Priority { player: controller },
                pending_continuation: None,
                last_life_auction: Some((winner, bid)),
                players: s.players.update(i, PlayerModel { life: life as i32, ..s.players[i] }),
                objects: s.objects.insert(
                    id,
                    ObjectModel { controller: winner, ..s.objects[id] },
                ),
                ..s
            })
        }),
{
    let s = o.state;
    let payoff = s.pending_continuation->Some_0;
    let next = *payoff.sub_ability->Some_0;
    let settled = outcome::at(
        life_auction::settled_state(s, winner, bid, controller),
        o.events.push(life_auction::auction_report(source_id)),
    );
    assert(listed_at(settled.state, winner, i));
    bidding_laws::lemma_first_object(payoff.targets, id);
    the_winner_pays_the_bid(settled, payoff, winner, bid, i);
    let paid = chain::effect_done(settled, payoff)->Ok_0;
    lemma_first_of_chain(settled, payoff, paid);
    let taking = AbilityModel { targets: payoff.targets, ..next };
    the_winner_gets_the_creature(paid, taking, winner, bid, id);
    let taken = chain::effect_done(paid, taking)->Ok_0;
    lemma_last_of_chain(paid, next, payoff.targets, taken);
    assert(taken.state.objects =~= s.objects.insert(
        id,
        ObjectModel { controller: winner, ..s.objects[id] },
    ));
}

/// An instruction that leaves no prompt hands over to the one that follows it.
proof fn lemma_first_of_chain(o: Outcome, a: AbilityModel, after: Outcome)
    requires
        a.targets.len() > 0,
        a.condition is None,
        !(a.effect is PayCost),
        a.sub_ability is Some,
        chain::effect_done(o, a) == Ok::<Outcome, Seq<char>>(after),
        after.state.waiting_for is Priority,
    ensures
        chain::chained(o, a, Seq::empty()) == chain::chained(
            after,
            *a.sub_ability->Some_0,
            a.targets,
        ),
{
    reveal_with_fuel(chain::chained, 2);
    assert(AbilityModel { targets: a.targets, ..a } == a);
}

/// An instruction without targets of its own that nothing follows.
proof fn lemma_last_of_chain(
    o: Outcome,
    a: AbilityModel,
    inherited: Seq<TargetRef>,
    after: Outcome,
)
    requires
        a.targets.len() == 0,
        a.condition is None,
        !(a.effect is PayCost),
        a.sub_ability is None,
        chain::effect_done(o, AbilityModel { targets: inherited, ..a }) == Ok::<Outcome, Seq<char>>(
            after,
        ),
    ensures
        chain::chained(o, a, inherited) == (ChainOutcome { after, failure: None }),
{
    reveal_with_fuel(chain::chained, 2);
}

/// An auction whose payoff fails still waits where it did.
pub proof fn failed_payoffs_keep_the_prompt(
    o: Outcome,
    winner: PlayerId,
    bid: u32,
    controller: PlayerId,
    source_id: ObjectId,
)
    ensures
        ({
            let c = life_auction::finalized(o, winner, bid, controller, source_id);
            c.failure is Some ==> c.after.state.waiting_for == o.state.waiting_for
        }),
{
}

/// An auction among all players when nobody is left to bid is over at once: that is reported, and
/// nothing else happens.
pub proof fn auctions_without_bidders_are_over(o: Outcome, a: AbilityModel)
    requires
        a.effect matches Effect::LifeAuction { participants, .. } && participants
            == LifeAuctionParticipants::AllPlayers,
        forall|i: int|
            0 <= i < o.state.seat_order.len() ==> !seat_laws::in_game(
                o.state,
                #[trigger] o.state.seat_order[i],
            ),
    ensures
        life_auction::started(o, a) matches Ok(after) && {
            &&& after.state == o.state
            &&& after.events == o.events.push(
                GameEvent::EffectResolved {
                    kind: EffectKind::LifeAuction,
                    source_id: a.source_id,
                    subject: None,
                },
            )
        },
{
    let members = life_auction::alive_among(o.state, o.state.seat_order).to_set();
    assert forall|p: PlayerId| !members.contains(p) by {
        auction_laws::lemma_alive_among(o.state, o.state.seat_order, p);
        seat_laws::alive_players_are_in_game(o.state, p);
        if o.state.seat_order.contains(p) {
            let i = choose|i: int|
                0 <= i < o.state.seat_order.len() && o.state.seat_order[i] == p;
            assert(!seat_laws::in_game(o.state, o.state.seat_order[i]));
        }
    }
    assert(members =~= Set::empty());
}

} // verus!
