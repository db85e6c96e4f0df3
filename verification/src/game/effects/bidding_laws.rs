//! What holds of who bids in a life auction, and in which order.
use vstd::prelude::*;

use crate::game::effects::life_auction;
use crate::game::outcome::Outcome;
use crate::game::players;
use crate::game::seat_laws;
use crate::types::ability::{
    AbilityModel, Effect, LifeAuctionParticipants, LifeAuctionStartingBid,
};
use crate::types::action_payloads::TargetRef;
use crate::types::game_state::GameModel;
use crate::types::identifiers::{ObjectId, PlayerId};
use crate::types::prompts::{PayableResource, PromptModel};
use crate::types::target_filter::ControllerRef;

verus! {

/// The object is the first one among the targets.
pub open spec fn is_first_object(targets: Seq<TargetRef>, id: ObjectId) -> bool {
    exists|k: int|
        #![trigger targets[k]]
        0 <= k < targets.len() && targets[k] == TargetRef::Object(id) && (forall|j: int|
            0 <= j < k ==> !(#[trigger] targets[j] is Object))
}

/// The player may bid: everybody, or the controller of the auction and of the targeted spell.
pub open spec fn invited(
    s: GameModel,
    a: AbilityModel,
    participants: LifeAuctionParticipants,
    p: PlayerId,
) -> bool {
    match participants {
        LifeAuctionParticipants::AllPlayers => true,
        LifeAuctionParticipants::ControllerAndTargetController => p == a.controller || exists|
            id: ObjectId,
        |
            #[trigger] is_first_object(a.targets, id) && s.objects.contains_key(id)
                && s.objects[id].controller == p,
    }
}

pub proof fn lemma_first_object(targets: Seq<TargetRef>, id: ObjectId)
    ensures
        (crate::game::filter::first_object(targets) == Some(id)) == is_first_object(targets, id),
    decreases targets.len(),
{
    if targets.len() > 0 {
        let rest = targets.drop_first();
        lemma_first_object(rest, id);
        if targets[0] is Object {
            if is_first_object(targets, id) {
                let k = choose|k: int|
                    #![trigger targets[k]]
                    0 <= k < targets.len() && targets[k] == TargetRef::Object(id) && (forall|
                        j: int,
                    |
                        0 <= j < k ==> !(#[trigger] targets[j] is Object));
                if k > 0 {
                    assert(!(targets[0] is Object));
                }
            }
        } else {
            if is_first_object(rest, id) {
                let k = choose|k: int|
                    #![trigger rest[k]]
                    0 <= k < rest.len() && rest[k] == TargetRef::Object(id) && (forall|j: int|
                        0 <= j < k ==> !(#[trigger] rest[j] is Object));
                assert(targets[k + 1] == TargetRef::Object(id));
                assert forall|j: int| 0 <= j < k + 1 implies !(#[trigger] targets[j] is Object) by {
                    if j > 0 {
                        assert(!(rest[j - 1] is Object));
                    }
                }
            }
            if is_first_object(targets, id) {
                let k = choose|k: int|
                    #![trigger targets[k]]
                    0 <= k < targets.len() && targets[k] == TargetRef::Object(id) && (forall|
                        j: int,
                    |
                        0 <= j < k ==> !(#[trigger] targets[j] is Object));
                assert(k > 0);
                assert(rest[k - 1] == TargetRef::Object(id));
                assert forall|j: int| 0 <= j < k - 1 implies !(#[trigger] rest[j] is Object) by {
                    assert(!(targets[j + 1] is Object));
                }
            }
        }
    }
}

proof fn lemma_alive_keeps_order(s: GameModel, order: Seq<PlayerId>, i: int, j: int) -> (r: (
    int,
    int,
))
    requires
        0 <= i < j < life_auction::alive_among(s, order).len(),
    ensures
        0 <= r.0 < r.1 < order.len(),
        order[r.0] == life_auction::alive_among(s, order)[i],
        order[r.1] == life_auction::alive_among(s, order)[j],
    decreases order.len(),
{
    let front = order.drop_last();
    let kept = life_auction::alive_among(s, front);
    if j < kept.len() {
        lemma_alive_keeps_order(s, front, i, j)
    } else {
        let p = lemma_alive_position(s, front, i);
        (p, order.len() - 1)
    }
}

proof fn lemma_alive_position(s: GameModel, order: Seq<PlayerId>, i: int) -> (r: int)
    requires
        0 <= i < life_auction::alive_among(s, order).len(),
    ensures
        0 <= r < order.len(),
        order[r] == life_auction::alive_among(s, order)[i],
    decreases order.len(),
{
    let front = order.drop_last();
    if i < life_auction::alive_among(s, front).len() {
        lemma_alive_position(s, front, i)
    } else {
        order.len() - 1
    }
}

proof fn lemma_among_position(order: Seq<PlayerId>, members: Set<PlayerId>, i: int) -> (r: int)
    requires
        0 <= i < life_auction::among(order, members).len(),
    ensures
        0 <= r < order.len(),
        order[r] == life_auction::among(order, members)[i],
    decreases order.len(),
{
    let front = order.drop_last();
    if i < life_auction::among(front, members).len() {
        lemma_among_position(front, members, i)
    } else {
        order.len() - 1
    }
}

proof fn lemma_among_keeps_order(
    order: Seq<PlayerId>,
    members: Set<PlayerId>,
    i: int,
    j: int,
) -> (r: (int, int))
    requires
        0 <= i < j < life_auction::among(order, members).len(),
    ensures
        0 <= r.0 < r.1 < order.len(),
        order[r.0] == life_auction::among(order, members)[i],
        order[r.1] == life_auction::among(order, members)[j],
    decreases order.len(),
{
    let front = order.drop_last();
    let kept = life_auction::among(front, members);
    if j < kept.len() {
        lemma_among_keeps_order(front, members, i, j)
    } else {
        let p = lemma_among_position(front, members, i);
        (p, order.len() - 1)
    }
}

/// The list holds players by the number of turns until theirs, counted from a seat.
pub open spec fn in_turn_order(s: GameModel, list: Seq<PlayerId>, c: int) -> bool {
    forall|i: int, j: int, x: int, y: int|
        #![trigger list[i], list[j], s.seat_order[x], s.seat_order[y]]
        0 <= i < j < list.len() && 0 <= x < s.seat_order.len() && 0 <= y < s.seat_order.len()
            && s.seat_order[x] == list[i] && s.seat_order[y] == list[j] ==> seat_laws::turns_between(s, c, x)
            < seat_laws::turns_between(s, c, y)
}

proof fn lemma_bidders_in_turn_order(
    s: GameModel,
    start: PlayerId,
    members: Set<PlayerId>,
    c: int,
)
    requires
        s.seat_order.no_duplicates(),
        0 <= c < s.seat_order.len(),
        s.seat_order[c] == start,
    ensures
        in_turn_order(s, life_auction::among(life_auction::apnap_order(s, start), members), c),
{
    let around = life_auction::rotated(s, start);
    let alive = life_auction::apnap_order(s, start);
    let list = life_auction::among(alive, members);
    let n = s.seat_order.len() as int;
    seat_laws::lemma_own_seat(s.seat_order, c, 0);
    assert forall|i: int, j: int, x: int, y: int|
        #![trigger list[i], list[j], s.seat_order[x], s.seat_order[y]]
        0 <= i < j < list.len() && 0 <= x < n && 0 <= y < n && s.seat_order[x] == list[i]
            && s.seat_order[y] == list[j] implies seat_laws::turns_between(s, c, x) < seat_laws::turns_between(
        s,
        c,
        y,
    ) by {
        let (p, q) = lemma_among_keeps_order(alive, members, i, j);
        let (u, v) = lemma_alive_keeps_order(s, around, p, q);
        seat_laws::lemma_turns(s, c, u);
        seat_laws::lemma_turns(s, c, v);
        let xu = players::turn_seat(c, u, n, s.turn_direction);
        let yv = players::turn_seat(c, v, n, s.turn_direction);
        assert(s.seat_order[xu] == s.seat_order[x]);
        assert(s.seat_order[yv] == s.seat_order[y]);
        assert(xu == x && yv == y);
    }
}

/// Who bids, for an auction that its controller starts: those who are invited, have a seat and are
/// still in the game; the controller first, then the others by the number of turns until theirs.
pub open spec fn bids_from_the_controller(
    s: GameModel,
    a: AbilityModel,
    participants: LifeAuctionParticipants,
    list: Seq<PlayerId>,
) -> bool {
    &&& list.len() > 0
    &&& list[0] == a.controller
    &&& forall|p: PlayerId| #[trigger]
        list.contains(p) <==> s.seat_order.contains(p) && seat_laws::in_game(s, p) && invited(
            s,
            a,
            participants,
            p,
        )
    &&& forall|c: int|
        0 <= c < s.seat_order.len() && s.seat_order[c] == a.controller ==> #[trigger] in_turn_order(
            s,
            list,
            c,
        )
}

proof fn lemma_bids_from_the_controller(
    s: GameModel,
    a: AbilityModel,
    participants: LifeAuctionParticipants,
    members: Set<PlayerId>,
)
    requires
        s.seat_order.no_duplicates(),
        s.seat_order.contains(a.controller),
        seat_laws::in_game(s, a.controller),
        life_auction::pool(s, a, participants) == Some(members),
    ensures
        !members.is_empty(),
        bids_from_the_controller(
            s,
            a,
            participants,
            life_auction::bidders(s, a, members, ControllerRef::You),
        ),
{
    let list = life_auction::bidders(s, a, members, ControllerRef::You);
    let c = choose|c: int| 0 <= c < s.seat_order.len() && s.seat_order[c] == a.controller;
    lemma_bidders_in_turn_order(s, a.controller, members, c);
    assert forall|p: PlayerId|
        (members.contains(p) && players::alive(s, p) && s.seat_order.contains(p)) == (#[trigger]
        invited(s, a, participants, p) && seat_laws::in_game(s, p) && s.seat_order.contains(p)) by {
        seat_laws::alive_players_are_in_game(s, p);
        match participants {
            LifeAuctionParticipants::AllPlayers => {
                crate::game::effects::auction_laws::lemma_alive_among(s, s.seat_order, p);
            },
            LifeAuctionParticipants::ControllerAndTargetController => {
                let id = crate::game::filter::first_object(a.targets)->Some_0;
                lemma_first_object(a.targets, id);
                assert forall|x: ObjectId| #[trigger] is_first_object(a.targets, x) implies x
                    == id by {
                    lemma_first_object(a.targets, x);
                }
            },
        }
    }
    assert forall|p: PlayerId| #[trigger]
        list.contains(p) <==> s.seat_order.contains(p) && seat_laws::in_game(s, p) && invited(
            s,
            a,
            participants,
            p,
        ) by {
        crate::game::effects::auction_laws::bidders_are_the_alive_members(
            s,
            a,
            members,
            ControllerRef::You,
            p,
        );
        seat_laws::alive_players_are_in_game(s, p);
        assert(invited(s, a, participants, p) || !invited(s, a, participants, p));
    }
    let me = a.controller;
    assert(invited(s, a, participants, me)) by {
        match participants {
            _ => {},
        }
    }
    assert(list.contains(me));
    let k = choose|k: int| 0 <= k < list.len() && list[k] == me;
    if k > 0 {
        let first = list[0];
        assert(list.contains(first));
        let x = choose|x: int| 0 <= x < s.seat_order.len() && s.seat_order[x] == first;
        assert(seat_laws::turns_between(s, c, x) < seat_laws::turns_between(s, c, c));
    }
    assert(members.contains(me));
    assert forall|d: int| 0 <= d < s.seat_order.len() && s.seat_order[d] == me implies #[trigger]
        in_turn_order(s, list, d) by {
        assert(d == c);
    }
}

/// Opening an auction that its controller starts. The bidding order begins with the controller and
/// goes on in turn order; at a fixed bid the controller holds the high bid and the next one in that
/// order, if there is one, decides; else the controller is asked for a bid of at most their life.
pub proof fn the_controller_opens(o: Outcome, a: AbilityModel)
    requires
        o.state.seat_order.no_duplicates(),
        o.state.seat_order.contains(a.controller),
        seat_laws::in_game(o.state, a.controller),
        a.effect matches Effect::LifeAuction { starting_with, .. } && starting_with
            == ControllerRef::You,
    ensures
        ({
            let s = o.state;
            let participants = a.effect->LifeAuction_participants;
            let no_spell = participants == LifeAuctionParticipants::ControllerAndTargetController
                && forall|id: ObjectId| #[trigger]
                is_first_object(a.targets, id) ==> !s.objects.contains_key(id);
            match life_auction::started(o, a) {
                Err(message) => no_spell && message
                    == "LifeAuction ControllerAndTargetController requires spell target"@,
                Ok(after) => {
                    &&& !no_spell
                    &&& after.events == o.events
                    &&& match a.effect->LifeAuction_starting_bid {
                        LifeAuctionStartingBid::Fixed(bid) => {
                            &&& after.state == GameModel {
                                waiting_for: after.state.waiting_for,
                                ..s
                            }
                            &&& after.state.waiting_for matches PromptModel::LifeAuctionBid {
                                player,
                                participants: list,
                                round_index,
                                high_bid,
                                high_bidder,
                                passes_since_raise,
                                controller,
                                source_id,
                            } && {
                                &&& bids_from_the_controller(s, a, participants, list)
                                &&& high_bid == bid
                                &&& high_bidder == a.controller
                                &&& controller == a.controller
                                &&& source_id == a.source_id
                                &&& passes_since_raise == 0
                                &&& if list.len() == 1 {
                                    player == a.controller && round_index == 0
                                } else {
                                    player == list[1] && player != a.controller && round_index == 1
                                }
                            }
                        },
                        LifeAuctionStartingBid::ControllerChooses => {
                            &&& after.state == GameModel {
                                waiting_for: after.state.waiting_for,
                                pending_life_auction_participants:
                                    after.state.pending_life_auction_participants,
                                ..s
                            }
                            &&& after.state.pending_life_auction_participants matches Some(list)
                                && bids_from_the_controller(s, a, participants, list)
                            &&& after.state.waiting_for matches PromptModel::PayAmountChoice {
                                player,
                                resource,
                                min,
                                max,
                                accumulated,
                                source_id,
                                pending_mana_ability,
                            } && {
                                &&& player == a.controller
                                &&& resource == PayableResource::Life
                                &&& min == 0
                                &&& most_life(s, a.controller, max)
                                &&& accumulated == 0
                                &&& source_id == a.source_id
                                &&& pending_mana_ability is None
                            }
                        },
                    }
                },
            }
        }),
{
    let s = o.state;
    let participants = a.effect->LifeAuction_participants;
    let first = crate::game::filter::first_object(a.targets);
    assert forall|id: ObjectId| #[trigger] is_first_object(a.targets, id) == (first == Some(
        id,
    )) by {
        lemma_first_object(a.targets, id);
    }
    lemma_most_life(s, a.controller);
    match life_auction::pool(s, a, participants) {
        None => {
        },
        Some(members) => {
            lemma_bids_from_the_controller(s, a, participants, members);
            let list = life_auction::bidders(s, a, members, ControllerRef::You);
            let n = list.len() as int;
            assert(1int % n == if n == 1 {
                0int
            } else {
                1
            }) by (nonlinear_arith)
                requires
                    n > 0,
            ;
            if n > 1 && list[1] == a.controller {
                let c = choose|c: int| 0 <= c < s.seat_order.len() && s.seat_order[c]
                    == a.controller;
                assert(list[0] == s.seat_order[c]);
                assert(in_turn_order(s, list, c));
                assert(seat_laws::turns_between(s, c, c) < seat_laws::turns_between(s, c, c));
            }
            if first is Some {
                assert(is_first_object(a.targets, first->Some_0));
            }
        },
    }
}

/// The most that a player in the game can bid: their life, or nothing if it is not positive.
pub open spec fn most_life(s: GameModel, p: PlayerId, max: u32) -> bool {
    exists|i: int|
        #![trigger s.players[i]]
        0 <= i < s.players.len() && s.players[i].id == p && (forall|j: int|
            0 <= j < i ==> (#[trigger] s.players[j]).id != p) && max == if s.players[i].life > 0 {
            s.players[i].life as int
        } else {
            0
        }
}

proof fn lemma_most_life(s: GameModel, p: PlayerId)
    requires
        seat_laws::in_game(s, p),
    ensures
        most_life(s, p, life_auction::biddable(s, p)),
{
    seat_laws::alive_players_are_in_game(s, p);
    players::lemma_player_index(s.players, p, 0);
    assert(s.players[players::seat(s, p)].id == p);
}

/// Whoever starts the bidding: the active player where the auction says so, else the controller.
pub open spec fn starter(s: GameModel, a: AbilityModel, starting_with: ControllerRef) -> PlayerId {
    if starting_with == ControllerRef::ActivePlayer {
        s.active_player
    } else {
        a.controller
    }
}

/// Whoever starts, those who bid are asked in turn order from the starter's seat on, and they are
/// those who are invited, have a seat and are still in the game.
pub proof fn bidding_goes_around_from_the_starter(
    s: GameModel,
    a: AbilityModel,
    participants: LifeAuctionParticipants,
    starting_with: ControllerRef,
    members: Set<PlayerId>,
    c: int,
)
    requires
        s.seat_order.no_duplicates(),
        0 <= c < s.seat_order.len(),
        s.seat_order[c] == starter(s, a, starting_with),
        life_auction::pool(s, a, participants) == Some(members),
    ensures
        in_turn_order(s, life_auction::bidders(s, a, members, starting_with), c),
        forall|p: PlayerId| #[trigger]
            life_auction::bidders(s, a, members, starting_with).contains(p)
                <==> s.seat_order.contains(p) && seat_laws::in_game(s, p) && (p == a.controller
                || invited(s, a, participants, p)),
{
    assert(crate::game::filter::first_player(Seq::empty()) is None);
    assert(crate::game::filter::first_object(Seq::empty()) is None);
    assert(life_auction::opener(s, a, starting_with) == starter(s, a, starting_with));
    lemma_bidders_in_turn_order(s, starter(s, a, starting_with), members, c);
    assert forall|p: PlayerId| #[trigger]
        life_auction::bidders(s, a, members, starting_with).contains(p) <==> s.seat_order.contains(
            p,
        ) && seat_laws::in_game(s, p) && (p == a.controller || invited(
            s,
            a,
            participants,
            p,
        )) by {
        crate::game::effects::auction_laws::bidders_are_the_alive_members(
            s,
            a,
            members,
            starting_with,
            p,
        );
        seat_laws::alive_players_are_in_game(s, p);
        match participants {
            LifeAuctionParticipants::AllPlayers => {
                crate::game::effects::auction_laws::lemma_alive_among(s, s.seat_order, p);
            },
            LifeAuctionParticipants::ControllerAndTargetController => {
                let id = crate::game::filter::first_object(a.targets)->Some_0;
                lemma_first_object(a.targets, id);
                assert forall|x: ObjectId| #[trigger] is_first_object(a.targets, x) implies x
                    == id by {
                    lemma_first_object(a.targets, x);
                }
            },
        }
    }
}

} // verus!
