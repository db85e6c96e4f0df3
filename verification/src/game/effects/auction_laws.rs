//! What holds of every life auction.
use vstd::prelude::*;

use crate::game::effects::life_auction;
use crate::game::effects::life_auction::RoundModel;
use crate::game::outcome::Outcome;
use crate::game::players;
use crate::types::ability::{AbilityModel, Effect, LifeAuctionParticipants};
use crate::types::game_state::{GameModel, TurnDirection};
use crate::types::identifiers::PlayerId;
use crate::types::prompts::PromptModel;
use crate::types::target_filter::ControllerRef;

verus! {

/// A round after `k` participants in succession passed.
pub open spec fn passed_times(r: RoundModel, k: nat) -> RoundModel
    decreases k,
{
    if k == 0 {
        r
    } else {
        let before = passed_times(r, (k - 1) as nat);
        RoundModel { round_index: before.round_index + 1, ..life_auction::passed(before) }
    }
}

proof fn lemma_passed_times(r: RoundModel, k: nat)
    requires
        r.passes_since_raise + k <= u32::MAX,
    ensures
        passed_times(r, k) == (RoundModel {
            round_index: r.round_index + k,
            passes_since_raise: (r.passes_since_raise + k) as u32,
            ..r
        }),
    decreases k,
{
    if k > 0 {
        lemma_passed_times(r, (k - 1) as nat);
    }
}

/// After a raise, the high bid stands exactly when every other participant passed in succession:
/// not after fewer passes, and after that many it does.
pub proof fn bid_stands_when_all_others_pass(r: RoundModel, bidder: PlayerId, amount: u32, k: nat)
    requires
        0 < r.participants.len() <= u32::MAX + 1,
        k < r.participants.len(),
    ensures
        life_auction::stands(passed_times(life_auction::raised(r, bidder, amount), k)) == (k
            == r.participants.len() - 1),
{
    lemma_passed_times(life_auction::raised(r, bidder, amount), k);
}

/// The auction that ends after a raise and the passes of all others is won by the last bidder, at
/// the last bid.
pub proof fn last_bidder_wins(o: Outcome, r: RoundModel, bidder: PlayerId, amount: u32)
    requires
        0 < r.participants.len() <= u32::MAX + 1,
    ensures
        ({
            let others = (r.participants.len() - 1) as nat;
            let end = passed_times(life_auction::raised(r, bidder, amount), others);
            life_auction::advanced(o, end) == life_auction::finalized(
                o,
                bidder,
                amount,
                r.controller,
                r.source_id,
            )
        }),
{
    bid_stands_when_all_others_pass(r, bidder, amount, (r.participants.len() - 1) as nat);
    lemma_passed_times(
        life_auction::raised(r, bidder, amount),
        (r.participants.len() - 1) as nat,
    );
}

/// While a bid has not been passed by everybody else, the participants after the bidder are asked
/// in turn order, and the bidder is not.
pub proof fn others_decide_in_turn(
    o: Outcome,
    r: RoundModel,
    bidder: PlayerId,
    amount: u32,
    k: nat,
)
    requires
        0 < r.participants.len() <= u32::MAX + 1,
        0 <= r.round_index < r.participants.len(),
        k < r.participants.len() - 1,
    ensures
        ({
            let n = r.participants.len() as int;
            let now = passed_times(life_auction::raised(r, bidder, amount), k);
            let asked = (r.round_index + k + 1) % n;
            let c = life_auction::advanced(o, now);
            &&& asked != r.round_index
            &&& c.failure is None
            &&& c.after.state.waiting_for matches PromptModel::LifeAuctionBid {
                player,
                round_index,
                high_bid,
                high_bidder,
                ..
            } && player == r.participants[asked] && round_index == asked && high_bid == amount
                && high_bidder == bidder
        }),
{
    let n = r.participants.len() as int;
    lemma_passed_times(life_auction::raised(r, bidder, amount), k);
    bid_stands_when_all_others_pass(r, bidder, amount, k);
    let i = r.round_index;
    assert((i + k + 1) % n == if i + k + 1 < n {
        i + k + 1
    } else {
        i + k + 1 - n
    }) by (nonlinear_arith)
        requires
            0 <= i < n,
            0 <= k < n - 1,
    ;
}

pub proof fn lemma_alive_among(s: GameModel, order: Seq<PlayerId>, p: PlayerId)
    ensures
        life_auction::alive_among(s, order).contains(p) == (order.contains(p) && players::alive(
            s,
            p,
        )),
    decreases order.len(),
{
    let r = life_auction::alive_among(s, order);
    if order.len() > 0 {
        let front = order.drop_last();
        let last = order.last();
        lemma_alive_among(s, front, p);
        let before = life_auction::alive_among(s, front);
        assert(order =~= front.push(last));
        assert(order.contains(p) == (front.contains(p) || p == last)) by {
            lemma_push_contains(front, last, p);
        }
        lemma_push_contains(before, last, p);
    }
}

proof fn lemma_push_contains(list: Seq<PlayerId>, last: PlayerId, p: PlayerId)
    ensures
        list.push(last).contains(p) == (list.contains(p) || p == last),
{
    let r = list.push(last);
    if list.contains(p) {
        let k = choose|k: int| 0 <= k < list.len() && list[k] == p;
        assert(r[k] == p);
    }
    if p == last {
        assert(r[list.len() as int] == p);
    }
}

proof fn lemma_among(order: Seq<PlayerId>, members: Set<PlayerId>, p: PlayerId)
    ensures
        life_auction::among(order, members).contains(p) == (order.contains(p) && members.contains(
            p,
        )),
    decreases order.len(),
{
    if order.len() > 0 {
        let front = order.drop_last();
        let last = order.last();
        lemma_among(front, members, p);
        assert(order =~= front.push(last));
        lemma_push_contains(front, last, p);
        lemma_push_contains(life_auction::among(front, members), last, p);
    }
}

/// Going around the table reaches every seat.
proof fn lemma_rotated(s: GameModel, start: PlayerId, p: PlayerId)
    ensures
        life_auction::rotated(s, start).contains(p) == s.seat_order.contains(p),
{
    let n = s.seat_order.len() as int;
    let first = players::start_seat(s.seat_order, start, 0);
    let r = life_auction::rotated(s, start);
    if n > 0 {
        lemma_start_seat(s.seat_order, start, 0);
        if s.seat_order.contains(p) {
            let k = choose|k: int| 0 <= k < n && s.seat_order[k] == p;
            let offset = match s.turn_direction {
                TurnDirection::Clockwise => if k >= first {
                    k - first
                } else {
                    k - first + n
                },
                TurnDirection::Counterclockwise => if first >= k {
                    first - k
                } else {
                    first - k + n
                },
            };
            assert(players::turn_seat(first, offset, n, s.turn_direction) == k) by {
                match s.turn_direction {
                    TurnDirection::Clockwise => {
                        assert((first + offset) % n == k) by (nonlinear_arith)
                            requires
                                0 <= k < n,
                                first + offset == k || first + offset == k + n,
                        ;
                    },
                    TurnDirection::Counterclockwise => {
                        assert((first - offset) % n == k) by (nonlinear_arith)
                            requires
                                0 <= k < n,
                                first - offset == k || first - offset == k - n,
                        ;
                    },
                }
            }
            assert(r[offset] == p);
        }
        if r.contains(p) {
            let j = choose|j: int| 0 <= j < n && r[j] == p;
            let k = players::turn_seat(first, j, n, s.turn_direction);
            assert(0 <= k < n) by {
                assert(0 <= (first + j) % n < n) by (nonlinear_arith)
                    requires
                        n > 0,
                ;
                assert(0 <= (first - j) % n < n) by (nonlinear_arith)
                    requires
                        n > 0,
                ;
            }
            assert(s.seat_order[k] == p);
        }
    }
}

proof fn lemma_start_seat(order: Seq<PlayerId>, id: PlayerId, from: int)
    requires
        0 <= from,
        order.len() > 0,
    ensures
        0 <= players::start_seat(order, id, from) < order.len(),
    decreases order.len() - from,
{
    if from < order.len() && order[from] != id {
        lemma_start_seat(order, id, from + 1);
    }
}

/// Those who bid are exactly the members of the pool who have a seat and are still in the game.
pub proof fn bidders_are_the_alive_members(
    s: GameModel,
    a: AbilityModel,
    members: Set<PlayerId>,
    starting_with: ControllerRef,
    p: PlayerId,
)
    ensures
        life_auction::bidders(s, a, members, starting_with).contains(p) == (members.contains(p)
            && s.seat_order.contains(p) && players::alive(s, p)),
{
    let start = life_auction::opener(s, a, starting_with);
    lemma_rotated(s, start, p);
    lemma_alive_among(s, life_auction::rotated(s, start), p);
    lemma_among(life_auction::apnap_order(s, start), members, p);
}

/// An auction among all players can always open: where anybody may bid, somebody is asked.
pub proof fn auctions_among_all_players_open(s: GameModel, a: AbilityModel)
    requires
        a.effect matches Effect::LifeAuction { participants, .. } && participants
            == LifeAuctionParticipants::AllPlayers,
    ensures
        life_auction::can_open(s, a),
{
    let starting_with = a.effect->LifeAuction_starting_with;
    let members = life_auction::alive_among(s, s.seat_order).to_set();
    if !members.is_empty() {
        let p = members.choose();
        assert(members.contains(p));
        lemma_alive_among(s, s.seat_order, p);
        bidders_are_the_alive_members(s, a, members, starting_with, p);
        let all = life_auction::bidders(s, a, members, starting_with);
        let k = choose|k: int| 0 <= k < all.len() && all[k] == p;
        assert(0 <= k < all.len());
    }
}

/// A completed auction publishes its winner and bid to the payoff instructions.
pub proof fn payoff_reads_the_outcome(o: Outcome, winner: PlayerId, bid: u32, r: RoundModel)
    requires
        o.state.pending_continuation is None,
    ensures
        ({
            let c = life_auction::finalized(o, winner, bid, r.controller, r.source_id);
            &&& c.failure is None
            &&& c.after.state.last_life_auction == Some((winner, bid))
            &&& c.after.state.waiting_for == (PromptModel::Priority { player: r.controller })
            &&& c.after.events == o.events.push(life_auction::auction_report(r.source_id))
        }),
{
}

} // verus!
