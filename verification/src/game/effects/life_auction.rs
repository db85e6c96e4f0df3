//! Open-bid life auctions: Illicit Auction, Pain's Reward, Mages' Contest.
//!
//! The controller opens the bidding. In turn order each participant may top the standing high bid
//! or pass. When every other participant passes in succession, the high bid stands: the winner and
//! the bid are published, and the payoff instructions follow.
use vstd::prelude::*;

use crate::game::effects::chain;
use crate::game::effects::chain::ChainOutcome;
use crate::game::filter;
use crate::game::outcome;
use crate::game::outcome::Outcome;
use crate::game::players;
use crate::types::ability::{
    AbilityModel, Effect, EffectError, EffectKind, LifeAuctionParticipants, LifeAuctionStartingBid,
    ResolvedAbility,
};
use crate::types::events::GameEvent;
use crate::types::game_state::{GameModel, GameState, PendingContinuation};
use crate::types::identifiers::{ObjectId, PlayerId};
use crate::types::prompts::{PayableResource, PromptModel, WaitingFor};
use crate::types::target_filter::ControllerRef;

verus! {

/// Winner and winning bid of a completed auction.
pub type LifeAuctionOutcome = (PlayerId, u32);

/// The alive players of a list, in order.
pub open spec fn alive_among(s: GameModel, order: Seq<PlayerId>) -> Seq<PlayerId>
    decreases order.len(),
{
    if order.len() == 0 {
        Seq::empty()
    } else {
        let front = alive_among(s, order.drop_last());
        if players::alive(s, order.last()) {
            front.push(order.last())
        } else {
            front
        }
    }
}

/// Everybody who may bid; `None` if a spell was to be targeted and none was.
pub open spec fn pool(
    s: GameModel,
    a: AbilityModel,
    participants: LifeAuctionParticipants,
) -> Option<
    Set<PlayerId>,
> {
    match participants {
        LifeAuctionParticipants::AllPlayers => Some(alive_among(s, s.seat_order).to_set()),
        LifeAuctionParticipants::ControllerAndTargetController => match filter::parent_controller(
            s,
            a.targets,
        ) {
            Some(other) => if players::alive(s, other) {
                Some(set![a.controller, other])
            } else {
                Some(set![a.controller])
            },
            None => None,
        },
    }
}

/// The seats in turn order, the given player's seat first.
pub open spec fn rotated(s: GameModel, start: PlayerId) -> Seq<PlayerId> {
    let n = s.seat_order.len();
    let first = players::start_seat(s.seat_order, start, 0);
    Seq::new(
        n,
        |offset: int| s.seat_order[players::turn_seat(first, offset, n as int, s.turn_direction)],
    )
}

/// The alive players in turn order, beginning with the given one (CR 101.4).
pub open spec fn apnap_order(s: GameModel, start: PlayerId) -> Seq<PlayerId> {
    alive_among(s, rotated(s, start))
}

/// The players of a list who are in a set, in order.
pub open spec fn among(order: Seq<PlayerId>, members: Set<PlayerId>) -> Seq<PlayerId>
    decreases order.len(),
{
    if order.len() == 0 {
        Seq::empty()
    } else {
        let front = among(order.drop_last(), members);
        if members.contains(order.last()) {
            front.push(order.last())
        } else {
            front
        }
    }
}

/// The player who opens the bidding.
pub open spec fn opener(s: GameModel, a: AbilityModel, starting_with: ControllerRef) -> PlayerId {
    match filter::named_player(s, Some(a.controller), Seq::empty(), starting_with) {
        Some(p) => p,
        None => a.controller,
    }
}

/// The participants in bidding order.
pub open spec fn bidders(
    s: GameModel,
    a: AbilityModel,
    members: Set<PlayerId>,
    starting_with: ControllerRef,
) -> Seq<PlayerId> {
    among(apnap_order(s, opener(s, a, starting_with)), members)
}

/// The most life a player can announce as an opening bid.
pub open spec fn biddable(s: GameModel, player: PlayerId) -> u32 {
    let i = players::seat(s, player);
    if i < s.players.len() && s.players[i].life > 0 {
        s.players[i].life as u32
    } else {
        0
    }
}

/// The state of the bidding between two decisions.
pub struct LifeAuctionRoundState {
    pub participants: Vec<PlayerId>,
    pub round_index: usize,
    pub high_bid: u32,
    pub high_bidder: PlayerId,
    pub passes_since_raise: u32,
    pub controller: PlayerId,
    pub source_id: ObjectId,
}

/// The contents of a round of bidding.
pub struct RoundModel {
    pub participants: Seq<PlayerId>,
    pub round_index: int,
    pub high_bid: u32,
    pub high_bidder: PlayerId,
    pub passes_since_raise: u32,
    pub controller: PlayerId,
    pub source_id: ObjectId,
}

impl View for LifeAuctionRoundState {
    type V = RoundModel;

    open spec fn view(&self) -> RoundModel {
        RoundModel {
            participants: self.participants@,
            round_index: self.round_index as int,
            high_bid: self.high_bid,
            high_bidder: self.high_bidder,
            passes_since_raise: self.passes_since_raise,
            controller: self.controller,
            source_id: self.source_id,
        }
    }
}

/// The prompt for the participant whose decision is next.
pub open spec fn bid_prompt(r: RoundModel) -> PromptModel {
    let i = r.round_index % (r.participants.len() as int);
    PromptModel::LifeAuctionBid {
        player: r.participants[i],
        participants: r.participants,
        round_index: i as usize,
        high_bid: r.high_bid,
        high_bidder: r.high_bidder,
        passes_since_raise: r.passes_since_raise,
        controller: r.controller,
        source_id: r.source_id,
    }
}

pub open spec fn auction_report(source_id: ObjectId) -> GameEvent {
    GameEvent::EffectResolved { kind: EffectKind::LifeAuction, source_id, subject: None }
}

/// The bidding as it opens: the controller holds the high bid and the next seat decides.
pub open spec fn opening_round(
    participants: Seq<PlayerId>,
    bid: u32,
    controller: PlayerId,
    source_id: ObjectId,
) -> RoundModel {
    RoundModel {
        participants,
        round_index: 1,
        high_bid: bid,
        high_bidder: controller,
        passes_since_raise: 0,
        controller,
        source_id,
    }
}

/// What starting an auction does; an error message if it cannot start.
///
/// Without participants the auction is over at once. Where the controller chooses the opening bid,
/// the game asks for it and keeps the participants; else the bidding opens at the fixed bid.
pub open spec fn started(o: Outcome, a: AbilityModel) -> Result<Outcome, Seq<char>> {
    match a.effect {
        Effect::LifeAuction { participants, starting_bid, starting_with } => match pool(
            o.state,
            a,
            participants,
        ) {
            None => Err("LifeAuction ControllerAndTargetController requires spell target"@),
            Some(members) => if members.is_empty() {
                Ok(o.report(auction_report(a.source_id)))
            } else {
                let ordered = bidders(o.state, a, members, starting_with);
                match starting_bid {
                    LifeAuctionStartingBid::ControllerChooses => Ok(
                        Outcome {
                            state: GameModel {
                                pending_life_auction_participants: Some(ordered),
                                waiting_for: PromptModel::PayAmountChoice {
                                    player: a.controller,
                                    resource: PayableResource::Life,
                                    min: 0,
                                    max: biddable(o.state, a.controller),
                                    accumulated: 0,
                                    source_id: a.source_id,
                                    pending_mana_ability: None,
                                },
                                ..o.state
                            },
                            ..o
                        },
                    ),
                    LifeAuctionStartingBid::Fixed(bid) => Ok(
                        Outcome {
                            state: GameModel {
                                waiting_for: bid_prompt(
                                    opening_round(ordered, bid, a.controller, a.source_id),
                                ),
                                ..o.state
                            },
                            ..o
                        },
                    ),
                }
            },
        },
        _ => Err("life_auction::resolve called with non-LifeAuction effect"@),
    }
}

/// The bidding can open: at a fixed bid there is somebody in turn order who may bid.
pub open spec fn can_open(s: GameModel, a: AbilityModel) -> bool {
    a.effect matches Effect::LifeAuction { participants, starting_bid, starting_with } ==> (
    starting_bid is Fixed ==> (pool(s, a, participants) matches Some(members) ==> (
    !members.is_empty() ==> bidders(s, a, members, starting_with).len() > 0)))
}

fn is_member(list: &Vec<PlayerId>, player: PlayerId) -> (r: bool)
    ensures
        r == list@.contains(player),
{
    let mut i: usize = 0;
    while i < list.len()
        invariant
            i <= list.len(),
            forall|j: int| 0 <= j < i ==> list@[j] != player,
        decreases list.len() - i,
    {
        if list[i] == player {
            return true;
        }
        i = i + 1;
    }
    false
}

fn emit_resolved(events: &mut Vec<GameEvent>, source_id: ObjectId)
    ensures
        final(events)@ == old(events)@.push(auction_report(source_id)),
{
    events.push(GameEvent::EffectResolved {
        kind: EffectKind::LifeAuction,
        source_id,
        subject: None,
    });
}

/// Everybody who may bid, as a list without order.
fn build_participant_pool(
    state: &GameState,
    ability: &ResolvedAbility,
    participants: LifeAuctionParticipants,
    controller: PlayerId,
) -> (r: Result<Vec<PlayerId>, EffectError>)
    requires
        controller == ability.controller,
    ensures
        match pool(state@, ability@, participants) {
            Some(members) => r matches Ok(list) && list@.to_set() == members,
            None => r matches Err(e) && e.message()
                == "LifeAuction ControllerAndTargetController requires spell target"@,
        },
{
    match participants {
        LifeAuctionParticipants::AllPlayers => Ok(collect_alive(state, &state.seat_order)),
        LifeAuctionParticipants::ControllerAndTargetController => {
            match filter::parent_target_controller(ability, state) {
                None => Err(
                    EffectError::InvalidParam(
                        String::from_str(
                            "LifeAuction ControllerAndTargetController requires spell target",
                        ),
                    ),
                ),
                Some(spell_controller) => {
                    let mut list: Vec<PlayerId> = Vec::new();
                    list.push(controller);
                    assert(list@.to_set() =~= set![controller]) by {
                        assert(list@[0] == controller);
                    }
                    if players::is_alive(state, spell_controller) {
                        list.push(spell_controller);
                        assert(list@.to_set() =~= set![controller, spell_controller]) by {
                            assert(list@[0] == controller);
                            assert(list@[1] == spell_controller);
                        }
                    }
                    Ok(list)
                },
            }
        },
    }
}

fn collect_alive(state: &GameState, order: &Vec<PlayerId>) -> (r: Vec<PlayerId>)
    ensures
        r@ == alive_among(state@, order@),
{
    let mut r: Vec<PlayerId> = Vec::new();
    let mut i: usize = 0;
    while i < order.len()
        invariant
            i <= order.len(),
            r@ == alive_among(state@, order@.take(i as int)),
        decreases order.len() - i,
    {
        assert(order@.take(i + 1).drop_last() =~= order@.take(i as int));
        if players::is_alive(state, order[i]) {
            r.push(order[i]);
        }
        i = i + 1;
    }
    assert(order@.take(i as int) =~= order@);
    r
}

fn resolve_starting_player(
    state: &GameState,
    controller: PlayerId,
    starting_with: &ControllerRef,
) -> (r: PlayerId)
    ensures
        r == (match filter::named_player(state@, Some(controller), Seq::empty(), *starting_with) {
            Some(p) => p,
            None => controller,
        }),
{
    match filter::controller_ref_player(state, Some(controller), None, starting_with) {
        Some(p) => p,
        None => controller,
    }
}

/// The alive players in turn order, beginning with the given one.
fn apnap_order_from(state: &GameState, start: PlayerId) -> (r: Vec<PlayerId>)
    ensures
        r@ == apnap_order(state@, start),
{
    let n: usize = state.seat_order.len();
    let first: usize = players::find_seat(&state.seat_order, start);
    let mut order: Vec<PlayerId> = Vec::new();
    let mut offset: usize = 0;
    while offset < n
        invariant
            n == state.seat_order.len(),
            n > 0 ==> first < n,
            first == players::start_seat(state@.seat_order, start, 0),
            offset <= n,
            order@ == rotated(state@, start).take(offset as int),
        decreases n - offset,
    {
        let i: usize = players::turn_order_index(first, offset, n, state.turn_direction);
        order.push(state.seat_order[i]);
        offset = offset + 1;
        assert(rotated(state@, start).take(offset as int) =~= rotated(state@, start).take(
            offset - 1,
        ).push(rotated(state@, start)[offset - 1]));
    }
    assert(rotated(state@, start).take(offset as int) =~= rotated(state@, start));
    collect_alive(state, &order)
}

fn keep_members(order: &Vec<PlayerId>, members: &Vec<PlayerId>) -> (r: Vec<PlayerId>)
    ensures
        r@ == among(order@, members@.to_set()),
{
    let mut r: Vec<PlayerId> = Vec::new();
    let mut i: usize = 0;
    while i < order.len()
        invariant
            i <= order.len(),
            r@ == among(order@.take(i as int), members@.to_set()),
        decreases order.len() - i,
    {
        assert(order@.take(i + 1).drop_last() =~= order@.take(i as int));
        if is_member(members, order[i]) {
            r.push(order[i]);
        }
        i = i + 1;
    }
    assert(order@.take(i as int) =~= order@);
    r
}

fn max_biddable_life(state: &GameState, player: PlayerId) -> (r: u32)
    ensures
        r == biddable(state@, player),
{
    let i: usize = players::find_player(state, player);
    if i < state.players.len() && state.players[i].life > 0 {
        state.players[i].life as u32
    } else {
        0
    }
}

/// Asks the participant at `round_index` for a decision.
fn park_bid_prompt(
    state: &mut GameState,
    participants: Vec<PlayerId>,
    high_bid: u32,
    high_bidder: PlayerId,
    controller: PlayerId,
    source_id: ObjectId,
    passes_since_raise: u32,
    round_index: usize,
)
    requires
        participants@.len() > 0,
    ensures
        final(state)@ == (GameModel {
            waiting_for: bid_prompt(
                RoundModel {
                    participants: participants@,
                    round_index: round_index as int,
                    high_bid,
                    high_bidder,
                    passes_since_raise,
                    controller,
                    source_id,
                },
            ),
            ..old(state)@
        }),
{
    let round_index: usize = round_index % participants.len();
    state.waiting_for = WaitingFor::LifeAuctionBid {
        player: participants[round_index],
        participants,
        round_index,
        high_bid,
        high_bidder,
        passes_since_raise,
        controller,
        source_id,
    };
}

/// Whether the bidding can open.
pub fn opening_possible(state: &GameState, ability: &ResolvedAbility) -> (r: bool)
    ensures
        r == can_open(state@, ability@),
{
    match &*ability.effect {
        Effect::LifeAuction {
            participants,
            starting_bid: LifeAuctionStartingBid::Fixed(_),
            starting_with,
        } => match build_participant_pool(state, ability, *participants, ability.controller) {
            Ok(members) => {
                if members.len() == 0 {
                    assert(members@.to_set() =~= Set::empty());
                    true
                } else {
                    assert(members@.to_set().contains(members@[0]));
                    let first = resolve_starting_player(state, ability.controller, starting_with);
                    keep_members(&apnap_order_from(state, first), &members).len() > 0
                }
            },
            Err(_) => true,
        },
        _ => true,
    }
}

/// Starts a life auction.
pub fn resolve(state: &mut GameState, ability: &ResolvedAbility, events: &mut Vec<GameEvent>) -> (r:
    Result<(), EffectError>)
    requires
        can_open(old(state)@, ability@),
    ensures
        match started(outcome::at(old(state)@, old(events)@), ability@) {
            Ok(o) => r is Ok && outcome::at(final(state)@, final(events)@) == o,
            Err(message) => {
                &&& r matches Err(e) && e.message() == message
                &&& *final(state) == *old(state)
                &&& *final(events) == *old(events)
            },
        },
{
    let (participants, starting_bid, starting_with) = match &*ability.effect {
        Effect::LifeAuction { participants, starting_bid, starting_with } => (
            *participants,
            *starting_bid,
            *starting_with,
        ),
        _ => {
            return Err(
                EffectError::InvalidParam(
                    String::from_str("life_auction::resolve called with non-LifeAuction effect"),
                ),
            );
        },
    };
    let controller = ability.controller;
    let members = match build_participant_pool(state, ability, participants, controller) {
        Ok(list) => list,
        Err(e) => {
            return Err(e);
        },
    };
    if members.len() == 0 {
        assert(members@.to_set() =~= Set::empty());
        emit_resolved(events, ability.source_id);
        return Ok(());
    }
    assert(members@.to_set().contains(members@[0]));
    let first = resolve_starting_player(state, controller, &starting_with);
    let ordered = keep_members(&apnap_order_from(state, first), &members);
    match starting_bid {
        LifeAuctionStartingBid::ControllerChooses => {
            let max: u32 = max_biddable_life(state, controller);
            state.pending_life_auction_participants = Some(ordered);
            state.waiting_for = WaitingFor::PayAmountChoice {
                player: controller,
                resource: PayableResource::Life,
                min: 0,
                max,
                accumulated: 0,
                source_id: ability.source_id,
                pending_mana_ability: None,
            };
        },
        LifeAuctionStartingBid::Fixed(opening) => {
            park_bid_prompt(
                state,
                ordered,
                opening,
                controller,
                controller,
                ability.source_id,
                0,
                1,
            );
        },
    }
    Ok(())
}

/// The opening bid that the controller announced.
pub open spec fn announced(s: GameModel) -> u32 {
    match s.last_effect_count {
        Some(n) => if n > 0 {
            n as u32
        } else {
            0
        },
        None => 0,
    }
}

/// The bidding opens at the announced bid, if participants wait for it.
pub open spec fn begun(s: GameModel, controller: PlayerId, source_id: ObjectId) -> GameModel {
    match s.pending_life_auction_participants {
        Some(participants) => GameModel {
            pending_life_auction_participants: None,
            waiting_for: bid_prompt(
                opening_round(participants, announced(s), controller, source_id),
            ),
            ..s
        },
        None => s,
    }
}

/// Opens the bidding once the controller announced the opening bid (`last_effect_count`).
pub fn begin_after_opening_bid(state: &mut GameState, controller: PlayerId, source_id: ObjectId)
    requires
        old(state)@.pending_life_auction_participants matches Some(p) ==> p.len() > 0,
    ensures
        final(state)@ == begun(old(state)@, controller, source_id),
{
    let participants = match state.pending_life_auction_participants.take() {
        Some(p) => p,
        None => {
            return ;
        },
    };
    let opening: u32 = match state.last_effect_count {
        Some(n) => if n > 0 {
            n as u32
        } else {
            0
        },
        None => 0,
    };
    park_bid_prompt(state, participants, opening, controller, controller, source_id, 0, 1);
}

/// Winner and bid are published, and the controller has priority.
pub open spec fn settled_state(
    s: GameModel,
    winner: PlayerId,
    bid: u32,
    controller: PlayerId,
) -> GameModel {
    GameModel {
        last_life_auction: Some((winner, bid)),
        pending_continuation: None,
        waiting_for: PromptModel::Priority { player: controller },
        ..s
    }
}

/// The auction is over: winner and bid are published, and the payoff instructions follow. Where
/// these leave no prompt, the controller has priority; where one fails, the prompt stays.
pub open spec fn finalized(
    o: Outcome,
    winner: PlayerId,
    bid: u32,
    controller: PlayerId,
    source_id: ObjectId,
) -> ChainOutcome {
    let events = o.events.push(auction_report(source_id));
    let settled = outcome::at(settled_state(o.state, winner, bid, controller), events);
    match o.state.pending_continuation {
        None => ChainOutcome { after: settled, failure: None },
        Some(payoff) => settled_payoff(o, settled, payoff),
    }
}

/// Every other participant passed since the last raise.
pub open spec fn stands(r: RoundModel) -> bool {
    r.passes_since_raise >= (r.participants.len() - 1) as u32
}

/// The bidding after a decision: without participants nothing happens; when the high bid stands
/// the auction is over; else the next participant decides.
pub open spec fn advanced(o: Outcome, r: RoundModel) -> ChainOutcome {
    if r.participants.len() == 0 {
        ChainOutcome { after: o, failure: None }
    } else if stands(r) {
        finalized(o, r.high_bidder, r.high_bid, r.controller, r.source_id)
    } else {
        let next = RoundModel { round_index: r.round_index + 1, ..r };
        ChainOutcome {
            after: Outcome {
                state: GameModel { waiting_for: bid_prompt(next), ..o.state },
                ..o
            },
            failure: None,
        }
    }
}

/// The round after its participant passed.
pub open spec fn passed(r: RoundModel) -> RoundModel {
    RoundModel {
        passes_since_raise: if r.passes_since_raise < u32::MAX {
            (r.passes_since_raise + 1) as u32
        } else {
            r.passes_since_raise
        },
        ..r
    }
}

/// The round after a bid.
pub open spec fn raised(r: RoundModel, bidder: PlayerId, amount: u32) -> RoundModel {
    RoundModel { high_bid: amount, high_bidder: bidder, passes_since_raise: 0, ..r }
}

/// What a step of the bidding did.
pub open spec fn came_out(
    r: Result<(), EffectError>,
    state: GameModel,
    events: Seq<GameEvent>,
    c: ChainOutcome,
) -> bool {
    &&& outcome::at(state, events) == c.after
    &&& match c.failure {
        None => r is Ok,
        Some(message) => r matches Err(e) && e.message() == message,
    }
}

/// Records that the participant in turn passes.
pub fn record_pass(
    state: &mut GameState,
    round: LifeAuctionRoundState,
    events: &mut Vec<GameEvent>,
) -> (r: Result<(), EffectError>)
    requires
        round.round_index < usize::MAX,
    ensures
        came_out(
            r,
            final(state)@,
            final(events)@,
            advanced(outcome::at(old(state)@, old(events)@), passed(round@)),
        ),
{
    let passes: u32 = round.passes_since_raise;
    let passes_since_raise: u32 = if passes < u32::MAX {
        passes + 1
    } else {
        passes
    };
    advance_after_pass_or_bid(state, events, LifeAuctionRoundState { passes_since_raise, ..round })
}

/// Records a bid, which is the high bid from now on.
pub fn record_bid(
    state: &mut GameState,
    round: LifeAuctionRoundState,
    bidder: PlayerId,
    amount: u32,
    events: &mut Vec<GameEvent>,
) -> (r: Result<(), EffectError>)
    requires
        round.round_index < usize::MAX,
    ensures
        came_out(
            r,
            final(state)@,
            final(events)@,
            advanced(outcome::at(old(state)@, old(events)@), raised(round@, bidder, amount)),
        ),
{
    advance_after_pass_or_bid(
        state,
        events,
        LifeAuctionRoundState {
            high_bid: amount,
            high_bidder: bidder,
            passes_since_raise: 0,
            ..round
        },
    )
}

/// Ends the auction or asks the next participant.
pub fn advance_after_pass_or_bid(
    state: &mut GameState,
    events: &mut Vec<GameEvent>,
    round: LifeAuctionRoundState,
) -> (r: Result<(), EffectError>)
    requires
        round.round_index < usize::MAX,
    ensures
        came_out(
            r,
            final(state)@,
            final(events)@,
            advanced(outcome::at(old(state)@, old(events)@), round@),
        ),
{
    let LifeAuctionRoundState {
        participants,
        round_index,
        high_bid,
        high_bidder,
        passes_since_raise,
        controller,
        source_id,
    } = round;
    let n: usize = participants.len();
    if n == 0 {
        return Ok(());
    }
    if passes_since_raise >= (n - 1) as u32 {
        return finalize_auction(state, high_bidder, high_bid, controller, source_id, events);
    }
    let next_index: usize = (round_index + 1) % n;
    proof {
        vstd::arithmetic::div_mod::lemma_mod_twice(round_index + 1, n as int);
    }
    park_bid_prompt(
        state,
        participants,
        high_bid,
        high_bidder,
        controller,
        source_id,
        passes_since_raise,
        next_index,
    );
    Ok(())
}

/// Publishes the outcome of an auction and carries out the payoff.
pub fn finalize_auction(
    state: &mut GameState,
    winner: PlayerId,
    bid: u32,
    controller: PlayerId,
    source_id: ObjectId,
    events: &mut Vec<GameEvent>,
) -> (r: Result<(), EffectError>)
    ensures
        came_out(
            r,
            final(state)@,
            final(events)@,
            finalized(
                outcome::at(old(state)@, old(events)@),
                winner,
                bid,
                controller,
                source_id,
            ),
        ),
{
    let ghost before = outcome::at(state@, events@);
    let cont = settle(state, winner, bid, controller);
    emit_resolved(events, source_id);
    let (prompt, cont) = cont;
    match cont {
        None => Ok(()),
        Some(cont) => {
            let ghost settled = outcome::at(state@, events@);
            let ghost payoff = cont.chain@;
            assert(finalized(before, winner, bid, controller, source_id) == settled_payoff(
                before,
                settled,
                payoff,
            ));
            let r = chain::run_chain(state, *cont.chain, Vec::new(), events);
            if r.is_err() {
                state.waiting_for = prompt;
            }
            r
        },
    }
}

/// The payoff of a settled auction.
pub open spec fn settled_payoff(
    before: Outcome,
    settled: Outcome,
    payoff: AbilityModel,
) -> ChainOutcome {
    let c = chain::chained(settled, payoff, Seq::empty());
    if c.failure is None {
        c
    } else {
        ChainOutcome {
            after: Outcome {
                state: GameModel {
                    waiting_for: before.state.waiting_for,
                    ..c.after.state
                },
                ..c.after
            },
            ..c
        }
    }
}

/// Publishes winner and bid, gives the controller priority and takes out the payoff.
fn settle(state: &mut GameState, winner: PlayerId, bid: u32, controller: PlayerId) -> (r: (
    WaitingFor,
    Option<PendingContinuation>,
))
    ensures
        final(state)@ == settled_state(old(state)@, winner, bid, controller),
        r.0@ == old(state)@.waiting_for,
        match r.1 {
            Some(c) => old(state)@.pending_continuation == Some(c.chain@),
            None => old(state)@.pending_continuation is None,
        },
{
    state.last_life_auction = Some((winner, bid));
    let mut prompt = WaitingFor::Priority { player: controller };
    std::mem::swap(&mut prompt, &mut state.waiting_for);
    let cont = state.pending_continuation.take();
    (prompt, cont)
}

} // verus!
