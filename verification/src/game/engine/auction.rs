//! Decisions in a life auction.
use vstd::prelude::*;

use crate::game::effects::life_auction;
use crate::game::effects::life_auction::{LifeAuctionRoundState, RoundModel};
use crate::game::engine::reply;
use crate::game::engine::reply::{EngineError, ErrorModel, Reply};
use crate::game::outcome;
use crate::shared;
use crate::types::events::GameEvent;
use crate::types::game_state::{GameModel, GameState};
use crate::types::identifiers::PlayerId;
use crate::types::prompts::{PayableResource, PromptModel, WaitingFor};

verus! {

/// The round of bidding that a prompt stands for, if it is one that can go on.
pub open spec fn round_of(p: PromptModel) -> Option<RoundModel> {
    match p {
        PromptModel::LifeAuctionBid {
            participants,
            round_index,
            high_bid,
            high_bidder,
            passes_since_raise,
            controller,
            source_id,
            ..
        } => if round_index < usize::MAX {
            Some(
                RoundModel {
                    participants,
                    round_index: round_index as int,
                    high_bid,
                    high_bidder,
                    passes_since_raise,
                    controller,
                    source_id,
                },
            )
        } else {
            None
        },
        _ => None,
    }
}

/// The participant passes.
#[verifier::opaque]
pub open spec fn pass_reply(s: GameModel) -> Reply {
    match round_of(s.waiting_for) {
        Some(round) => reply::resolved(
            life_auction::advanced(outcome::at(s, Seq::empty()), life_auction::passed(round)),
        ),
        None => reply::refused(s, ErrorModel::WrongPrompt),
    }
}

/// The participant bids. A bid has to top the high bid; it may exceed the bidder's life total.
#[verifier::opaque]
pub open spec fn bid_reply(s: GameModel, player: PlayerId, amount: u32) -> Reply {
    match round_of(s.waiting_for) {
        Some(round) => if amount > round.high_bid {
            reply::resolved(
                life_auction::advanced(
                    outcome::at(s, Seq::empty()),
                    life_auction::raised(round, player, amount),
                ),
            )
        } else {
            reply::refused(s, ErrorModel::IllegalChoice)
        },
        None => reply::refused(s, ErrorModel::WrongPrompt),
    }
}

fn current_round(state: &GameState) -> (r: Option<LifeAuctionRoundState>)
    ensures
        match r {
            Some(round) => round_of(state@.waiting_for) == Some(round@) && round.round_index
                < usize::MAX,
            None => round_of(state@.waiting_for) is None,
        },
{
    match &state.waiting_for {
        WaitingFor::LifeAuctionBid {
            participants,
            round_index,
            high_bid,
            high_bidder,
            passes_since_raise,
            controller,
            source_id,
            ..
        } => if *round_index < usize::MAX {
            Some(
                LifeAuctionRoundState {
                    participants: shared::copy_all(participants),
                    round_index: *round_index,
                    high_bid: *high_bid,
                    high_bidder: *high_bidder,
                    passes_since_raise: *passes_since_raise,
                    controller: *controller,
                    source_id: *source_id,
                },
            )
        } else {
            None
        },
        _ => None,
    }
}

pub fn pass(state: &mut GameState) -> (r: Result<Vec<GameEvent>, EngineError>)
    ensures
        reply::agrees(r, final(state)@, pass_reply(old(state)@)),
{
    proof {
        reveal(pass_reply);
    }
    match current_round(state) {
        None => Err(EngineError::WrongPrompt),
        Some(round) => {
            let mut events: Vec<GameEvent> = Vec::new();
            let r = life_auction::record_pass(state, round, &mut events);
            reply::conclude(r, events)
        },
    }
}

pub fn bid(state: &mut GameState, player: PlayerId, amount: u32) -> (r: Result<
    Vec<GameEvent>,
    EngineError,
>)
    ensures
        reply::agrees(r, final(state)@, bid_reply(old(state)@, player, amount)),
{
    proof {
        reveal(bid_reply);
    }
    match current_round(state) {
        None => Err(EngineError::WrongPrompt),
        Some(round) => {
            if amount <= round.high_bid {
                return Err(EngineError::IllegalChoice);
            }
            let mut events: Vec<GameEvent> = Vec::new();
            let r = life_auction::record_bid(state, round, player, amount, &mut events);
            reply::conclude(r, events)
        },
    }
}

/// The controller announces the opening bid, between the offered bounds.
#[verifier::opaque]
pub open spec fn opening_reply(s: GameModel, player: PlayerId, amount: u32) -> Reply {
    match s.waiting_for {
        PromptModel::PayAmountChoice { resource, min, max, source_id, .. } => match (
            resource,
            s.pending_life_auction_participants,
        ) {
            (PayableResource::Life, Some(participants)) => if min <= amount <= max && amount
                <= i32::MAX && participants.len() > 0 {
                Reply {
                    state: life_auction::begun(
                        GameModel { last_effect_count: Some(amount as i32), ..s },
                        player,
                        source_id,
                    ),
                    result: Ok(Seq::empty()),
                }
            } else {
                reply::refused(s, ErrorModel::IllegalChoice)
            },
            _ => reply::refused(s, ErrorModel::WrongPrompt),
        },
        _ => reply::refused(s, ErrorModel::WrongPrompt),
    }
}

pub fn announce_opening(state: &mut GameState, player: PlayerId, amount: u32) -> (r: Result<
    Vec<GameEvent>,
    EngineError,
>)
    ensures
        reply::agrees(r, final(state)@, opening_reply(old(state)@, player, amount)),
{
    proof {
        reveal(opening_reply);
    }
    let (min, max, source_id) = match &state.waiting_for {
        WaitingFor::PayAmountChoice {
            resource: PayableResource::Life,
            min,
            max,
            source_id,
            ..
        } => (*min, *max, *source_id),
        _ => {
            return Err(EngineError::WrongPrompt);
        },
    };
    let waiting: usize = match &state.pending_life_auction_participants {
        Some(p) => p.len(),
        None => {
            return Err(EngineError::WrongPrompt);
        },
    };
    if amount < min || amount > max || amount > i32::MAX as u32 || waiting == 0 {
        return Err(EngineError::IllegalChoice);
    }
    state.last_effect_count = Some(amount as i32);
    life_auction::begin_after_opening_bid(state, player, source_id);
    Ok(Vec::new())
}

} // verus!
