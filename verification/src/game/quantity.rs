//! Numbers that abilities read from the game.
use vstd::prelude::*;

use crate::game::players;
use crate::types::game_state::{GameModel, GameState};
use crate::types::identifiers::PlayerId;
use crate::types::quantity::{QuantityExpr, QuantityRef};

verus! {

/// Where a count no longer fits, the largest `u32` stands for it.
pub open spec fn capped(n: int) -> int {
    if n > u32::MAX {
        u32::MAX as int
    } else {
        n
    }
}

/// The value of a quantity for an ability of `controller`.
pub open spec fn quantity(s: GameModel, controller: PlayerId, expr: QuantityExpr) -> int {
    match expr {
        QuantityExpr::Fixed { value } => value as int,
        QuantityExpr::Ref { qty } => match qty {
            QuantityRef::WinningBidAmount => match s.last_life_auction {
                Some(auction) => auction.1 as int,
                None => 0,
            },
            QuantityRef::TimesCostPaidThisResolution => match s.repeated_payment {
                Some(frame) => frame.optional_cost_payments_this_resolution as int,
                None => 0,
            },
            QuantityRef::HandSize => {
                let i = players::seat(s, controller);
                if i < s.players.len() {
                    capped(s.players[i].hand.len() as int)
                } else {
                    0
                }
            },
        },
    }
}

pub fn resolve_quantity(state: &GameState, controller: PlayerId, expr: QuantityExpr) -> (r: i64)
    ensures
        r == quantity(state@, controller, expr),
        i32::MIN <= r <= u32::MAX,
{
    match expr {
        QuantityExpr::Fixed { value } => value as i64,
        QuantityExpr::Ref { qty } => match qty {
            QuantityRef::WinningBidAmount => match state.last_life_auction {
                Some(auction) => auction.1 as i64,
                None => 0,
            },
            QuantityRef::TimesCostPaidThisResolution => match &state.repeated_payment {
                Some(frame) => frame.optional_cost_payments_this_resolution as i64,
                None => 0,
            },
            QuantityRef::HandSize => {
                let i: usize = players::find_player(state, controller);
                if i < state.players.len() {
                    let n: usize = state.players[i].hand.len();
                    if n > u32::MAX as usize {
                        u32::MAX as i64
                    } else {
                        n as i64
                    }
                } else {
                    0
                }
            },
        },
    }
}

} // verus!
