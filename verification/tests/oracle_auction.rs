//! Oracle text of life auctions.
use phase_engine::parser::oracle_auction::parse_life_auction_block;
use phase_engine::types::ability::{
    AbilityCondition, AbilityKind, Effect, LifeAuctionParticipants, LifeAuctionStartingBid,
};
use phase_engine::types::quantity::QuantityExpr;
use phase_engine::types::target_filter::{ControllerRef, TargetFilter};

const ILLICIT: &str = "Each player may bid life for control of target creature. You start the bidding with a bid of 0. In turn order, each player may top the high bid. The bidding ends if the high bid stands. The high bidder loses life equal to the high bid and gains control of the creature.";
const PAINS: &str = "Each player may bid life. You start the bidding with a bid of any number. In turn order, each player may top the high bid. The bidding ends if the high bid stands. The high bidder loses life equal to the high bid and draws four cards.";
const MAGES: &str = "You and target spell's controller bid life. You start the bidding with a bid of 1. In turn order, each player may top the high bid. The bidding ends if the high bid stands. The high bidder loses life equal to the high bid. If you win the bidding, counter that spell.";

#[test]
fn parses_illicit_auction_block() {
    let def = parse_life_auction_block(ILLICIT, AbilityKind::Spell).expect("illicit");
    assert!(matches!(
        *def.effect,
        Effect::LifeAuction {
            participants: LifeAuctionParticipants::AllPlayers,
            starting_bid: LifeAuctionStartingBid::Fixed(0),
            ..
        }
    ));
    let sub = def.sub_ability.expect("payoff");
    assert!(matches!(*sub.effect, Effect::LoseLife { .. }));
    let give = sub.sub_ability.expect("give control");
    assert!(matches!(
        *give.effect,
        Effect::GiveControl {
            target: TargetFilter::ParentTarget,
            recipient: TargetFilter::WinningBidder,
        }
    ));
}

#[test]
fn parses_pains_reward_block() {
    let def = parse_life_auction_block(PAINS, AbilityKind::Spell).expect("pains");
    assert!(matches!(
        *def.effect,
        Effect::LifeAuction {
            starting_bid: LifeAuctionStartingBid::ControllerChooses,
            ..
        }
    ));
    let sub = def.sub_ability.expect("payoff");
    assert!(matches!(*sub.effect, Effect::LoseLife { .. }));
    let draw = sub.sub_ability.expect("draw");
    assert!(matches!(
        *draw.effect,
        Effect::Draw {
            count: QuantityExpr::Fixed { value: 4 },
            target: TargetFilter::WinningBidder,
        }
    ));
}

#[test]
fn parses_mages_contest_block() {
    let def = parse_life_auction_block(MAGES, AbilityKind::Spell).expect("mages");
    assert!(matches!(
        *def.effect,
        Effect::LifeAuction {
            participants: LifeAuctionParticipants::ControllerAndTargetController,
            starting_bid: LifeAuctionStartingBid::Fixed(1),
            ..
        }
    ));
    let sub = def.sub_ability.expect("payoff");
    assert!(matches!(*sub.effect, Effect::LoseLife { .. }));
    let counter = sub.sub_ability.expect("conditional counter");
    assert!(matches!(
        counter.condition,
        Some(AbilityCondition::AuctionWinnerIs {
            player: ControllerRef::You
        })
    ));
    assert!(matches!(*counter.effect, Effect::Counter { .. }));
}
