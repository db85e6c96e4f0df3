//! Oracle text of open-bid life auctions: Illicit Auction, Pain's Reward, Mages' Contest.
//!
//! The sentences of an auction form one block: who bids, the opening bid, the procedure and the
//! payoff. The block becomes one auction ability with the payoff as its follow-up.
use std::sync::Arc;
use vstd::prelude::*;

use crate::parser::oracle_effect;
use crate::parser::primitives;
use crate::text;
use crate::types::ability::{
    AbilityDefinition, AbilityKind, Effect, LifeAuctionParticipants, LifeAuctionStartingBid,
};
use crate::types::quantity::{QuantityExpr, QuantityRef};
use crate::types::target_filter::{ControllerRef, TargetFilter};

verus! {

/// A sentence end, if there is one.
pub open spec fn sentence_end(rest: Seq<char>) -> Seq<char> {
    primitives::strip_optional(rest, ". "@)
}

/// Who bids.
pub open spec fn participants_opener(
    rest: Seq<char>,
) -> Option<(Seq<char>, LifeAuctionParticipants)> {
    match primitives::stripped(rest, "each player may bid life for control of target creature"@) {
        Some(a) => Some((sentence_end(a), LifeAuctionParticipants::AllPlayers)),
        None => match primitives::stripped(rest, "each player may bid life"@) {
            Some(a) => Some((sentence_end(a), LifeAuctionParticipants::AllPlayers)),
            None => match primitives::stripped(
                rest,
                "you and target spell's controller bid life"@,
            ) {
                Some(a) => Some(
                    (sentence_end(a), LifeAuctionParticipants::ControllerAndTargetController),
                ),
                None => None,
            },
        },
    }
}

/// The opening bid.
pub open spec fn starting_bid_line(rest: Seq<char>) -> Option<(Seq<char>, LifeAuctionStartingBid)> {
    match primitives::stripped(rest, "you start the bidding with a bid of "@) {
        None => None,
        Some(a) => match primitives::stripped(a, "any number"@) {
            Some(b) => Some((sentence_end(b), LifeAuctionStartingBid::ControllerChooses)),
            None => match primitives::number(a) {
                Some((b, n)) => Some((sentence_end(b), LifeAuctionStartingBid::Fixed(n))),
                None => None,
            },
        },
    }
}

/// The procedure.
pub open spec fn auction_procedure(rest: Seq<char>) -> Option<Seq<char>> {
    match primitives::stripped(rest, "in turn order, each player may top the high bid"@) {
        None => None,
        Some(a) => match primitives::stripped(
            sentence_end(a),
            "the bidding ends if the high bid stands"@,
        ) {
            None => None,
            Some(b) => Some(sentence_end(b)),
        },
    }
}

/// The winner loses as much life as they bid.
pub open spec fn winner_loses_bid(kind: AbilityKind) -> AbilityDefinition {
    AbilityDefinition::plain(
        kind,
        Effect::LoseLife {
            amount: QuantityExpr::Ref { qty: QuantityRef::WinningBidAmount },
            target: Some(TargetFilter::WinningBidder),
        },
    )
}

/// "... and draws four cards", "... and gains control of the creature".
pub open spec fn payoff_conjunction(rest: Seq<char>, kind: AbilityKind) -> Option<
    (Seq<char>, AbilityDefinition),
> {
    match primitives::stripped(rest, " and "@) {
        None => None,
        Some(a) => match winner_draws(a, kind) {
            Some(found) => Some(found),
            None => match primitives::stripped(a, "gains control of the creature"@) {
                None => None,
                Some(b) => Some(
                    (
                        b,
                        AbilityDefinition::plain(
                            kind,
                            Effect::GiveControl {
                                target: TargetFilter::ParentTarget,
                                recipient: TargetFilter::WinningBidder,
                            },
                        ),
                    ),
                ),
            },
        },
    }
}

pub open spec fn winner_draws(rest: Seq<char>, kind: AbilityKind) -> Option<
    (Seq<char>, AbilityDefinition),
> {
    match primitives::stripped(rest, "draws "@) {
        None => None,
        Some(a) => match primitives::number(a) {
            None => None,
            Some((b, n)) => match primitives::stripped(b, " cards"@) {
                None => None,
                Some(c) => Some(
                    (
                        c,
                        AbilityDefinition::plain(
                            kind,
                            Effect::Draw {
                                count: QuantityExpr::Fixed { value: n as i32 },
                                target: TargetFilter::WinningBidder,
                            },
                        ),
                    ),
                ),
            },
        },
    }
}

pub open spec fn then_do(def: AbilityDefinition, sub: AbilityDefinition) -> AbilityDefinition {
    AbilityDefinition { sub_ability: Some(Box::new(sub)), ..def }
}

/// "The high bidder loses life equal to the high bid", with what is joined to it.
pub open spec fn lose_life_head(rest: Seq<char>, kind: AbilityKind) -> Option<
    (Seq<char>, AbilityDefinition),
> {
    match primitives::stripped(rest, "the high bidder loses life equal to the high bid"@) {
        None => None,
        Some(a) => match payoff_conjunction(a, kind) {
            Some((b, suffix)) => Some(
                (
                    primitives::strip_optional(b, "."@),
                    then_do(winner_loses_bid(kind), suffix),
                ),
            ),
            None => Some((primitives::strip_optional(a, "."@), winner_loses_bid(kind))),
        },
    }
}

/// The ability with every loss of life in its chain rewritten: the winning bid is lost, by the
/// winner where nobody else is named.
pub open spec fn rewritten(def: AbilityDefinition) -> AbilityDefinition
    decreases def,
{
    AbilityDefinition {
        effect: match *def.effect {
            Effect::LoseLife { amount, target } => Arc::new(
                Effect::LoseLife {
                    amount: QuantityExpr::Ref { qty: QuantityRef::WinningBidAmount },
                    target: match target {
                        Some(f) => Some(f),
                        None => Some(TargetFilter::WinningBidder),
                    },
                },
            ),
            _ => def.effect,
        },
        sub_ability: match def.sub_ability {
            Some(sub) => Some(Box::new(rewritten(*sub))),
            None => None,
        },
        ..def
    }
}

/// The payoff that begins with the loss of the bid.
pub open spec fn standard_payoff(rest: Seq<char>, kind: AbilityKind) -> Option<AbilityDefinition> {
    match lose_life_head(rest, kind) {
        None => None,
        Some((a, head)) => {
            let b = primitives::skip_space(a);
            let c = sentence_end(b);
            if b.len() == 0 || c.len() == 0 {
                Some(head)
            } else {
                let (condition, body) = oracle_effect::winner_conditional(c);
                match condition {
                    None => None,
                    Some(cond) => {
                        let tail = oracle_effect::effect_sentence(body, kind);
                        if *tail.effect is Unimplemented {
                            None
                        } else {
                            Some(
                                then_do(
                                    head,
                                    AbilityDefinition {
                                        condition: Some(cond),
                                        ..rewritten(tail)
                                    },
                                ),
                            )
                        }
                    },
                }
            }
        },
    }
}

/// What follows a completed auction.
pub open spec fn auction_payoff(rest: Seq<char>, kind: AbilityKind) -> Option<AbilityDefinition> {
    let body = primitives::skip_space(rest);
    if body.len() == 0 {
        None
    } else {
        match standard_payoff(body, kind) {
            Some(def) => Some(def),
            None => {
                let def = oracle_effect::effect_sentence(body, kind);
                if *def.effect is Unimplemented {
                    None
                } else {
                    Some(rewritten(def))
                }
            },
        }
    }
}

/// A whole auction block.
pub open spec fn auction_block(rest: Seq<char>, kind: AbilityKind) -> Option<AbilityDefinition> {
    match participants_opener(rest) {
        None => None,
        Some((a, participants)) => match starting_bid_line(a) {
            None => None,
            Some((b, starting_bid)) => match auction_procedure(b) {
                None => None,
                Some(c) => match auction_payoff(c, kind) {
                    None => None,
                    Some(payoff) => Some(
                        then_do(
                            AbilityDefinition::plain(
                                kind,
                                Effect::LifeAuction {
                                    participants,
                                    starting_bid,
                                    starting_with: ControllerRef::You,
                                },
                            ),
                            payoff,
                        ),
                    ),
                },
            },
        },
    }
}

/// Reads a whole auction block.
pub fn parse_life_auction_block(text: &str, kind: AbilityKind) -> (r: Option<AbilityDefinition>)
    ensures
        r == auction_block(text@, kind),
{
    let t = text::chars_of(text);
    assert(t@.skip(0) =~= text@);
    let (a, participants) = match parse_participants_opener(&t, 0) {
        Some(found) => found,
        None => {
            return None;
        },
    };
    let (b, starting_bid) = match parse_starting_bid_line(&t, a) {
        Some(found) => found,
        None => {
            return None;
        },
    };
    let c: usize = match parse_auction_procedure(&t, b) {
        Some(c) => c,
        None => {
            return None;
        },
    };
    match parse_auction_payoff(&t, c, kind) {
        None => None,
        Some(payoff) => Some(
            AbilityDefinition::new(
                kind,
                Effect::LifeAuction {
                    participants,
                    starting_bid,
                    starting_with: ControllerRef::You,
                },
            ).sub_ability(payoff),
        ),
    }
}

fn parse_participants_opener(t: &Vec<char>, at: usize) -> (r: Option<
    (usize, LifeAuctionParticipants),
>)
    requires
        at <= t.len(),
    ensures
        match r {
            Some((n, p)) => at <= n <= t.len() && participants_opener(t@.skip(at as int)) == Some(
                (t@.skip(n as int), p),
            ),
            None => participants_opener(t@.skip(at as int)) is None,
        },
{
    if let Some(a) = primitives::strip(
        t,
        at,
        "each player may bid life for control of target creature",
    ) {
        return Some((primitives::strip_opt(t, a, ". "), LifeAuctionParticipants::AllPlayers));
    }
    if let Some(a) = primitives::strip(t, at, "each player may bid life") {
        return Some((primitives::strip_opt(t, a, ". "), LifeAuctionParticipants::AllPlayers));
    }
    if let Some(a) = primitives::strip(t, at, "you and target spell's controller bid life") {
        return Some(
            (
                primitives::strip_opt(t, a, ". "),
                LifeAuctionParticipants::ControllerAndTargetController,
            ),
        );
    }
    None
}

fn parse_starting_bid_line(t: &Vec<char>, at: usize) -> (r: Option<(usize, LifeAuctionStartingBid)>)
    requires
        at <= t.len(),
    ensures
        match r {
            Some((n, b)) => at <= n <= t.len() && starting_bid_line(t@.skip(at as int)) == Some(
                (t@.skip(n as int), b),
            ),
            None => starting_bid_line(t@.skip(at as int)) is None,
        },
{
    let a: usize = match primitives::strip(t, at, "you start the bidding with a bid of ") {
        Some(a) => a,
        None => {
            return None;
        },
    };
    if let Some(b) = primitives::strip(t, a, "any number") {
        return Some(
            (primitives::strip_opt(t, b, ". "), LifeAuctionStartingBid::ControllerChooses),
        );
    }
    match primitives::parse_number(t, a) {
        Some((b, n)) => Some(
            (primitives::strip_opt(t, b, ". "), LifeAuctionStartingBid::Fixed(n)),
        ),
        None => None,
    }
}

fn parse_auction_procedure(t: &Vec<char>, at: usize) -> (r: Option<usize>)
    requires
        at <= t.len(),
    ensures
        match r {
            Some(n) => at <= n <= t.len() && auction_procedure(t@.skip(at as int)) == Some(
                t@.skip(n as int),
            ),
            None => auction_procedure(t@.skip(at as int)) is None,
        },
{
    match primitives::strip(t, at, "in turn order, each player may top the high bid") {
        None => None,
        Some(a) => {
            let b: usize = primitives::strip_opt(t, a, ". ");
            match primitives::strip(t, b, "the bidding ends if the high bid stands") {
                None => None,
                Some(c) => Some(primitives::strip_opt(t, c, ". ")),
            }
        },
    }
}

fn parse_auction_payoff(
    t: &Vec<char>,
    at: usize,
    kind: AbilityKind,
) -> (r: Option<AbilityDefinition>)
    requires
        at <= t.len(),
    ensures
        r == auction_payoff(t@.skip(at as int), kind),
{
    let body: usize = primitives::skip_spaces(t, at);
    if body == t.len() {
        return None;
    }
    match parse_standard_payoff(t, body, kind) {
        Some(def) => Some(def),
        None => {
            let def = oracle_effect::parse_effect_chain_with_context(t, body, kind);
            match &*def.effect {
                Effect::Unimplemented => None,
                _ => Some(normalize_payoff(def)),
            }
        },
    }
}

fn parse_standard_payoff(
    t: &Vec<char>,
    at: usize,
    kind: AbilityKind,
) -> (r: Option<AbilityDefinition>)
    requires
        at <= t.len(),
    ensures
        r == standard_payoff(t@.skip(at as int), kind),
{
    let (a, head) = match parse_high_bidder_lose_life_head(t, at, kind) {
        Some(found) => found,
        None => {
            return None;
        },
    };
    let b: usize = primitives::skip_spaces(t, a);
    if b == t.len() {
        return Some(head);
    }
    let c: usize = primitives::strip_opt(t, b, ". ");
    if c == t.len() {
        return Some(head);
    }
    let (condition, body) = oracle_effect::strip_auction_winner_conditional(t, c);
    match condition {
        None => None,
        Some(cond) => {
            let tail = oracle_effect::parse_effect_chain_with_context(t, body, kind);
            match &*tail.effect {
                Effect::Unimplemented => None,
                _ => Some(head.sub_ability(normalize_payoff(tail).condition(cond))),
            }
        },
    }
}

fn parse_high_bidder_lose_life_head(t: &Vec<char>, at: usize, kind: AbilityKind) -> (r: Option<
    (usize, AbilityDefinition),
>)
    requires
        at <= t.len(),
    ensures
        match r {
            Some((n, d)) => at <= n <= t.len() && lose_life_head(t@.skip(at as int), kind) == Some(
                (t@.skip(n as int), d),
            ),
            None => lose_life_head(t@.skip(at as int), kind) is None,
        },
{
    match primitives::strip(t, at, "the high bidder loses life equal to the high bid") {
        None => None,
        Some(a) => {
            let chain = build_lose_life_winning_bidder(kind);
            match parse_auction_payoff_conjunction(t, a, kind) {
                Some((b, suffix)) => Some(
                    (primitives::strip_opt(t, b, "."), chain.sub_ability(suffix)),
                ),
                None => Some((primitives::strip_opt(t, a, "."), chain)),
            }
        },
    }
}

fn parse_winner_draws(t: &Vec<char>, at: usize, kind: AbilityKind) -> (r: Option<
    (usize, AbilityDefinition),
>)
    requires
        at <= t.len(),
    ensures
        match r {
            Some((n, d)) => at <= n <= t.len() && winner_draws(t@.skip(at as int), kind) == Some(
                (t@.skip(n as int), d),
            ),
            None => winner_draws(t@.skip(at as int), kind) is None,
        },
{
    match primitives::strip(t, at, "draws ") {
        None => None,
        Some(a) => match primitives::parse_number(t, a) {
            None => None,
            Some((b, count)) => match primitives::strip(t, b, " cards") {
                None => None,
                Some(c) => Some(
                    (
                        c,
                        AbilityDefinition::new(
                            kind,
                            Effect::Draw {
                                count: QuantityExpr::Fixed { value: count as i32 },
                                target: TargetFilter::WinningBidder,
                            },
                        ),
                    ),
                ),
            },
        },
    }
}

fn parse_auction_payoff_conjunction(t: &Vec<char>, at: usize, kind: AbilityKind) -> (r: Option<
    (usize, AbilityDefinition),
>)
    requires
        at <= t.len(),
    ensures
        match r {
            Some((n, d)) => at <= n <= t.len() && payoff_conjunction(t@.skip(at as int), kind)
                == Some((t@.skip(n as int), d)),
            None => payoff_conjunction(t@.skip(at as int), kind) is None,
        },
{
    match primitives::strip(t, at, " and ") {
        None => None,
        Some(a) => match parse_winner_draws(t, a, kind) {
            Some(found) => Some(found),
            None => match primitives::strip(t, a, "gains control of the creature") {
                None => None,
                Some(b) => Some(
                    (
                        b,
                        AbilityDefinition::new(
                            kind,
                            Effect::GiveControl {
                                target: TargetFilter::ParentTarget,
                                recipient: TargetFilter::WinningBidder,
                            },
                        ),
                    ),
                ),
            },
        },
    }
}

fn build_lose_life_winning_bidder(kind: AbilityKind) -> (r: AbilityDefinition)
    ensures
        r == winner_loses_bid(kind),
{
    AbilityDefinition::new(
        kind,
        Effect::LoseLife {
            amount: QuantityExpr::Ref { qty: QuantityRef::WinningBidAmount },
            target: Some(TargetFilter::WinningBidder),
        },
    )
}

fn normalize_payoff(def: AbilityDefinition) -> (r: AbilityDefinition)
    ensures
        r == rewritten(def),
{
    let mut def = def;
    rewrite_lose_life_in_chain(&mut def);
    def
}

/// Lets every loss of life in a chain be that of the winning bid, by the winner where nobody else is
/// named.
pub fn rewrite_lose_life_in_chain(def: &mut AbilityDefinition)
    ensures
        *final(def) == rewritten(*old(def)),
    decreases *old(def),
{
    let effect = match &*def.effect {
        Effect::LoseLife { target, .. } => {
            let target = match target {
                Some(f) => f.copied(),
                None => TargetFilter::WinningBidder,
            };
            Some(
                Effect::LoseLife {
                    amount: QuantityExpr::Ref { qty: QuantityRef::WinningBidAmount },
                    target: Some(target),
                },
            )
        },
        _ => None,
    };
    if let Some(e) = effect {
        def.effect = Arc::new(e);
    }
    if let Some(sub) = def.sub_ability.take() {
        let mut sub = sub;
        rewrite_lose_life_in_chain(&mut sub);
        def.sub_ability = Some(sub);
    }
}

} // verus!
