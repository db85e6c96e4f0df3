//! Effect sentences of Oracle text.
use vstd::prelude::*;

use crate::parser::primitives;
use crate::types::ability::{AbilityCondition, AbilityDefinition, AbilityKind, Effect};
use crate::types::quantity::QuantityExpr;
use crate::types::target_filter::{ControllerRef, TargetFilter};

verus! {

/// "a" or a number, and a space.
pub open spec fn amount(rest: Seq<char>) -> Option<(Seq<char>, u32)> {
    match primitives::stripped(rest, "a "@) {
        Some(after) => Some((after, 1u32)),
        None => match primitives::number(rest) {
            Some((after, n)) => match primitives::stripped(after, " "@) {
                Some(end) => Some((end, n)),
                None => None,
            },
            None => None,
        },
    }
}

pub open spec fn fixed(n: u32) -> QuantityExpr {
    QuantityExpr::Fixed { value: n as i32 }
}

/// A verb, an amount and a noun, which may stand in the plural.
pub open spec fn counted(rest: Seq<char>, verb: Seq<char>, noun: Seq<char>) -> Option<
    (Seq<char>, u32),
> {
    match primitives::stripped(rest, verb) {
        None => None,
        Some(a) => match amount(a) {
            None => None,
            Some((b, n)) => match primitives::stripped(b, noun) {
                None => None,
                Some(c) => Some((primitives::strip_optional(c, "s"@), n)),
            },
        },
    }
}

/// One instruction: "counter that spell", or "(you) draw, discard, lose, gain" so much.
pub open spec fn effect_phrase(rest: Seq<char>) -> Option<(Seq<char>, Effect)> {
    match primitives::stripped(rest, "counter that spell"@) {
        Some(after) => Some((after, Effect::Counter { target: TargetFilter::ParentTarget })),
        None => {
            let body = primitives::strip_optional(rest, "you "@);
            match counted(body, "draw "@, "card"@) {
                Some((after, n)) => Some(
                    (after, Effect::Draw { count: fixed(n), target: TargetFilter::Controller }),
                ),
                None => match counted(body, "discard "@, "card"@) {
                    Some((after, n)) => Some(
                        (
                            after,
                            Effect::Discard { count: fixed(n), target: TargetFilter::Controller },
                        ),
                    ),
                    None => match counted(body, "lose "@, "life"@) {
                        Some((after, n)) => Some(
                            (after, Effect::LoseLife { amount: fixed(n), target: None }),
                        ),
                        None => match counted(body, "gain "@, "life"@) {
                            Some((after, n)) => Some(
                                (
                                    after,
                                    Effect::GainLife {
                                        amount: fixed(n),
                                        target: TargetFilter::Controller,
                                    },
                                ),
                            ),
                            None => None,
                        },
                    },
                },
            }
        },
    }
}

/// The text is over, but for a period.
pub open spec fn ended(rest: Seq<char>) -> bool {
    rest.len() == 0 || (rest.len() == 1 && rest[0] == '.')
}

/// Instructions that are joined by ", then ", up to the end of the text.
pub open spec fn effect_chain(rest: Seq<char>, kind: AbilityKind) -> Option<AbilityDefinition>
    decreases rest.len(),
{
    match effect_phrase(rest) {
        None => None,
        Some((after, effect)) => {
            let first = AbilityDefinition::plain(kind, effect);
            if ended(after) {
                Some(first)
            } else {
                match primitives::stripped(after, ", then "@) {
                    None => None,
                    Some(next) => if next.len() < rest.len() {
                        match effect_chain(next, kind) {
                            None => None,
                            Some(sub) => Some(
                                AbilityDefinition { sub_ability: Some(Box::new(sub)), ..first },
                            ),
                        }
                    } else {
                        None
                    },
                }
            }
        },
    }
}

/// The ability of an effect sentence; one that is not understood is not carried out.
pub open spec fn effect_sentence(rest: Seq<char>, kind: AbilityKind) -> AbilityDefinition {
    match effect_chain(rest, kind) {
        Some(def) => def,
        None => AbilityDefinition::plain(kind, Effect::Unimplemented),
    }
}

/// "If you win the bidding, ...": the condition, and the text that it applies to.
pub open spec fn winner_conditional(rest: Seq<char>) -> (Option<AbilityCondition>, Seq<char>) {
    match primitives::stripped(rest, "if you win the bidding, "@) {
        Some(after) => (
            Some(AbilityCondition::AuctionWinnerIs { player: ControllerRef::You }),
            after,
        ),
        None => (None, rest),
    }
}

fn parse_amount(text: &Vec<char>, at: usize) -> (r: Option<(usize, u32)>)
    requires
        at <= text.len(),
    ensures
        match r {
            Some((n, v)) => at <= n <= text.len() && amount(text@.skip(at as int)) == Some(
                (text@.skip(n as int), v),
            ),
            None => amount(text@.skip(at as int)) is None,
        },
{
    if let Some(n) = primitives::strip(text, at, "a ") {
        return Some((n, 1));
    }
    match primitives::parse_number(text, at) {
        Some((n, v)) => match primitives::strip(text, n, " ") {
            Some(end) => Some((end, v)),
            None => None,
        },
        None => None,
    }
}

fn parse_counted(text: &Vec<char>, at: usize, verb: &str, noun: &str) -> (r: Option<(usize, u32)>)
    requires
        at <= text.len(),
    ensures
        match r {
            Some((n, v)) => at <= n <= text.len() && counted(
                text@.skip(at as int),
                verb@,
                noun@,
            ) == Some((text@.skip(n as int), v)),
            None => counted(text@.skip(at as int), verb@, noun@) is None,
        },
{
    match primitives::strip(text, at, verb) {
        None => None,
        Some(a) => match parse_amount(text, a) {
            None => None,
            Some((b, v)) => match primitives::strip(text, b, noun) {
                None => None,
                Some(c) => Some((primitives::strip_opt(text, c, "s"), v)),
            },
        },
    }
}

fn parse_effect_phrase(text: &Vec<char>, at: usize) -> (r: Option<(usize, Effect)>)
    requires
        at <= text.len(),
    ensures
        match r {
            Some((n, e)) => at <= n <= text.len() && effect_phrase(text@.skip(at as int)) == Some(
                (text@.skip(n as int), e),
            ),
            None => effect_phrase(text@.skip(at as int)) is None,
        },
{
    if let Some(n) = primitives::strip(text, at, "counter that spell") {
        return Some((n, Effect::Counter { target: TargetFilter::ParentTarget }));
    }
    let body: usize = primitives::strip_opt(text, at, "you ");
    if let Some((n, v)) = parse_counted(text, body, "draw ", "card") {
        let count = QuantityExpr::Fixed { value: v as i32 };
        return Some((n, Effect::Draw { count, target: TargetFilter::Controller }));
    }
    if let Some((n, v)) = parse_counted(text, body, "discard ", "card") {
        let count = QuantityExpr::Fixed { value: v as i32 };
        return Some((n, Effect::Discard { count, target: TargetFilter::Controller }));
    }
    if let Some((n, v)) = parse_counted(text, body, "lose ", "life") {
        let amount = QuantityExpr::Fixed { value: v as i32 };
        return Some((n, Effect::LoseLife { amount, target: None }));
    }
    if let Some((n, v)) = parse_counted(text, body, "gain ", "life") {
        let amount = QuantityExpr::Fixed { value: v as i32 };
        return Some((n, Effect::GainLife { amount, target: TargetFilter::Controller }));
    }
    None
}

fn parse_effect_chain(
    text: &Vec<char>,
    at: usize,
    kind: AbilityKind,
) -> (r: Option<AbilityDefinition>)
    requires
        at <= text.len(),
    ensures
        r == effect_chain(text@.skip(at as int), kind),
    decreases text.len() - at,
{
    match parse_effect_phrase(text, at) {
        None => None,
        Some((n, effect)) => {
            let first = AbilityDefinition::new(kind, effect);
            if n == text.len() || (n == text.len() - 1 && text[n] == '.') {
                return Some(first);
            }
            match primitives::strip(text, n, ", then ") {
                None => None,
                Some(next) => if next > at {
                    match parse_effect_chain(text, next, kind) {
                        None => None,
                        Some(sub) => Some(first.sub_ability(sub)),
                    }
                } else {
                    None
                },
            }
        },
    }
}

/// Reads the instructions of a sentence that begins at a position.
pub fn parse_effect_chain_with_context(text: &Vec<char>, at: usize, kind: AbilityKind) -> (r:
    AbilityDefinition)
    requires
        at <= text.len(),
    ensures
        r == effect_sentence(text@.skip(at as int), kind),
{
    match parse_effect_chain(text, at, kind) {
        Some(def) => def,
        None => AbilityDefinition::new(kind, Effect::Unimplemented),
    }
}

/// Takes the condition off a sentence about the winner of an auction.
pub fn strip_auction_winner_conditional(text: &Vec<char>, at: usize) -> (r: (
    Option<AbilityCondition>,
    usize,
))
    requires
        at <= text.len(),
    ensures
        at <= r.1 <= text.len(),
        (r.0, text@.skip(r.1 as int)) == winner_conditional(text@.skip(at as int)),
{
    match primitives::strip(text, at, "if you win the bidding, ") {
        Some(n) => (Some(AbilityCondition::AuctionWinnerIs { player: ControllerRef::You }), n),
        None => (None, at),
    }
}

} // verus!
