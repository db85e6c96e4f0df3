//! What holds of the auction grammar as a whole.
use vstd::prelude::*;

use crate::parser::oracle_auction;
use crate::parser::oracle_effect;
use crate::parser::primitives;
use crate::text;
use crate::types::ability::{AbilityDefinition, AbilityKind, Effect};
use crate::types::quantity::{QuantityExpr, QuantityRef};
use crate::types::target_filter::TargetFilter;

verus! {

/// The texts agree but for ASCII case.
pub open spec fn same_text(a: Seq<char>, b: Seq<char>) -> bool {
    text::lowered(a) == text::lowered(b)
}

/// Both parsers fail, or both read the same and leave texts that agree but for case.
pub open spec fn same_reading<T>(a: Option<(Seq<char>, T)>, b: Option<(Seq<char>, T)>) -> bool {
    match (a, b) {
        (Some(x), Some(y)) => same_text(x.0, y.0) && x.1 == y.1,
        (None, None) => true,
        _ => false,
    }
}

pub open spec fn same_rest(a: Option<Seq<char>>, b: Option<Seq<char>>) -> bool {
    match (a, b) {
        (Some(x), Some(y)) => same_text(x, y),
        (None, None) => true,
        _ => false,
    }
}

proof fn lemma_same_length(a: Seq<char>, b: Seq<char>)
    requires
        same_text(a, b),
    ensures
        a.len() == b.len(),
        forall|i: int|
            0 <= i < a.len() ==> text::lower_char(#[trigger] a[i]) == text::lower_char(b[i]),
{
    assert(text::lowered(a).len() == a.len());
    assert(text::lowered(b).len() == b.len());
    assert forall|i: int| 0 <= i < a.len() implies text::lower_char(#[trigger] a[i])
        == text::lower_char(b[i]) by {
        assert(text::lowered(a)[i] == text::lowered(b)[i]);
    }
}

proof fn lemma_same_skip(a: Seq<char>, b: Seq<char>, n: int)
    requires
        same_text(a, b),
        0 <= n <= a.len(),
    ensures
        same_text(a.skip(n), b.skip(n)),
        same_text(a.take(n), b.take(n)),
{
    lemma_same_length(a, b);
    assert(text::lowered(a.skip(n)) =~= text::lowered(b.skip(n)));
    assert(text::lowered(a.take(n)) =~= text::lowered(b.take(n)));
}

proof fn lemma_stripped(a: Seq<char>, b: Seq<char>, tag: Seq<char>)
    requires
        same_text(a, b),
    ensures
        same_rest(primitives::stripped(a, tag), primitives::stripped(b, tag)),
        same_text(primitives::strip_optional(a, tag), primitives::strip_optional(b, tag)),
{
    lemma_same_length(a, b);
    if tag.len() <= a.len() {
        lemma_same_skip(a, b, tag.len() as int);
    }
}

/// Characters that are no letters are not changed by case.
proof fn lemma_not_letters(a: char, b: char)
    requires
        text::lower_char(a) == text::lower_char(b),
    ensures
        primitives::multispace(a) == primitives::multispace(b),
        primitives::digit(a) == primitives::digit(b),
        primitives::digit(a) ==> a == b,
        (a == '.') == (b == '.'),
{
}

proof fn lemma_skip_space(a: Seq<char>, b: Seq<char>)
    requires
        same_text(a, b),
    ensures
        same_text(primitives::skip_space(a), primitives::skip_space(b)),
    decreases a.len(),
{
    lemma_same_length(a, b);
    if a.len() > 0 {
        lemma_not_letters(a[0], b[0]);
        lemma_same_skip(a, b, 1);
        assert(a.skip(1) =~= a.drop_first());
        assert(b.skip(1) =~= b.drop_first());
        if primitives::multispace(a[0]) {
            lemma_skip_space(a.drop_first(), b.drop_first());
        }
    }
}

proof fn lemma_digits(a: Seq<char>, b: Seq<char>, value: nat)
    requires
        same_text(a, b),
    ensures
        primitives::digits_value(a, value) == primitives::digits_value(b, value),
        same_text(primitives::after_digits(a), primitives::after_digits(b)),
    decreases a.len(),
{
    lemma_same_length(a, b);
    if a.len() > 0 {
        lemma_not_letters(a[0], b[0]);
        lemma_same_skip(a, b, 1);
        assert(a.skip(1) =~= a.drop_first());
        assert(b.skip(1) =~= b.drop_first());
        if primitives::digit(a[0]) {
            lemma_digits(
                a.drop_first(),
                b.drop_first(),
                10 * value + (a[0] as u32 - '0' as u32) as nat,
            );
        }
    }
}

proof fn lemma_words(a: Seq<char>, b: Seq<char>, words: Seq<(Seq<char>, u32)>)
    requires
        same_text(a, b),
    ensures
        same_reading(primitives::word_number(a, words), primitives::word_number(b, words)),
    decreases words.len(),
{
    if words.len() > 0 {
        lemma_stripped(a, b, words[0].0);
        lemma_words(a, b, words.drop_first());
    }
}

proof fn lemma_number(a: Seq<char>, b: Seq<char>)
    requires
        same_text(a, b),
    ensures
        same_reading(primitives::number(a), primitives::number(b)),
{
    lemma_same_length(a, b);
    lemma_digits(a, b, 0);
    lemma_words(a, b, primitives::number_words());
    if a.len() > 0 {
        lemma_not_letters(a[0], b[0]);
    }
}

proof fn lemma_amount(a: Seq<char>, b: Seq<char>)
    requires
        same_text(a, b),
    ensures
        same_reading(oracle_effect::amount(a), oracle_effect::amount(b)),
{
    lemma_stripped(a, b, "a "@);
    lemma_number(a, b);
    if let Some((x, n)) = primitives::number(a) {
        let y = primitives::number(b)->Some_0.0;
        lemma_stripped(x, y, " "@);
    }
}

proof fn lemma_counted(a: Seq<char>, b: Seq<char>, verb: Seq<char>, noun: Seq<char>)
    requires
        same_text(a, b),
    ensures
        same_reading(
            oracle_effect::counted(a, verb, noun),
            oracle_effect::counted(b, verb, noun),
        ),
{
    lemma_stripped(a, b, verb);
    if let Some(x) = primitives::stripped(a, verb) {
        let y = primitives::stripped(b, verb)->Some_0;
        lemma_amount(x, y);
        if let Some((x1, n)) = oracle_effect::amount(x) {
            let y1 = oracle_effect::amount(y)->Some_0.0;
            lemma_stripped(x1, y1, noun);
            if let Some(x2) = primitives::stripped(x1, noun) {
                let y2 = primitives::stripped(y1, noun)->Some_0;
                lemma_stripped(x2, y2, "s"@);
            }
        }
    }
}

proof fn lemma_phrase(a: Seq<char>, b: Seq<char>)
    requires
        same_text(a, b),
    ensures
        same_reading(oracle_effect::effect_phrase(a), oracle_effect::effect_phrase(b)),
{
    lemma_stripped(a, b, "counter that spell"@);
    lemma_stripped(a, b, "you "@);
    let x = primitives::strip_optional(a, "you "@);
    let y = primitives::strip_optional(b, "you "@);
    lemma_counted(x, y, "draw "@, "card"@);
    lemma_counted(x, y, "discard "@, "card"@);
    lemma_counted(x, y, "lose "@, "life"@);
    lemma_counted(x, y, "gain "@, "life"@);
}

proof fn lemma_ended(a: Seq<char>, b: Seq<char>)
    requires
        same_text(a, b),
    ensures
        oracle_effect::ended(a) == oracle_effect::ended(b),
{
    lemma_same_length(a, b);
    if a.len() == 1 {
        lemma_not_letters(a[0], b[0]);
    }
}

proof fn lemma_chain(a: Seq<char>, b: Seq<char>, kind: AbilityKind)
    requires
        same_text(a, b),
    ensures
        oracle_effect::effect_chain(a, kind) == oracle_effect::effect_chain(b, kind),
    decreases a.len(),
{
    lemma_phrase(a, b);
    lemma_same_length(a, b);
    if let Some((x, e)) = oracle_effect::effect_phrase(a) {
        let y = oracle_effect::effect_phrase(b)->Some_0.0;
        lemma_ended(x, y);
        lemma_stripped(x, y, ", then "@);
        if let Some(x1) = primitives::stripped(x, ", then "@) {
            let y1 = primitives::stripped(y, ", then "@)->Some_0;
            lemma_same_length(x1, y1);
            if x1.len() < a.len() {
                lemma_chain(x1, y1, kind);
            }
        }
    }
}

proof fn lemma_conjunction(a: Seq<char>, b: Seq<char>, kind: AbilityKind)
    requires
        same_text(a, b),
    ensures
        same_reading(
            oracle_auction::payoff_conjunction(a, kind),
            oracle_auction::payoff_conjunction(b, kind),
        ),
{
    lemma_stripped(a, b, " and "@);
    if let Some(x) = primitives::stripped(a, " and "@) {
        let y = primitives::stripped(b, " and "@)->Some_0;
        lemma_stripped(x, y, "gains control of the creature"@);
        lemma_stripped(x, y, "draws "@);
        if let Some(x1) = primitives::stripped(x, "draws "@) {
            let y1 = primitives::stripped(y, "draws "@)->Some_0;
            lemma_number(x1, y1);
            if let Some((x2, n)) = primitives::number(x1) {
                let y2 = primitives::number(y1)->Some_0.0;
                lemma_stripped(x2, y2, " cards"@);
            }
        }
    }
}

proof fn lemma_head(a: Seq<char>, b: Seq<char>, kind: AbilityKind)
    requires
        same_text(a, b),
    ensures
        same_reading(
            oracle_auction::lose_life_head(a, kind),
            oracle_auction::lose_life_head(b, kind),
        ),
{
    let tag = "the high bidder loses life equal to the high bid"@;
    lemma_stripped(a, b, tag);
    if let Some(x) = primitives::stripped(a, tag) {
        let y = primitives::stripped(b, tag)->Some_0;
        lemma_conjunction(x, y, kind);
        lemma_stripped(x, y, "."@);
        if let Some((x1, d)) = oracle_auction::payoff_conjunction(x, kind) {
            let y1 = oracle_auction::payoff_conjunction(y, kind)->Some_0.0;
            lemma_stripped(x1, y1, "."@);
        }
    }
}

proof fn lemma_payoff(a: Seq<char>, b: Seq<char>, kind: AbilityKind)
    requires
        same_text(a, b),
    ensures
        oracle_auction::auction_payoff(a, kind) == oracle_auction::auction_payoff(b, kind),
{
    lemma_skip_space(a, b);
    let x = primitives::skip_space(a);
    let y = primitives::skip_space(b);
    lemma_same_length(x, y);
    lemma_chain(x, y, kind);
    lemma_head(x, y, kind);
    if let Some((x1, d)) = oracle_auction::lose_life_head(x, kind) {
        let y1 = oracle_auction::lose_life_head(y, kind)->Some_0.0;
        lemma_skip_space(x1, y1);
        let x2 = primitives::skip_space(x1);
        let y2 = primitives::skip_space(y1);
        lemma_same_length(x2, y2);
        lemma_stripped(x2, y2, ". "@);
        let x3 = oracle_auction::sentence_end(x2);
        let y3 = oracle_auction::sentence_end(y2);
        lemma_same_length(x3, y3);
        lemma_stripped(x3, y3, "if you win the bidding, "@);
        let x4 = oracle_effect::winner_conditional(x3).1;
        let y4 = oracle_effect::winner_conditional(y3).1;
        lemma_chain(x4, y4, kind);
    }
}

/// Upper and lower case make no difference to an auction block.
pub proof fn auction_blocks_ignore_case(a: Seq<char>, b: Seq<char>, kind: AbilityKind)
    requires
        same_text(a, b),
    ensures
        oracle_auction::auction_block(a, kind) == oracle_auction::auction_block(b, kind),
{
    lemma_opener(a, b);
    if let Some((x, p)) = oracle_auction::participants_opener(a) {
        let y = oracle_auction::participants_opener(b)->Some_0.0;
        lemma_bid_line(x, y);
        if let Some((x1, s)) = oracle_auction::starting_bid_line(x) {
            let y1 = oracle_auction::starting_bid_line(y)->Some_0.0;
            lemma_procedure(x1, y1);
            if let Some(x2) = oracle_auction::auction_procedure(x1) {
                let y2 = oracle_auction::auction_procedure(y1)->Some_0;
                lemma_payoff(x2, y2, kind);
            }
        }
    }
}

proof fn lemma_tag_sentence(a: Seq<char>, b: Seq<char>, tag: Seq<char>)
    requires
        same_text(a, b),
    ensures
        same_rest(primitives::stripped(a, tag), primitives::stripped(b, tag)),
        primitives::stripped(a, tag) matches Some(x) ==> (primitives::stripped(b, tag) matches Some(
            y,
        ) && same_text(oracle_auction::sentence_end(x), oracle_auction::sentence_end(y))),
{
    lemma_stripped(a, b, tag);
    if let Some(x) = primitives::stripped(a, tag) {
        let y = primitives::stripped(b, tag)->Some_0;
        lemma_stripped(x, y, ". "@);
    }
}

proof fn lemma_opener(a: Seq<char>, b: Seq<char>)
    requires
        same_text(a, b),
    ensures
        same_reading(
            oracle_auction::participants_opener(a),
            oracle_auction::participants_opener(b),
        ),
{
    lemma_tag_sentence(a, b, "each player may bid life for control of target creature"@);
    lemma_tag_sentence(a, b, "each player may bid life"@);
    lemma_tag_sentence(a, b, "you and target spell's controller bid life"@);
}

proof fn lemma_bid_line(a: Seq<char>, b: Seq<char>)
    requires
        same_text(a, b),
    ensures
        same_reading(
            oracle_auction::starting_bid_line(a),
            oracle_auction::starting_bid_line(b),
        ),
{
    let tag = "you start the bidding with a bid of "@;
    lemma_stripped(a, b, tag);
    if let Some(x) = primitives::stripped(a, tag) {
        let y = primitives::stripped(b, tag)->Some_0;
        lemma_tag_sentence(x, y, "any number"@);
        lemma_number(x, y);
        if let Some((x1, n)) = primitives::number(x) {
            let y1 = primitives::number(y)->Some_0.0;
            lemma_stripped(x1, y1, ". "@);
        }
    }
}

proof fn lemma_procedure(a: Seq<char>, b: Seq<char>)
    requires
        same_text(a, b),
    ensures
        same_rest(oracle_auction::auction_procedure(a), oracle_auction::auction_procedure(b)),
{
    let tag = "in turn order, each player may top the high bid"@;
    lemma_tag_sentence(a, b, tag);
    if let Some(x) = primitives::stripped(a, tag) {
        let y = primitives::stripped(b, tag)->Some_0;
        lemma_tag_sentence(
            oracle_auction::sentence_end(x),
            oracle_auction::sentence_end(y),
            "the bidding ends if the high bid stands"@,
        );
    }
}

/// Rewriting a payoff a second time changes nothing.
pub proof fn rewriting_twice_is_rewriting_once(def: AbilityDefinition)
    ensures
        oracle_auction::rewritten(oracle_auction::rewritten(def)) == oracle_auction::rewritten(def),
    decreases def,
{
    if let Some(sub) = def.sub_ability {
        rewriting_twice_is_rewriting_once(*sub);
    }
}

/// How many instructions a chain has.
pub open spec fn chain_length(def: AbilityDefinition) -> nat
    decreases def,
{
    match def.sub_ability {
        Some(sub) => 1 + chain_length(*sub),
        None => 1,
    }
}

/// The instruction at a position of a chain; the last one beyond its end.
pub open spec fn chain_node(def: AbilityDefinition, i: nat) -> AbilityDefinition
    decreases i,
{
    match def.sub_ability {
        Some(sub) => if i == 0 {
            def
        } else {
            chain_node(*sub, (i - 1) as nat)
        },
        None => def,
    }
}

/// The loss of life is that of the winning bid, by whoever was named before, else by the winner;
/// any other instruction is the same as before.
pub open spec fn loses_the_bid(before: AbilityDefinition, after: AbilityDefinition) -> bool {
    &&& match *before.effect {
        Effect::LoseLife { amount: _, target } => *after.effect == (Effect::LoseLife {
            amount: QuantityExpr::Ref { qty: QuantityRef::WinningBidAmount },
            target: Some(
                match target {
                    Some(f) => f,
                    None => TargetFilter::WinningBidder,
                },
            ),
        }),
        _ => after.effect == before.effect,
    }
    &&& after == (AbilityDefinition {
        effect: after.effect,
        sub_ability: after.sub_ability,
        ..before
    })
}

/// Rewriting a payoff keeps the length of its chain. At every position a loss of life becomes that
/// of the winning bid, and nothing else changes.
pub proof fn rewriting_reaches_the_whole_chain(def: AbilityDefinition, i: nat)
    requires
        i < chain_length(def),
    ensures
        chain_length(oracle_auction::rewritten(def)) == chain_length(def),
        loses_the_bid(chain_node(def, i), chain_node(oracle_auction::rewritten(def), i)),
    decreases def,
{
    if let Some(sub) = def.sub_ability {
        rewriting_reaches_the_whole_chain(
            *sub,
            if i == 0 {
                0
            } else {
                (i - 1) as nat
            },
        );
    }
}

} // verus!
