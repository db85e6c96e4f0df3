//! What effect sentences say.
use vstd::prelude::*;

use crate::parser::block_laws;
use crate::parser::number_laws;
use crate::parser::number_laws::Written;
use crate::parser::oracle_auction;
use crate::parser::oracle_effect;
use crate::parser::primitives;
use crate::text;
use crate::types::ability::{AbilityKind, Effect};
use crate::types::quantity::{QuantityExpr, QuantityRef};
use crate::types::target_filter::TargetFilter;

verus! {

/// How much: "a", or a number.
pub enum Amount {
    One,
    Number(Written),
}

impl Amount {
    pub open spec fn valid(self) -> bool {
        match self {
            Amount::One => true,
            Amount::Number(n) => n.valid(),
        }
    }

    pub open spec fn value(self) -> u32 {
        match self {
            Amount::One => 1,
            Amount::Number(n) => n.value(),
        }
    }

    /// The amount, a space, and what follows.
    pub open spec fn before(self, rest: Seq<char>) -> Seq<char> {
        match self {
            Amount::One => "a "@ + rest,
            Amount::Number(n) => n.text() + (" "@ + rest),
        }
    }
}

/// What is done with so many cards or so much life.
pub enum Deed {
    Draw,
    Discard,
    Lose,
    Gain,
}

/// An instruction: to counter the spell, or that "you" do something so often.
pub enum Instruction {
    Counter,
    Do { you: bool, deed: Deed, amount: Amount, plural: bool },
}

impl Deed {
    pub open spec fn verb(self) -> Seq<char> {
        match self {
            Deed::Draw => "draw "@,
            Deed::Discard => "discard "@,
            Deed::Lose => "lose "@,
            Deed::Gain => "gain "@,
        }
    }

    pub open spec fn noun(self) -> Seq<char> {
        match self {
            Deed::Draw | Deed::Discard => "card"@,
            Deed::Lose | Deed::Gain => "life"@,
        }
    }

    pub open spec fn meaning(self, n: u32) -> Effect {
        let count = QuantityExpr::Fixed { value: n as i32 };
        match self {
            Deed::Draw => Effect::Draw { count, target: TargetFilter::Controller },
            Deed::Discard => Effect::Discard { count, target: TargetFilter::Controller },
            Deed::Lose => Effect::LoseLife { amount: count, target: None },
            Deed::Gain => Effect::GainLife { amount: count, target: TargetFilter::Controller },
        }
    }
}

impl Instruction {
    pub open spec fn valid(self) -> bool {
        match self {
            Instruction::Counter => true,
            Instruction::Do { amount, .. } => amount.valid(),
        }
    }

    /// The instruction with what follows it.
    pub open spec fn before(self, rest: Seq<char>) -> Seq<char> {
        match self {
            Instruction::Counter => "counter that spell"@ + rest,
            Instruction::Do { you, deed, amount, plural } => {
                let ended = deed.noun() + if plural {
                    "s"@ + rest
                } else {
                    rest
                };
                let said = deed.verb() + amount.before(ended);
                if you {
                    "you "@ + said
                } else {
                    said
                }
            },
        }
    }

    pub open spec fn meaning(self) -> Effect {
        match self {
            Instruction::Counter => Effect::Counter { target: TargetFilter::ParentTarget },
            Instruction::Do { deed, amount, .. } => deed.meaning(amount.value()),
        }
    }
}

/// The text does not go on with an "s".
pub open spec fn no_s(rest: Seq<char>) -> bool {
    rest.len() > 0 ==> rest[0] != 's' && rest[0] != 'S'
}

proof fn lemma_tag_counter(rest: Seq<char>)
    ensures
        primitives::stripped("counter that spell"@ + rest, "counter that spell"@) == Some(rest),
        primitives::strip_optional("counter that spell"@ + rest, "counter that spell"@) == rest,
{
    reveal_strlit("counter that spell");
    reveal_with_fuel(number_laws::folded, 19);
    number_laws::lemma_strip("counter that spell"@, rest);
}

proof fn lemma_tag_you(rest: Seq<char>)
    ensures
        primitives::stripped("you "@ + rest, "you "@) == Some(rest),
        primitives::strip_optional("you "@ + rest, "you "@) == rest,
{
    reveal_strlit("you ");
    reveal_with_fuel(number_laws::folded, 5);
    number_laws::lemma_strip("you "@, rest);
}

proof fn lemma_tag_draw(rest: Seq<char>)
    ensures
        primitives::stripped("draw "@ + rest, "draw "@) == Some(rest),
        primitives::strip_optional("draw "@ + rest, "draw "@) == rest,
{
    reveal_strlit("draw ");
    reveal_with_fuel(number_laws::folded, 6);
    number_laws::lemma_strip("draw "@, rest);
}

proof fn lemma_tag_discard(rest: Seq<char>)
    ensures
        primitives::stripped("discard "@ + rest, "discard "@) == Some(rest),
        primitives::strip_optional("discard "@ + rest, "discard "@) == rest,
{
    reveal_strlit("discard ");
    reveal_with_fuel(number_laws::folded, 9);
    number_laws::lemma_strip("discard "@, rest);
}

proof fn lemma_tag_lose(rest: Seq<char>)
    ensures
        primitives::stripped("lose "@ + rest, "lose "@) == Some(rest),
        primitives::strip_optional("lose "@ + rest, "lose "@) == rest,
{
    reveal_strlit("lose ");
    reveal_with_fuel(number_laws::folded, 6);
    number_laws::lemma_strip("lose "@, rest);
}

proof fn lemma_tag_gain(rest: Seq<char>)
    ensures
        primitives::stripped("gain "@ + rest, "gain "@) == Some(rest),
        primitives::strip_optional("gain "@ + rest, "gain "@) == rest,
{
    reveal_strlit("gain ");
    reveal_with_fuel(number_laws::folded, 6);
    number_laws::lemma_strip("gain "@, rest);
}

proof fn lemma_tag_card(rest: Seq<char>)
    ensures
        primitives::stripped("card"@ + rest, "card"@) == Some(rest),
        primitives::strip_optional("card"@ + rest, "card"@) == rest,
{
    reveal_strlit("card");
    reveal_with_fuel(number_laws::folded, 5);
    number_laws::lemma_strip("card"@, rest);
}

proof fn lemma_tag_life(rest: Seq<char>)
    ensures
        primitives::stripped("life"@ + rest, "life"@) == Some(rest),
        primitives::strip_optional("life"@ + rest, "life"@) == rest,
{
    reveal_strlit("life");
    reveal_with_fuel(number_laws::folded, 5);
    number_laws::lemma_strip("life"@, rest);
}

proof fn lemma_tag_one(rest: Seq<char>)
    ensures
        primitives::stripped("a "@ + rest, "a "@) == Some(rest),
        primitives::strip_optional("a "@ + rest, "a "@) == rest,
{
    reveal_strlit("a ");
    reveal_with_fuel(number_laws::folded, 3);
    number_laws::lemma_strip("a "@, rest);
}

proof fn lemma_tag_space(rest: Seq<char>)
    ensures
        primitives::stripped(" "@ + rest, " "@) == Some(rest),
        primitives::strip_optional(" "@ + rest, " "@) == rest,
{
    reveal_strlit(" ");
    reveal_with_fuel(number_laws::folded, 2);
    number_laws::lemma_strip(" "@, rest);
}

proof fn lemma_tag_plural(rest: Seq<char>)
    ensures
        primitives::stripped("s"@ + rest, "s"@) == Some(rest),
        primitives::strip_optional("s"@ + rest, "s"@) == rest,
{
    reveal_strlit("s");
    reveal_with_fuel(number_laws::folded, 2);
    number_laws::lemma_strip("s"@, rest);
}

proof fn lemma_tag_then(rest: Seq<char>)
    ensures
        primitives::stripped(", then "@ + rest, ", then "@) == Some(rest),
        primitives::strip_optional(", then "@ + rest, ", then "@) == rest,
{
    reveal_strlit(", then ");
    reveal_with_fuel(number_laws::folded, 8);
    number_laws::lemma_strip(", then "@, rest);
}

proof fn lemma_amount(amount: Amount, rest: Seq<char>)
    requires
        amount.valid(),
    ensures
        oracle_effect::amount(amount.before(rest)) == Some((rest, amount.value())),
{
    match amount {
        Amount::One => {
            lemma_tag_one(rest);
        },
        Amount::Number(n) => {
            let tail = " "@ + rest;
            let t = n.text() + tail;
            reveal_strlit(" ");
            reveal_strlit("a ");
            assert(tail[0] == ' ');
            number_laws::written_numbers_are_read(n, tail);
            assert(t[0] == n.text()[0]);
            number_laws::lemma_no_strip(t, "a "@, 0);
            lemma_tag_space(rest);
        },
    }
}

proof fn lemma_deed(deed: Deed, amount: Amount, plural: bool, rest: Seq<char>)
    requires
        amount.valid(),
        no_s(rest),
    ensures
        oracle_effect::counted(
            deed.verb() + amount.before(
                deed.noun() + if plural {
                    "s"@ + rest
                } else {
                    rest
                },
            ),
            deed.verb(),
            deed.noun(),
        ) == Some((rest, amount.value())),
{
    let tail = if plural {
        "s"@ + rest
    } else {
        rest
    };
    let noun = deed.noun() + tail;
    let said = amount.before(noun);
    lemma_amount(amount, noun);
    match deed {
        Deed::Draw => {
            lemma_tag_draw(said);
            lemma_tag_card(tail);
        },
        Deed::Discard => {
            lemma_tag_discard(said);
            lemma_tag_card(tail);
        },
        Deed::Lose => {
            lemma_tag_lose(said);
            lemma_tag_life(tail);
        },
        Deed::Gain => {
            lemma_tag_gain(said);
            lemma_tag_life(tail);
        },
    }
    if plural {
        lemma_tag_plural(rest);
    } else {
        reveal_strlit("s");
        number_laws::lemma_no_strip(rest, "s"@, 0);
    }
}

proof fn lemma_no_verb(t: Seq<char>, verb: Seq<char>, noun: Seq<char>, i: int)
    requires
        0 <= i < verb.len(),
        i < t.len() ==> text::lower_char(t[i]) != verb[i],
    ensures
        oracle_effect::counted(t, verb, noun) is None,
{
    number_laws::lemma_no_strip(t, verb, i);
}

/// An instruction is read as what it says.
pub proof fn instructions_are_read(i: Instruction, rest: Seq<char>)
    requires
        i.valid(),
        no_s(rest),
    ensures
        oracle_effect::effect_phrase(i.before(rest)) == Some((rest, i.meaning())),
{
    match i {
        Instruction::Counter => {
            lemma_tag_counter(rest);
        },
        Instruction::Do { you, deed, amount, plural } => {
            let tail = if plural {
                "s"@ + rest
            } else {
                rest
            };
            let said = deed.verb() + amount.before(deed.noun() + tail);
            let t = i.before(rest);
            lemma_deed(deed, amount, plural, rest);
            reveal_strlit("counter that spell");
            reveal_strlit("you ");
            reveal_strlit("draw ");
            reveal_strlit("discard ");
            reveal_strlit("lose ");
            reveal_strlit("gain ");
            assert(said[0] == deed.verb()[0] && said[1] == deed.verb()[1]);
            if you {
                lemma_tag_you(said);
                assert(t[0] == 'y');
            } else {
                number_laws::lemma_no_strip(said, "you "@, 0);
            }
            number_laws::lemma_no_strip(t, "counter that spell"@, 0);
            match deed {
                Deed::Draw => {
                },
                Deed::Discard => {
                    lemma_no_verb(said, "draw "@, "card"@, 1);
                },
                Deed::Lose => {
                    lemma_no_verb(said, "draw "@, "card"@, 0);
                    lemma_no_verb(said, "discard "@, "card"@, 0);
                },
                Deed::Gain => {
                    lemma_no_verb(said, "draw "@, "card"@, 0);
                    lemma_no_verb(said, "discard "@, "card"@, 0);
                    lemma_no_verb(said, "lose "@, "life"@, 0);
                },
            }
        },
    }
}

/// A sentence of one instruction is an ability that does what it says and nothing else.
pub proof fn sentences_are_read(i: Instruction, kind: AbilityKind)
    requires
        i.valid(),
    ensures
        oracle_effect::effect_sentence(i.before("."@), kind) == block_laws::ability(
            kind,
            i.meaning(),
            None,
            None,
        ),
{
    reveal_strlit(".");
    instructions_are_read(i, "."@);
}

/// Of instructions that are joined by "then", the first is done first, and the others follow it.
pub proof fn instructions_follow_in_order(i: Instruction, more: Seq<char>, kind: AbilityKind)
    requires
        i.valid(),
        oracle_effect::effect_chain(more, kind) is Some,
    ensures
        oracle_effect::effect_chain(i.before(", then "@ + more), kind) == Some(
            block_laws::ability(
                kind,
                i.meaning(),
                None,
                oracle_effect::effect_chain(more, kind),
            ),
        ),
{
    let tail = ", then "@ + more;
    reveal_strlit(", then ");
    reveal_strlit("counter that spell");
    assert(tail[0] == ',');
    instructions_are_read(i, tail);
    lemma_tag_then(more);
    assert(i.before(tail).len() >= tail.len());
}

/// In a payoff, whoever is told to lose life loses the winning bid; everything else is as said.
pub proof fn payoff_sentences_are_read(i: Instruction, kind: AbilityKind)
    requires
        i.valid(),
    ensures
        oracle_auction::auction_payoff(i.before("."@), kind) == Some(
            block_laws::ability(
                kind,
                match i.meaning() {
                    Effect::LoseLife { .. } => Effect::LoseLife {
                        amount: QuantityExpr::Ref { qty: QuantityRef::WinningBidAmount },
                        target: Some(TargetFilter::WinningBidder),
                    },
                    other => other,
                },
                None,
                None,
            ),
        ),
{
    let t = i.before("."@);
    reveal_strlit(".");
    reveal_strlit("the high bidder loses life equal to the high bid");
    reveal_strlit("counter that spell");
    reveal_strlit("you ");
    reveal_strlit("draw ");
    reveal_strlit("discard ");
    reveal_strlit("lose ");
    reveal_strlit("gain ");
    sentences_are_read(i, kind);
    match i {
        Instruction::Counter => {
            assert(t[0] == 'c');
        },
        Instruction::Do { you, deed, .. } => {
            if you {
                assert(t[0] == 'y');
            } else {
                assert(t[0] == deed.verb()[0]);
            }
        },
    }
    number_laws::lemma_no_strip(t, "the high bidder loses life equal to the high bid"@, 0);
    assert(primitives::skip_space(t) == t);
}

/// A space, tab, carriage return or line feed, by its code point.
pub open spec fn gap(c: char) -> bool {
    c as int == 32 || c as int == 9 || c as int == 13 || c as int == 10
}

/// Spaces, tabs and line breaks in front of a text are skipped, and nothing else.
pub proof fn blanks_are_skipped(pad: Seq<char>, rest: Seq<char>)
    requires
        forall|i: int| 0 <= i < pad.len() ==> gap(#[trigger] pad[i]),
        rest.len() > 0 ==> !gap(rest[0]),
    ensures
        primitives::skip_space(pad + rest) == rest,
    decreases pad.len(),
{
    if pad.len() == 0 {
        assert(pad + rest =~= rest);
    } else {
        assert(gap(pad[0]));
        let p1 = pad.drop_first();
        assert((pad + rest).drop_first() =~= p1 + rest);
        assert forall|i: int| 0 <= i < p1.len() implies gap(#[trigger] p1[i]) by {
            assert(gap(pad[i + 1]));
        }
        blanks_are_skipped(p1, rest);
    }
}

} // verus!
