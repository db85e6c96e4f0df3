//! What the sentences of an auction say.
use std::sync::Arc;
use vstd::prelude::*;

use crate::parser::laws;
use crate::parser::number_laws;
use crate::parser::number_laws::Written;
use crate::parser::oracle_auction;
use crate::parser::oracle_effect;
use crate::parser::primitives;
use crate::text;
use crate::types::ability::{
    AbilityCondition, AbilityDefinition, AbilityKind, Effect, LifeAuctionParticipants,
    LifeAuctionStartingBid,
};
use crate::types::quantity::{QuantityExpr, QuantityRef};
use crate::types::target_filter::{ControllerRef, TargetFilter};

verus! {

/// Every auction block that is read is one auction that its controller starts, with a payoff, and
/// nothing else attached to it.
pub proof fn every_block_is_an_auction_of_its_controller(t: Seq<char>, kind: AbilityKind)
    ensures
        oracle_auction::auction_block(t, kind) matches Some(def) ==> {
            &&& def.kind == kind
            &&& *def.effect matches Effect::LifeAuction { starting_with, .. } && starting_with
                == ControllerRef::You
            &&& def.sub_ability is Some
            &&& def.condition is None
            &&& def.modal is None
            &&& def.mode_abilities is None
            &&& !def.optional
            &&& def.repeat_for is None
        },
{
}

/// Who is invited to bid.
pub enum Invitation {
    AllForCreature,
    All,
    SpellController,
}

/// The opening bid.
pub enum OpeningBid {
    Any,
    Number(Written),
}

/// What the winner gets beside losing the bid.
pub enum Prize {
    Nothing,
    Creature,
    Cards(Written),
    CounteredSpell,
}

impl Invitation {
    pub open spec fn text(self) -> Seq<char> {
        match self {
            Invitation::AllForCreature => {
                "each player may bid life for control of target creature"@
            },
            Invitation::All => "each player may bid life"@,
            Invitation::SpellController => "you and target spell's controller bid life"@,
        }
    }

    pub open spec fn meaning(self) -> LifeAuctionParticipants {
        match self {
            Invitation::SpellController => LifeAuctionParticipants::ControllerAndTargetController,
            _ => LifeAuctionParticipants::AllPlayers,
        }
    }
}

impl OpeningBid {
    pub open spec fn valid(self) -> bool {
        match self {
            OpeningBid::Any => true,
            OpeningBid::Number(n) => n.valid(),
        }
    }

    pub open spec fn text(self) -> Seq<char> {
        match self {
            OpeningBid::Any => "any number"@,
            OpeningBid::Number(n) => n.text(),
        }
    }

    pub open spec fn meaning(self) -> LifeAuctionStartingBid {
        match self {
            OpeningBid::Any => LifeAuctionStartingBid::ControllerChooses,
            OpeningBid::Number(n) => LifeAuctionStartingBid::Fixed(n.value()),
        }
    }
}

/// An ability of the kind with one effect and perhaps one that follows it.
pub open spec fn ability(
    kind: AbilityKind,
    effect: Effect,
    condition: Option<AbilityCondition>,
    next: Option<AbilityDefinition>,
) -> AbilityDefinition {
    AbilityDefinition {
        kind,
        effect: Arc::new(effect),
        sub_ability: match next {
            Some(def) => Some(Box::new(def)),
            None => None,
        },
        condition,
        modal: None,
        mode_abilities: None,
        optional: false,
        repeat_for: None,
    }
}

impl Prize {
    pub open spec fn valid(self) -> bool {
        match self {
            Prize::Cards(n) => n.valid(),
            _ => true,
        }
    }

    pub open spec fn text(self) -> Seq<char> {
        match self {
            Prize::Nothing => "."@,
            Prize::Creature => " and "@ + ("gains control of the creature"@ + "."@),
            Prize::Cards(n) => " and "@ + ("draws "@ + (n.text() + (" cards"@ + "."@))),
            Prize::CounteredSpell => ". "@ + ("if you win the bidding, "@ + ("counter that spell"@
                + "."@)),
        }
    }

    pub open spec fn meaning(self, kind: AbilityKind) -> Option<AbilityDefinition> {
        match self {
            Prize::Nothing => None,
            Prize::Creature => Some(
                ability(
                    kind,
                    Effect::GiveControl {
                        target: TargetFilter::ParentTarget,
                        recipient: TargetFilter::WinningBidder,
                    },
                    None,
                    None,
                ),
            ),
            Prize::Cards(n) => Some(
                ability(
                    kind,
                    Effect::Draw {
                        count: QuantityExpr::Fixed { value: n.value() as i32 },
                        target: TargetFilter::WinningBidder,
                    },
                    None,
                    None,
                ),
            ),
            Prize::CounteredSpell => Some(
                ability(
                    kind,
                    Effect::Counter { target: TargetFilter::ParentTarget },
                    Some(AbilityCondition::AuctionWinnerIs { player: ControllerRef::You }),
                    None,
                ),
            ),
        }
    }
}

/// The sentences of an auction.
pub open spec fn auction_text(who: Invitation, bid: OpeningBid, prize: Prize) -> Seq<char> {
    who.text() + (". "@ + ("you start the bidding with a bid of "@ + (bid.text() + (". "@ + (
    "in turn order, each player may top the high bid"@ + (". "@ + (
    "the bidding ends if the high bid stands"@ + (". "@ + (
    "the high bidder loses life equal to the high bid"@ + prize.text())))))))))
}

/// What they say: an auction that the controller starts; then the winner loses as much life as they
/// bid, and gets the prize.
pub open spec fn auction_meaning(
    who: Invitation,
    bid: OpeningBid,
    prize: Prize,
    kind: AbilityKind,
) -> AbilityDefinition {
    ability(
        kind,
        Effect::LifeAuction {
            participants: who.meaning(),
            starting_bid: bid.meaning(),
            starting_with: ControllerRef::You,
        },
        None,
        Some(
            ability(
                kind,
                Effect::LoseLife {
                    amount: QuantityExpr::Ref { qty: QuantityRef::WinningBidAmount },
                    target: Some(TargetFilter::WinningBidder),
                },
                None,
                prize.meaning(kind),
            ),
        ),
    )
}

proof fn lemma_tag_creature(rest: Seq<char>)
    ensures
        primitives::stripped("each player may bid life for control of target creature"@ + rest, "each player may bid life for control of target creature"@) == Some(rest),
        primitives::strip_optional("each player may bid life for control of target creature"@ + rest, "each player may bid life for control of target creature"@) == rest,
{
    reveal_strlit("each player may bid life for control of target creature");
    reveal_with_fuel(number_laws::folded, 56);
    number_laws::lemma_strip("each player may bid life for control of target creature"@, rest);
}

proof fn lemma_tag_players(rest: Seq<char>)
    ensures
        primitives::stripped("each player may bid life"@ + rest, "each player may bid life"@) == Some(rest),
        primitives::strip_optional("each player may bid life"@ + rest, "each player may bid life"@) == rest,
{
    reveal_strlit("each player may bid life");
    reveal_with_fuel(number_laws::folded, 25);
    number_laws::lemma_strip("each player may bid life"@, rest);
}

proof fn lemma_tag_spell(rest: Seq<char>)
    ensures
        primitives::stripped("you and target spell's controller bid life"@ + rest, "you and target spell's controller bid life"@) == Some(rest),
        primitives::strip_optional("you and target spell's controller bid life"@ + rest, "you and target spell's controller bid life"@) == rest,
{
    reveal_strlit("you and target spell's controller bid life");
    reveal_with_fuel(number_laws::folded, 43);
    number_laws::lemma_strip("you and target spell's controller bid life"@, rest);
}

proof fn lemma_tag_bid(rest: Seq<char>)
    ensures
        primitives::stripped("you start the bidding with a bid of "@ + rest, "you start the bidding with a bid of "@) == Some(rest),
        primitives::strip_optional("you start the bidding with a bid of "@ + rest, "you start the bidding with a bid of "@) == rest,
{
    reveal_strlit("you start the bidding with a bid of ");
    reveal_with_fuel(number_laws::folded, 37);
    number_laws::lemma_strip("you start the bidding with a bid of "@, rest);
}

proof fn lemma_tag_any(rest: Seq<char>)
    ensures
        primitives::stripped("any number"@ + rest, "any number"@) == Some(rest),
        primitives::strip_optional("any number"@ + rest, "any number"@) == rest,
{
    reveal_strlit("any number");
    reveal_with_fuel(number_laws::folded, 11);
    number_laws::lemma_strip("any number"@, rest);
}

proof fn lemma_tag_top(rest: Seq<char>)
    ensures
        primitives::stripped("in turn order, each player may top the high bid"@ + rest, "in turn order, each player may top the high bid"@) == Some(rest),
        primitives::strip_optional("in turn order, each player may top the high bid"@ + rest, "in turn order, each player may top the high bid"@) == rest,
{
    reveal_strlit("in turn order, each player may top the high bid");
    reveal_with_fuel(number_laws::folded, 48);
    number_laws::lemma_strip("in turn order, each player may top the high bid"@, rest);
}

proof fn lemma_tag_ends(rest: Seq<char>)
    ensures
        primitives::stripped("the bidding ends if the high bid stands"@ + rest, "the bidding ends if the high bid stands"@) == Some(rest),
        primitives::strip_optional("the bidding ends if the high bid stands"@ + rest, "the bidding ends if the high bid stands"@) == rest,
{
    reveal_strlit("the bidding ends if the high bid stands");
    reveal_with_fuel(number_laws::folded, 40);
    number_laws::lemma_strip("the bidding ends if the high bid stands"@, rest);
}

proof fn lemma_tag_loses(rest: Seq<char>)
    ensures
        primitives::stripped("the high bidder loses life equal to the high bid"@ + rest, "the high bidder loses life equal to the high bid"@) == Some(rest),
        primitives::strip_optional("the high bidder loses life equal to the high bid"@ + rest, "the high bidder loses life equal to the high bid"@) == rest,
{
    reveal_strlit("the high bidder loses life equal to the high bid");
    reveal_with_fuel(number_laws::folded, 49);
    number_laws::lemma_strip("the high bidder loses life equal to the high bid"@, rest);
}

proof fn lemma_tag_and(rest: Seq<char>)
    ensures
        primitives::stripped(" and "@ + rest, " and "@) == Some(rest),
        primitives::strip_optional(" and "@ + rest, " and "@) == rest,
{
    reveal_strlit(" and ");
    reveal_with_fuel(number_laws::folded, 6);
    number_laws::lemma_strip(" and "@, rest);
}

proof fn lemma_tag_gains(rest: Seq<char>)
    ensures
        primitives::stripped("gains control of the creature"@ + rest, "gains control of the creature"@) == Some(rest),
        primitives::strip_optional("gains control of the creature"@ + rest, "gains control of the creature"@) == rest,
{
    reveal_strlit("gains control of the creature");
    reveal_with_fuel(number_laws::folded, 30);
    number_laws::lemma_strip("gains control of the creature"@, rest);
}

proof fn lemma_tag_draws(rest: Seq<char>)
    ensures
        primitives::stripped("draws "@ + rest, "draws "@) == Some(rest),
        primitives::strip_optional("draws "@ + rest, "draws "@) == rest,
{
    reveal_strlit("draws ");
    reveal_with_fuel(number_laws::folded, 7);
    number_laws::lemma_strip("draws "@, rest);
}

proof fn lemma_tag_cards(rest: Seq<char>)
    ensures
        primitives::stripped(" cards"@ + rest, " cards"@) == Some(rest),
        primitives::strip_optional(" cards"@ + rest, " cards"@) == rest,
{
    reveal_strlit(" cards");
    reveal_with_fuel(number_laws::folded, 7);
    number_laws::lemma_strip(" cards"@, rest);
}

proof fn lemma_tag_if(rest: Seq<char>)
    ensures
        primitives::stripped("if you win the bidding, "@ + rest, "if you win the bidding, "@) == Some(rest),
        primitives::strip_optional("if you win the bidding, "@ + rest, "if you win the bidding, "@) == rest,
{
    reveal_strlit("if you win the bidding, ");
    reveal_with_fuel(number_laws::folded, 25);
    number_laws::lemma_strip("if you win the bidding, "@, rest);
}

proof fn lemma_tag_counter(rest: Seq<char>)
    ensures
        primitives::stripped("counter that spell"@ + rest, "counter that spell"@) == Some(rest),
        primitives::strip_optional("counter that spell"@ + rest, "counter that spell"@) == rest,
{
    reveal_strlit("counter that spell");
    reveal_with_fuel(number_laws::folded, 19);
    number_laws::lemma_strip("counter that spell"@, rest);
}

proof fn lemma_tag_end(rest: Seq<char>)
    ensures
        primitives::stripped(". "@ + rest, ". "@) == Some(rest),
        primitives::strip_optional(". "@ + rest, ". "@) == rest,
{
    reveal_strlit(". ");
    reveal_with_fuel(number_laws::folded, 3);
    number_laws::lemma_strip(". "@, rest);
}

proof fn lemma_tag_dot(rest: Seq<char>)
    ensures
        primitives::stripped("."@ + rest, "."@) == Some(rest),
        primitives::strip_optional("."@ + rest, "."@) == rest,
{
    reveal_strlit(".");
    reveal_with_fuel(number_laws::folded, 2);
    number_laws::lemma_strip("."@, rest);
}

proof fn lemma_invitation(who: Invitation, rest: Seq<char>)
    ensures
        oracle_auction::participants_opener(who.text() + (". "@ + rest)) == Some(
            (rest, who.meaning()),
        ),
{
    let tail = ". "@ + rest;
    let t = who.text() + tail;
    reveal_strlit("each player may bid life for control of target creature");
    reveal_strlit("each player may bid life");
    reveal_strlit("you and target spell's controller bid life");
    reveal_strlit(". ");
    lemma_tag_end(rest);
    match who {
        Invitation::AllForCreature => {
            lemma_tag_creature(tail);
        },
        Invitation::All => {
            assert(t[24] == '.');
            number_laws::lemma_no_strip(
                t,
                "each player may bid life for control of target creature"@,
                24,
            );
            lemma_tag_players(tail);
        },
        Invitation::SpellController => {
            assert(t[0] == 'y');
            number_laws::lemma_no_strip(
                t,
                "each player may bid life for control of target creature"@,
                0,
            );
            number_laws::lemma_no_strip(t, "each player may bid life"@, 0);
            lemma_tag_spell(tail);
        },
    }
}

proof fn lemma_opening_bid(bid: OpeningBid, rest: Seq<char>)
    requires
        bid.valid(),
    ensures
        oracle_auction::starting_bid_line(
            "you start the bidding with a bid of "@ + (bid.text() + (". "@ + rest)),
        ) == Some((rest, bid.meaning())),
{
    let tail = ". "@ + rest;
    let t = bid.text() + tail;
    lemma_tag_bid(t);
    lemma_tag_end(rest);
    reveal_strlit(". ");
    reveal_strlit("any number");
    assert(tail[0] == '.');
    match bid {
        OpeningBid::Any => {
            lemma_tag_any(tail);
        },
        OpeningBid::Number(n) => {
            number_laws::written_numbers_are_read(n, tail);
            assert(t[0] == n.text()[0]);
            number_laws::lemma_no_strip(t, "any number"@, 0);
        },
    }
}

proof fn lemma_procedure(rest: Seq<char>)
    ensures
        oracle_auction::auction_procedure(
            "in turn order, each player may top the high bid"@ + (". "@ + (
            "the bidding ends if the high bid stands"@ + (". "@ + rest))),
        ) == Some(rest),
{
    let c = ". "@ + rest;
    let b = "the bidding ends if the high bid stands"@ + c;
    lemma_tag_top(". "@ + b);
    lemma_tag_end(b);
    lemma_tag_ends(c);
    lemma_tag_end(rest);
}

proof fn lemma_prize(prize: Prize, kind: AbilityKind)
    requires
        prize.valid(),
    ensures
        oracle_auction::auction_payoff(
            "the high bidder loses life equal to the high bid"@ + prize.text(),
            kind,
        ) == Some(
            ability(
                kind,
                Effect::LoseLife {
                    amount: QuantityExpr::Ref { qty: QuantityRef::WinningBidAmount },
                    target: Some(TargetFilter::WinningBidder),
                },
                None,
                prize.meaning(kind),
            ),
        ),
{
    let p = prize.text();
    let t = "the high bidder loses life equal to the high bid"@ + p;
    lemma_tag_loses(p);
    reveal_strlit("the high bidder loses life equal to the high bid");
    reveal_strlit(". ");
    reveal_strlit(".");
    reveal_strlit(" and ");
    let empty = Seq::<char>::empty();
    lemma_tag_dot(empty);
    assert("."@ + empty =~= "."@);
    assert(t[0] == 't');
    assert(primitives::skip_space(t) == t);
    number_laws::lemma_no_strip(empty, ". "@, 0);
    match prize {
        Prize::Nothing => {
            assert(p[0] == '.');
            number_laws::lemma_no_strip(p, " and "@, 0);
            assert(oracle_auction::lose_life_head(t, kind) == Some(
                (empty, oracle_auction::winner_loses_bid(kind)),
            ));
        },
        Prize::Creature => {
            let b = "gains control of the creature"@ + "."@;
            lemma_tag_and(b);
            lemma_tag_gains("."@);
            reveal_strlit("gains control of the creature");
            reveal_strlit("draws ");
            assert(b[0] == 'g');
            number_laws::lemma_no_strip(b, "draws "@, 0);
            assert(oracle_auction::lose_life_head(t, kind)->Some_0.0 == empty);
        },
        Prize::Cards(n) => {
            let d = " cards"@ + "."@;
            let c = n.text() + d;
            let b = "draws "@ + c;
            lemma_tag_and(b);
            lemma_tag_draws(c);
            reveal_strlit(" cards");
            assert(d[0] == ' ');
            number_laws::written_numbers_are_read(n, d);
            lemma_tag_cards("."@);
            assert(oracle_auction::lose_life_head(t, kind)->Some_0.0 == empty);
        },
        Prize::CounteredSpell => {
            let c = "counter that spell"@ + "."@;
            let b = "if you win the bidding, "@ + c;
            reveal_strlit("if you win the bidding, ");
            reveal_strlit("counter that spell");
            assert(p[0] == '.');
            number_laws::lemma_no_strip(p, " and "@, 0);
            let sp = seq![' '] + b;
            assert(p =~= "."@ + sp);
            lemma_tag_dot(sp);
            assert(oracle_auction::lose_life_head(t, kind) == Some(
                (sp, oracle_auction::winner_loses_bid(kind)),
            ));
            assert(sp.drop_first() =~= b);
            assert(b[0] == 'i');
            reveal_with_fuel(primitives::skip_space, 3);
            assert(primitives::skip_space(sp) == b);
            number_laws::lemma_no_strip(b, ". "@, 0);
            lemma_tag_if(c);
            lemma_tag_counter("."@);
            assert(oracle_effect::ended("."@));
            let plain = AbilityDefinition::plain(
                kind,
                Effect::Counter { target: TargetFilter::ParentTarget },
            );
            assert(oracle_effect::effect_chain(c, kind) == Some(plain));
            assert(oracle_auction::rewritten(plain) == plain);
        },
    }
}

/// The sentences of an auction, in any ASCII case, are read as what they say: who bids, the opening
/// bid of the controller, what the winner pays and what they get.
pub proof fn auction_sentences_are_read(
    t: Seq<char>,
    who: Invitation,
    bid: OpeningBid,
    prize: Prize,
    kind: AbilityKind,
)
    requires
        bid.valid(),
        prize.valid(),
        laws::same_text(t, auction_text(who, bid, prize)),
    ensures
        oracle_auction::auction_block(t, kind) == Some(auction_meaning(who, bid, prize, kind)),
{
    let plain = auction_text(who, bid, prize);
    let e = "the high bidder loses life equal to the high bid"@ + prize.text();
    let d = "in turn order, each player may top the high bid"@ + (". "@ + (
    "the bidding ends if the high bid stands"@ + (". "@ + e)));
    let c = "you start the bidding with a bid of "@ + (bid.text() + (". "@ + d));
    lemma_invitation(who, c);
    lemma_opening_bid(bid, d);
    lemma_procedure(e);
    lemma_prize(prize, kind);
    laws::auction_blocks_ignore_case(t, plain, kind);
}

/// Illicit Auction.
pub proof fn illicit_auction_is_read(t: Seq<char>, kind: AbilityKind)
    requires
        laws::same_text(
            t,
            "each player may bid life for control of target creature"@ + (". "@ + (
            "you start the bidding with a bid of "@ + ("0"@ + (". "@ + (
            "in turn order, each player may top the high bid"@ + (". "@ + (
            "the bidding ends if the high bid stands"@ + (". "@ + (
            "the high bidder loses life equal to the high bid"@ + (" and "@ + (
            "gains control of the creature"@ + "."@))))))))))),
        ),
    ensures
        oracle_auction::auction_block(t, kind) == Some(
            ability(
                kind,
                Effect::LifeAuction {
                    participants: LifeAuctionParticipants::AllPlayers,
                    starting_bid: LifeAuctionStartingBid::Fixed(0),
                    starting_with: ControllerRef::You,
                },
                None,
                Some(
                    ability(
                        kind,
                        Effect::LoseLife {
                            amount: QuantityExpr::Ref { qty: QuantityRef::WinningBidAmount },
                            target: Some(TargetFilter::WinningBidder),
                        },
                        None,
                        Some(
                            ability(
                                kind,
                                Effect::GiveControl {
                                    target: TargetFilter::ParentTarget,
                                    recipient: TargetFilter::WinningBidder,
                                },
                                None,
                                None,
                            ),
                        ),
                    ),
                ),
            ),
        ),
{
    let bid = OpeningBid::Number(Written::Digits("0"@));
    reveal_strlit("0");
    reveal_with_fuel(number_laws::decimal, 2);
    auction_sentences_are_read(t, Invitation::AllForCreature, bid, Prize::Creature, kind);
}

/// Pain's Reward.
pub proof fn pains_reward_is_read(t: Seq<char>, kind: AbilityKind)
    requires
        laws::same_text(
            t,
            "each player may bid life"@ + (". "@ + ("you start the bidding with a bid of "@ + (
            "any number"@ + (". "@ + ("in turn order, each player may top the high bid"@ + (". "@ + (
            "the bidding ends if the high bid stands"@ + (". "@ + (
            "the high bidder loses life equal to the high bid"@ + (" and "@ + ("draws "@ + ("four"@
                + (" cards"@ + "."@))))))))))))),
        ),
    ensures
        oracle_auction::auction_block(t, kind) == Some(
            ability(
                kind,
                Effect::LifeAuction {
                    participants: LifeAuctionParticipants::AllPlayers,
                    starting_bid: LifeAuctionStartingBid::ControllerChooses,
                    starting_with: ControllerRef::You,
                },
                None,
                Some(
                    ability(
                        kind,
                        Effect::LoseLife {
                            amount: QuantityExpr::Ref { qty: QuantityRef::WinningBidAmount },
                            target: Some(TargetFilter::WinningBidder),
                        },
                        None,
                        Some(
                            ability(
                                kind,
                                Effect::Draw {
                                    count: QuantityExpr::Fixed { value: 4 },
                                    target: TargetFilter::WinningBidder,
                                },
                                None,
                                None,
                            ),
                        ),
                    ),
                ),
            ),
        ),
{
    let prize = Prize::Cards(Written::Word(4));
    auction_sentences_are_read(t, Invitation::All, OpeningBid::Any, prize, kind);
}

/// Mages' Contest.
pub proof fn mages_contest_is_read(t: Seq<char>, kind: AbilityKind)
    requires
        laws::same_text(
            t,
            "you and target spell's controller bid life"@ + (". "@ + (
            "you start the bidding with a bid of "@ + ("1"@ + (". "@ + (
            "in turn order, each player may top the high bid"@ + (". "@ + (
            "the bidding ends if the high bid stands"@ + (". "@ + (
            "the high bidder loses life equal to the high bid"@ + (". "@ + (
            "if you win the bidding, "@ + ("counter that spell"@ + "."@)))))))))))),
        ),
    ensures
        oracle_auction::auction_block(t, kind) == Some(
            ability(
                kind,
                Effect::LifeAuction {
                    participants: LifeAuctionParticipants::ControllerAndTargetController,
                    starting_bid: LifeAuctionStartingBid::Fixed(1),
                    starting_with: ControllerRef::You,
                },
                None,
                Some(
                    ability(
                        kind,
                        Effect::LoseLife {
                            amount: QuantityExpr::Ref { qty: QuantityRef::WinningBidAmount },
                            target: Some(TargetFilter::WinningBidder),
                        },
                        None,
                        Some(
                            ability(
                                kind,
                                Effect::Counter { target: TargetFilter::ParentTarget },
                                Some(
                                    AbilityCondition::AuctionWinnerIs { player: ControllerRef::You },
                                ),
                                None,
                            ),
                        ),
                    ),
                ),
            ),
        ),
{
    let bid = OpeningBid::Number(Written::Digits("1"@));
    reveal_strlit("1");
    reveal_with_fuel(number_laws::decimal, 2);
    auction_sentences_are_read(t, Invitation::SpellController, bid, Prize::CounteredSpell, kind);
}

} // verus!
