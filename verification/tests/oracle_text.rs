//! Oracle text beyond auctions, and what auction blocks do not accept.
use phase_engine::parser::oracle::parse_oracle_text;
use phase_engine::parser::oracle_auction::{parse_life_auction_block, rewrite_lose_life_in_chain};
use phase_engine::types::ability::{AbilityDefinition, AbilityKind, Effect};
use phase_engine::types::keywords::{GiftKind, Keyword};
use phase_engine::types::mana::ManaColor;
use phase_engine::types::mana_cost::ManaCost;
use phase_engine::types::quantity::{QuantityExpr, QuantityRef};
use phase_engine::types::statics::StaticMode;
use phase_engine::types::target_filter::TargetFilter;
use phase_engine::types::triggers::TriggerMode;
use phase_engine::types::zones::EtbTapState;

const PAINS: &str = "Each player may bid life. You start the bidding with a bid of any number. In turn order, each player may top the high bid. The bidding ends if the high bid stands. The high bidder loses life equal to the high bid and draws four cards.";

#[test]
fn auction_blocks_are_read_in_any_case() {
    let upper = parse_life_auction_block(&PAINS.to_uppercase(), AbilityKind::Spell);
    let plain = parse_life_auction_block(PAINS, AbilityKind::Spell);
    assert!(plain.is_some());
    assert_eq!(upper, plain);
}

#[test]
fn other_texts_are_no_auction_blocks() {
    assert!(parse_life_auction_block("", AbilityKind::Spell).is_none());
    assert!(parse_life_auction_block("Draw two cards.", AbilityKind::Spell).is_none());
    let open_ended = PAINS.replace("The bidding ends if the high bid stands. ", "");
    assert!(parse_life_auction_block(&open_ended, AbilityKind::Spell).is_none());
}

#[test]
fn winners_lose_what_they_bid() {
    let def = parse_life_auction_block(PAINS, AbilityKind::Spell).unwrap();
    let loss = def.sub_ability.unwrap();
    assert_eq!(
        *loss.effect,
        Effect::LoseLife {
            amount: QuantityExpr::Ref {
                qty: QuantityRef::WinningBidAmount
            },
            target: Some(TargetFilter::WinningBidder),
        }
    );
}

fn gift_of(text: &str) -> GiftKind {
    let parsed = parse_oracle_text(text, "Test");
    assert_eq!(parsed.keywords.len(), 1);
    match &*parsed.keywords[0] {
        Keyword::Gift(kind) => kind.clone(),
        other => panic!("expected a gift, got {other:?}"),
    }
}

#[test]
fn gift_lines_name_their_gift() {
    assert_eq!(gift_of("Gift a card (They draw a card.)"), GiftKind::Card);
    assert_eq!(gift_of("Gift a card"), GiftKind::Card);
    for (text, name) in [
        ("Gift a Treasure (Reminder.)", "Treasure"),
        ("Gift a Food", "Food"),
    ] {
        match gift_of(text) {
            GiftKind::Token(spec) => {
                assert_eq!(spec.display_name, name);
                assert_eq!(spec.power, None);
            }
            GiftKind::Card => panic!("expected a token"),
        }
    }
    match gift_of("Gift a tapped Fish (Reminder.)") {
        GiftKind::Token(spec) => {
            assert_eq!(spec.subtypes, vec!["Fish".to_string()]);
            assert_eq!(spec.power, Some(1));
            assert_eq!(spec.enter_tapped, EtbTapState::Tapped);
        }
        GiftKind::Card => panic!("expected a token"),
    }
}

#[test]
fn creature_gifts_are_read_from_their_reminder() {
    let text = "Gift a Bear (You may promise an opponent a gift as you cast this spell. If you do, when it enters, they create a 4/3 green Bear creature token.)";
    match gift_of(text) {
        GiftKind::Token(spec) => {
            assert_eq!(spec.display_name, "Bear");
            assert_eq!((spec.power, spec.toughness), (Some(4), Some(3)));
            assert_eq!(spec.colors, vec![ManaColor::Green]);
            assert_eq!(spec.enter_tapped, EtbTapState::Unspecified);
        }
        GiftKind::Card => panic!("expected a token"),
    }
    assert!(parse_oracle_text("Gift a Bear", "Test").keywords.is_empty());
}

#[test]
fn lines_of_other_kinds_are_passed_over() {
    let parsed = parse_oracle_text(
        "Flying\n\nCreatures your opponents control attack each combat if able.\nDraw a card.",
        "Test",
    );
    assert!(parsed.keywords.is_empty());
    assert!(parsed.replacements.is_empty());
    assert!(parsed.triggers.is_empty());
    assert_eq!(parsed.statics.len(), 1);
    assert_eq!(parsed.statics[0].mode, StaticMode::MustAttack);
}

#[test]
fn repeated_payments_take_their_modes_from_the_lines_that_follow() {
    let parsed = parse_oracle_text(
        "Whenever Aang becomes tapped, you may pay {W} up to 2 times. When you do, choose up to that many.\n• You gain 3 life.\n• Aang deals 4 damage to target player.\nFlying\n• Draw a card.",
        "Aang, Airbender",
    );
    assert_eq!(parsed.triggers.len(), 1);
    let trigger = &parsed.triggers[0];
    assert_eq!(trigger.mode, TriggerMode::Taps);
    let pay = trigger.execute.as_deref().unwrap();
    assert_eq!(
        *pay.effect,
        Effect::PayCost {
            cost: ManaCost {
                white: 1,
                ..ManaCost::zero()
            }
        }
    );
    assert_eq!(pay.repeat_for, Some(QuantityExpr::Fixed { value: 2 }));
    let modes = pay
        .sub_ability
        .as_ref()
        .unwrap()
        .mode_abilities
        .as_ref()
        .unwrap();
    assert_eq!(modes.len(), 2);
    assert_eq!(
        *modes[0].effect,
        Effect::GainLife {
            amount: QuantityExpr::Fixed { value: 3 },
            target: TargetFilter::Controller
        }
    );
    assert_eq!(
        *modes[1].effect,
        Effect::DealDamage {
            amount: QuantityExpr::Fixed { value: 4 },
            target: TargetFilter::Player
        }
    );
}

#[test]
fn modes_that_are_not_understood_are_not_carried_out() {
    let parsed = parse_oracle_text(
        "When this creature enters, you may pay {3} up to one times. When you do, choose up to that many —\n• Exile target land.\n• Discard a card, then draw two cards.",
        "Test",
    );
    let pay = parsed.triggers[0].execute.as_deref().unwrap();
    assert_eq!(parsed.triggers[0].mode, TriggerMode::Enters);
    assert_eq!(
        *pay.effect,
        Effect::PayCost {
            cost: ManaCost::generic(3)
        }
    );
    let modes = pay
        .sub_ability
        .as_ref()
        .unwrap()
        .mode_abilities
        .as_ref()
        .unwrap();
    assert_eq!(*modes[0].effect, Effect::Unimplemented);
    assert!(matches!(*modes[1].effect, Effect::Discard { .. }));
    assert_eq!(
        *modes[1].sub_ability.as_ref().unwrap().effect,
        Effect::Draw {
            count: QuantityExpr::Fixed { value: 2 },
            target: TargetFilter::Controller
        }
    );
}

fn lose_two(target: Option<TargetFilter>) -> AbilityDefinition {
    AbilityDefinition::new(
        AbilityKind::Spell,
        Effect::LoseLife {
            amount: QuantityExpr::Fixed { value: 2 },
            target,
        },
    )
}

#[test]
fn losses_of_life_are_rewritten_along_the_chain() {
    let scry = AbilityDefinition::new(
        AbilityKind::Spell,
        Effect::Scry {
            count: QuantityExpr::Fixed { value: 2 },
            target: TargetFilter::Controller,
        },
    );
    let mut chain = lose_two(None)
        .sub_ability(scry.sub_ability(lose_two(Some(TargetFilter::Controller))));
    for _ in 0..2 {
        rewrite_lose_life_in_chain(&mut chain);
        let bid = QuantityExpr::Ref {
            qty: QuantityRef::WinningBidAmount,
        };
        assert_eq!(
            *chain.effect,
            Effect::LoseLife {
                amount: bid,
                target: Some(TargetFilter::WinningBidder)
            }
        );
        let second = chain.sub_ability.as_ref().unwrap();
        assert_eq!(
            *second.effect,
            Effect::Scry {
                count: QuantityExpr::Fixed { value: 2 },
                target: TargetFilter::Controller
            }
        );
        let third = second.sub_ability.as_ref().unwrap();
        assert_eq!(
            *third.effect,
            Effect::LoseLife {
                amount: bid,
                target: Some(TargetFilter::Controller)
            }
        );
        assert!(third.sub_ability.is_none());
    }
}
