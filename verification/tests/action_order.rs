//! The stable order of actions.
use std::cmp::Ordering;

use phase_engine::types::action_payloads::{CastPaymentMode, TargetRef};
use phase_engine::types::action_stable_order::{cmp_debug_action, cmp_game_actions};
use phase_engine::types::actions::{DebugAction, DebugTokenRequest, GameAction, LibraryPosition};
use phase_engine::types::identifiers::{CardId, ObjectId, PlayerId};
use phase_engine::types::tokens::TokenCharacteristics;
use phase_engine::types::zones::Zone;

fn cast(object: u64, card: u64, targets: Vec<u64>) -> GameAction {
    GameAction::CastSpell {
        object_id: ObjectId(object),
        card_id: CardId(card),
        targets: targets.into_iter().map(ObjectId).collect(),
        payment_mode: CastPaymentMode::Auto,
    }
}

#[test]
fn kinds_come_in_declaration_order() {
    let land = GameAction::PlayLand {
        object_id: ObjectId(900),
        card_id: CardId(900),
    };
    assert_eq!(
        cmp_game_actions(&GameAction::PassPriority, &land),
        Ordering::Less
    );
    assert_eq!(cmp_game_actions(&land, &cast(0, 0, vec![])), Ordering::Less);
    assert_eq!(
        cmp_game_actions(&GameAction::PassLifeAuction, &land),
        Ordering::Greater
    );
}

#[test]
fn fields_decide_within_a_kind() {
    assert_eq!(
        cmp_game_actions(&cast(1, 9, vec![9]), &cast(2, 0, vec![])),
        Ordering::Less
    );
    assert_eq!(
        cmp_game_actions(&cast(1, 2, vec![]), &cast(1, 1, vec![7])),
        Ordering::Greater
    );
    assert_eq!(
        cmp_game_actions(&cast(1, 1, vec![3]), &cast(1, 1, vec![3, 0])),
        Ordering::Less
    );
    assert_eq!(
        cmp_game_actions(&cast(1, 1, vec![4]), &cast(1, 1, vec![3, 0])),
        Ordering::Greater
    );
    assert_eq!(
        cmp_game_actions(&cast(1, 1, vec![3, 0]), &cast(1, 1, vec![3, 0])),
        Ordering::Equal
    );
}

#[test]
fn absent_values_come_before_present_ones() {
    let none = GameAction::ChooseTarget { target: None };
    let object = GameAction::ChooseTarget {
        target: Some(TargetRef::Object(ObjectId(5))),
    };
    let player = GameAction::ChooseTarget {
        target: Some(TargetRef::Player(PlayerId(0))),
    };
    assert_eq!(cmp_game_actions(&none, &object), Ordering::Less);
    assert_eq!(cmp_game_actions(&object, &player), Ordering::Less);
    assert_eq!(cmp_game_actions(&player, &none), Ordering::Greater);
}

#[test]
fn bids_and_gift_recipients_are_told_apart() {
    assert_eq!(
        cmp_game_actions(
            &GameAction::SubmitLifeAuctionBid { amount: 3 },
            &GameAction::SubmitLifeAuctionBid { amount: 11 },
        ),
        Ordering::Less
    );
    assert_eq!(
        cmp_game_actions(
            &GameAction::ChooseGiftRecipient {
                opponent: PlayerId(2)
            },
            &GameAction::ChooseGiftRecipient {
                opponent: PlayerId(1)
            },
        ),
        Ordering::Greater
    );
}

#[test]
fn sorting_gives_one_order_for_every_arrangement() {
    let expected = vec![
        GameAction::PassPriority,
        cast(1, 1, vec![]),
        cast(1, 1, vec![2]),
        cast(3, 1, vec![]),
        GameAction::SubmitLifeAuctionBid { amount: 1 },
        GameAction::SubmitLifeAuctionBid { amount: 2 },
        GameAction::PassLifeAuction,
    ];
    for turn in 0..expected.len() {
        let mut list: Vec<GameAction> = expected.clone();
        list.rotate_left(turn);
        list.reverse();
        list.sort_by(cmp_game_actions);
        assert_eq!(list, expected);
    }
}

fn moved(position: Option<LibraryPosition>) -> DebugAction {
    DebugAction::MoveToZone {
        object_id: ObjectId(1),
        to_zone: Zone::Library,
        library_position: position,
        simulate: false,
    }
}

#[test]
fn library_positions_are_ordered() {
    let none = moved(None);
    let top = moved(Some(LibraryPosition::Top));
    let bottom = moved(Some(LibraryPosition::Bottom));
    let third = moved(Some(LibraryPosition::NthFromTop { n: 3 }));
    let fourth = moved(Some(LibraryPosition::NthFromTop { n: 4 }));
    assert_eq!(cmp_debug_action(&none, &top), Ordering::Less);
    assert_eq!(cmp_debug_action(&top, &bottom), Ordering::Less);
    assert_eq!(cmp_debug_action(&bottom, &third), Ordering::Less);
    assert_eq!(cmp_debug_action(&fourth, &third), Ordering::Greater);
    assert_eq!(cmp_debug_action(&third, &third), Ordering::Equal);
}

fn preset(owner: u8, id: &str) -> DebugAction {
    DebugAction::CreateToken {
        request: DebugTokenRequest::Preset {
            preset_id: id.to_string(),
            owner: PlayerId(owner),
            power_override: None,
            toughness_override: None,
            enter_with_counters: vec![],
        },
        run_etb: false,
    }
}

fn custom(owner: u8, name: &str, power: i32) -> DebugAction {
    DebugAction::CreateToken {
        request: DebugTokenRequest::Custom {
            owner: PlayerId(owner),
            characteristics: TokenCharacteristics {
                display_name: name.to_string(),
                power: Some(power),
                toughness: Some(1),
                core_types: vec![],
                subtypes: vec![],
                supertypes: vec![],
                colors: vec![],
                keywords: vec![],
            },
            enter_with_counters: vec![],
        },
        run_etb: false,
    }
}

#[test]
fn preset_tokens_come_before_custom_ones() {
    assert_eq!(
        cmp_debug_action(&preset(1, "zombie"), &custom(0, "Ape", 1)),
        Ordering::Less
    );
    assert_eq!(
        cmp_debug_action(&preset(0, "zombie"), &preset(1, "ape")),
        Ordering::Less
    );
    assert_eq!(
        cmp_debug_action(&preset(0, "zombie"), &preset(0, "ape")),
        Ordering::Greater
    );
    assert_eq!(
        cmp_debug_action(&custom(0, "Ape", 1), &custom(0, "Bear", 1)),
        Ordering::Less
    );
}

#[test]
fn debug_actions_are_ordered_by_kind_first() {
    let draw = DebugAction::DrawCards {
        player_id: PlayerId(9),
        count: 9,
    };
    let mill = DebugAction::Mill {
        player_id: PlayerId(0),
        count: 0,
    };
    assert_eq!(cmp_debug_action(&draw, &mill), Ordering::Less);
    assert_eq!(
        cmp_game_actions(
            &GameAction::Debug(mill.clone()),
            &GameAction::Debug(draw.clone())
        ),
        Ordering::Greater
    );
    assert_eq!(cmp_debug_action(&draw, &draw), Ordering::Equal);
}

#[test]
fn debug_actions_are_totally_ordered() {
    let all = [
        moved(None),
        preset(0, "a"),
        preset(1, "a"),
        custom(0, "a", 1),
        custom(0, "b", 1),
    ];
    for a in &all {
        assert_eq!(cmp_debug_action(a, a), Ordering::Equal);
        for b in &all {
            assert_eq!(cmp_debug_action(a, b), cmp_debug_action(b, a).reverse());
            for c in &all {
                if cmp_debug_action(a, b) == Ordering::Less
                    && cmp_debug_action(b, c) == Ordering::Less
                {
                    assert_eq!(cmp_debug_action(a, c), Ordering::Less);
                }
            }
        }
    }
}
