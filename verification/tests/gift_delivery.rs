//! Delivery of promised gifts (CR 702.174).
use phase_engine::game::effects::gift_delivery::resolve;
use phase_engine::game::zones;
use phase_engine::parser::oracle::parse_oracle_text;
use phase_engine::types::ability::{Effect, ResolvedAbility};
use phase_engine::types::card_type::CoreType;
use phase_engine::types::events::GameEvent;
use phase_engine::types::game_state::GameState;
use phase_engine::types::identifiers::{CardId, ObjectId, PlayerId};
use phase_engine::types::keywords::{GiftKind, GiftTokenSpec};
use phase_engine::types::mana::ManaColor;
use phase_engine::types::zones::{EtbTapState, Zone};

fn make_gift_ability(kind: GiftKind, promised: bool) -> ResolvedAbility {
    let mut ability = ResolvedAbility::new(
        Effect::GiftDelivery { kind },
        vec![],
        ObjectId(100),
        PlayerId(0),
    );
    ability.context.additional_cost_paid = promised;
    ability
}

fn octopus() -> GiftKind {
    GiftKind::Token(GiftTokenSpec::creature(
        "Octopus",
        8,
        8,
        vec![ManaColor::Blue],
        vec!["Octopus".to_string()],
        EtbTapState::Unspecified,
    ))
}

#[test]
fn gift_card_opponent_draws_when_promised() {
    let mut state = GameState::new_two_player(42);
    let card_id = zones::create_object(
        &mut state,
        CardId(1),
        PlayerId(1),
        "Opponent Card".to_string(),
        Zone::Library,
    );
    let mut events = Vec::new();

    let ability = make_gift_ability(GiftKind::Card, true);
    resolve(&mut state, &ability, &mut events).unwrap();

    assert!(state.players[1].hand.contains(&card_id));
    assert!(events.iter().any(
        |e| matches!(e, GameEvent::CardDrawn { player_id, .. } if *player_id == PlayerId(1))
    ));
}

#[test]
fn gift_card_noop_when_not_promised() {
    let mut state = GameState::new_two_player(42);
    let card_id = zones::create_object(
        &mut state,
        CardId(1),
        PlayerId(1),
        "Opponent Card".to_string(),
        Zone::Library,
    );
    let mut events = Vec::new();

    let ability = make_gift_ability(GiftKind::Card, false);
    resolve(&mut state, &ability, &mut events).unwrap();

    // The opponent does not draw.
    assert!(state.players[1].library.contains(&card_id));
    assert!(!events
        .iter()
        .any(|e| matches!(e, GameEvent::CardDrawn { .. })));
}

#[test]
fn gift_treasure_creates_token_for_opponent() {
    let mut state = GameState::new_two_player(42);
    let mut events = Vec::new();

    let ability = make_gift_ability(GiftKind::Token(GiftTokenSpec::treasure()), true);
    resolve(&mut state, &ability, &mut events).unwrap();

    let token = state
        .objects
        .by_number
        .values()
        .find(|o| o.card_id == CardId(0) && o.owner == PlayerId(1));
    assert!(token.is_some(), "Treasure token should exist for opponent");
    let token = token.unwrap();
    assert!(token.is_token, "gift Treasure must be a token");
    assert!(token.card_types.subtypes.contains(&"Treasure".to_string()));
    assert!(token.card_types.core_types.contains(&CoreType::Artifact));
}

#[test]
fn gift_tapped_fish_creates_tapped_token() {
    let mut state = GameState::new_two_player(42);
    let mut events = Vec::new();

    let ability = make_gift_ability(GiftKind::Token(GiftTokenSpec::tapped_fish()), true);
    resolve(&mut state, &ability, &mut events).unwrap();

    let token = state
        .objects
        .by_number
        .values()
        .find(|o| o.card_id == CardId(0) && o.owner == PlayerId(1));
    assert!(token.is_some(), "Fish token should exist for opponent");
    let token = token.unwrap();
    assert!(token.is_token, "gift Fish must be a token");
    assert_eq!(token.power, Some(1));
    assert_eq!(token.toughness, Some(1));
    assert!(token.tapped, "Fish should enter tapped");
    assert!(token.color.contains(&ManaColor::Blue));
}

#[test]
fn gift_food_creates_food_token_for_opponent() {
    let mut state = GameState::new_two_player(42);
    let mut events = Vec::new();

    let ability = make_gift_ability(GiftKind::Token(GiftTokenSpec::food()), true);
    resolve(&mut state, &ability, &mut events).unwrap();

    let token = state
        .objects
        .by_number
        .values()
        .find(|o| o.card_id == CardId(0) && o.owner == PlayerId(1));
    assert!(token.is_some(), "Food token should exist for opponent");
    let token = token.unwrap();
    assert!(token.is_token, "gift Food must be a token");
    assert!(token.card_types.subtypes.contains(&"Food".to_string()));
}

#[test]
fn gift_creature_token_creates_octopus_for_opponent() {
    let mut state = GameState::new_two_player(42);
    let mut events = Vec::new();

    let ability = make_gift_ability(octopus(), true);
    resolve(&mut state, &ability, &mut events).unwrap();

    let token = state
        .objects
        .by_number
        .values()
        .find(|o| o.card_id == CardId(0) && o.owner == PlayerId(1));
    assert!(token.is_some(), "Octopus token should exist for opponent");
    let token = token.unwrap();
    assert!(token.is_token, "gift Octopus must be a token");
    assert_eq!(token.power, Some(8));
    assert_eq!(token.toughness, Some(8));
    assert!(token.color.contains(&ManaColor::Blue));
    assert!(token.card_types.subtypes.contains(&"Octopus".to_string()));
}

#[test]
fn gift_creature_token_doubles_under_recipient_doubling_season() {
    let mut state = GameState::new_two_player(42);
    let ds_id = zones::create_object(
        &mut state,
        CardId(99),
        PlayerId(1),
        "Doubling Season".to_string(),
        Zone::Battlefield,
    );
    let parsed = parse_oracle_text(
        "If one or more tokens would be created under your control, twice that \
         many tokens are created instead.",
        "Doubling Season",
    );
    assert!(
        !parsed.replacements.is_empty(),
        "Doubling Season token doubler must parse"
    );
    {
        let obj = state.objects.get_mut(&ds_id).unwrap();
        obj.card_types.core_types.push(CoreType::Enchantment);
        obj.replacement_definitions = parsed.replacements;
    }

    let mut events = Vec::new();
    let ability = make_gift_ability(octopus(), true);
    resolve(&mut state, &ability, &mut events).unwrap();

    let octopus_tokens: Vec<_> = state
        .objects
        .by_number
        .values()
        .filter(|o| {
            o.is_token
                && o.owner == PlayerId(1)
                && o.card_types.subtypes.iter().any(|s| s == "Octopus")
        })
        .collect();
    assert_eq!(
        octopus_tokens.len(),
        2,
        "recipient's Doubling Season must double the gifted Octopus token"
    );
}
