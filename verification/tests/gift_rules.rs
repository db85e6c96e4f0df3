//! Recipients of gifts, and what may come between a promise and its delivery.
use std::sync::Arc;

use phase_engine::game::effects::gift_delivery::resolve;
use phase_engine::game::engine::dispatch::apply;
use phase_engine::game::engine::reply::EngineError;
use phase_engine::game::zones::create_object;
use phase_engine::types::ability::{Effect, EffectError, EffectKind, ResolvedAbility};
use phase_engine::types::actions::GameAction;
use phase_engine::types::events::GameEvent;
use phase_engine::types::format::FormatConfig;
use phase_engine::types::game_state::GameState;
use phase_engine::types::identifiers::{CardId, ObjectId, PlayerId};
use phase_engine::types::keywords::{GiftKind, GiftTokenSpec};
use phase_engine::types::prompts::WaitingFor;
use phase_engine::types::replacements::{
    ReplacementDefinition, ReplacementEvent, ReplacementOutcome,
};
use phase_engine::types::statics::{StaticDefinition, StaticMode};
use phase_engine::types::zones::Zone;

fn promised(kind: GiftKind, recipient: Option<u8>) -> ResolvedAbility {
    let mut ability = ResolvedAbility::new(
        Effect::GiftDelivery { kind },
        vec![],
        ObjectId(100),
        PlayerId(0),
    );
    ability.context.additional_cost_paid = true;
    ability.context.gift_recipient = recipient.map(PlayerId);
    ability
}

fn token_owners(state: &GameState) -> Vec<u8> {
    let mut owners: Vec<u8> = state
        .objects
        .by_number
        .values()
        .filter(|o| o.is_token)
        .map(|o| o.owner.0)
        .collect();
    owners.sort_unstable();
    owners
}

fn add_replacement(state: &mut GameState, owner: u8, outcome: ReplacementOutcome) {
    add_replacement_of(state, owner, ReplacementEvent::CreateToken, outcome);
}

fn add_replacement_of(
    state: &mut GameState,
    owner: u8,
    event: ReplacementEvent,
    outcome: ReplacementOutcome,
) {
    let id = create_object(
        state,
        CardId(70),
        PlayerId(owner),
        "Replacement".to_string(),
        Zone::Battlefield,
    );
    state
        .objects
        .get_mut(&id)
        .unwrap()
        .replacement_definitions
        .push(ReplacementDefinition {
            event,
            outcome,
        });
}

#[test]
fn the_chosen_opponent_receives_the_gift() {
    let mut state = GameState::new(FormatConfig::standard(), 4, 0);
    let food = GiftKind::Token(GiftTokenSpec::food());
    resolve(&mut state, &promised(food.clone(), Some(3)), &mut Vec::new()).unwrap();
    assert_eq!(token_owners(&state), vec![3]);
    let mut state = GameState::new(FormatConfig::standard(), 4, 0);
    resolve(&mut state, &promised(food, None), &mut Vec::new()).unwrap();
    assert_eq!(token_owners(&state), vec![1]);
}

#[test]
fn delivered_gifts_are_reported() {
    let mut state = GameState::new_two_player(0);
    let mut events = Vec::new();
    resolve(&mut state, &promised(GiftKind::Card, Some(1)), &mut events).unwrap();
    assert_eq!(
        events.last(),
        Some(&GameEvent::EffectResolved {
            kind: EffectKind::GiftDelivery,
            source_id: ObjectId(100),
            subject: None
        })
    );
}

#[test]
fn other_instructions_are_no_gifts() {
    let mut state = GameState::new_two_player(0);
    let other = ResolvedAbility::new(Effect::Planeswalk, vec![], ObjectId(1), PlayerId(0));
    assert_eq!(
        resolve(&mut state, &other, &mut Vec::new()),
        Err(EffectError::InvalidParam(
            "expected GiftDelivery effect".to_string()
        ))
    );
}

#[test]
fn gifts_are_replaced_for_their_recipient_only() {
    let treasure = || GiftKind::Token(GiftTokenSpec::treasure());
    let mut state = GameState::new_two_player(0);
    add_replacement(&mut state, 0, ReplacementOutcome::Double);
    resolve(&mut state, &promised(treasure(), Some(1)), &mut Vec::new()).unwrap();
    assert_eq!(token_owners(&state), vec![1]);

    let mut state = GameState::new_two_player(0);
    add_replacement(&mut state, 1, ReplacementOutcome::Prevent);
    let mut events = Vec::new();
    resolve(&mut state, &promised(treasure(), Some(1)), &mut events).unwrap();
    assert_eq!(token_owners(&state), Vec::<u8>::new());
    assert!(matches!(
        events.last(),
        Some(GameEvent::EffectResolved { .. })
    ));
}

#[test]
fn the_recipient_orders_several_replacements() {
    let mut state = GameState::new_two_player(0);
    add_replacement(&mut state, 1, ReplacementOutcome::Double);
    add_replacement(&mut state, 1, ReplacementOutcome::Double);
    let mut events = Vec::new();
    let gift = promised(GiftKind::Token(GiftTokenSpec::food()), Some(1));
    resolve(&mut state, &gift, &mut events).unwrap();
    assert_eq!(
        state.waiting_for,
        WaitingFor::ReplacementChoice {
            player: PlayerId(1),
            candidate_count: 2
        }
    );
    assert!(events.is_empty());
    assert_eq!(token_owners(&state), Vec::<u8>::new());
    assert_eq!(
        apply(
            &mut state,
            PlayerId(1),
            GameAction::ChooseReplacement { index: 2 }
        ),
        Err(EngineError::IllegalChoice)
    );
    apply(
        &mut state,
        PlayerId(1),
        GameAction::ChooseReplacement { index: 0 },
    )
    .unwrap();
    assert_eq!(token_owners(&state), vec![1, 1, 1, 1]);
}

#[test]
fn draw_restrictions_hold_for_gift_cards() {
    let prepare = |mode: StaticMode| {
        let mut state = GameState::new_two_player(0);
        let card = create_object(
            &mut state,
            CardId(5),
            PlayerId(1),
            "Card".to_string(),
            Zone::Library,
        );
        let source = create_object(
            &mut state,
            CardId(6),
            PlayerId(0),
            "Lock".to_string(),
            Zone::Battlefield,
        );
        state
            .objects
            .get_mut(&source)
            .unwrap()
            .static_definitions
            .push(Arc::new(StaticDefinition::new(mode)));
        (state, card)
    };
    let (mut state, card) = prepare(StaticMode::CantDraw);
    resolve(
        &mut state,
        &promised(GiftKind::Card, Some(1)),
        &mut Vec::new(),
    )
    .unwrap();
    assert!(state.players[1].library.contains(&card));

    let (mut state, card) = prepare(StaticMode::PerTurnDrawLimit { max: 1 });
    resolve(
        &mut state,
        &promised(GiftKind::Card, Some(1)),
        &mut Vec::new(),
    )
    .unwrap();
    assert!(state.players[1].hand.contains(&card));
    let (mut state, card) = prepare(StaticMode::PerTurnDrawLimit { max: 1 });
    state.players[1].cards_drawn_this_turn = 1;
    resolve(
        &mut state,
        &promised(GiftKind::Card, Some(1)),
        &mut Vec::new(),
    )
    .unwrap();
    assert!(state.players[1].library.contains(&card));
}

fn with_library(cards: u64) -> GameState {
    let mut state = GameState::new_two_player(0);
    for i in 0..cards {
        create_object(
            &mut state,
            CardId(200 + i),
            PlayerId(1),
            "Card".to_string(),
            Zone::Library,
        );
    }
    state
}

fn is_report(event: Option<&GameEvent>) -> bool {
    matches!(
        event,
        Some(GameEvent::EffectResolved {
            kind: EffectKind::GiftDelivery,
            ..
        })
    )
}

#[test]
fn draws_of_the_recipient_are_replaced() {
    for (owner, outcome, drawn) in [
        (1, ReplacementOutcome::Double, 2),
        (1, ReplacementOutcome::Prevent, 0),
        (0, ReplacementOutcome::Double, 1),
    ] {
        let mut state = with_library(4);
        add_replacement_of(&mut state, owner, ReplacementEvent::Draw, outcome);
        let mut events = Vec::new();
        resolve(&mut state, &promised(GiftKind::Card, Some(1)), &mut events).unwrap();
        assert_eq!(state.players[1].hand.len(), drawn);
        assert_eq!(state.players[1].library.len(), 4 - drawn);
        assert_eq!(events.len(), drawn + 1);
        assert!(is_report(events.last()));
    }
}

#[test]
fn replaced_draws_keep_to_the_limits() {
    let mut state = with_library(4);
    add_replacement_of(&mut state, 1, ReplacementEvent::Draw, ReplacementOutcome::Double);
    let limit = create_object(
        &mut state,
        CardId(71),
        PlayerId(1),
        "Limit".to_string(),
        Zone::Battlefield,
    );
    state
        .objects
        .get_mut(&limit)
        .unwrap()
        .static_definitions
        .push(Arc::new(StaticDefinition::new(
            StaticMode::PerTurnDrawLimit { max: 1 },
        )));
    resolve(&mut state, &promised(GiftKind::Card, Some(1)), &mut Vec::new()).unwrap();
    assert_eq!(state.players[1].hand.len(), 1);
}

#[test]
fn the_recipient_orders_several_replacements_of_a_draw() {
    let mut state = with_library(6);
    add_replacement_of(&mut state, 1, ReplacementEvent::Draw, ReplacementOutcome::Double);
    add_replacement_of(&mut state, 1, ReplacementEvent::Draw, ReplacementOutcome::Double);
    let mut events = Vec::new();
    resolve(&mut state, &promised(GiftKind::Card, Some(1)), &mut events).unwrap();
    assert_eq!(
        state.waiting_for,
        WaitingFor::ReplacementChoice {
            player: PlayerId(1),
            candidate_count: 2
        }
    );
    assert_eq!(state.players[1].hand.len(), 0);
    assert_eq!(events.len(), 1);
    assert!(is_report(events.last()));
    apply(
        &mut state,
        PlayerId(1),
        GameAction::ChooseReplacement { index: 1 },
    )
    .unwrap();
    assert_eq!(state.players[1].hand.len(), 4);
    assert!(matches!(state.waiting_for, WaitingFor::Priority { .. }));
}

#[test]
fn cards_need_no_new_identifiers() {
    let mut state = with_library(1);
    state.next_object_id = u64::MAX;
    resolve(&mut state, &promised(GiftKind::Card, Some(1)), &mut Vec::new()).unwrap();
    assert_eq!(state.players[1].hand.len(), 1);
    let mut unpromised = promised(GiftKind::Token(GiftTokenSpec::food()), Some(1));
    unpromised.context.additional_cost_paid = false;
    resolve(&mut state, &unpromised, &mut Vec::new()).unwrap();
    assert_eq!(token_owners(&state), Vec::<u8>::new());
}
