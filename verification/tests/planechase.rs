//! Planeswalking.
use phase_engine::game::effects::planeswalk::resolve;
use phase_engine::game::planechase::PLANAR_ABILITY_SOURCE;
use phase_engine::game::zones::create_object;
use phase_engine::types::ability::{Effect, ResolvedAbility};
use phase_engine::types::card_type::CoreType;
use phase_engine::types::events::{GameEvent, PlaneswalkCause};
use phase_engine::types::format::FormatConfig;
use phase_engine::types::game_state::GameState;
use phase_engine::types::identifiers::{CardId, ObjectId, PlayerId};
use phase_engine::types::prompts::WaitingFor;
use phase_engine::types::replacements::{
    ReplacementDefinition, ReplacementEvent, ReplacementOutcome,
};
use phase_engine::types::zones::Zone;

fn plane(state: &mut GameState, card: u64) -> ObjectId {
    let id = create_object(
        state,
        CardId(card),
        PlayerId(0),
        format!("Plane {card}"),
        Zone::Command,
    );
    state
        .objects
        .get_mut(&id)
        .unwrap()
        .card_types
        .core_types
        .push(CoreType::Plane);
    id
}

/// A face-up plane, an emblem beside it and two planes in the planar deck.
fn game() -> (GameState, Vec<ObjectId>, ObjectId) {
    let mut state = GameState::new(FormatConfig::planechase(), 2, 0);
    let planes: Vec<ObjectId> = (1..4).map(|i| plane(&mut state, i)).collect();
    let emblem = create_object(
        &mut state,
        CardId(9),
        PlayerId(0),
        "Emblem".to_string(),
        Zone::Command,
    );
    state.command_zone = vec![planes[0], emblem];
    state.planar_deck = vec![planes[1], planes[2]];
    (state, planes, emblem)
}

fn walk(source: u64) -> ResolvedAbility {
    ResolvedAbility::new(Effect::Planeswalk, vec![], ObjectId(source), PlayerId(1))
}

fn add_replacement(state: &mut GameState, outcome: ReplacementOutcome) {
    let id = create_object(
        state,
        CardId(70),
        PlayerId(1),
        "Replacement".to_string(),
        Zone::Battlefield,
    );
    state
        .objects
        .get_mut(&id)
        .unwrap()
        .replacement_definitions
        .push(ReplacementDefinition {
            event: ReplacementEvent::Planeswalk,
            outcome,
        });
}

#[test]
fn the_planar_deck_is_rotated() {
    let (mut state, planes, emblem) = game();
    let mut events = Vec::new();
    resolve(&mut state, &walk(5), &mut events).unwrap();
    assert_eq!(state.command_zone, vec![emblem, planes[1]]);
    assert_eq!(state.planar_deck, vec![planes[2], planes[0]]);
    assert_eq!(
        events,
        vec![GameEvent::Planeswalked {
            player_id: PlayerId(1),
            cause: PlaneswalkCause::Instruction
        }]
    );
}

#[test]
fn the_planar_die_is_a_cause_of_its_own() {
    let (mut state, _, _) = game();
    let mut events = Vec::new();
    resolve(&mut state, &walk(PLANAR_ABILITY_SOURCE), &mut events).unwrap();
    assert_eq!(
        events,
        vec![GameEvent::Planeswalked {
            player_id: PlayerId(1),
            cause: PlaneswalkCause::PlanarDie
        }]
    );
}

#[test]
fn planeswalks_are_replaced_whatever_their_source() {
    for source in [5, PLANAR_ABILITY_SOURCE] {
        let (mut state, planes, emblem) = game();
        add_replacement(&mut state, ReplacementOutcome::Prevent);
        let mut events = Vec::new();
        resolve(&mut state, &walk(source), &mut events).unwrap();
        assert_eq!(state.command_zone, vec![planes[0], emblem]);
        assert!(events.is_empty());
    }
    let (mut state, planes, emblem) = game();
    add_replacement(&mut state, ReplacementOutcome::Double);
    resolve(&mut state, &walk(5), &mut Vec::new()).unwrap();
    assert_eq!(state.command_zone, vec![emblem, planes[2]]);
    assert_eq!(state.planar_deck, vec![planes[0], planes[1]]);
}

#[test]
fn several_replacements_wait_for_a_choice() {
    let (mut state, planes, emblem) = game();
    add_replacement(&mut state, ReplacementOutcome::Prevent);
    add_replacement(&mut state, ReplacementOutcome::Double);
    let mut events = Vec::new();
    resolve(&mut state, &walk(5), &mut events).unwrap();
    assert_eq!(
        state.waiting_for,
        WaitingFor::ReplacementChoice {
            player: PlayerId(1),
            candidate_count: 2
        }
    );
    assert_eq!(state.command_zone, vec![planes[0], emblem]);
    assert!(events.is_empty());
}
