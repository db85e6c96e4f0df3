//! Attack requirements.
use phase_engine::game::combat::creature_must_attack;
use phase_engine::game::zones::create_object;
use phase_engine::parser::oracle::parse_oracle_text;
use phase_engine::types::card_type::CoreType;
use phase_engine::types::game_state::GameState;
use phase_engine::types::identifiers::{CardId, ObjectId, PlayerId};
use phase_engine::types::phase::Phase;
use phase_engine::types::zones::Zone;

const P0: PlayerId = PlayerId(0);
const P1: PlayerId = PlayerId(1);

/// Fumiko the Lowblood (Betrayers of Kamigawa).
const FUMIKO: &str = "Fumiko the Lowblood has bushido X, where X is the number of attacking creatures. (Whenever this creature blocks or becomes blocked, it gets +X/+X until end of turn.)\nCreatures your opponents control attack each combat if able.";

fn add_creature(
    state: &mut GameState,
    card: u64,
    owner: PlayerId,
    name: &str,
    power: i32,
    toughness: i32,
) -> ObjectId {
    let id = create_object(state, CardId(card), owner, name.to_string(), Zone::Battlefield);
    let obj = state.objects.get_mut(&id).unwrap();
    obj.card_types.core_types.push(CoreType::Creature);
    obj.power = Some(power);
    obj.toughness = Some(toughness);
    id
}

fn build_with_fumiko(active: PlayerId) -> (GameState, ObjectId, ObjectId, ObjectId) {
    let mut state = GameState::new_two_player(42);
    state.phase = Phase::DeclareAttackers;

    let fumiko = add_creature(&mut state, 1, P0, "Fumiko the Lowblood", 3, 2);
    state.objects.get_mut(&fumiko).unwrap().static_definitions =
        parse_oracle_text(FUMIKO, "Fumiko the Lowblood").statics;
    let ally = add_creature(&mut state, 2, P0, "Grizzly Bears", 2, 2);
    let foe = add_creature(&mut state, 3, P1, "Runeclaw Bear", 2, 2);

    state.active_player = active;
    (state, fumiko, ally, foe)
}

#[test]
fn fumiko_does_not_force_her_own_creatures_to_attack() {
    let (state, fumiko, ally, _foe) = build_with_fumiko(P0);

    assert!(
        !creature_must_attack(&state, fumiko),
        "Fumiko is controlled by you, not an opponent — she must not force herself to attack",
    );
    assert!(
        !creature_must_attack(&state, ally),
        "Fumiko's controller's other creatures are outside the opponent-scoped requirement",
    );
}

#[test]
fn fumiko_forces_opponents_creatures_to_attack() {
    let (state, _fumiko, _ally, foe) = build_with_fumiko(P1);

    assert!(
        creature_must_attack(&state, foe),
        "a creature an opponent of Fumiko's controller controls must attack each combat",
    );
}
