//! Repeated optional payments that buy modes (Hawkeye, Master Marksman; Tranquil Frillback).
use phase_engine::game::ability_utils::build_resolved_from_def;
use phase_engine::game::effects::chain::resolve_ability_chain;
use phase_engine::game::engine::dispatch::apply;
use phase_engine::game::engine::reply::EngineError;
use phase_engine::game::zones::create_object;
use phase_engine::parser::oracle::{parse_oracle_text, ParsedAbilities};
use phase_engine::types::ability::{AbilityCondition, Effect, ModalChoice};
use phase_engine::types::action_payloads::TargetRef;
use phase_engine::types::actions::GameAction;
use phase_engine::types::card_type::CoreType;
use phase_engine::types::events::GameEvent;
use phase_engine::types::game_state::GameState;
use phase_engine::types::identifiers::{CardId, ObjectId, PlayerId};
use phase_engine::types::mana::ManaType;
use phase_engine::types::mana_cost::ManaUnit;
use phase_engine::types::prompts::WaitingFor;
use phase_engine::types::quantity::{QuantityExpr, QuantityRef};
use phase_engine::types::triggers::TriggerMode;
use phase_engine::types::zones::Zone;

const HAWKEYE_ORACLE: &str = "First strike, reach\n\
     Trick Arrows — Whenever Hawkeye becomes tapped, you may pay {1} up to three times. \
     When you do, choose up to that many.\n\
     • Net — Target creature can't block this turn.\n\
     • Explosive — Hawkeye deals 2 damage to target player.\n\
     • Boomerang — Discard a card, then draw a card.";

const FRILLBACK_ORACLE: &str = "When this creature enters, you may pay {G} up to three times. \
     When you pay this cost one or more times, choose up to that many —\n\
     • Destroy target artifact or enchantment.\n\
     • Exile target player's graveyard.\n\
     • You gain 4 life.";

const P0: PlayerId = PlayerId(0);
const P1: PlayerId = PlayerId(1);

fn parse_hawkeye() -> ParsedAbilities {
    parse_oracle_text(HAWKEYE_ORACLE, "Hawkeye, Master Marksman")
}

/// The modal of the reflexive ability ("when you do, choose up to that many").
fn hawkeye_reflexive_modal(parsed: &ParsedAbilities) -> &ModalChoice {
    let taps = parsed
        .triggers
        .iter()
        .find(|t| t.mode == TriggerMode::Taps)
        .expect("Hawkeye has a Taps trigger");
    let execute = taps.execute.as_ref().expect("Taps trigger has an execute");
    let reflexive = execute
        .sub_ability
        .as_ref()
        .expect("PayCost has a reflexive sub-ability");
    reflexive
        .modal
        .as_ref()
        .expect("reflexive sub carries a modal")
}

#[test]
fn hawkeye_modal_parses_with_resolution_local_dynamic_cap() {
    let parsed = parse_hawkeye();
    let modal = hawkeye_reflexive_modal(&parsed);

    assert_eq!(modal.min_choices, 0, "min is 0 — may choose no modes");
    assert_eq!(modal.mode_count, 3, "Net / Explosive / Boomerang");
    assert_eq!(
        modal.dynamic_max_choices,
        Some(QuantityExpr::Ref {
            qty: QuantityRef::TimesCostPaidThisResolution
        }),
        "the cap binds to the resolution-local repeated-payment count"
    );
}

#[test]
fn tranquil_frillback_parses_as_repeated_green_payment_modal() {
    let parsed = parse_oracle_text(FRILLBACK_ORACLE, "Tranquil Frillback");
    let execute = parsed.triggers[0].execute.as_deref().expect("ETB execute");
    assert!(matches!(execute.effect.as_ref(), Effect::PayCost { .. }));
    assert!(execute.optional);
    assert_eq!(execute.repeat_for, Some(QuantityExpr::Fixed { value: 3 }));
    let modal = execute.sub_ability.as_deref().expect("reflexive modal");
    assert_eq!(modal.condition, Some(AbilityCondition::WhenYouDo));
    assert_eq!(
        modal
            .modal
            .as_ref()
            .and_then(|modal| modal.dynamic_max_choices),
        Some(QuantityExpr::Ref {
            qty: QuantityRef::TimesCostPaidThisResolution
        })
    );
}

fn add_creature(state: &mut GameState, name: &str) -> ObjectId {
    let id = create_object(state, CardId(50), P0, name.to_string(), Zone::Battlefield);
    let obj = state.objects.get_mut(&id).unwrap();
    obj.card_types.core_types.push(CoreType::Creature);
    obj.power = Some(3);
    obj.toughness = Some(3);
    id
}

fn act(state: &mut GameState, action: GameAction) -> Result<Vec<GameEvent>, EngineError> {
    let player = state.waiting_for.acting_players()[0];
    apply(state, player, action)
}

fn advance_until_stack_empty(state: &mut GameState) {
    for _ in 0..64 {
        if state.stack.is_empty() {
            return;
        }
        act(state, GameAction::PassPriority).expect("pass priority");
    }
    panic!("the stack did not empty");
}

#[test]
fn tranquil_frillback_paying_once_and_choosing_life_gains_four() {
    let mut state = GameState::new_two_player(42);
    state.players[0].life = 20;
    let frillback = add_creature(&mut state, "Tranquil Frillback");
    state.players[0].mana_pool.mana =
        vec![ManaUnit::new(ManaType::Green, ObjectId(9_999), false)];
    let parsed = parse_oracle_text(FRILLBACK_ORACLE, "Tranquil Frillback");
    let execute = parsed.triggers[0].execute.as_deref().expect("ETB execute");
    let resolved = build_resolved_from_def(execute, frillback, P0);
    resolve_ability_chain(&mut state, resolved, &mut Vec::new(), 0)
        .expect("resolve Frillback ETB");

    assert!(matches!(
        state.waiting_for,
        WaitingFor::AbilityModeChoice { .. }
    ));
    act(&mut state, GameAction::SelectModes { indices: vec![2] })
        .expect("select Frillback life mode");
    advance_until_stack_empty(&mut state);
    assert_eq!(state.players[0].life, 24);
}

/// Hawkeye on P0's battlefield with `mana` colorless mana in the pool, the tap trigger resolved as
/// far as the choice of modes.
fn hawkeye_runtime(mana: usize, p0_hand: &[&str]) -> GameState {
    let mut state = GameState::new_two_player(42);
    state.players[1].life = 20;
    for name in p0_hand {
        create_object(&mut state, CardId(60), P0, name.to_string(), Zone::Hand);
    }
    let hawkeye = add_creature(&mut state, "Hawkeye, Master Marksman");
    state.players[0].mana_pool.mana =
        vec![ManaUnit::new(ManaType::Colorless, ObjectId(9_999), false); mana];

    let parsed = parse_hawkeye();
    let taps = parsed
        .triggers
        .iter()
        .find(|t| t.mode == TriggerMode::Taps)
        .unwrap();
    let execute = taps.execute.as_ref().unwrap();
    let resolved = build_resolved_from_def(execute, hawkeye, P0);

    let mut events = Vec::new();
    resolve_ability_chain(&mut state, resolved, &mut events, 0).expect("trigger resolution");
    state
}

fn k_count(state: &GameState) -> u32 {
    state
        .active_repeated_optional_payment_frame()
        .map_or(0, |frame| frame.optional_cost_payments_this_resolution)
}

fn p0_pool_total(state: &GameState) -> usize {
    state
        .players
        .iter()
        .find(|p| p.id == P0)
        .map(|p| p.mana_pool.total())
        .unwrap_or(0)
}

fn repeated_payment_driver_is_pending(state: &GameState) -> bool {
    state
        .active_repeated_optional_payment_frame()
        .is_some_and(|frame| frame.pending.is_some())
}

fn modal_cap(state: &GameState) -> Option<(usize, usize)> {
    match &state.waiting_for {
        WaitingFor::AbilityModeChoice { modal, .. } => Some((modal.min_choices, modal.max_choices)),
        _ => None,
    }
}

fn mode_cost_count(state: &GameState) -> Option<usize> {
    match &state.waiting_for {
        WaitingFor::AbilityModeChoice { modal, .. } => Some(modal.mode_costs.len()),
        _ => None,
    }
}

#[test]
fn batched_modal_offered_once_with_static_cap_from_affordability() {
    let state = hawkeye_runtime(3, &[]);
    assert!(
        matches!(state.waiting_for, WaitingFor::AbilityModeChoice { .. }),
        "batched path emits one AbilityModeChoice, not sequential OptionalEffectChoice"
    );
    assert_eq!(modal_cap(&state), Some((0, 3)));
    assert_eq!(mode_cost_count(&state), Some(3));
    assert!(
        repeated_payment_driver_is_pending(&state),
        "payment settles on SelectModes, not before the modal"
    );
}

#[test]
fn afford_zero_caps_modal_at_zero_and_accepts_empty_decline() {
    let mut state = hawkeye_runtime(0, &[]);
    assert_eq!(modal_cap(&state), Some((0, 0)));
    act(&mut state, GameAction::SelectModes { indices: vec![] })
        .expect("decline with empty selection");
    assert_eq!(k_count(&state), 0);
    assert!(
        state.active_repeated_optional_payment_frame().is_none(),
        "decline clears the payment frame"
    );
    assert!(matches!(state.waiting_for, WaitingFor::Priority { .. }));
}

#[test]
fn afford_two_of_three_caps_modal_at_two() {
    let state = hawkeye_runtime(2, &[]);
    assert_eq!(modal_cap(&state), Some((0, 2)));
}

#[test]
fn select_three_modes_pays_three_mana() {
    let mut state = hawkeye_runtime(3, &[]);
    act(
        &mut state,
        GameAction::SelectModes {
            indices: vec![0, 1, 2],
        },
    )
    .expect("select three modes");
    assert_eq!(
        p0_pool_total(&state),
        0,
        "three {{1}} payments were made in one step"
    );
    assert!(
        state.active_repeated_optional_payment_frame().is_none(),
        "payment frame settles after batched mode resolution"
    );
}

#[test]
fn select_one_mode_pays_one_mana() {
    let mut state = hawkeye_runtime(3, &[]);
    assert_eq!(p0_pool_total(&state), 3);
    act(&mut state, GameAction::SelectModes { indices: vec![1] }).expect("select Explosive only");
    assert_eq!(
        p0_pool_total(&state),
        2,
        "issue #6175: pay only for selected modes (1 of 3)"
    );
    assert!(
        matches!(state.waiting_for, WaitingFor::TriggerTargetSelection { .. }),
        "Explosive still needs a target after the single {{1}} payment"
    );
}

#[test]
fn unaffordable_submit_after_pool_drain_keeps_batched_prompt() {
    let mut state = hawkeye_runtime(3, &[]);
    for player in state.players.iter_mut() {
        if player.id == P0 {
            player.mana_pool.mana.clear();
        }
    }
    let err = act(&mut state, GameAction::SelectModes { indices: vec![0] });
    assert!(
        err.is_err(),
        "stale SelectModes must fail when the pool can no longer pay"
    );
    assert!(
        matches!(state.waiting_for, WaitingFor::AbilityModeChoice { .. }),
        "prompt remains live after rejected submit"
    );
    assert!(
        repeated_payment_driver_is_pending(&state),
        "batched pending must survive failed payment / affordability reject"
    );
}

#[test]
fn decline_empty_selection_skips_reflexive_at_k_zero() {
    let mut state = hawkeye_runtime(3, &[]);
    act(&mut state, GameAction::SelectModes { indices: vec![] }).expect("decline");

    assert_eq!(k_count(&state), 0);
    assert!(
        !matches!(state.waiting_for, WaitingFor::AbilityModeChoice { .. }),
        "no second modal after decline"
    );
    assert!(state.active_repeated_optional_payment_frame().is_none());
}

#[test]
fn afford_one_caps_modal_at_one_not_three() {
    let state = hawkeye_runtime(1, &[]);
    assert_eq!(modal_cap(&state), Some((0, 1)));
}

#[test]
fn boomerang_mode_resolves_once_through_apply() {
    let mut state = hawkeye_runtime(3, &["Mountain", "Forest"]);
    let hand_before = p0_hand_size(&state);
    assert_eq!(p0_pool_total(&state), 3);

    act(&mut state, GameAction::SelectModes { indices: vec![2] }).expect("SelectModes accepted");

    assert_eq!(
        p0_pool_total(&state),
        2,
        "Boomerang alone costs one {{1}}"
    );
    assert!(
        !matches!(state.waiting_for, WaitingFor::AbilityModeChoice { .. }),
        "no second modal after the single batched resolve"
    );
    assert_eq!(
        p0_hand_size(&state),
        hand_before,
        "Boomerang discards one then draws one (net 0)"
    );
    assert!(state.active_repeated_optional_payment_frame().is_none());
    assert!(matches!(state.waiting_for, WaitingFor::Priority { .. }));
}

#[test]
fn explosive_targeted_mode_resolves_once_through_apply() {
    let mut state = hawkeye_runtime(3, &[]);
    assert_eq!(p1_life(&state), 20);
    assert_eq!(p0_pool_total(&state), 3);

    act(&mut state, GameAction::SelectModes { indices: vec![1] }).expect("SelectModes accepted");

    assert_eq!(
        p0_pool_total(&state),
        2,
        "Explosive alone costs one {{1}}"
    );
    assert!(
        matches!(state.waiting_for, WaitingFor::TriggerTargetSelection { .. }),
        "Explosive needs a target player, got {:?}",
        state.waiting_for
    );

    act(
        &mut state,
        GameAction::ChooseTarget {
            target: Some(TargetRef::Player(P1)),
        },
    )
    .expect("ChooseTarget accepted");

    advance_until_stack_empty(&mut state);

    assert_eq!(
        p1_life(&state),
        18,
        "Explosive deals exactly 2 damage once"
    );
}

fn p0_hand_size(state: &GameState) -> usize {
    state
        .players
        .iter()
        .find(|p| p.id == P0)
        .map(|p| p.hand.len())
        .unwrap_or(0)
}

fn p1_life(state: &GameState) -> i32 {
    state
        .players
        .iter()
        .find(|p| p.id == P1)
        .map(|p| p.life)
        .unwrap_or(0)
}
