//! Casting, payments, priority and what is refused.
use std::sync::Arc;

use phase_engine::game::engine::dispatch::apply;
use phase_engine::game::engine::reply::EngineError;
use phase_engine::game::legal_actions::legal_actions;
use phase_engine::game::mana_payment::{affordable_times, can_pay, pay};
use phase_engine::game::quantity::resolve_quantity;
use phase_engine::game::vanguard::{apply_vanguard_starting_life_modifiers, opening_hand_size};
use phase_engine::game::zones::create_object;
use phase_engine::types::ability::{AbilityDefinition, AbilityKind, Effect};
use phase_engine::types::action_payloads::CastPaymentMode;
use phase_engine::types::actions::GameAction;
use phase_engine::types::card_type::CoreType;
use phase_engine::types::game_state::GameState;
use phase_engine::types::identifiers::{CardId, ObjectId, PlayerId};
use phase_engine::types::mana::ManaType;
use phase_engine::types::mana_cost::{ManaCost, ManaUnit};
use phase_engine::types::phase::Phase;
use phase_engine::types::prompts::WaitingFor;
use phase_engine::types::quantity::{QuantityExpr, QuantityRef};
use phase_engine::types::target_filter::TargetFilter;
use phase_engine::types::triggers::{TriggerDefinition, TriggerMode};
use phase_engine::types::zones::Zone;

fn card_in_hand(state: &mut GameState, owner: u8, kind: CoreType, cost: ManaCost) -> ObjectId {
    let id = create_object(
        state,
        CardId(3),
        PlayerId(owner),
        "Card".to_string(),
        Zone::Hand,
    );
    let obj = state.objects.get_mut(&id).unwrap();
    obj.card_types.core_types.push(kind);
    obj.mana_cost = cost;
    id
}

fn cast(id: ObjectId, card: u64) -> GameAction {
    GameAction::CastSpell {
        object_id: id,
        card_id: CardId(card),
        targets: vec![],
        payment_mode: CastPaymentMode::Auto,
    }
}

fn mana(kinds: &[ManaType]) -> Vec<ManaUnit> {
    kinds
        .iter()
        .map(|k| ManaUnit::new(*k, ObjectId(1), false))
        .collect()
}

#[test]
fn spells_are_cast_in_a_main_phase_with_an_empty_stack() {
    let mut state = GameState::new_two_player(0);
    state.phase = Phase::PreCombatMain;
    let id = card_in_hand(&mut state, 0, CoreType::Creature, ManaCost::zero());
    assert_eq!(
        apply(&mut state, PlayerId(0), cast(id, 4)),
        Err(EngineError::IllegalChoice)
    );
    state.phase = Phase::Upkeep;
    assert_eq!(
        apply(&mut state, PlayerId(0), cast(id, 3)),
        Err(EngineError::IllegalChoice)
    );
    state.phase = Phase::PostCombatMain;
    apply(&mut state, PlayerId(0), cast(id, 3)).unwrap();
    assert_eq!(state.stack.len(), 1);
    assert_eq!(state.objects.get(&id).unwrap().zone, Zone::Stack);
    let other = card_in_hand(&mut state, 0, CoreType::Creature, ManaCost::zero());
    assert_eq!(
        apply(&mut state, PlayerId(0), cast(other, 3)),
        Err(EngineError::IllegalChoice)
    );
    let instant = card_in_hand(&mut state, 0, CoreType::Instant, ManaCost::zero());
    apply(&mut state, PlayerId(0), cast(instant, 3)).unwrap();
    assert_eq!(state.stack.len(), 2);
}

#[test]
fn spells_have_to_be_paid_for() {
    let mut state = GameState::new_two_player(0);
    state.phase = Phase::PreCombatMain;
    let cost = ManaCost {
        green: 1,
        generic: 1,
        ..ManaCost::zero()
    };
    let id = card_in_hand(&mut state, 0, CoreType::Creature, cost);
    state.players[0].mana_pool.mana = mana(&[ManaType::Red, ManaType::Red]);
    assert_eq!(
        apply(&mut state, PlayerId(0), cast(id, 3)),
        Err(EngineError::Unaffordable)
    );
    assert_eq!(state.players[0].mana_pool.total(), 2);
    state.players[0].mana_pool.mana = mana(&[ManaType::Red, ManaType::Blue, ManaType::Green]);
    apply(&mut state, PlayerId(0), cast(id, 3)).unwrap();
    assert_eq!(
        state.players[0].mana_pool.mana,
        mana(&[ManaType::Blue])
    );
}

#[test]
fn only_the_player_in_turn_may_act() {
    let mut state = GameState::new_two_player(0);
    assert_eq!(
        apply(&mut state, PlayerId(1), GameAction::PassPriority),
        Err(EngineError::WrongPlayer)
    );
    assert_eq!(
        apply(
            &mut state,
            PlayerId(0),
            GameAction::DecideOptionalCost { pay: true }
        ),
        Err(EngineError::WrongPrompt)
    );
    assert_eq!(
        apply(
            &mut state,
            PlayerId(0),
            GameAction::ChooseX { value: 1 }
        ),
        Err(EngineError::WrongPrompt)
    );
}

#[test]
fn offered_actions_are_accepted() {
    let mut state = GameState::new_two_player(0);
    state.phase = Phase::PreCombatMain;
    for _ in 0..6 {
        let actions = legal_actions(&state);
        assert!(!actions.is_empty());
        let player = state.waiting_for.acting_players()[0];
        apply(&mut state, player, actions[0].clone()).expect("offered action");
    }
    state.waiting_for = WaitingFor::GameOver { winner: None };
    assert!(legal_actions(&state).is_empty());
}

#[test]
fn payments_spend_exactly_the_cost() {
    let pool = mana(&[
        ManaType::Green,
        ManaType::Red,
        ManaType::Green,
        ManaType::Colorless,
        ManaType::Red,
    ]);
    let cost = ManaCost {
        green: 1,
        generic: 1,
        ..ManaCost::zero()
    };
    assert!(can_pay(&pool, &cost, 2));
    assert!(!can_pay(&pool, &cost, 3));
    assert_eq!(affordable_times(&pool, &cost, 9), 2);
    assert_eq!(affordable_times(&pool, &cost, 1), 1);
    assert_eq!(pay(&pool, &cost, 2), mana(&[ManaType::Red]));
    assert_eq!(pay(&pool, &cost, 0), pool);
}

#[test]
fn quantities_are_read_from_the_game() {
    let mut state = GameState::new_two_player(0);
    card_in_hand(&mut state, 0, CoreType::Land, ManaCost::zero());
    card_in_hand(&mut state, 0, CoreType::Land, ManaCost::zero());
    let hand = QuantityExpr::Ref {
        qty: QuantityRef::HandSize,
    };
    let bid = QuantityExpr::Ref {
        qty: QuantityRef::WinningBidAmount,
    };
    assert_eq!(resolve_quantity(&state, PlayerId(0), hand), 2);
    assert_eq!(resolve_quantity(&state, PlayerId(1), hand), 0);
    state.last_life_auction = Some((PlayerId(1), 6));
    assert_eq!(resolve_quantity(&state, PlayerId(0), bid), 6);
    assert_eq!(
        resolve_quantity(&state, PlayerId(0), QuantityExpr::Fixed { value: -2 }),
        -2
    );
}

#[test]
fn other_formats_know_no_vanguard_cards() {
    let mut state = GameState::new_two_player(0);
    assert_eq!(opening_hand_size(&state, PlayerId(0)), 7);
    apply_vanguard_starting_life_modifiers(&mut state);
    assert_eq!(state.players[0].life, 20);
}

fn cast_by_hand(id: ObjectId) -> GameAction {
    GameAction::CastSpell {
        object_id: id,
        card_id: CardId(3),
        targets: vec![],
        payment_mode: CastPaymentMode::Manual,
    }
}

#[test]
fn payments_by_hand_end_with_a_pass() {
    let mut state = GameState::new_two_player(0);
    state.phase = Phase::PreCombatMain;
    let id = card_in_hand(&mut state, 0, CoreType::Creature, ManaCost::generic(1));
    apply(&mut state, PlayerId(0), cast_by_hand(id)).unwrap();
    assert_eq!(
        state.waiting_for,
        WaitingFor::ManaPayment {
            player: PlayerId(0)
        }
    );
    assert!(state.stack.is_empty());
    assert_eq!(legal_actions(&state), vec![GameAction::CancelCast]);
    assert_eq!(
        apply(&mut state, PlayerId(0), GameAction::PassPriority),
        Err(EngineError::Unaffordable)
    );
    state.players[0].mana_pool.mana = mana(&[ManaType::Green]);
    assert_eq!(
        legal_actions(&state),
        vec![GameAction::PassPriority, GameAction::CancelCast]
    );
    apply(&mut state, PlayerId(0), GameAction::PassPriority).expect("pay mana");
    assert_eq!(state.stack.len(), 1);
    assert_eq!(state.players[0].mana_pool.total(), 0);
    assert_eq!(state.pending_cast, None);
    assert_eq!(
        state.waiting_for,
        WaitingFor::Priority {
            player: PlayerId(0)
        }
    );
}

#[test]
fn payments_by_hand_can_be_called_off() {
    let mut state = GameState::new_two_player(0);
    state.phase = Phase::PreCombatMain;
    let id = card_in_hand(&mut state, 0, CoreType::Creature, ManaCost::generic(1));
    assert_eq!(
        apply(&mut state, PlayerId(0), GameAction::CancelCast),
        Err(EngineError::WrongPrompt)
    );
    apply(&mut state, PlayerId(0), cast_by_hand(id)).unwrap();
    apply(&mut state, PlayerId(0), GameAction::CancelCast).expect("cancel during payment");
    assert_eq!(state.objects.get(&id).unwrap().zone, Zone::Hand);
    assert!(state.stack.is_empty());
    assert_eq!(state.pending_cast, None);
    assert_eq!(
        state.waiting_for,
        WaitingFor::Priority {
            player: PlayerId(0)
        }
    );
}

#[test]
fn passing_is_accepted_without_anything_to_pay() {
    let mut state = GameState::new_two_player(0);
    state.waiting_for = WaitingFor::ManaPayment {
        player: PlayerId(1),
    };
    assert_eq!(legal_actions(&state), vec![GameAction::PassPriority]);
    apply(&mut state, PlayerId(1), GameAction::PassPriority).unwrap();
    assert_eq!(
        state.waiting_for,
        WaitingFor::Priority {
            player: PlayerId(1)
        }
    );
}

/// A permanent spell whose abilities let its controller gain 1, 2 and 4 life when it enters.
fn with_three_triggers() -> GameState {
    let mut state = GameState::new_two_player(0);
    state.phase = Phase::PreCombatMain;
    let id = card_in_hand(&mut state, 0, CoreType::Creature, ManaCost::zero());
    for value in [1, 2, 4] {
        let gain = AbilityDefinition::new(
            AbilityKind::Spell,
            Effect::GainLife {
                amount: QuantityExpr::Fixed { value },
                target: TargetFilter::Controller,
            },
        );
        let trigger = TriggerDefinition {
            mode: TriggerMode::Enters,
            execute: Some(Box::new(gain)),
        };
        let obj = state.objects.get_mut(&id).unwrap();
        obj.base_trigger_definitions.push(Arc::new(trigger));
    }
    apply(&mut state, PlayerId(0), cast(id, 3)).unwrap();
    apply(&mut state, PlayerId(0), GameAction::PassPriority).unwrap();
    apply(&mut state, PlayerId(1), GameAction::PassPriority).unwrap();
    assert_eq!(
        state.waiting_for,
        WaitingFor::OrderTriggers {
            player: PlayerId(0),
            count: 3
        }
    );
    assert_eq!(state.stack.len(), 3);
    state
}

/// The life of the controller after each of the abilities on the stack.
fn lives(mut state: GameState) -> Vec<i32> {
    let mut lives = Vec::new();
    while !state.stack.is_empty() {
        for player in [0, 1] {
            apply(&mut state, PlayerId(player), GameAction::PassPriority).unwrap();
        }
        lives.push(state.players[0].life);
    }
    lives
}

#[test]
fn passing_leaves_triggers_in_their_order() {
    let mut state = with_three_triggers();
    let offered = legal_actions(&state);
    assert_eq!(
        offered,
        vec![
            GameAction::PassPriority,
            GameAction::OrderTriggers {
                order: vec![0, 1, 2]
            }
        ]
    );
    apply(&mut state, PlayerId(0), GameAction::PassPriority).unwrap();
    assert_eq!(lives(state), vec![24, 26, 27]);
}

#[test]
fn triggers_are_put_in_the_chosen_order() {
    let mut state = with_three_triggers();
    for wrong in [vec![], vec![0, 1], vec![0, 1, 3], vec![0, 1, 1], vec![0, 1, 2, 0]] {
        assert_eq!(
            apply(
                &mut state,
                PlayerId(0),
                GameAction::OrderTriggers { order: wrong }
            ),
            Err(EngineError::IllegalChoice)
        );
    }
    apply(
        &mut state,
        PlayerId(0),
        GameAction::OrderTriggers {
            order: vec![1, 2, 0],
        },
    )
    .unwrap();
    assert_eq!(lives(state), vec![21, 25, 27]);

    let mut state = with_three_triggers();
    apply(
        &mut state,
        PlayerId(0),
        GameAction::OrderTriggers {
            order: vec![0, 1, 2],
        },
    )
    .unwrap();
    assert_eq!(lives(state), vec![24, 26, 27]);
}
