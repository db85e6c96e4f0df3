//! Timeouts, clock messages and updates of live sessions.
use phase_engine::game::zones::create_object;
use phase_engine::server::client_view::filter_state_for_player;
use phase_engine::server::clock::{clock_reading, now_ms};
use phase_engine::server::clock_loop::{
    is_last_update, timeout_bundle, update_messages, AfterTimeout, GuardedResult, Tick,
};
use phase_engine::server::derived_views::derive_views;
use phase_engine::server::protocol::ServerMessage;
use phase_engine::server::session::{GameSession, SessionManager};
use phase_engine::server::turn_clock::{clock_target_player, TurnClockState};
use phase_engine::types::actions::GameAction;
use phase_engine::types::card_type::CoreType;
use phase_engine::types::events::GameEvent;
use phase_engine::types::format::FormatConfig;
use phase_engine::types::game_state::GameState;
use phase_engine::types::identifiers::{CardId, ObjectId, PlayerId};
use phase_engine::types::log::{log_entries, LogEntry};
use phase_engine::types::mana_cost::ManaCost;
use phase_engine::types::phase::Phase;
use phase_engine::types::prompts::WaitingFor;
use phase_engine::types::zones::Zone;

fn session(timer_seconds: Option<u32>) -> GameSession {
    let state = GameState::new(FormatConfig::standard(), 2, 42);
    GameSession {
        game_code: "GAME".to_string(),
        state,
        player_tokens: vec!["tok0".into(), "tok1".into()],
        connected: vec![true, true],
        decks: vec![None, None],
        display_names: vec!["P0".into(), "P1".into()],
        timer_seconds,
        player_count: 2,
        ai_seats: Vec::new(),
        game_started: true,
        start_when_full: true,
        ranked: false,
        start_events: Vec::new(),
        pending_takeback: None,
        turn_clock: TurnClockState::default(),
    }
}

fn expired_clock(player: u8) -> TurnClockState {
    TurnClockState {
        active_player: Some(PlayerId(player)),
        deadline_ms: Some(1_000),
        remaining_ms: Some(500),
    }
}

fn manager(session: GameSession) -> SessionManager {
    let mut mgr = SessionManager::new();
    mgr.sessions.push(("OTHER".to_string(), self::session(None)));
    mgr.sessions.push(("GAME".to_string(), session));
    mgr
}

#[test]
fn only_a_sole_human_in_a_started_game_is_clocked() {
    let mut s = session(Some(60));
    assert_eq!(clock_target_player(&s), Some(PlayerId(0)));
    s.game_started = false;
    assert_eq!(clock_target_player(&s), None);
    let mut s = session(Some(60));
    s.pending_takeback = Some(PlayerId(1));
    assert_eq!(clock_target_player(&s), None);
    let mut s = session(Some(60));
    s.ai_seats.push(PlayerId(0));
    assert_eq!(clock_target_player(&s), None);
    let mut s = session(Some(60));
    s.state.waiting_for = WaitingFor::GameOver {
        winner: Some(PlayerId(0)),
    };
    assert_eq!(clock_target_player(&s), None);
    let mut s = session(Some(60));
    s.state.waiting_for = WaitingFor::MulliganDecision {
        pending: vec![PlayerId(0), PlayerId(1)],
    };
    assert_eq!(clock_target_player(&s), None);
    assert_eq!(clock_target_player(&session(Some(0))), None);
}

#[test]
fn the_same_seat_keeps_its_deadline() {
    let mut clock = TurnClockState::default();
    clock.sync_for_target(Some(PlayerId(0)), Some(30), 1_000);
    assert_eq!(clock.deadline_ms, Some(31_000));
    clock.sync_for_target(Some(PlayerId(0)), Some(30), 11_500);
    assert_eq!(clock.deadline_ms, Some(31_000));
    assert_eq!(clock.remaining_ms, Some(19_500));
    assert!(!clock.is_expired(30_999));
    assert!(clock.is_expired(31_000));
    clock.sync_for_target(Some(PlayerId(0)), Some(30), 40_000);
    assert_eq!(clock.remaining_ms, Some(0));
    assert!(clock.is_expired(40_000));
    assert_eq!(
        clock.sync_message(),
        Some(ServerMessage::TurnClockSync {
            active_player: PlayerId(0),
            remaining_ms: 0,
            running: false
        })
    );
}

#[test]
fn clocks_follow_their_session() {
    let mut s = session(Some(30));
    let mut clock = TurnClockState::default();
    clock.sync_from_session(&s, 5_000);
    assert_eq!(clock.active_player, Some(PlayerId(0)));
    assert_eq!(clock.deadline_ms, Some(35_000));
    assert_eq!(clock.remaining_ms, Some(30_000));
    s.state.waiting_for = WaitingFor::Priority {
        player: PlayerId(1),
    };
    clock.sync_from_session(&s, 6_000);
    assert_eq!(clock.active_player, Some(PlayerId(1)));
    assert_eq!(clock.deadline_ms, Some(36_000));
    s.pending_takeback = Some(PlayerId(0));
    clock.sync_from_session(&s, 7_000);
    assert_eq!(clock, TurnClockState::default());
}

#[test]
fn clocks_stop_without_a_seat_or_a_limit() {
    for (target, limit) in [(None, Some(30)), (Some(PlayerId(1)), None), (Some(PlayerId(1)), Some(0))] {
        let mut clock = expired_clock(0);
        clock.sync_for_target(target, limit, 5_000);
        assert_eq!(clock, TurnClockState::default());
        assert_eq!(clock.sync_message(), None);
        assert!(!clock.is_expired(u64::MAX));
    }
}

#[test]
fn large_limits_are_cut_off() {
    let mut clock = TurnClockState::default();
    clock.sync_for_target(Some(PlayerId(0)), Some(u32::MAX), u64::MAX - 5);
    assert_eq!(clock.remaining_ms, Some(u32::MAX));
    assert_eq!(clock.deadline_ms, Some(u64::MAX));
}

#[test]
fn the_system_clock_is_read() {
    let before = now_ms();
    assert!(before > 1_600_000_000_000);
    let mut s = session(Some(60));
    s.refresh_turn_clock();
    let deadline = s.turn_clock.deadline_ms.unwrap();
    assert!(deadline >= before + 60_000);
    assert!(deadline <= now_ms() + 60_000);
    assert!(!s.turn_clock_expired());
    s.turn_clock = expired_clock(0);
    assert!(s.turn_clock_expired());
    assert_eq!(s.turn_clock_sync_message(), s.turn_clock.sync_message());
}

#[test]
fn timeouts_of_unknown_games_are_errors() {
    let mut mgr = manager(session(Some(30)));
    assert_eq!(
        mgr.handle_turn_clock_timeout("NONE").err(),
        Some("Game not found: NONE".to_string())
    );
}

#[test]
fn running_clocks_do_not_time_out() {
    let mut s = session(Some(30));
    s.refresh_turn_clock();
    let mut mgr = manager(s);
    assert!(matches!(mgr.handle_turn_clock_timeout("GAME"), Ok(None)));
}

#[test]
fn empty_seats_cannot_be_passed_for() {
    let mut s = session(Some(30));
    s.turn_clock = expired_clock(0);
    s.player_tokens[0].clear();
    let mut mgr = manager(s);
    assert_eq!(
        mgr.handle_turn_clock_timeout("GAME").err(),
        Some("Timed-out seat has no player token".to_string())
    );
}

#[test]
fn other_prompts_wait_for_the_human() {
    let mut s = session(Some(30));
    s.turn_clock = expired_clock(0);
    s.state.waiting_for = WaitingFor::ScryChoice {
        player: PlayerId(0),
        cards: vec![],
    };
    let mut mgr = manager(s);
    assert!(matches!(
        mgr.handle_turn_clock_timeout_at("GAME", 2_000, 2_500),
        Ok(None)
    ));
    let after = &mgr.sessions[1].1;
    assert_eq!(after.turn_clock.deadline_ms, Some(1_000));
    assert_eq!(after.turn_clock.remaining_ms, Some(0));
    assert!(matches!(
        after.state.waiting_for,
        WaitingFor::ScryChoice { .. }
    ));
}

#[test]
fn a_timeout_passes_priority() {
    let mut s = session(Some(30));
    s.turn_clock = expired_clock(0);
    let mut mgr = manager(s);
    let result = mgr
        .handle_turn_clock_timeout("GAME")
        .expect("handled")
        .expect("passed");
    assert_eq!(result.views.len(), 2);
    assert_eq!(result.actors, vec![PlayerId(1)]);
    assert_eq!(
        mgr.sessions[1].1.state.waiting_for,
        WaitingFor::Priority {
            player: PlayerId(1)
        }
    );
    assert_eq!(
        mgr.sessions[0].1.state.waiting_for,
        session(None).state.waiting_for
    );
}

#[test]
fn a_timeout_passes_where_triggers_are_ordered_or_mana_is_paid() {
    for waiting_for in [
        WaitingFor::OrderTriggers {
            player: PlayerId(0),
            count: 0,
        },
        WaitingFor::ManaPayment {
            player: PlayerId(0),
        },
    ] {
        let mut s = session(Some(30));
        s.state.waiting_for = waiting_for;
        s.turn_clock = expired_clock(0);
        let mut mgr = manager(s);
        assert!(mgr
            .handle_turn_clock_timeout_at("GAME", 2_000, 2_000)
            .unwrap()
            .is_some());
        assert!(matches!(
            mgr.sessions[1].1.state.waiting_for,
            WaitingFor::Priority { .. }
        ));
    }
}

#[test]
fn time_is_up_exactly_when_none_is_left() {
    let mut clock = TurnClockState::default();
    for (seat, now) in [(0, 1_000), (0, 30_999), (0, 31_000), (1, 31_000), (1, 90_000)] {
        clock.sync_for_target(Some(PlayerId(seat)), Some(30), now);
        assert_eq!(clock.is_expired(now), clock.remaining_ms == Some(0));
    }
    assert!(clock.is_expired(90_000));
    clock.sync_for_target(None, Some(30), 90_000);
    assert!(!clock.is_expired(90_000));
}

#[test]
fn actions_need_a_token() {
    let mut s = session(None);
    assert_eq!(
        s.handle_action("nobody", GameAction::PassPriority).err(),
        Some("Invalid player token".to_string())
    );
    assert_eq!(
        s.handle_action("tok1", GameAction::PassPriority).err(),
        Some("Action rejected".to_string())
    );
    assert!(s.handle_action("tok0", GameAction::PassPriority).is_ok());
}

#[test]
fn clock_tasks_end_with_their_game_or_its_limit() {
    let mut mgr = manager(session(Some(30)));
    assert_eq!(mgr.turn_clock_tick("NONE", 1_000), Tick::Stop);
    assert_eq!(mgr.turn_clock_tick("OTHER", 1_000), Tick::Stop);
    assert_eq!(
        mgr.turn_clock_tick("GAME", 1_000),
        Tick::Sync {
            message: Some(ServerMessage::TurnClockSync {
                active_player: PlayerId(0),
                remaining_ms: 30_000,
                running: true
            }),
            expired: false,
            player_count: 2
        }
    );
    assert_eq!(
        mgr.turn_clock_tick("GAME", 31_000),
        Tick::Sync {
            message: Some(ServerMessage::TurnClockSync {
                active_player: PlayerId(0),
                remaining_ms: 0,
                running: false
            }),
            expired: true,
            player_count: 2
        }
    );
    assert!(!mgr.refresh_session_clock("NONE", 5));
    assert!(mgr.refresh_session_clock("GAME", 5));
}

#[test]
fn tasks_start_only_for_a_running_clock() {
    let mut mgr = manager(session(Some(30)));
    assert_eq!(mgr.reschedule_message("NONE", 1_000), None);
    assert_eq!(mgr.reschedule_message("OTHER", 1_000), None);
    assert!(mgr.reschedule_message("GAME", 1_000).is_some());
    assert_eq!(mgr.sessions[1].1.turn_clock.deadline_ms, Some(31_000));
}

fn told(message: &ServerMessage) -> (usize, bool, Vec<PlayerId>) {
    match message {
        ServerMessage::StateUpdate {
            legal_actions,
            auto_pass_recommended,
            eliminated_players,
            ..
        } => (
            legal_actions.len(),
            *auto_pass_recommended,
            eliminated_players.clone(),
        ),
        other => panic!("expected an update, got {other:?}"),
    }
}

#[test]
fn only_the_last_update_tells_the_actor_what_to_do() {
    for last in [false, true] {
        let mut s = session(None);
        let result = s.handle_action("tok0", GameAction::PassPriority).unwrap();
        let offered = result.legal_actions.len();
        let auto = result.auto_pass_recommended;
        let gone = vec![PlayerId(7)];
        let messages = update_messages(result, &gone, last);
        assert_eq!(messages.seats.len(), 2);
        assert_eq!(told(&messages.seats[0]), (0, false, gone.clone()));
        let expected = if last { (offered, auto, gone.clone()) } else { (0, false, gone.clone()) };
        assert_eq!(told(&messages.seats[1]), expected);
        assert_eq!(told(&messages.spectators), (0, false, gone.clone()));
        assert!(offered > 0);
    }
    assert!(is_last_update(0, 0));
    assert!(!is_last_update(0, 2));
    assert!(!is_last_update(1, 2));
    assert!(is_last_update(2, 2));
}

fn with_instant(seat: u8) -> (GameSession, ObjectId) {
    let mut s = session(None);
    let id = create_object(
        &mut s.state,
        CardId(40),
        PlayerId(seat),
        "Trick".to_string(),
        Zone::Hand,
    );
    let card = s.state.objects.get_mut(&id).unwrap();
    card.card_types.core_types.push(CoreType::Instant);
    (s, id)
}

#[test]
fn costs_and_actions_of_objects_go_to_the_actor_only() {
    for last in [false, true] {
        let (mut s, id) = with_instant(1);
        let mut result = s.handle_action("tok0", GameAction::PassPriority).unwrap();
        assert_eq!(result.spell_costs, vec![(id, ManaCost::zero())]);
        assert_eq!(result.legal_actions_by_object.len(), 1);
        assert_eq!(result.legal_actions_by_object[0].0, id);
        assert_eq!(
            result.legal_actions_by_object[0].1[0],
            result.legal_actions[1]
        );
        let line = LogEntry {
            turn: 3,
            phase: Phase::Upkeep,
            event: GameEvent::SpellCountered { object_id: id },
        };
        result.log_entries.push(line);
        let messages = update_messages(result, &vec![], last);
        let all = [&messages.seats[0], &messages.seats[1], &messages.spectators];
        for (at, message) in all.into_iter().enumerate() {
            let ServerMessage::StateUpdate {
                log_entries,
                spell_costs,
                legal_actions_by_object,
                derived,
                ..
            } = message
            else {
                panic!("expected an update");
            };
            assert_eq!(*log_entries, vec![line]);
            let open = usize::from(last && at == 1);
            assert_eq!(spell_costs.len(), open);
            assert_eq!(legal_actions_by_object.len(), open);
            assert_eq!(derived.has_turn, at == 0);
            assert_eq!(derived.has_priority, at == 1);
            let others = match at {
                0 => vec![PlayerId(1)],
                1 => vec![PlayerId(0)],
                _ => vec![PlayerId(0), PlayerId(1)],
            };
            assert_eq!(derived.opponents, others);
        }
    }
}

#[test]
fn players_who_are_out_are_no_opponents() {
    let mut s = session(None);
    s.state.players[1].is_eliminated = true;
    let view = filter_state_for_player(&s.state, Some(PlayerId(0)));
    let derived = derive_views(&view, Some(PlayerId(0)));
    assert!(derived.has_turn);
    assert_eq!(derived.opponents, Vec::<PlayerId>::new());
}

#[test]
fn events_are_logged_with_their_time() {
    let mut s = session(None);
    s.state.turn_number = 7;
    s.state.phase = Phase::End;
    let drawn = GameEvent::CardDrawn {
        player_id: PlayerId(1),
        object_id: ObjectId(5),
    };
    let countered = GameEvent::SpellCountered {
        object_id: ObjectId(6),
    };
    let lines = log_entries(&s.state, &vec![drawn, countered]);
    assert_eq!(
        lines,
        vec![
            LogEntry {
                turn: 7,
                phase: Phase::End,
                event: drawn
            },
            LogEntry {
                turn: 7,
                phase: Phase::End,
                event: countered
            }
        ]
    );
    assert!(log_entries(&s.state, &vec![]).is_empty());
}

#[test]
fn seats_without_a_slot_matter_only_after_a_timeout() {
    let mut s = session(Some(30));
    s.turn_clock = expired_clock(9);
    let mut mgr = manager(s);
    assert!(mgr
        .handle_turn_clock_timeout_at("GAME", 500, 500)
        .unwrap()
        .is_none());
    assert!(matches!(
        mgr.settle_timeout("GAME", 500, 500, 500),
        AfterTimeout::Wait
    ));
}

fn passed(sendable: bool) -> GuardedResult {
    let mut s = session(None);
    GuardedResult {
        result: s.handle_action("tok0", GameAction::PassPriority).unwrap(),
        sendable,
    }
}

#[test]
fn bundles_skip_what_may_not_be_sent() {
    let steps = timeout_bundle(
        passed(true),
        vec![passed(true), passed(false), passed(true)],
        true,
    );
    let positions: Vec<usize> = steps.iter().map(|s| s.position).collect();
    assert_eq!(positions, vec![0, 1, 3]);
    let spectators: Vec<bool> = steps.iter().map(|s| s.to_spectators).collect();
    assert_eq!(spectators, vec![true, false, false]);
    let open: Vec<bool> = steps
        .iter()
        .map(|s| told(&s.messages.seats[1]).0 > 0)
        .collect();
    assert_eq!(open, vec![false, false, true]);

    assert!(timeout_bundle(passed(false), vec![passed(true)], true).is_empty());
    let alone = timeout_bundle(passed(true), vec![], false);
    assert_eq!(alone.len(), 1);
    assert!(!alone[0].to_spectators);
    assert!(told(&alone[0].messages.seats[1]).0 > 0);
}

#[test]
fn timeouts_are_settled() {
    let mut s = session(Some(30));
    s.turn_clock = expired_clock(0);
    let mut mgr = manager(s);
    assert!(matches!(
        mgr.settle_timeout("GAME", 2_000, 2_000, 2_000),
        AfterTimeout::Passed(_)
    ));
    assert!(matches!(
        mgr.settle_timeout("GAME", 500, 500, 900),
        AfterTimeout::Wait
    ));
    assert_eq!(
        mgr.sessions[1].1.turn_clock.active_player,
        Some(PlayerId(1))
    );
    match mgr.settle_timeout("NONE", 0, 0, 0) {
        AfterTimeout::Failed(m) => assert_eq!(m, "Game not found: NONE"),
        other => panic!("expected a failure, got {other:?}"),
    }
}

#[test]
fn clocks_before_the_epoch_show_zero() {
    assert_eq!(clock_reading(None), 0);
    assert_eq!(clock_reading(Some(12_345)), 12_345);
    assert_eq!(clock_reading(Some(u128::from(u64::MAX) + 3)), 2);
}
