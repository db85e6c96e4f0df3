//! The turn clock of live sessions.
use phase_engine::game::deck_loading::PlayerDeckPayload;
use phase_engine::server::protocol::ServerMessage;
use phase_engine::server::session::GameSession;
use phase_engine::server::turn_clock::{clock_target_player, TurnClockState};
use phase_engine::types::format::FormatConfig;
use phase_engine::types::game_state::GameState;
use phase_engine::types::identifiers::PlayerId;
use phase_engine::types::prompts::WaitingFor;

fn sample_session(timer_seconds: Option<u32>) -> GameSession {
    let mut state = GameState::new(FormatConfig::standard(), 2, 42);
    state.waiting_for = WaitingFor::Priority {
        player: PlayerId(0),
    };
    state.priority_player = PlayerId(0);
    state.active_player = PlayerId(0);
    GameSession {
        game_code: "TEST01".to_string(),
        state,
        player_tokens: vec!["tok0".into(), "tok1".into()],
        connected: vec![true, true],
        decks: vec![
            Some(PlayerDeckPayload::default()),
            Some(PlayerDeckPayload::default()),
        ],
        display_names: vec!["P0".into(), "P1".into()],
        timer_seconds,
        player_count: 2,
        ai_seats: Vec::new(),
        game_started: true,
        start_when_full: true,
        ranked: false,
        start_events: Vec::new(),
        pending_takeback: None,
        turn_clock: TurnClockState::default(),
    }
}

#[test]
fn clock_targets_sole_human_submitter() {
    let session = sample_session(Some(60));
    assert_eq!(clock_target_player(&session), Some(PlayerId(0)));
}

#[test]
fn clock_disabled_when_timer_unset() {
    let session = sample_session(None);
    assert!(clock_target_player(&session).is_none());
}

#[test]
fn refresh_resets_budget_on_player_change() {
    let mut clock = TurnClockState::default();
    let now = 1_000_000u64;
    clock.sync_for_target(Some(PlayerId(0)), Some(30), now);
    assert_eq!(clock.active_player, Some(PlayerId(0)));
    assert_eq!(clock.remaining_ms, Some(30_000));

    clock.sync_for_target(Some(PlayerId(1)), Some(30), now + 5_000);
    assert_eq!(clock.active_player, Some(PlayerId(1)));
    assert_eq!(clock.remaining_ms, Some(30_000));
}

#[test]
fn sync_message_includes_running_flag() {
    let clock = TurnClockState {
        active_player: Some(PlayerId(0)),
        deadline_ms: Some(2_000),
        remaining_ms: Some(1_500),
    };
    match clock.sync_message() {
        Some(ServerMessage::TurnClockSync {
            active_player,
            remaining_ms,
            running,
        }) => {
            assert_eq!(active_player, PlayerId(0));
            assert_eq!(remaining_ms, 1_500);
            assert!(running);
        }
        other => panic!("expected TurnClockSync, got {other:?}"),
    }
}
