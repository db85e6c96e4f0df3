//! Who bids in a life auction, in which order, and how it ends.
use phase_engine::game::effects::life_auction::{
    self, begin_after_opening_bid, finalize_auction, record_bid, record_pass,
    LifeAuctionRoundState,
};
use phase_engine::game::engine::dispatch::apply;
use phase_engine::game::engine::reply::EngineError;
use phase_engine::game::zones::create_object;
use phase_engine::types::ability::{
    Effect, EffectError, EffectKind, LifeAuctionParticipants, LifeAuctionStartingBid,
    ResolvedAbility,
};
use phase_engine::types::action_payloads::TargetRef;
use phase_engine::types::actions::GameAction;
use phase_engine::types::events::GameEvent;
use phase_engine::types::format::FormatConfig;
use phase_engine::types::game_state::{GameState, TurnDirection};
use phase_engine::types::identifiers::{CardId, ObjectId, PlayerId};
use phase_engine::types::prompts::{PayableResource, WaitingFor};
use phase_engine::types::target_filter::ControllerRef;
use phase_engine::types::zones::Zone;

fn auction(
    participants: LifeAuctionParticipants,
    starting_bid: LifeAuctionStartingBid,
    targets: Vec<TargetRef>,
) -> ResolvedAbility {
    ResolvedAbility::new(
        Effect::LifeAuction {
            participants,
            starting_bid,
            starting_with: ControllerRef::You,
        },
        targets,
        ObjectId(50),
        PlayerId(0),
    )
}

fn bidding_order(state: &GameState) -> Vec<u8> {
    match &state.waiting_for {
        WaitingFor::LifeAuctionBid { participants, .. } => {
            participants.iter().map(|p| p.0).collect()
        }
        other => panic!("expected bidding, got {other:?}"),
    }
}

fn decider(state: &GameState) -> u8 {
    state.waiting_for.acting_players()[0].0
}

#[test]
fn everybody_alive_bids_in_turn_order() {
    let all = || {
        auction(
            LifeAuctionParticipants::AllPlayers,
            LifeAuctionStartingBid::Fixed(2),
            vec![],
        )
    };
    let mut state = GameState::new(FormatConfig::standard(), 4, 0);
    life_auction::resolve(&mut state, &all(), &mut Vec::new()).unwrap();
    assert_eq!(bidding_order(&state), vec![0, 1, 2, 3]);
    assert_eq!(decider(&state), 1);

    let mut state = GameState::new(FormatConfig::standard(), 4, 0);
    state.turn_direction = TurnDirection::Counterclockwise;
    life_auction::resolve(&mut state, &all(), &mut Vec::new()).unwrap();
    assert_eq!(bidding_order(&state), vec![0, 3, 2, 1]);

    let mut state = GameState::new(FormatConfig::standard(), 4, 0);
    state.players[2].is_eliminated = true;
    state.eliminated_players.push(PlayerId(2));
    life_auction::resolve(&mut state, &all(), &mut Vec::new()).unwrap();
    assert_eq!(bidding_order(&state), vec![0, 1, 3]);
}

#[test]
fn a_contest_is_between_the_controllers_of_two_spells() {
    let mut state = GameState::new(FormatConfig::standard(), 3, 0);
    let spell = create_object(
        &mut state,
        CardId(8),
        PlayerId(2),
        "Bolt".to_string(),
        Zone::Battlefield,
    );
    let contest = auction(
        LifeAuctionParticipants::ControllerAndTargetController,
        LifeAuctionStartingBid::Fixed(1),
        vec![TargetRef::Object(spell)],
    );
    life_auction::resolve(&mut state, &contest, &mut Vec::new()).unwrap();
    assert_eq!(bidding_order(&state), vec![0, 2]);
    assert_eq!(decider(&state), 2);
}

#[test]
fn a_contest_without_a_target_is_an_error() {
    let mut state = GameState::new_two_player(0);
    let contest = auction(
        LifeAuctionParticipants::ControllerAndTargetController,
        LifeAuctionStartingBid::Fixed(1),
        vec![],
    );
    let mut events = Vec::new();
    assert_eq!(
        life_auction::resolve(&mut state, &contest, &mut events),
        Err(EffectError::InvalidParam(
            "LifeAuction ControllerAndTargetController requires spell target".to_string()
        ))
    );
    assert!(events.is_empty());
    let other = ResolvedAbility::new(Effect::Planeswalk, vec![], ObjectId(1), PlayerId(0));
    assert_eq!(
        life_auction::resolve(&mut state, &other, &mut events),
        Err(EffectError::InvalidParam(
            "life_auction::resolve called with non-LifeAuction effect".to_string()
        ))
    );
}

#[test]
fn without_participants_the_auction_is_over() {
    let mut state = GameState::new_two_player(0);
    state.seat_order.clear();
    let mut events = Vec::new();
    let all = auction(
        LifeAuctionParticipants::AllPlayers,
        LifeAuctionStartingBid::Fixed(1),
        vec![],
    );
    life_auction::resolve(&mut state, &all, &mut events).unwrap();
    assert_eq!(
        events,
        vec![GameEvent::EffectResolved {
            kind: EffectKind::LifeAuction,
            source_id: ObjectId(50),
            subject: None
        }]
    );
    assert!(matches!(state.waiting_for, WaitingFor::Priority { .. }));
}

#[test]
fn the_controller_may_choose_the_opening_bid() {
    let mut state = GameState::new_two_player(0);
    state.players[0].life = 12;
    let pains = auction(
        LifeAuctionParticipants::AllPlayers,
        LifeAuctionStartingBid::ControllerChooses,
        vec![],
    );
    life_auction::resolve(&mut state, &pains, &mut Vec::new()).unwrap();
    assert_eq!(
        state.waiting_for,
        WaitingFor::PayAmountChoice {
            player: PlayerId(0),
            resource: PayableResource::Life,
            min: 0,
            max: 12,
            accumulated: 0,
            source_id: ObjectId(50),
            pending_mana_ability: None,
        }
    );
    assert_eq!(
        apply(
            &mut state,
            PlayerId(0),
            GameAction::SubmitPayAmount { amount: 13 }
        ),
        Err(EngineError::IllegalChoice)
    );
    apply(
        &mut state,
        PlayerId(0),
        GameAction::SubmitPayAmount { amount: 7 },
    )
    .unwrap();
    match &state.waiting_for {
        WaitingFor::LifeAuctionBid {
            player,
            high_bid,
            high_bidder,
            ..
        } => {
            assert_eq!((*player, *high_bid, *high_bidder), (PlayerId(1), 7, PlayerId(0)));
        }
        other => panic!("expected bidding, got {other:?}"),
    }
    assert_eq!(state.players[0].life, 12);
}

#[test]
fn a_negative_announcement_opens_at_zero() {
    let mut state = GameState::new_two_player(0);
    state.pending_life_auction_participants = Some(vec![PlayerId(0), PlayerId(1)]);
    state.last_effect_count = Some(-3);
    begin_after_opening_bid(&mut state, PlayerId(0), ObjectId(9));
    match &state.waiting_for {
        WaitingFor::LifeAuctionBid { high_bid, .. } => assert_eq!(*high_bid, 0),
        other => panic!("expected bidding, got {other:?}"),
    }
    assert_eq!(state.pending_life_auction_participants, None);
    let before = format!("{:?}", state.waiting_for);
    begin_after_opening_bid(&mut state, PlayerId(1), ObjectId(8));
    assert_eq!(format!("{:?}", state.waiting_for), before);
}

#[test]
fn bids_have_to_top_the_high_bid() {
    let mut state = GameState::new(FormatConfig::standard(), 3, 0);
    let all = auction(
        LifeAuctionParticipants::AllPlayers,
        LifeAuctionStartingBid::Fixed(3),
        vec![],
    );
    life_auction::resolve(&mut state, &all, &mut Vec::new()).unwrap();
    assert_eq!(
        apply(
            &mut state,
            PlayerId(1),
            GameAction::SubmitLifeAuctionBid { amount: 3 }
        ),
        Err(EngineError::IllegalChoice)
    );
    assert_eq!(
        apply(
            &mut state,
            PlayerId(2),
            GameAction::SubmitLifeAuctionBid { amount: 4 }
        ),
        Err(EngineError::WrongPlayer)
    );
    assert_eq!(
        apply(&mut state, PlayerId(1), GameAction::PassPriority),
        Err(EngineError::WrongPrompt)
    );
    assert_eq!(decider(&state), 1);
}

#[test]
fn the_bid_stands_when_all_others_pass_in_succession() {
    let mut state = GameState::new(FormatConfig::standard(), 3, 0);
    let all = auction(
        LifeAuctionParticipants::AllPlayers,
        LifeAuctionStartingBid::Fixed(0),
        vec![],
    );
    life_auction::resolve(&mut state, &all, &mut Vec::new()).unwrap();
    apply(&mut state, PlayerId(1), GameAction::PassLifeAuction).unwrap();
    apply(
        &mut state,
        PlayerId(2),
        GameAction::SubmitLifeAuctionBid { amount: 5 },
    )
    .unwrap();
    apply(&mut state, PlayerId(0), GameAction::PassLifeAuction).unwrap();
    assert_eq!(state.last_life_auction, None);
    apply(&mut state, PlayerId(1), GameAction::PassLifeAuction).unwrap();
    assert_eq!(state.last_life_auction, Some((PlayerId(2), 5)));
    assert_eq!(
        state.waiting_for,
        WaitingFor::Priority {
            player: PlayerId(0)
        }
    );
}

fn round(participants: Vec<u8>, index: usize, passes: u32) -> LifeAuctionRoundState {
    LifeAuctionRoundState {
        participants: participants.into_iter().map(PlayerId).collect(),
        round_index: index,
        high_bid: 4,
        high_bidder: PlayerId(0),
        passes_since_raise: passes,
        controller: PlayerId(0),
        source_id: ObjectId(7),
    }
}

#[test]
fn rounds_go_around_the_table() {
    let mut state = GameState::new(FormatConfig::standard(), 3, 0);
    record_pass(&mut state, round(vec![0, 1, 2], 2, 0), &mut Vec::new()).unwrap();
    assert_eq!(decider(&state), 0);
    record_bid(
        &mut state,
        round(vec![0, 1, 2], 1, 1),
        PlayerId(1),
        6,
        &mut Vec::new(),
    )
    .unwrap();
    match &state.waiting_for {
        WaitingFor::LifeAuctionBid {
            player,
            high_bid,
            high_bidder,
            passes_since_raise,
            ..
        } => {
            assert_eq!(*player, PlayerId(2));
            assert_eq!((*high_bid, *high_bidder), (6, PlayerId(1)));
            assert_eq!(*passes_since_raise, 0);
        }
        other => panic!("expected bidding, got {other:?}"),
    }
    let before = format!("{:?}", state.waiting_for);
    record_pass(&mut state, round(vec![], 0, 0), &mut Vec::new()).unwrap();
    assert_eq!(format!("{:?}", state.waiting_for), before);
}

#[test]
fn a_finished_auction_is_published_and_reported() {
    let mut state = GameState::new_two_player(0);
    let mut events = Vec::new();
    finalize_auction(
        &mut state,
        PlayerId(1),
        9,
        PlayerId(0),
        ObjectId(3),
        &mut events,
    )
    .unwrap();
    assert_eq!(state.last_life_auction, Some((PlayerId(1), 9)));
    assert_eq!(
        events,
        vec![GameEvent::EffectResolved {
            kind: EffectKind::LifeAuction,
            source_id: ObjectId(3),
            subject: None
        }]
    );
}
