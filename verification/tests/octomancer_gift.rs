//! Casting a permanent with a gift: the promise, the recipient and the delivery.
use phase_engine::database::synthesis::synthesize_gift;
use phase_engine::game::engine::dispatch::apply;
use phase_engine::game::filter::{matches_target_filter, FilterContext};
use phase_engine::game::printed_cards::apply_card_face_to_object;
use phase_engine::game::zones::create_object;
use phase_engine::parser::oracle::parse_oracle_text;
use phase_engine::types::ability::Effect;
use phase_engine::types::action_payloads::CastPaymentMode;
use phase_engine::types::actions::GameAction;
use phase_engine::types::card::CardFace;
use phase_engine::types::card_type::CoreType;
use phase_engine::types::format::FormatConfig;
use phase_engine::types::game_state::GameState;
use phase_engine::types::identifiers::{CardId, ObjectId, PlayerId};
use phase_engine::types::keywords::{GiftKind, Keyword};
use phase_engine::types::mana::ManaColor;
use phase_engine::types::mana_cost::ManaCost;
use phase_engine::types::phase::Phase;
use phase_engine::types::prompts::WaitingFor;
use phase_engine::types::target_filter::{FilterProp, TargetFilter, TypedFilter};
use phase_engine::types::zones::Zone;

const P0: PlayerId = PlayerId(0);
const P1: PlayerId = PlayerId(1);
const P2: PlayerId = PlayerId(2);

const OCTOMANCER_ORACLE: &str = "Gift an Octopus (You may promise an opponent a gift as you cast this spell. If you do, when it enters, they create an 8/8 blue Octopus creature token.)\nAt the beginning of each end step, create a token that's a copy of target creature token that entered the battlefield this turn.";

fn octomancer_face() -> CardFace {
    let parsed = parse_oracle_text(OCTOMANCER_ORACLE, "Octomancer");
    let mut face = CardFace::default();
    face.name = "Octomancer".to_string();
    face.card_type.core_types.push(CoreType::Creature);
    face.power = Some(3);
    face.toughness = Some(3);
    face.mana_cost = ManaCost::zero();
    face.keywords = parsed.keywords;
    face.triggers = parsed.triggers;
    synthesize_gift(&mut face);
    face
}

fn game_with_octomancer(players: u8, seed: u64) -> (GameState, ObjectId) {
    let mut state = GameState::new(FormatConfig::standard(), players, seed);
    state.phase = Phase::PreCombatMain;
    let id = create_object(
        &mut state,
        CardId(1),
        P0,
        "Octomancer".to_string(),
        Zone::Hand,
    );
    apply_card_face_to_object(state.objects.get_mut(&id).unwrap(), &octomancer_face());
    (state, id)
}

fn act(state: &mut GameState, action: GameAction) {
    let player = state.waiting_for.acting_players()[0];
    apply(state, player, action).expect("accepted action");
}

fn drive_octomancer_cast(
    state: &mut GameState,
    spell: ObjectId,
    promise_gift: bool,
    gift_recipient: Option<PlayerId>,
) {
    let card_id = state.objects.get(&spell).unwrap().card_id;
    act(
        state,
        GameAction::CastSpell {
            object_id: spell,
            card_id,
            targets: vec![],
            payment_mode: CastPaymentMode::Auto,
        },
    );

    for _ in 0..64 {
        match &state.waiting_for {
            WaitingFor::ManaPayment { .. } => {
                act(state, GameAction::PassPriority);
            }
            WaitingFor::OptionalCostChoice { .. } => {
                act(state, GameAction::DecideOptionalCost { pay: promise_gift });
            }
            WaitingFor::GiftChooseOpponent { .. } => {
                let recipient =
                    gift_recipient.expect("three-player Gift promise must choose a recipient");
                act(
                    state,
                    GameAction::ChooseGiftRecipient {
                        opponent: recipient,
                    },
                );
            }
            WaitingFor::OrderTriggers { .. } | WaitingFor::Priority { .. }
                if !state.stack.is_empty() =>
            {
                act(state, GameAction::PassPriority);
            }
            WaitingFor::Priority { .. } if state.stack.is_empty() => return,
            other => panic!("unexpected Octomancer cast prompt: {other:?}"),
        }
    }

    panic!("Octomancer cast did not finish within 64 actions");
}

fn octopus_token_for_player(state: &GameState, owner: PlayerId) -> Option<ObjectId> {
    state.objects.by_number.iter().find_map(|(id, obj)| {
        (obj.owner == owner
            && obj.is_token
            && obj.card_id == CardId(0)
            && obj.zone == Zone::Battlefield
            && obj.card_types.core_types.contains(&CoreType::Creature)
            && obj.card_types.subtypes.iter().any(|s| s == "Octopus"))
        .then_some(ObjectId(*id))
    })
}

fn creature_token_filter() -> TargetFilter {
    TargetFilter::from(TypedFilter::creature().properties(vec![FilterProp::Token]))
}

fn install_doubling_season(state: &mut GameState, controller: PlayerId) -> ObjectId {
    let parsed = parse_oracle_text(
        "If one or more tokens would be created under your control, twice that \
         many tokens are created instead.",
        "Doubling Season",
    );
    assert!(
        !parsed.replacements.is_empty(),
        "Doubling Season token doubler must parse"
    );
    let id = create_object(
        state,
        CardId(960),
        controller,
        "Doubling Season".to_string(),
        Zone::Battlefield,
    );
    let obj = state.objects.get_mut(&id).unwrap();
    obj.card_types.core_types = vec![CoreType::Enchantment];
    obj.replacement_definitions = parsed.replacements;
    id
}

#[test]
fn octomancer_oracle_parses_gift_creature_token_and_etb_delivery_trigger() {
    let (state, octomancer) = game_with_octomancer(2, 42);
    let obj = state.objects.get(&octomancer).unwrap();
    assert!(
        obj.keywords.iter().any(
            |k| matches!(&**k, Keyword::Gift(GiftKind::Token(spec)) if spec.core_types.contains(&CoreType::Creature))
        ),
        "Octomancer must parse Gift an Octopus, got keywords: {:?}",
        obj.keywords
    );
    assert!(
        obj.additional_cost.is_some(),
        "the gift must come with its optional additional cost"
    );
    assert!(
        obj.base_trigger_definitions.iter().any(|t| {
            matches!(
                t.execute.as_deref(),
                Some(a) if matches!(&*a.effect, Effect::GiftDelivery { kind: GiftKind::Token(spec) } if spec.core_types.contains(&CoreType::Creature))
            )
        }),
        "a permanent with a gift must have the delivery trigger, got triggers: {:?}",
        obj.base_trigger_definitions
            .iter()
            .map(|t| (&t.mode, t.execute.as_ref().map(|a| &a.effect)))
            .collect::<Vec<_>>()
    );
}

#[test]
fn octomancer_promised_gift_delivers_octopus_token_on_etb() {
    let (mut state, octomancer) = game_with_octomancer(2, 42);
    drive_octomancer_cast(&mut state, octomancer, true, None);

    assert_eq!(
        state.objects.get(&octomancer).unwrap().zone,
        Zone::Battlefield,
        "Octomancer must enter the battlefield after resolving"
    );

    let token_id =
        octopus_token_for_player(&state, P1).expect("opponent must receive Octopus gift token");
    let token = state.objects.get(&token_id).unwrap();
    assert!(token.is_token, "Octomancer gift Octopus must be a token");
    assert_eq!(token.power, Some(8));
    assert_eq!(token.toughness, Some(8));
    assert!(
        token.color.contains(&ManaColor::Blue),
        "Octopus gift token must be blue, got {:?}",
        token.color
    );
}

#[test]
fn octomancer_promised_gift_delivers_octopus_to_chosen_opponent_in_three_player() {
    let (mut state, octomancer) = game_with_octomancer(3, 5975);
    drive_octomancer_cast(&mut state, octomancer, true, Some(P2));

    assert_eq!(
        state.objects.get(&octomancer).unwrap().zone,
        Zone::Battlefield,
        "Octomancer must enter the battlefield after resolving"
    );

    assert!(
        octopus_token_for_player(&state, P2).is_some(),
        "chosen opponent P2 must receive the Octopus gift token"
    );
    assert!(
        octopus_token_for_player(&state, P1).is_none(),
        "seat-next opponent P1 must not receive the gift when P2 was chosen"
    );
}

#[test]
fn octomancer_unpromised_gift_does_not_create_octopus_token() {
    let (mut state, octomancer) = game_with_octomancer(2, 42);
    drive_octomancer_cast(&mut state, octomancer, false, None);

    assert!(
        octopus_token_for_player(&state, P1).is_none(),
        "declining Gift an Octopus must not create the Octopus token"
    );
}

#[test]
fn octomancer_gift_octopus_matches_creature_token_filter() {
    let (mut state, octomancer) = game_with_octomancer(2, 42);
    drive_octomancer_cast(&mut state, octomancer, true, None);

    let token_id =
        octopus_token_for_player(&state, P1).expect("opponent must receive Octopus gift token");
    let filter = creature_token_filter();
    let ctx = FilterContext::neutral();
    assert!(
        matches_target_filter(&state, token_id, &filter, &ctx),
        "gifted Octopus must satisfy FilterProp::Token creature targeting"
    );
}

#[test]
fn octomancer_gift_octopus_doubles_under_recipient_doubling_season() {
    let (mut state, octomancer) = game_with_octomancer(2, 42);
    install_doubling_season(&mut state, P1);

    drive_octomancer_cast(&mut state, octomancer, true, None);

    let octopus_count = state
        .objects
        .by_number
        .values()
        .filter(|obj| {
            obj.owner == P1
                && obj.is_token
                && obj.zone == Zone::Battlefield
                && obj.card_types.subtypes.iter().any(|s| s == "Octopus")
        })
        .count();
    assert_eq!(
        octopus_count, 2,
        "gift recipient's Doubling Season must double the promised Octopus token"
    );
}
