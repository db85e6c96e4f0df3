//! Delivering promised gifts (CR 702.174).
use vstd::prelude::*;

use crate::game::effects::draw;
use crate::game::effects::token;
use crate::game::outcome;
use crate::game::outcome::Outcome;
use crate::game::players;
use crate::game::replacement;
use crate::game::replacement::{ReplacementModel, ReplacementResult};
use crate::shared;
use crate::types::ability::{AbilityModel, Effect, EffectError, EffectKind, ResolvedAbility};
use crate::types::events::GameEvent;
use crate::types::game_state::{GameModel, GameState};
use crate::types::identifiers::PlayerId;
use crate::types::keywords::{GiftKind, GiftTokenSpec};
use crate::types::proposed_event::{ProposedEvent, ProposedModel, TokenModel, TokenSpec};
use crate::types::replacements::{AppliedReplacements, ReplacementId};
use crate::types::tokens::TokenCharacteristics;
use crate::types::zones::EtbTapState;

verus! {

/// The opponent who was promised the gift; without a stored choice, the next player in turn order
/// (CR 702.174a).
pub open spec fn gift_recipient(s: GameModel, a: AbilityModel) -> PlayerId {
    match a.context.gift_recipient {
        Some(p) => p,
        None => players::following(s, a.controller),
    }
}

/// The token that a gift stands for (CR 111.1).
pub open spec fn gift_token(gift: GiftTokenSpec, a: AbilityModel) -> TokenModel {
    TokenModel {
        display_name: gift.display_name@,
        power: gift.power,
        toughness: gift.toughness,
        core_types: gift.core_types@,
        subtypes: gift.subtypes@,
        supertypes: Seq::empty(),
        colors: gift.colors@,
        keywords: Seq::empty(),
        script_name: gift.script_name@,
        static_abilities: Seq::empty(),
        enter_with_counters: Seq::empty(),
        tapped: gift.enter_tapped.resolved(false),
        enters_attacking: false,
        sacrifice_at: None,
        source_id: a.source_id,
        controller: a.controller,
        attach_to: None,
    }
}

/// The replacement effects that token creation already went through.
pub open spec fn applied_before(s: GameModel) -> Seq<ReplacementId> {
    match s.post_replacement_token_choice_applied {
        Some(ids) => ids,
        None => Seq::empty(),
    }
}

/// One gift token would be created.
pub open spec fn proposed_gift(
    s: GameModel,
    a: AbilityModel,
    gift: GiftTokenSpec,
    owner: PlayerId,
) -> ProposedModel {
    ProposedModel::CreateToken {
        owner,
        spec: gift_token(gift, a),
        enter_tapped: gift.enter_tapped,
        count: 1,
        applied: applied_before(s),
    }
}

/// The gift token is created for its owner; the flag tells whether nothing is left to choose.
pub open spec fn token_delivered(
    o: Outcome,
    a: AbilityModel,
    gift: GiftTokenSpec,
    owner: PlayerId,
) -> (
    Outcome,
    bool,
) {
    let e = proposed_gift(o.state, a, gift, owner);
    match replacement::replaced(o.state, e) {
        ReplacementModel::Execute(ProposedModel::CreateToken { owner, spec, enter_tapped, count, .. }) =>
            (token::tokens_entered(o, owner, spec, enter_tapped, count as nat), true),
        ReplacementModel::Execute(_) => (o, true),
        ReplacementModel::Prevented => (o, true),
        ReplacementModel::NeedsChoice(player) => (
            Outcome {
                state: replacement::awaiting_choice(replacement::held(o.state, e), player),
                ..o
            },
            false,
        ),
    }
}

pub open spec fn gift_report(a: AbilityModel) -> GameEvent {
    GameEvent::EffectResolved {
        kind: EffectKind::GiftDelivery,
        source_id: a.source_id,
        subject: None,
    }
}

/// The ability delivers a promised token.
pub open spec fn delivers_token(a: AbilityModel) -> bool {
    a.context.additional_cost_paid && (a.effect matches Effect::GiftDelivery { kind }
        && kind is Token)
}

/// Whether an ability delivers a promised token.
pub fn is_token_delivery(ability: &ResolvedAbility) -> (r: bool)
    ensures
        r == delivers_token(ability@),
{
    match &*ability.effect {
        Effect::GiftDelivery { kind: GiftKind::Token(_) } => ability.context.additional_cost_paid,
        _ => false,
    }
}

/// What delivering a gift does; `None` for an ability that delivers none.
///
/// Nothing happens unless the gift was promised. A card gift is one draw, which goes through the
/// replacement effects for draws; it is reported even while the draw waits for a choice among them.
/// A token gift goes through the replacement effects for created tokens.
pub open spec fn delivered(o: Outcome, a: AbilityModel) -> Option<Outcome> {
    match a.effect {
        Effect::GiftDelivery { kind } => if !a.context.additional_cost_paid {
            Some(o)
        } else {
            let player = gift_recipient(o.state, a);
            match kind {
                GiftKind::Card => Some(draw::draw_sequence(o, player, 1).report(gift_report(a))),
                GiftKind::Token(gift) => {
                    let (after, complete) = token_delivered(o, a, gift, player);
                    if complete {
                        Some(after.report(gift_report(a)))
                    } else {
                        Some(after)
                    }
                },
            }
        },
        _ => None,
    }
}

/// Delivers a gift to the opponent who was chosen when it was promised.
pub fn resolve(state: &mut GameState, ability: &ResolvedAbility, events: &mut Vec<GameEvent>) -> (r:
    Result<(), EffectError>)
    requires
        delivers_token(ability@) ==> old(state).next_object_id <= u64::MAX - 2,
    ensures
        match delivered(outcome::at(old(state)@, old(events)@), ability@) {
            Some(o) => r is Ok && outcome::at(final(state)@, final(events)@) == o,
            None => {
                &&& r matches Err(e) && e.message() == "expected GiftDelivery effect"@
                &&& *final(state) == *old(state)
                &&& *final(events) == *old(events)
            },
        },
{
    let kind = match &*ability.effect {
        Effect::GiftDelivery { kind } => kind,
        _ => {
            return Err(EffectError::InvalidParam(String::from_str("expected GiftDelivery effect")));
        },
    };
    if !ability.context.additional_cost_paid {
        return Ok(());
    }
    let opponent = match ability.context.gift_recipient {
        Some(p) => p,
        None => players::next_player(state, ability.controller),
    };
    match kind {
        GiftKind::Card => {
            deliver_card_draw(state, events, opponent);
        },
        GiftKind::Token(spec) => {
            if !deliver_gift_token(state, events, opponent, ability, spec) {
                return Ok(());
            }
        },
    }
    events.push(
        GameEvent::EffectResolved {
            kind: EffectKind::GiftDelivery,
            source_id: ability.source_id,
            subject: None,
        },
    );
    Ok(())
}

/// "Gift a card": the opponent draws a card (CR 702.174e), within the limits and replacement effects
/// that apply to them.
fn deliver_card_draw(state: &mut GameState, events: &mut Vec<GameEvent>, opponent: PlayerId)
    ensures
        outcome::at(final(state)@, final(events)@) == draw::draw_sequence(
            outcome::at(old(state)@, old(events)@),
            opponent,
            1,
        ),
{
    draw::start_draw_sequence(state, opponent, 1, events)
}

/// Creates the gift token. The result is `false` if a replacement effect has to be chosen first.
fn deliver_gift_token(
    state: &mut GameState,
    events: &mut Vec<GameEvent>,
    owner: PlayerId,
    ability: &ResolvedAbility,
    gift: &GiftTokenSpec,
) -> (complete: bool)
    requires
        old(state).next_object_id <= u64::MAX - 2,
    ensures
        (outcome::at(final(state)@, final(events)@), complete) == token_delivered(
            outcome::at(old(state)@, old(events)@),
            ability@,
            *gift,
            owner,
        ),
{
    let (spec, enter_tapped) = token_spec_from_gift(gift, ability);
    let applied = match &state.post_replacement_token_choice_applied {
        Some(ids) => ids.copied(),
        None => AppliedReplacements::none(),
    };
    let proposed = ProposedEvent::CreateToken {
        owner,
        spec: Box::new(spec),
        enter_tapped,
        count: 1,
        applied,
    };
    assert(proposed@ == proposed_gift(state@, ability@, *gift, owner));
    match replacement::replace_event(state, proposed) {
        ReplacementResult::Execute(
            ProposedEvent::CreateToken { owner, spec, enter_tapped, count, .. },
        ) => {
            token::create_tokens(state, owner, *spec, enter_tapped, count, events);
            true
        },
        ReplacementResult::Execute(_) => true,
        ReplacementResult::Prevented => true,
        ReplacementResult::NeedsChoice(player) => {
            let prompt = replacement::replacement_choice_waiting_for(player, state);
            state.waiting_for = prompt;
            false
        },
    }
}

/// The token and the way it enters that a gift stands for.
fn token_spec_from_gift(gift: &GiftTokenSpec, ability: &ResolvedAbility) -> (r: (
    TokenSpec,
    EtbTapState,
))
    ensures
        r.0@ == gift_token(*gift, ability@),
        r.1 == gift.enter_tapped,
{
    let authored_tapped = gift.enter_tapped.resolve(false);
    (
        TokenSpec {
            characteristics: TokenCharacteristics {
                display_name: gift.display_name.clone(),
                power: gift.power,
                toughness: gift.toughness,
                core_types: shared::copy_all(&gift.core_types),
                subtypes: shared::copy_texts(&gift.subtypes),
                supertypes: Vec::new(),
                colors: shared::copy_all(&gift.colors),
                keywords: Vec::new(),
            },
            script_name: gift.script_name.clone(),
            static_abilities: Vec::new(),
            enter_with_counters: Vec::new(),
            tapped: authored_tapped,
            enters_attacking: false,
            sacrifice_at: None,
            source_id: ability.source_id,
            controller: ability.controller,
            attach_to: None,
        },
        gift.enter_tapped,
    )
}

} // verus!
