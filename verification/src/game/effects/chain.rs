//! Resolving an ability instruction by instruction (CR 608.2).
use vstd::prelude::*;

use crate::game::effects::basic;
use crate::game::effects::draw;
use crate::game::effects::gift_delivery;
use crate::game::effects::life;
use crate::game::effects::life_auction;
use crate::game::effects::planeswalk;
use crate::game::effects::repeated_payment;
use crate::game::filter;
use crate::game::outcome;
use crate::game::outcome::Outcome;
use crate::game::quantity;
use crate::types::ability::{
    AbilityCondition, AbilityModel, Effect, EffectError, EffectKind, ResolvedAbility,
};
use crate::types::action_payloads::TargetRef;
use crate::types::events::GameEvent;
use crate::types::game_state::{GameModel, GameState, PendingContinuation};
use crate::types::identifiers::PlayerId;
use crate::types::prompts::{PromptModel, WaitingFor};
use crate::types::quantity::QuantityExpr;

verus! {

/// The instruction's condition is met.
pub open spec fn condition_met(s: GameModel, a: AbilityModel) -> bool {
    match a.condition {
        None => true,
        Some(AbilityCondition::AuctionWinnerIs { player }) => match s.last_life_auction {
            Some(auction) => filter::named_player(s, Some(a.controller), a.targets, player) == Some(
                auction.0,
            ),
            None => false,
        },
        Some(AbilityCondition::WhenYouDo) => true,
    }
}

pub open spec fn done(a: AbilityModel, kind: EffectKind) -> GameEvent {
    GameEvent::EffectResolved { kind, source_id: a.source_id, subject: None }
}

/// A player's life changes by an amount that is read from the game.
pub open spec fn life_effect(
    o: Outcome,
    a: AbilityModel,
    player: Option<PlayerId>,
    amount: QuantityExpr,
    gain: bool,
    kind: EffectKind,
) -> Outcome {
    let n = basic::count_of(quantity::quantity(o.state, a.controller, amount));
    let after = match player {
        Some(p) => life::life_changed(
            o,
            p,
            if gain {
                n
            } else {
                -n
            },
        ),
        None => o,
    };
    after.report(done(a, kind))
}

/// One instruction. It either acts, or fails with a message, or leaves a prompt to be answered.
#[verifier::opaque]
pub open spec fn effect_done(o: Outcome, a: AbilityModel) -> Result<Outcome, Seq<char>> {
    let s = o.state;
    match a.effect {
        Effect::LifeAuction { .. } => if life_auction::can_open(s, a) {
            life_auction::started(o, a)
        } else {
            Err("nobody can bid"@)
        },
        Effect::GiftDelivery { .. } => if gift_delivery::delivers_token(a) ==> s.next_object_id
            <= u64::MAX - 2 {
            match gift_delivery::delivered(o, a) {
                Some(after) => Ok(after),
                None => Err("expected GiftDelivery effect"@),
            }
        } else {
            Err("object identifiers are used up"@)
        },
        Effect::LoseLife { amount, target } => {
            let player = match target {
                None => Some(a.controller),
                Some(f) => basic::player_of(s, a, f),
            };
            Ok(life_effect(o, a, player, amount, false, EffectKind::LoseLife))
        },
        Effect::GainLife { amount, target } => Ok(
            life_effect(o, a, basic::player_of(s, a, target), amount, true, EffectKind::GainLife),
        ),
        Effect::DealDamage { amount, target } => Ok(
            life_effect(
                o,
                a,
                basic::player_of(s, a, target),
                amount,
                false,
                EffectKind::DealDamage,
            ),
        ),
        Effect::Draw { count, target } => {
            let n = basic::count_of(quantity::quantity(s, a.controller, count));
            let after = match basic::player_of(s, a, target) {
                Some(p) => draw::draw_sequence(o, p, n),
                None => o,
            };
            Ok(after.report(done(a, EffectKind::Draw)))
        },
        Effect::Discard { count, target } => {
            let n = basic::count_of(quantity::quantity(s, a.controller, count));
            let after = match basic::player_of(s, a, target) {
                Some(p) => Outcome { state: basic::discard_started(s, p, n), ..o },
                None => o,
            };
            Ok(after.report(done(a, EffectKind::Discard)))
        },
        Effect::Scry { count, target } => {
            let n = basic::count_of(quantity::quantity(s, a.controller, count));
            let after = match basic::player_of(s, a, target) {
                Some(p) => Outcome { state: basic::scry_started(s, p, n), ..o },
                None => o,
            };
            Ok(after.report(done(a, EffectKind::Scry)))
        },
        Effect::GiveControl { target, recipient } => {
            let after = match (basic::object_of(a, target), basic::player_of(s, a, recipient)) {
                (Some(id), Some(p)) => basic::control_given(o, id, p),
                _ => o,
            };
            Ok(after.report(done(a, EffectKind::GiveControl)))
        },
        Effect::Counter { target } => {
            let after = match basic::object_of(a, target) {
                Some(id) => basic::countered(o, id),
                None => o,
            };
            Ok(after.report(done(a, EffectKind::Counter)))
        },
        Effect::PayCost { .. } => Err("a cost is paid only for chosen modes"@),
        Effect::Planeswalk => Ok(planeswalk::walked(o, a)),
        Effect::Unimplemented => Ok(o.report(done(a, EffectKind::Unimplemented))),
    }
}

/// A chain that was resolved as far as it went.
pub struct ChainOutcome {
    pub after: Outcome,
    /// Why it stopped early, if an instruction failed.
    pub failure: Option<Seq<char>>,
}

/// An instruction without targets of its own uses those of the one before it (CR 608.2c).
pub open spec fn effective_targets(a: AbilityModel, inherited: Seq<TargetRef>) -> Seq<TargetRef> {
    if a.targets.len() == 0 {
        inherited
    } else {
        a.targets
    }
}

/// The instructions of an ability in order. One whose condition is not met is skipped together
/// with those that follow it; when one leaves a prompt, the rest waits for the answer.
#[verifier::opaque]
pub open spec fn chained(o: Outcome, a: AbilityModel, inherited: Seq<TargetRef>) -> ChainOutcome
    decreases a,
{
    let targets = effective_targets(a, inherited);
    let node = AbilityModel { targets, ..a };
    if !condition_met(o.state, node) {
        ChainOutcome { after: o, failure: None }
    } else if repeated_payment::offers_modes(node) {
        ChainOutcome {
            after: Outcome { state: repeated_payment::offered(o.state, node), ..o },
            failure: None,
        }
    } else {
        match effect_done(o, node) {
            Err(message) => ChainOutcome { after: o, failure: Some(message) },
            Ok(after) => match a.sub_ability {
                None => ChainOutcome { after, failure: None },
                Some(sub) => if after.state.waiting_for is Priority {
                    chained(after, *sub, targets)
                } else {
                    let rest = AbilityModel {
                        targets: effective_targets(*sub, targets),
                        ..*sub
                    };
                    ChainOutcome {
                        after: Outcome {
                            state: GameModel { pending_continuation: Some(rest), ..after.state },
                            ..after
                        },
                        failure: None,
                    }
                },
            },
        }
    }
}

fn is_condition_met(state: &GameState, a: &ResolvedAbility) -> (r: bool)
    ensures
        r == condition_met(state@, a@),
{
    match a.condition {
        None => true,
        Some(AbilityCondition::AuctionWinnerIs { player }) => match state.last_life_auction {
            Some(auction) => match filter::controller_ref_player(
                state,
                Some(a.controller),
                Some(a),
                &player,
            ) {
                Some(p) => p == auction.0,
                None => false,
            },
            None => false,
        },
        Some(AbilityCondition::WhenYouDo) => true,
    }
}

fn report(events: &mut Vec<GameEvent>, a: &ResolvedAbility, kind: EffectKind)
    ensures
        final(events)@ == old(events)@.push(done(a@, kind)),
{
    events.push(GameEvent::EffectResolved { kind, source_id: a.source_id, subject: None });
}

fn resolve_life(
    state: &mut GameState,
    a: &ResolvedAbility,
    player: Option<PlayerId>,
    amount: QuantityExpr,
    gain: bool,
    kind: EffectKind,
    events: &mut Vec<GameEvent>,
)
    ensures
        outcome::at(final(state)@, final(events)@) == life_effect(
            outcome::at(old(state)@, old(events)@),
            a@,
            player,
            amount,
            gain,
            kind,
        ),
{
    let n: u32 = repeated_payment::as_count(
        quantity::resolve_quantity(state, a.controller, amount),
    );
    if let Some(p) = player {
        let delta: i64 = if gain {
            n as i64
        } else {
            -(n as i64)
        };
        life::change_life(state, p, delta, events);
    }
    report(events, a, kind);
}

fn invalid(message: &str) -> (r: EffectError)
    ensures
        r.message() == message@,
{
    EffectError::InvalidParam(String::from_str(message))
}

/// Carries out one instruction.
pub fn resolve_effect(
    state: &mut GameState,
    a: &ResolvedAbility,
    events: &mut Vec<GameEvent>,
) -> (r:
    Result<(), EffectError>)
    ensures
        match effect_done(outcome::at(old(state)@, old(events)@), a@) {
            Ok(o) => r is Ok && outcome::at(final(state)@, final(events)@) == o,
            Err(message) => {
                &&& r matches Err(e) && e.message() == message
                &&& *final(state) == *old(state)
                &&& *final(events) == *old(events)
            },
        },
{
    proof {
        reveal(effect_done);
    }
    match &*a.effect {
        Effect::LifeAuction { .. } => {
            if life_auction::opening_possible(state, a) {
                life_auction::resolve(state, a, events)
            } else {
                Err(invalid("nobody can bid"))
            }
        },
        Effect::GiftDelivery { .. } => {
            if !gift_delivery::is_token_delivery(a) || state.next_object_id <= u64::MAX - 2 {
                gift_delivery::resolve(state, a, events)
            } else {
                Err(invalid("object identifiers are used up"))
            }
        },
        Effect::LoseLife { amount, target } => {
            let player = match target {
                None => Some(a.controller),
                Some(f) => basic::resolve_player(state, a, f),
            };
            resolve_life(state, a, player, *amount, false, EffectKind::LoseLife, events);
            Ok(())
        },
        Effect::GainLife { amount, target } => {
            let player = basic::resolve_player(state, a, target);
            resolve_life(state, a, player, *amount, true, EffectKind::GainLife, events);
            Ok(())
        },
        Effect::DealDamage { amount, target } => {
            let player = basic::resolve_player(state, a, target);
            resolve_life(state, a, player, *amount, false, EffectKind::DealDamage, events);
            Ok(())
        },
        Effect::Draw { count, target } => {
            let n: u32 = repeated_payment::as_count(
                quantity::resolve_quantity(state, a.controller, *count),
            );
            if let Some(p) = basic::resolve_player(state, a, target) {
                draw::start_draw_sequence(state, p, n, events);
            }
            report(events, a, EffectKind::Draw);
            Ok(())
        },
        Effect::Discard { count, target } => {
            let n: u32 = repeated_payment::as_count(
                quantity::resolve_quantity(state, a.controller, *count),
            );
            if let Some(p) = basic::resolve_player(state, a, target) {
                basic::start_discard(state, p, n);
            }
            report(events, a, EffectKind::Discard);
            Ok(())
        },
        Effect::Scry { count, target } => {
            let n: u32 = repeated_payment::as_count(
                quantity::resolve_quantity(state, a.controller, *count),
            );
            if let Some(p) = basic::resolve_player(state, a, target) {
                basic::start_scry(state, p, n);
            }
            report(events, a, EffectKind::Scry);
            Ok(())
        },
        Effect::GiveControl { target, recipient } => {
            let object = basic::resolve_object(a, target);
            let player = basic::resolve_player(state, a, recipient);
            if let (Some(id), Some(p)) = (object, player) {
                basic::give_control(state, id, p, events);
            }
            report(events, a, EffectKind::GiveControl);
            Ok(())
        },
        Effect::Counter { target } => {
            if let Some(id) = basic::resolve_object(a, target) {
                basic::counter_spell(state, id, events);
            }
            report(events, a, EffectKind::Counter);
            Ok(())
        },
        Effect::PayCost { .. } => Err(invalid("a cost is paid only for chosen modes")),
        Effect::Planeswalk => planeswalk::resolve(state, a, events),
        Effect::Unimplemented => {
            report(events, a, EffectKind::Unimplemented);
            Ok(())
        },
    }
}

/// Carries out the instructions of an ability in order.
pub fn run_chain(
    state: &mut GameState,
    ability: ResolvedAbility,
    inherited: Vec<TargetRef>,
    events: &mut Vec<GameEvent>,
) -> (r: Result<(), EffectError>)
    ensures
        ({
            let c = chained(outcome::at(old(state)@, old(events)@), ability@, inherited@);
            &&& outcome::at(final(state)@, final(events)@) == c.after
            &&& match c.failure {
                None => r is Ok,
                Some(message) => r matches Err(e) && e.message() == message,
            }
        }),
    decreases ability,
{
    proof {
        reveal(chained);
    }
    let mut node = ability;
    if node.targets.len() == 0 {
        node.targets = inherited;
    }
    let ghost model = AbilityModel {
        targets: effective_targets(ability@, inherited@),
        ..ability@
    };
    assert(node@ == model);
    if !is_condition_met(state, &node) {
        return Ok(());
    }
    if repeated_payment::is_mode_offer(&node) {
        repeated_payment::offer(state, node);
        return Ok(());
    }
    match resolve_effect(state, &node, events) {
        Err(e) => {
            return Err(e);
        },
        Ok(()) => {},
    }
    let ResolvedAbility { targets, sub_ability, .. } = node;
    match sub_ability {
        None => Ok(()),
        Some(sub) => {
            assert(ability@.sub_ability == Some(Box::new(sub@)));
            if let WaitingFor::Priority { .. } = &state.waiting_for {
                run_chain(state, *sub, targets, events)
            } else {
                let mut rest = *sub;
                if rest.targets.len() == 0 {
                    rest.targets = targets;
                }
                state.pending_continuation = Some(PendingContinuation { chain: Box::new(rest) });
                Ok(())
            }
        },
    }
}

/// The game before a chain is resolved: whoever controls it has priority, and at the outermost
/// level no auction has been completed yet (CR 608.2c).
pub open spec fn chain_entered(s: GameModel, a: AbilityModel, depth: u32) -> GameModel {
    GameModel {
        waiting_for: PromptModel::Priority { player: a.controller },
        last_life_auction: if depth == 0 {
            None
        } else {
            s.last_life_auction
        },
        ..s
    }
}

/// Resolves an ability. A prompt that it leaves stands in `waiting_for`; else the controller has
/// priority.
pub fn resolve_ability_chain(
    state: &mut GameState,
    ability: ResolvedAbility,
    events: &mut Vec<GameEvent>,
    depth: u32,
) -> (r: Result<(), EffectError>)
    ensures
        ({
            let c = chained(
                outcome::at(chain_entered(old(state)@, ability@, depth), old(events)@),
                ability@,
                Seq::empty(),
            );
            &&& outcome::at(final(state)@, final(events)@) == c.after
            &&& match c.failure {
                None => r is Ok,
                Some(message) => r matches Err(e) && e.message() == message,
            }
        }),
{
    state.waiting_for = WaitingFor::Priority { player: ability.controller };
    if depth == 0 {
        state.last_life_auction = None;
    }
    run_chain(state, ability, Vec::new(), events)
}

} // verus!
