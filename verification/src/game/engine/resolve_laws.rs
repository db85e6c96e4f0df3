//! What casting and resolving do.
use std::sync::Arc;
use vstd::prelude::*;

use crate::game::ability_utils;
use crate::game::effects::basic;
use crate::game::effects::chain;
use crate::game::effects::draw;
use crate::game::effects::life;
use crate::game::effects::repeated_payment;
use crate::game::effects::round_laws;
use crate::game::engine::casting;
use crate::game::engine::priority;
use crate::game::engine::reply::ErrorModel;
use crate::game::game_object::ObjectModel;
use crate::game::mana_payment;
use crate::game::outcome;
use crate::game::outcome::Outcome;
use crate::game::quantity;
use crate::game::zones;
use crate::types::ability::{AbilityModel, Effect, EffectKind, SpellContext};
use crate::types::action_payloads::{CastPaymentMode, TargetRef};
use crate::types::card_type::CoreType;
use crate::types::events::GameEvent;
use crate::types::game_state::{GameModel, PendingCastModel, StackModel};
use crate::types::identifiers::{CardId, ObjectId, PlayerId};
use crate::types::phase::Phase;
use crate::types::prompts::PromptModel;
use crate::types::quantity::QuantityExpr;
use crate::types::target_filter::TargetFilter;
use crate::types::triggers::{TriggerDefinition, TriggerMode};
use crate::types::zones::Zone;

verus! {

/// The player has the card in hand and may cast it at this time.
pub open spec fn is_time_for(s: GameModel, player: PlayerId, id: ObjectId) -> bool {
    &&& s.waiting_for is Priority
    &&& s.objects.contains_key(id)
    &&& s.objects[id].zone == Zone::Hand
    &&& s.objects[id].owner == player
    &&& s.objects[id].core_types.contains(CoreType::Instant) || (s.active_player == player
        && s.stack.len() == 0 && (s.phase == Phase::PreCombatMain || s.phase
        == Phase::PostCombatMain))
}

/// A card that is cast in time is asked about its optional cost first; without one it waits for the
/// payment by hand, or is paid for at once. A spell that the game is to pay for and cannot is refused.
pub proof fn what_casting_does(
    s: GameModel,
    player: PlayerId,
    id: ObjectId,
    targets: Seq<ObjectId>,
    mode: CastPaymentMode,
    c: PendingCastModel,
    i: int,
)
    requires
        is_time_for(s, player, id),
        round_laws::listed_at(s, player, i),
        c.object_id == id,
        c.controller == player,
        c.context == (SpellContext { additional_cost_paid: false, gift_recipient: None }),
        c.targets.len() == targets.len(),
        forall|k: int|
            0 <= k < targets.len() ==> #[trigger] c.targets[k] == TargetRef::Object(targets[k]),
        c.payment_mode == mode,
    ensures
        ({
            let r = casting::cast_reply(s, player, id, s.objects[id].card_id, targets, mode);
            let can_pay = mana_payment::payable(s.players[i].mana, s.objects[id].mana_cost, 1);
            if mode == CastPaymentMode::Auto && !can_pay {
                r.state == s && r.result == Err::<Seq<GameEvent>, ErrorModel>(
                    ErrorModel::Unaffordable,
                )
            } else if s.objects[id].additional_cost is Some {
                &&& r.result == Ok::<Seq<GameEvent>, ErrorModel>(Seq::empty())
                &&& r.state == (GameModel {
                    pending_cast: Some(c),
                    waiting_for: PromptModel::OptionalCostChoice { player, object_id: id },
                    ..s
                })
            } else if mode == CastPaymentMode::Manual {
                &&& r.result == Ok::<Seq<GameEvent>, ErrorModel>(Seq::empty())
                &&& r.state == (GameModel {
                    pending_cast: Some(c),
                    waiting_for: PromptModel::ManaPayment { player },
                    ..s
                })
            } else {
                r == casting::finish_reply(s, c)
            }
        }),
{
    reveal(casting::cast_reply);
    round_laws::lemma_listed_at(s, player, i);
    assert(casting::as_targets(targets) =~= c.targets);
}

/// A card that is not in hand, is not the named one, or cannot be cast at this time is refused.
pub proof fn untimely_casts_are_refused(
    s: GameModel,
    player: PlayerId,
    id: ObjectId,
    card_id: CardId,
    targets: Seq<ObjectId>,
    mode: CastPaymentMode,
)
    requires
        s.waiting_for is Priority,
        !is_time_for(s, player, id) || s.objects[id].card_id != card_id,
    ensures
        casting::cast_reply(s, player, id, card_id, targets, mode).state == s,
        casting::cast_reply(s, player, id, card_id, targets, mode).result == Err::<
            Seq<GameEvent>,
            ErrorModel,
        >(ErrorModel::IllegalChoice),
{
    reveal(casting::cast_reply);
}

/// A player who is done with paying casts the spell that waits; without one they have priority.
pub proof fn what_ending_a_payment_does(s: GameModel, player: PlayerId)
    requires
        s.waiting_for is ManaPayment,
    ensures
        s.pending_cast matches Some(c) ==> casting::settle_reply(s, player)
            == casting::finish_reply(s, c),
        s.pending_cast is None ==> {
            &&& casting::settle_reply(s, player).result == Ok::<Seq<GameEvent>, ErrorModel>(
                Seq::empty(),
            )
            &&& casting::settle_reply(s, player).state == (GameModel {
                priority_player: player,
                waiting_for: PromptModel::Priority { player },
                ..s
            })
        },
{
    reveal(casting::settle_reply);
}

/// The abilities that trigger as a permanent enters come in printed order: those that say so and do
/// something, for the controller of the permanent, with what was decided while it was cast.
pub proof fn what_triggers_on_entering(
    triggers: Seq<Arc<TriggerDefinition>>,
    t: Arc<TriggerDefinition>,
    id: ObjectId,
    controller: PlayerId,
    context: SpellContext,
)
    ensures
        priority::enters_triggers(Seq::empty(), id, controller, context).len() == 0,
        ({
            let before = priority::enters_triggers(triggers, id, controller, context);
            let after = priority::enters_triggers(triggers.push(t), id, controller, context);
            if t.mode == TriggerMode::Enters && t.execute is Some {
                &&& after.len() == before.len() + 1
                &&& after.drop_last() == before
                &&& after.last().source_id == id
                &&& after.last().controller == controller
                &&& !after.last().is_spell
                &&& after.last().context == context
                &&& after.last().ability == Some(
                    ability_utils::resolved_from(
                        *t.execute->Some_0,
                        id,
                        controller,
                        context,
                    ),
                )
            } else {
                after == before
            }
        }),
{
    assert(triggers.push(t).drop_last() =~= triggers);
    let before = priority::enters_triggers(triggers, id, controller, context);
    let after = priority::enters_triggers(triggers.push(t), id, controller, context);
    assert(t.mode == TriggerMode::Enters && t.execute is Some ==> after.drop_last() =~= before);
}

/// The game as the top of the stack begins to resolve.
pub open spec fn top_taken_off(s: GameModel) -> GameModel {
    GameModel {
        stack: s.stack.drop_last(),
        consecutive_passes: 0,
        priority_player: s.active_player,
        waiting_for: PromptModel::Priority { player: s.active_player },
        ..s
    }
}

/// A permanent spell that resolves enters the battlefield, and what triggers goes on the stack; of
/// several abilities the controller names the order. Else the active player has priority.
pub proof fn permanent_spells_enter(s: GameModel, triggered: Seq<StackModel>)
    requires
        s.stack.len() > 0,
        s.stack.last().ability is None,
        s.objects.contains_key(s.stack.last().source_id),
        triggered == priority::enters_triggers(
            s.objects[s.stack.last().source_id].base_trigger_definitions,
            s.stack.last().source_id,
            s.stack.last().controller,
            s.stack.last().context,
        ),
        triggered.len() <= usize::MAX,
    ensures
        ({
            let e = s.stack.last();
            let c = priority::top_resolved(s);
            let entered = zones::moved(top_taken_off(s), e.source_id, Zone::Battlefield);
            &&& c.failure is None
            &&& c.after.events == seq![
                GameEvent::ZoneChanged {
                    object_id: e.source_id,
                    from: Zone::Stack,
                    to: Zone::Battlefield,
                },
            ]
            &&& c.after.state == (GameModel {
                stack: entered.stack + triggered,
                waiting_for: if triggered.len() > 1 {
                    PromptModel::OrderTriggers {
                        player: e.controller,
                        count: triggered.len() as usize,
                    }
                } else {
                    PromptModel::Priority { player: s.active_player }
                },
                ..entered
            })
        }),
{
    let e = s.stack.last();
    let entered = zones::moved(top_taken_off(s), e.source_id, Zone::Battlefield);
    assert(entered.waiting_for == top_taken_off(s).waiting_for);
    assert(entered.active_player == s.active_player);
    assert(entered.consecutive_passes == 0);
    assert(entered.priority_player == s.active_player);
}

/// Instructions on top of the stack are carried out for their controller, without an auction that was
/// held before. A spell is put into the graveyard afterwards. Unless a prompt is left, or an
/// instruction failed, the active player has priority next.
pub proof fn instructions_resolve(s: GameModel, a: AbilityModel)
    requires
        s.stack.len() > 0,
        s.stack.last().ability == Some(a),
    ensures
        ({
            let e = s.stack.last();
            let c = priority::top_resolved(s);
            let run = chain::chained(
                outcome::at(
                    GameModel {
                        waiting_for: PromptModel::Priority { player: a.controller },
                        last_life_auction: None,
                        ..top_taken_off(s)
                    },
                    Seq::empty(),
                ),
                a,
                Seq::empty(),
            );
            let left = if e.is_spell {
                zones::moved(run.after.state, e.source_id, Zone::Graveyard)
            } else {
                run.after.state
            };
            &&& c.failure == run.failure
            &&& c.after.events == run.after.events
            &&& c.after.state == if run.failure is None && left.waiting_for is Priority {
                GameModel {
                    consecutive_passes: 0,
                    priority_player: left.active_player,
                    waiting_for: PromptModel::Priority { player: left.active_player },
                    ..left
                }
            } else {
                left
            }
        }),
{
}

/// The targets of an instruction: its own ones, or those of the one before it.
pub open spec fn targets_used(a: AbilityModel, inherited: Seq<TargetRef>) -> Seq<TargetRef> {
    if a.targets.len() > 0 {
        a.targets
    } else {
        inherited
    }
}

/// Instructions follow one another with the targets of the one before; one that fails ends them, and
/// one that leaves a prompt leaves the rest for later. One whose condition is not met ends them too.
pub proof fn instructions_follow_one_another(o: Outcome, a: AbilityModel, inherited: Seq<TargetRef>)
    requires
        !repeated_payment::offers_modes(AbilityModel { targets: targets_used(a, inherited), ..a }),
    ensures
        ({
            let targets = targets_used(a, inherited);
            let node = AbilityModel { targets, ..a };
            let c = chain::chained(o, a, inherited);
            if !chain::condition_met(o.state, node) {
                c.after == o && c.failure is None
            } else {
                match chain::effect_done(o, node) {
                    Err(message) => c.after == o && c.failure == Some(message),
                    Ok(after) => match a.sub_ability {
                        None => c.after == after && c.failure is None,
                        Some(sub) => if after.state.waiting_for is Priority {
                            c == chain::chained(after, *sub, targets)
                        } else {
                            &&& c.failure is None
                            &&& c.after.events == after.events
                            &&& c.after.state == (GameModel {
                                pending_continuation: Some(
                                    AbilityModel { targets: targets_used(*sub, targets), ..*sub },
                                ),
                                ..after.state
                            })
                        },
                    },
                }
            }
        }),
{
    reveal(chain::chained);
}

/// The report that an instruction was carried out.
pub open spec fn reported(o: Outcome, a: AbilityModel, kind: EffectKind) -> Outcome {
    outcome::at(
        o.state,
        o.events.push(GameEvent::EffectResolved { kind, source_id: a.source_id, subject: None }),
    )
}

/// Gaining life adds the amount to the life of the player; losing life and damage take it away. A
/// negative amount counts as none.
pub proof fn life_instructions_change_life(
    o: Outcome,
    a: AbilityModel,
    amount: QuantityExpr,
    target: TargetFilter,
    p: PlayerId,
    n: int,
)
    requires
        basic::player_of(o.state, a, target) == Some(p),
        ({
            let q = quantity::quantity(o.state, a.controller, amount);
            n == if q > 0 {
                q
            } else {
                0
            }
        }),
    ensures
        a.effect == (Effect::GainLife { amount, target }) ==> chain::effect_done(o, a) == Ok::<
            Outcome,
            Seq<char>,
        >(reported(life::life_changed(o, p, n), a, EffectKind::GainLife)),
        a.effect == (Effect::DealDamage { amount, target }) ==> chain::effect_done(o, a) == Ok::<
            Outcome,
            Seq<char>,
        >(reported(life::life_changed(o, p, -n), a, EffectKind::DealDamage)),
        a.effect == (Effect::LoseLife { amount, target: Some(target) }) ==> chain::effect_done(o, a)
            == Ok::<Outcome, Seq<char>>(
            reported(life::life_changed(o, p, -n), a, EffectKind::LoseLife),
        ),
        a.effect == (Effect::LoseLife { amount, target: None }) ==> chain::effect_done(o, a) == Ok::<
            Outcome,
            Seq<char>,
        >(reported(life::life_changed(o, a.controller, -n), a, EffectKind::LoseLife)),
{
    reveal(chain::effect_done);
}

/// Drawing, discarding and scrying are up to the player that the instruction names, for as many cards
/// as it says.
pub proof fn card_instructions_go_to_their_player(
    o: Outcome,
    a: AbilityModel,
    count: QuantityExpr,
    target: TargetFilter,
    p: PlayerId,
    n: int,
)
    requires
        basic::player_of(o.state, a, target) == Some(p),
        ({
            let q = quantity::quantity(o.state, a.controller, count);
            n == if q > 0 {
                q
            } else {
                0
            }
        }),
    ensures
        a.effect == (Effect::Draw { count, target }) ==> chain::effect_done(o, a) == Ok::<
            Outcome,
            Seq<char>,
        >(reported(draw::draw_sequence(o, p, n), a, EffectKind::Draw)),
        a.effect == (Effect::Discard { count, target }) ==> chain::effect_done(o, a) == Ok::<
            Outcome,
            Seq<char>,
        >(
            reported(
                outcome::at(basic::discard_started(o.state, p, n), o.events),
                a,
                EffectKind::Discard,
            ),
        ),
        a.effect == (Effect::Scry { count, target }) ==> chain::effect_done(o, a) == Ok::<
            Outcome,
            Seq<char>,
        >(
            reported(
                outcome::at(basic::scry_started(o.state, p, n), o.events),
                a,
                EffectKind::Scry,
            ),
        ),
{
    reveal(chain::effect_done);
}

/// An object that is given comes under the control of the recipient; nothing else of it changes.
pub proof fn given_objects_change_hands(
    o: Outcome,
    a: AbilityModel,
    target: TargetFilter,
    recipient: TargetFilter,
    id: ObjectId,
    p: PlayerId,
)
    requires
        a.effect == (Effect::GiveControl { target, recipient }),
        basic::object_of(a, target) == Some(id),
        basic::player_of(o.state, a, recipient) == Some(p),
        o.state.objects.contains_key(id),
    ensures
        chain::effect_done(o, a) matches Ok(after) && {
            &&& after.state == (GameModel {
                objects: o.state.objects.insert(
                    id,
                    ObjectModel { controller: p, ..o.state.objects[id] },
                ),
                ..o.state
            })
            &&& after.events == o.events.push(
                GameEvent::ControllerChanged { object_id: id, controller: p },
            ).push(
                GameEvent::EffectResolved {
                    kind: EffectKind::GiveControl,
                    source_id: a.source_id,
                    subject: None,
                },
            )
        },
{
    reveal(chain::effect_done);
}

/// An instruction that names nobody and nothing only reports that it was carried out.
pub proof fn instructions_without_object_do_nothing(o: Outcome, a: AbilityModel)
    ensures
        a.effect matches Effect::GainLife { target, .. } && basic::player_of(o.state, a, target) is None
            ==> chain::effect_done(o, a) == Ok::<Outcome, Seq<char>>(
            reported(o, a, EffectKind::GainLife),
        ),
        a.effect matches Effect::DealDamage { target, .. } && basic::player_of(o.state, a, target) is None
            ==> chain::effect_done(o, a) == Ok::<Outcome, Seq<char>>(
            reported(o, a, EffectKind::DealDamage),
        ),
        a.effect matches Effect::Draw { target, .. } && basic::player_of(o.state, a, target) is None
            ==> chain::effect_done(o, a) == Ok::<Outcome, Seq<char>>(
            reported(o, a, EffectKind::Draw),
        ),
        a.effect matches Effect::Discard { target, .. } && basic::player_of(o.state, a, target) is None
            ==> chain::effect_done(o, a) == Ok::<Outcome, Seq<char>>(
            reported(o, a, EffectKind::Discard),
        ),
        a.effect matches Effect::Scry { target, .. } && basic::player_of(o.state, a, target) is None
            ==> chain::effect_done(o, a) == Ok::<Outcome, Seq<char>>(
            reported(o, a, EffectKind::Scry),
        ),
        a.effect matches Effect::Counter { target } && basic::object_of(a, target) is None
            ==> chain::effect_done(o, a) == Ok::<Outcome, Seq<char>>(
            reported(o, a, EffectKind::Counter),
        ),
        a.effect is Unimplemented ==> chain::effect_done(o, a) == Ok::<Outcome, Seq<char>>(
            reported(o, a, EffectKind::Unimplemented),
        ),
{
    reveal(chain::effect_done);
}

/// A spell that an instruction counters is countered, and the instruction reports that.
pub proof fn counter_instructions_counter(
    o: Outcome,
    a: AbilityModel,
    target: TargetFilter,
    id: ObjectId,
)
    requires
        a.effect == (Effect::Counter { target }),
        basic::object_of(a, target) == Some(id),
    ensures
        chain::effect_done(o, a) == Ok::<Outcome, Seq<char>>(
            reported(basic::countered(o, id), a, EffectKind::Counter),
        ),
{
    reveal(chain::effect_done);
}

} // verus!
