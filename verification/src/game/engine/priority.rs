//! Priority, the stack and the course of a turn (CR 117, CR 405, CR 500).
use std::sync::Arc;
use vstd::prelude::*;

use crate::game::ability_utils;
use crate::game::effects::chain;
use crate::game::effects::chain::ChainOutcome;
use crate::game::engine::reply;
use crate::game::engine::reply::{EngineError, ErrorModel, Reply};
use crate::game::outcome;
use crate::game::outcome::Outcome;
use crate::game::players;
use crate::game::zones;
use crate::shared;
use crate::types::ability::{EffectError, SpellContext};
use crate::types::events::GameEvent;
use crate::types::game_state;
use crate::types::game_state::{GameModel, GameState, StackEntry, StackModel};
use crate::types::identifiers::{ObjectId, PlayerId};
use crate::types::mana_cost::ManaPool;
use crate::types::phase::Phase;
use crate::types::player::PlayerModel;
use crate::types::prompts::{PromptModel, WaitingFor};
use crate::types::triggers::{TriggerDefinition, TriggerMode};
use crate::types::zones::Zone;

verus! {

/// The active player has priority and nobody has passed.
pub open spec fn priority_reset(s: GameModel) -> GameModel {
    GameModel {
        consecutive_passes: 0,
        priority_player: s.active_player,
        waiting_for: PromptModel::Priority { player: s.active_player },
        ..s
    }
}

/// The enters-the-battlefield abilities among the triggered abilities of a permanent, as stack
/// entries in printed order (CR 603.6a).
pub open spec fn enters_triggers(
    triggers: Seq<Arc<TriggerDefinition>>,
    source_id: ObjectId,
    controller: PlayerId,
    context: SpellContext,
) -> Seq<StackModel>
    decreases triggers.len(),
{
    if triggers.len() == 0 {
        Seq::empty()
    } else {
        let front = enters_triggers(triggers.drop_last(), source_id, controller, context);
        let t = *triggers.last();
        match (t.mode, t.execute) {
            (TriggerMode::Enters, Some(def)) => front.push(
                StackModel {
                    source_id,
                    controller,
                    is_spell: false,
                    context,
                    ability: Some(
                        ability_utils::resolved_from(*def, source_id, controller, context),
                    ),
                },
            ),
            _ => front,
        }
    }
}

/// Several abilities of a player have triggered together: the player is asked for their order
/// (CR 603.3b).
pub open spec fn order_asked(s: GameModel, player: PlayerId, count: nat) -> GameModel {
    if count > 1 {
        GameModel {
            waiting_for: PromptModel::OrderTriggers { player, count: count as usize },
            ..s
        }
    } else {
        s
    }
}

/// A permanent spell becomes a permanent, and its abilities trigger (CR 608.3). What was decided
/// when it was cast goes along with the triggers.
pub open spec fn permanent_entered(o: Outcome, e: StackModel) -> Outcome {
    let s = o.state;
    let id = e.source_id;
    let entered = zones::moved(s, id, Zone::Battlefield);
    if s.objects.contains_key(id) {
        let triggered = enters_triggers(
            s.objects[id].base_trigger_definitions,
            id,
            e.controller,
            e.context,
        );
        Outcome {
            state: order_asked(
                GameModel { stack: entered.stack + triggered, ..entered },
                e.controller,
                triggered.len(),
            ),
            events: o.events.push(
                GameEvent::ZoneChanged { object_id: id, from: Zone::Stack, to: Zone::Battlefield },
            ),
        }
    } else {
        o
    }
}

/// The top entry of the stack resolves (CR 608).
pub open spec fn entry_resolved(o: Outcome, e: StackModel) -> ChainOutcome {
    match e.ability {
        None => ChainOutcome { after: permanent_entered(o, e), failure: None },
        Some(ability) => {
            let c = chain::chained(
                outcome::at(chain::chain_entered(o.state, ability, 0), o.events),
                ability,
                Seq::empty(),
            );
            if e.is_spell {
                ChainOutcome {
                    after: Outcome {
                        state: zones::moved(c.after.state, e.source_id, Zone::Graveyard),
                        ..c.after
                    },
                    ..c
                }
            } else {
                c
            }
        },
    }
}

/// The top of the stack resolves. Afterwards the active player has priority, unless a prompt has
/// to be answered first.
pub open spec fn top_resolved(s: GameModel) -> ChainOutcome {
    let e = s.stack.last();
    let c = entry_resolved(
        outcome::at(
            priority_reset(GameModel { stack: s.stack.drop_last(), ..s }),
            Seq::empty(),
        ),
        e,
    );
    if c.failure is None && c.after.state.waiting_for is Priority {
        ChainOutcome {
            after: Outcome { state: priority_reset(c.after.state), ..c.after },
            ..c
        }
    } else {
        c
    }
}

pub open spec fn next_phase(p: Phase) -> Phase {
    match p {
        Phase::Untap => Phase::Upkeep,
        Phase::Upkeep => Phase::Draw,
        Phase::Draw => Phase::PreCombatMain,
        Phase::PreCombatMain => Phase::BeginCombat,
        Phase::BeginCombat => Phase::DeclareAttackers,
        Phase::DeclareAttackers => Phase::DeclareBlockers,
        Phase::DeclareBlockers => Phase::CombatDamage,
        Phase::CombatDamage => Phase::EndCombat,
        Phase::EndCombat => Phase::PostCombatMain,
        Phase::PostCombatMain => Phase::End,
        Phase::End => Phase::Cleanup,
        Phase::Cleanup => Phase::Untap,
    }
}

/// A player as a step ends: unspent mana is lost (CR 106.4), and with the turn the count of drawn
/// cards.
pub open spec fn step_ended(p: PlayerModel, turn_ends: bool) -> PlayerModel {
    PlayerModel {
        mana: Seq::empty(),
        cards_drawn_this_turn: if turn_ends {
            0
        } else {
            p.cards_drawn_this_turn
        },
        ..p
    }
}

/// The next step or phase begins, or the next player's turn (CR 500.2).
pub open spec fn phase_advanced(s: GameModel) -> GameModel {
    let turn_ends = s.phase == Phase::Cleanup;
    priority_reset(
        GameModel {
            phase: next_phase(s.phase),
            players: Seq::new(s.players.len(), |i: int| step_ended(s.players[i], turn_ends)),
            active_player: if turn_ends {
                players::following(s, s.active_player)
            } else {
                s.active_player
            },
            turn_number: if turn_ends && s.turn_number < u32::MAX {
                (s.turn_number + 1) as u32
            } else {
                s.turn_number
            },
            ..s
        },
    )
}

/// How many players of a list are in the game.
pub open spec fn alive_count(s: GameModel, order: Seq<PlayerId>) -> nat
    decreases order.len(),
{
    if order.len() == 0 {
        0
    } else {
        alive_count(s, order.drop_last()) + (if players::alive(s, order.last()) {
            1nat
        } else {
            0
        })
    }
}

/// A player passes priority (CR 117.3d, CR 117.4). The next player has it then; once all players
/// passed in succession, the top of the stack resolves or, with an empty stack, the step ends.
#[verifier::opaque]
pub open spec fn pass_reply(s: GameModel, player: PlayerId) -> Reply {
    if !(s.waiting_for is Priority) {
        reply::refused(s, ErrorModel::WrongPrompt)
    } else if s.consecutive_passes + 1 < alive_count(s, s.seat_order) && s.consecutive_passes
        < u32::MAX {
        let next = players::following(s, player);
        Reply {
            state: GameModel {
                consecutive_passes: (s.consecutive_passes + 1) as u32,
                priority_player: next,
                waiting_for: PromptModel::Priority { player: next },
                ..s
            },
            result: Ok(Seq::empty()),
        }
    } else if s.stack.len() > 0 {
        reply::resolved(top_resolved(s))
    } else {
        Reply { state: phase_advanced(s), result: Ok(Seq::empty()) }
    }
}

pub fn reset_priority(state: &mut GameState)
    ensures
        final(state)@ == priority_reset(old(state)@),
{
    state.consecutive_passes = 0;
    state.priority_player = state.active_player;
    state.waiting_for = WaitingFor::Priority { player: state.active_player };
}

fn push_enters_triggers(
    state: &mut GameState,
    triggers: &Vec<Arc<TriggerDefinition>>,
    source_id: ObjectId,
    controller: PlayerId,
    context: SpellContext,
)
    ensures
        final(state)@ == (GameModel {
            stack: old(state)@.stack + enters_triggers(triggers@, source_id, controller, context),
            ..old(state)@
        }),
{
    let mut i: usize = 0;
    assert(old(state)@.stack + enters_triggers(
        triggers@.take(0),
        source_id,
        controller,
        context,
    ) =~= old(state)@.stack);
    while i < triggers.len()
        invariant
            i <= triggers.len(),
            state@ == (GameModel {
                stack: old(state)@.stack + enters_triggers(
                    triggers@.take(i as int),
                    source_id,
                    controller,
                    context,
                ),
                ..old(state)@
            }),
        decreases triggers.len() - i,
    {
        assert(triggers@.take(i + 1).drop_last() =~= triggers@.take(i as int));
        let enters = match triggers[i].mode {
            TriggerMode::Enters => true,
            TriggerMode::Taps => false,
        };
        if enters {
            if let Some(def) = &triggers[i].execute {
                let ability = ability_utils::build_resolved_in_context(
                    def,
                    source_id,
                    controller,
                    context,
                );
                let entry = StackEntry {
                    source_id,
                    controller,
                    is_spell: false,
                    context,
                    ability: Some(ability),
                };
                let ghost before = state.stack@;
                let ghost e = entry@;
                state.stack.push(entry);
                assert(game_state::stack_models(state.stack@) =~= game_state::stack_models(
                    before,
                ).push(e));
            }
        }
        i = i + 1;
        assert(state@.stack =~= old(state)@.stack + enters_triggers(
            triggers@.take(i as int),
            source_id,
            controller,
            context,
        ));
    }
    assert(triggers@.take(i as int) =~= triggers@);
}

fn enter_permanent(
    state: &mut GameState,
    source_id: ObjectId,
    controller: PlayerId,
    context: SpellContext,
    events: &mut Vec<GameEvent>,
    Ghost(e): Ghost<StackModel>,
)
    requires
        e.source_id == source_id,
        e.controller == controller,
        e.context == context,
    ensures
        outcome::at(final(state)@, final(events)@) == permanent_entered(
            outcome::at(old(state)@, old(events)@),
            e,
        ),
{
    let triggers = match state.objects.get(&source_id) {
        Some(obj) => shared::share_all(&obj.base_trigger_definitions),
        None => {
            return ;
        },
    };
    zones::move_object(state, source_id, Zone::Battlefield);
    let below: usize = state.stack.len();
    assert(state@.stack.len() == state.stack@.len());
    push_enters_triggers(state, &triggers, source_id, controller, context);
    assert(state@.stack.len() == state.stack@.len());
    let count: usize = state.stack.len() - below;
    if count > 1 {
        state.waiting_for = WaitingFor::OrderTriggers { player: controller, count };
    }
    events.push(
        GameEvent::ZoneChanged { object_id: source_id, from: Zone::Stack, to: Zone::Battlefield },
    );
}

fn resolve_entry(
    state: &mut GameState,
    entry: StackEntry,
    events: &mut Vec<GameEvent>,
) -> (r: Result<
    (),
    EffectError,
>)
    ensures
        ({
            let c = entry_resolved(outcome::at(old(state)@, old(events)@), entry@);
            &&& outcome::at(final(state)@, final(events)@) == c.after
            &&& match c.failure {
                None => r is Ok,
                Some(message) => r matches Err(e) && e.message() == message,
            }
        }),
{
    let ghost e = entry@;
    let StackEntry { source_id, controller, is_spell, context, ability } = entry;
    match ability {
        None => {
            enter_permanent(state, source_id, controller, context, events, Ghost(e));
            Ok(())
        },
        Some(ability) => {
            let r = chain::resolve_ability_chain(state, ability, events, 0);
            if is_spell {
                zones::move_object(state, source_id, Zone::Graveyard);
            }
            r
        },
    }
}

fn resolve_top(state: &mut GameState) -> (r: Result<Vec<GameEvent>, EngineError>)
    requires
        old(state)@.stack.len() > 0,
    ensures
        reply::agrees(r, final(state)@, reply::resolved(top_resolved(old(state)@))),
{
    let ghost before = state@;
    let mut events: Vec<GameEvent> = Vec::new();
    match state.stack.pop() {
        None => Ok(events),
        Some(entry) => {
            assert(game_state::stack_models(state.stack@) =~= before.stack.drop_last());
            assert(state@ =~= GameModel { stack: before.stack.drop_last(), ..before });
            reset_priority(state);
            let r = resolve_entry(state, entry, &mut events);
            if r.is_ok() {
                if let WaitingFor::Priority { .. } = &state.waiting_for {
                    reset_priority(state);
                }
            }
            reply::conclude(r, events)
        },
    }
}

fn phase_after(p: Phase) -> (r: Phase)
    ensures
        r == next_phase(p),
{
    match p {
        Phase::Untap => Phase::Upkeep,
        Phase::Upkeep => Phase::Draw,
        Phase::Draw => Phase::PreCombatMain,
        Phase::PreCombatMain => Phase::BeginCombat,
        Phase::BeginCombat => Phase::DeclareAttackers,
        Phase::DeclareAttackers => Phase::DeclareBlockers,
        Phase::DeclareBlockers => Phase::CombatDamage,
        Phase::CombatDamage => Phase::EndCombat,
        Phase::EndCombat => Phase::PostCombatMain,
        Phase::PostCombatMain => Phase::End,
        Phase::End => Phase::Cleanup,
        Phase::Cleanup => Phase::Untap,
    }
}

fn advance_phase(state: &mut GameState)
    ensures
        final(state)@ == phase_advanced(old(state)@),
{
    let turn_ends = state.phase == Phase::Cleanup;
    let active = if turn_ends {
        players::next_player(state, state.active_player)
    } else {
        state.active_player
    };
    let mut i: usize = 0;
    let n: usize = state.players.len();
    while i < n
        invariant
            i <= n,
            n == state.players@.len(),
            n == old(state).players@.len(),
            *state == (GameState { players: state.players, ..*old(state) }),
            forall|j: int|
                0 <= j < i ==> (#[trigger] state.players@[j])@ == step_ended(
                    old(state).players@[j]@,
                    turn_ends,
                ),
            forall|j: int| i <= j < n ==> #[trigger] state.players@[j] == old(state).players@[j],
        decreases n - i,
    {
        state.players[i].mana_pool = ManaPool { mana: Vec::new() };
        if turn_ends {
            state.players[i].cards_drawn_this_turn = 0;
        }
        i = i + 1;
    }
    state.phase = phase_after(state.phase);
    state.active_player = active;
    if turn_ends && state.turn_number < u32::MAX {
        state.turn_number = state.turn_number + 1;
    }
    reset_priority(state);
    assert(state@ =~= phase_advanced(old(state)@));
}

fn count_alive(state: &GameState) -> (r: usize)
    ensures
        r == alive_count(state@, state@.seat_order),
{
    let mut r: usize = 0;
    let mut i: usize = 0;
    while i < state.seat_order.len()
        invariant
            i <= state.seat_order.len(),
            r <= i,
            r == alive_count(state@, state.seat_order@.take(i as int)),
        decreases state.seat_order.len() - i,
    {
        assert(state.seat_order@.take(i + 1).drop_last() =~= state.seat_order@.take(i as int));
        if players::is_alive(state, state.seat_order[i]) {
            r = r + 1;
        }
        i = i + 1;
    }
    assert(state.seat_order@.take(i as int) =~= state.seat_order@);
    r
}

pub fn pass_priority(state: &mut GameState, player: PlayerId) -> (r: Result<
    Vec<GameEvent>,
    EngineError,
>)
    ensures
        reply::agrees(r, final(state)@, pass_reply(old(state)@, player)),
{
    proof {
        reveal(pass_reply);
    }
    match &state.waiting_for {
        WaitingFor::Priority { .. } => {},
        _ => {
            return Err(EngineError::WrongPrompt);
        },
    }
    let passes: u64 = state.consecutive_passes as u64 + 1;
    if passes < count_alive(state) as u64 && passes <= u32::MAX as u64 {
        let next = players::next_player(state, player);
        state.consecutive_passes = passes as u32;
        state.priority_player = next;
        state.waiting_for = WaitingFor::Priority { player: next };
        Ok(Vec::new())
    } else if state.stack.len() > 0 {
        resolve_top(state)
    } else {
        advance_phase(state);
        Ok(Vec::new())
    }
}

} // verus!
