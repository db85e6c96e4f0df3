//! Choosing modes and their targets (CR 603.3d, CR 700.2).
use vstd::prelude::*;

use crate::game::ability_utils;
use crate::game::effects::repeated_payment;
use crate::game::engine::reply;
use crate::game::engine::reply::{EngineError, ErrorModel, Reply};
use crate::game::engine::resume;
use crate::game::filter;
use crate::game::filter::FilterContext;
use crate::game::mana_payment;
use crate::game::outcome;
use crate::game::players;
use crate::types::ability::{
    AbilityDefinition, AbilityModel, Effect, ResolvedAbility,
};
use crate::types::action_payloads::TargetRef;
use crate::types::events::GameEvent;
use crate::types::game_state;
use crate::types::game_state::{
    GameModel, GameState, PendingTrigger, PendingTriggerModel, StackEntry, StackModel,
};
use crate::types::identifiers::{ObjectId, PlayerId};
use crate::types::mana_cost::{ManaCost, ManaUnit};
use crate::types::player::PlayerModel;
use crate::types::prompts::{PromptModel, WaitingFor};
use crate::types::target_filter::TargetFilter;

verus! {

/// What the instruction of a mode has to target, if anything.
pub open spec fn target_slot(e: Effect) -> Option<TargetFilter> {
    let f = match e {
        Effect::GainLife { target, .. } => Some(target),
        Effect::DealDamage { target, .. } => Some(target),
        Effect::Draw { target, .. } => Some(target),
        Effect::Discard { target, .. } => Some(target),
        Effect::Scry { target, .. } => Some(target),
        Effect::GiveControl { target, .. } => Some(target),
        Effect::Counter { target } => Some(target),
        Effect::LoseLife { target, .. } => target,
        _ => None,
    };
    match f {
        Some(TargetFilter::Player) => f,
        Some(TargetFilter::Typed(_)) => f,
        _ => None,
    }
}

/// The mode still needs a target.
pub open spec fn is_open(a: AbilityModel) -> bool {
    a.targets.len() == 0 && target_slot(a.effect) is Some
}

/// Position of the first mode at or after `from` that needs a target, their number without one.
pub open spec fn first_open(modes: Seq<AbilityModel>, from: int) -> int
    decreases modes.len() - from,
{
    if from >= modes.len() {
        modes.len() as int
    } else if is_open(modes[from]) {
        from
    } else {
        first_open(modes, from + 1)
    }
}

/// The modes as one chain, in order.
pub open spec fn joined(modes: Seq<AbilityModel>) -> AbilityModel
    decreases modes.len(),
{
    if modes.len() <= 1 {
        modes[0]
    } else {
        ability_utils::followed_by(joined(modes.drop_last()), modes.last())
    }
}

/// The reflexive ability goes on: the game asks for the next target, or the ability is put on the
/// stack and the active player has priority.
pub open spec fn trigger_placed(s: GameModel, t: PendingTriggerModel) -> GameModel {
    let slot = first_open(t.modes, 0);
    if slot < t.modes.len() {
        GameModel {
            pending_trigger: Some(t),
            waiting_for: PromptModel::TriggerTargetSelection {
                player: t.controller,
                source_id: t.source_id,
                slot: slot as usize,
            },
            ..s
        }
    } else {
        GameModel {
            pending_trigger: None,
            stack: s.stack.push(
                StackModel {
                    source_id: t.source_id,
                    controller: t.controller,
                    is_spell: false,
                    context: joined(t.modes).context,
                    ability: Some(joined(t.modes)),
                },
            ),
            consecutive_passes: 0,
            priority_player: s.active_player,
            waiting_for: PromptModel::Priority { player: s.active_player },
            ..s
        }
    }
}

fn effect_slot(e: &Effect) -> (r: Option<&TargetFilter>)
    ensures
        match r {
            Some(f) => target_slot(*e) == Some(*f),
            None => target_slot(*e) is None,
        },
{
    let f = match e {
        Effect::GainLife { target, .. } => Some(target),
        Effect::DealDamage { target, .. } => Some(target),
        Effect::Draw { target, .. } => Some(target),
        Effect::Discard { target, .. } => Some(target),
        Effect::Scry { target, .. } => Some(target),
        Effect::GiveControl { target, .. } => Some(target),
        Effect::Counter { target } => Some(target),
        Effect::LoseLife { target, .. } => match target {
            Some(t) => Some(t),
            None => None,
        },
        _ => None,
    };
    match f {
        Some(TargetFilter::Player) => f,
        Some(TargetFilter::Typed(_)) => f,
        _ => None,
    }
}

fn find_open(modes: &Vec<ResolvedAbility>) -> (r: usize)
    ensures
        r == first_open(game_state::ability_models(modes@), 0),
        r <= modes@.len(),
{
    let ghost models = game_state::ability_models(modes@);
    let mut i: usize = 0;
    while i < modes.len()
        invariant
            i <= modes.len(),
            models == game_state::ability_models(modes@),
            first_open(models, i as int) == first_open(models, 0),
        decreases modes.len() - i,
    {
        if modes[i].targets.len() == 0 && effect_slot(&modes[i].effect).is_some() {
            return i;
        }
        i = i + 1;
    }
    i
}

fn join(modes: Vec<ResolvedAbility>) -> (r: ResolvedAbility)
    requires
        modes@.len() > 0,
    ensures
        r@ == joined(game_state::ability_models(modes@)),
{
    let ghost models = game_state::ability_models(modes@);
    let mut left = modes;
    let mut r = left.remove(0);
    let ghost mut n: int = 1;
    assert(left@ =~= modes@.skip(1));
    assert(models.take(1)[0] == models[0]);
    while left.len() > 0
        invariant
            1 <= n <= modes@.len(),
            n + left@.len() == modes@.len(),
            left@ == modes@.skip(n),
            models == game_state::ability_models(modes@),
            r@ == joined(models.take(n)),
        decreases left.len(),
    {
        let next = left.remove(0);
        assert(next == modes@[n]);
        assert(models.take(n + 1).drop_last() =~= models.take(n));
        assert(models.take(n + 1).last() == next@);
        r = ability_utils::append_chain(r, next);
        proof {
            n = n + 1;
        }
        assert(left@ =~= modes@.skip(n));
    }
    assert(models.take(n) =~= models);
    r
}

fn place_trigger(state: &mut GameState, t: PendingTrigger)
    requires
        t.modes@.len() > 0,
    ensures
        final(state)@ == trigger_placed(old(state)@, t@),
{
    let slot: usize = find_open(&t.modes);
    if slot < t.modes.len() {
        state.waiting_for = WaitingFor::TriggerTargetSelection {
            player: t.controller,
            source_id: t.source_id,
            slot,
        };
        state.pending_trigger = Some(t);
    } else {
        let PendingTrigger { source_id, controller, modes } = t;
        let ability = join(modes);
        let context = ability.context;
        let entry = StackEntry {
            source_id,
            controller,
            is_spell: false,
            context,
            ability: Some(ability),
        };
        let ghost before = state.stack@;
        let ghost e = entry@;
        state.stack.push(entry);
        assert(game_state::stack_models(state.stack@) =~= game_state::stack_models(before).push(e));
        state.pending_trigger = None;
        state.consecutive_passes = 0;
        state.priority_player = state.active_player;
        state.waiting_for = WaitingFor::Priority { player: state.active_player };
    }
}

/// The chosen modes in printed order (CR 700.2), from the first `n` ones.
pub open spec fn chosen_modes(
    modes: Seq<AbilityDefinition>,
    indices: Seq<usize>,
    reflexive: AbilityModel,
    n: nat,
) -> Seq<AbilityModel>
    decreases n,
{
    if n == 0 {
        Seq::empty()
    } else {
        let i = (n - 1) as nat;
        let front = chosen_modes(modes, indices, reflexive, i);
        if indices.contains(i as usize) {
            front.push(
                ability_utils::resolved_from(
                    modes[i as int],
                    reflexive.source_id,
                    reflexive.controller,
                    reflexive.context,
                ),
            )
        } else {
            front
        }
    }
}

/// Different modes were chosen, each of them one that exists.
pub open spec fn valid_indices(indices: Seq<usize>, modes: nat) -> bool {
    &&& indices.no_duplicates()
    &&& forall|i: int| 0 <= i < indices.len() ==> #[trigger] indices[i] < modes
}

pub open spec fn modes_of(a: AbilityModel) -> Seq<AbilityDefinition> {
    match a.mode_abilities {
        Some(list) => (*list)@,
        None => Seq::empty(),
    }
}

/// The payment is over.
pub open spec fn frame_closed(s: GameModel) -> GameModel {
    GameModel { repeated_payment: None, ..s }
}

/// The game after the chosen modes were paid for.
pub open spec fn modes_paid(s: GameModel, player: PlayerId, cost: ManaCost, k: nat) -> GameModel {
    let i = players::seat(s, player);
    if i < s.players.len() {
        players::with_player(
            s,
            i,
            PlayerModel {
                mana: mana_payment::paid(s.players[i].mana, cost, k),
                ..s.players[i]
            },
        )
    } else {
        s
    }
}

/// The answer to an offer of modes: each chosen mode costs one payment. Choosing none declines.
#[verifier::opaque]
pub open spec fn select_reply(s: GameModel, indices: Seq<usize>) -> Reply {
    match (s.waiting_for, s.repeated_payment) {
        (PromptModel::AbilityModeChoice { modal, .. }, Some(frame)) => match frame.pending {
            Some((cost, reflexive)) => {
                let modes = modes_of(reflexive);
                let k = indices.len();
                if !valid_indices(indices, modes.len()) || k < modal.min_choices || k
                    > modal.max_choices || k > u32::MAX {
                    reply::refused(s, ErrorModel::IllegalChoice)
                } else if !mana_payment::payable(
                    repeated_payment::pool_of(s, reflexive),
                    cost,
                    k,
                ) {
                    reply::refused(s, ErrorModel::Unaffordable)
                } else if k == 0 {
                    reply::resolved(
                        resume::resumed(outcome::at(frame_closed(s), Seq::empty())),
                    )
                } else {
                    Reply {
                        state: trigger_placed(
                            frame_closed(modes_paid(s, reflexive.controller, cost, k)),
                            PendingTriggerModel {
                                source_id: reflexive.source_id,
                                controller: reflexive.controller,
                                modes: chosen_modes(modes, indices, reflexive, modes.len()),
                            },
                        ),
                        result: Ok(Seq::empty()),
                    }
                }
            },
            None => reply::refused(s, ErrorModel::WrongPrompt),
        },
        _ => reply::refused(s, ErrorModel::WrongPrompt),
    }
}

fn holds_index(indices: &Vec<usize>, i: usize, upto: usize) -> (r: bool)
    requires
        upto <= indices.len(),
    ensures
        r == indices@.take(upto as int).contains(i),
{
    let mut k: usize = 0;
    while k < upto
        invariant
            k <= upto <= indices.len(),
            forall|j: int| 0 <= j < k ==> indices@[j] != i,
        decreases upto - k,
    {
        if indices[k] == i {
            assert(indices@.take(upto as int)[k as int] == i);
            return true;
        }
        k = k + 1;
    }
    false
}

fn are_valid_indices(indices: &Vec<usize>, modes: usize) -> (r: bool)
    ensures
        r == valid_indices(indices@, modes as nat),
{
    let mut i: usize = 0;
    while i < indices.len()
        invariant
            i <= indices.len(),
            forall|j: int, k: int| 0 <= j < k < i ==> indices@[j] != indices@[k],
            forall|j: int| 0 <= j < i ==> #[trigger] indices@[j] < modes,
        decreases indices.len() - i,
    {
        if indices[i] >= modes {
            return false;
        }
        if holds_index(indices, indices[i], i) {
            proof {
                let j = choose|j: int|
                    0 <= j < i && indices@.take(i as int)[j] == indices@[i as int];
                assert(indices@[j] == indices@[i as int]);
            }
            return false;
        }
        assert forall|j: int| 0 <= j < i implies indices@[j] != indices@[i as int] by {
            assert(indices@.take(i as int)[j] == indices@[j]);
        }
        i = i + 1;
    }
    true
}

fn pick_modes(
    modes: &Vec<AbilityDefinition>,
    indices: &Vec<usize>,
    reflexive: &ResolvedAbility,
) -> (r:
    Vec<ResolvedAbility>)
    ensures
        game_state::ability_models(r@) == chosen_modes(
            modes@,
            indices@,
            reflexive@,
            modes@.len(),
        ),
{
    let mut r: Vec<ResolvedAbility> = Vec::new();
    let mut i: usize = 0;
    assert(indices@.take(indices@.len() as int) =~= indices@);
    assert(game_state::ability_models(r@) =~= chosen_modes(modes@, indices@, reflexive@, 0));
    while i < modes.len()
        invariant
            i <= modes.len(),
            indices@.take(indices@.len() as int) == indices@,
            game_state::ability_models(r@) == chosen_modes(
                modes@,
                indices@,
                reflexive@,
                i as nat,
            ),
        decreases modes.len() - i,
    {
        if holds_index(indices, i, indices.len()) {
            let mode = ability_utils::build_resolved_in_context(
                &modes[i],
                reflexive.source_id,
                reflexive.controller,
                reflexive.context,
            );
            let ghost before = r@;
            let ghost m = mode@;
            r.push(mode);
            assert(game_state::ability_models(r@) =~= game_state::ability_models(before).push(m));
        }
        i = i + 1;
    }
    r
}

/// A valid choice of at least one mode picks at least one.
proof fn lemma_some_mode_chosen(
    modes: Seq<AbilityDefinition>,
    indices: Seq<usize>,
    reflexive: AbilityModel,
    n: nat,
    i: usize,
)
    requires
        indices.contains(i),
        i < n,
    ensures
        chosen_modes(modes, indices, reflexive, n).len() > 0,
    decreases n,
{
    if i < n - 1 {
        lemma_some_mode_chosen(modes, indices, reflexive, (n - 1) as nat, i);
    }
}

fn pay_for_modes(state: &mut GameState, player: PlayerId, cost: &ManaCost, k: u32)
    ensures
        final(state)@ == modes_paid(old(state)@, player, *cost, k as nat),
{
    let i: usize = players::find_player(state, player);
    if i < state.players.len() {
        let mana = mana_payment::pay(&state.players[i].mana_pool.mana, cost, k);
        state.players[i].mana_pool.mana = mana;
        proof {
            players::lemma_player_update(old(state).players@, i as int, state.players@[i as int]);
            assert(state@ =~= modes_paid(old(state)@, player, *cost, k as nat));
        }
    }
}

fn can_afford(state: &GameState, reflexive: &ResolvedAbility, cost: &ManaCost, k: u32) -> (r: bool)
    ensures
        r == mana_payment::payable(
            repeated_payment::pool_of(state@, reflexive@),
            *cost,
            k as nat,
        ),
{
    let i: usize = players::find_player(state, reflexive.controller);
    if i < state.players.len() {
        mana_payment::can_pay(&state.players[i].mana_pool.mana, cost, k)
    } else {
        let none: Vec<ManaUnit> = Vec::new();
        mana_payment::can_pay(&none, cost, k)
    }
}

pub fn select_modes(state: &mut GameState, indices: Vec<usize>) -> (r: Result<
    Vec<GameEvent>,
    EngineError,
>)
    ensures
        reply::agrees(r, final(state)@, select_reply(old(state)@, indices@)),
{
    proof {
        reveal(select_reply);
    }
    let (min, max) = match &state.waiting_for {
        WaitingFor::AbilityModeChoice { modal, .. } => (modal.min_choices, modal.max_choices),
        _ => {
            return Err(EngineError::WrongPrompt);
        },
    };
    let k: usize = indices.len();
    let (cost, trigger) = match &state.repeated_payment {
        None => {
            return Err(EngineError::WrongPrompt);
        },
        Some(frame) => match &frame.pending {
            None => {
                return Err(EngineError::WrongPrompt);
            },
            Some(pending) => {
                let reflexive = &*pending.reflexive;
                let count: usize = match &reflexive.mode_abilities {
                    Some(list) => list.len(),
                    None => 0,
                };
                if !are_valid_indices(&indices, count) || k < min || k > max || k
                    > u32::MAX as usize {
                    return Err(EngineError::IllegalChoice);
                }
                if !can_afford(state, reflexive, &pending.cost, k as u32) {
                    return Err(EngineError::Unaffordable);
                }
                let modes = match &reflexive.mode_abilities {
                    Some(list) => pick_modes(list, &indices, reflexive),
                    None => Vec::new(),
                };
                proof {
                    if k > 0 {
                        assert(indices@.contains(indices@[0]));
                        lemma_some_mode_chosen(
                            modes_of(reflexive@),
                            indices@,
                            reflexive@,
                            modes_of(reflexive@).len(),
                            indices@[0],
                        );
                    }
                }
                (
                    pending.cost,
                    PendingTrigger {
                        source_id: reflexive.source_id,
                        controller: reflexive.controller,
                        modes,
                    },
                )
            },
        },
    };
    if k == 0 {
        state.repeated_payment = None;
        let mut events: Vec<GameEvent> = Vec::new();
        let r = resume::resume(state, &mut events);
        return reply::conclude(r, events);
    }
    pay_for_modes(state, trigger.controller, &cost, k as u32);
    state.repeated_payment = None;
    place_trigger(state, trigger);
    Ok(Vec::new())
}

/// The target is one that the mode can have (CR 115.4).
pub open spec fn legal_target(
    s: GameModel,
    controller: PlayerId,
    f: TargetFilter,
    t: TargetRef,
) -> bool {
    match (f, t) {
        (TargetFilter::Player, TargetRef::Player(p)) => players::alive(s, p),
        (TargetFilter::Typed(_), TargetRef::Object(id)) => s.battlefield.contains(id)
            && filter::object_matches(s, id, f, FilterContext { controller: Some(controller) }),
        _ => false,
    }
}

/// The answer to a prompt for a target of one mode.
#[verifier::opaque]
pub open spec fn target_reply(s: GameModel, target: Option<TargetRef>) -> Reply {
    match (s.waiting_for, s.pending_trigger) {
        (PromptModel::TriggerTargetSelection { .. }, Some(t)) => {
            let slot = first_open(t.modes, 0);
            if slot >= t.modes.len() {
                reply::refused(s, ErrorModel::WrongPrompt)
            } else {
                let mode = t.modes[slot];
                match target {
                    Some(r) => if legal_target(
                        s,
                        t.controller,
                        target_slot(mode.effect)->Some_0,
                        r,
                    ) {
                        let filled = AbilityModel { targets: seq![r], ..mode };
                        Reply {
                            state: trigger_placed(
                                s,
                                PendingTriggerModel { modes: t.modes.update(slot, filled), ..t },
                            ),
                            result: Ok(Seq::empty()),
                        }
                    } else {
                        reply::refused(s, ErrorModel::IllegalChoice)
                    },
                    None => reply::refused(s, ErrorModel::IllegalChoice),
                }
            }
        },
        _ => reply::refused(s, ErrorModel::WrongPrompt),
    }
}

fn on_battlefield(state: &GameState, id: ObjectId) -> (r: bool)
    ensures
        r == state@.battlefield.contains(id),
{
    let mut i: usize = 0;
    while i < state.battlefield.len()
        invariant
            i <= state.battlefield.len(),
            forall|j: int| 0 <= j < i ==> state.battlefield@[j] != id,
        decreases state.battlefield.len() - i,
    {
        if state.battlefield[i] == id {
            return true;
        }
        i = i + 1;
    }
    false
}

fn is_legal_target(
    state: &GameState,
    controller: PlayerId,
    f: &TargetFilter,
    t: TargetRef,
) -> (r: bool)
    ensures
        r == legal_target(state@, controller, *f, t),
{
    match (f, t) {
        (TargetFilter::Player, TargetRef::Player(p)) => players::is_alive(state, p),
        (TargetFilter::Typed(_), TargetRef::Object(id)) => on_battlefield(state, id)
            && filter::matches_target_filter(
            state,
            id,
            f,
            &FilterContext { controller: Some(controller) },
        ),
        _ => false,
    }
}

proof fn lemma_first_open(modes: Seq<AbilityModel>, from: int)
    requires
        0 <= from <= modes.len(),
    ensures
        from <= first_open(modes, from) <= modes.len(),
        first_open(modes, from) < modes.len() ==> is_open(modes[first_open(modes, from)]),
    decreases modes.len() - from,
{
    if from < modes.len() && !is_open(modes[from]) {
        lemma_first_open(modes, from + 1);
    }
}

pub fn choose_target(state: &mut GameState, target: Option<TargetRef>) -> (r: Result<
    Vec<GameEvent>,
    EngineError,
>)
    ensures
        reply::agrees(r, final(state)@, target_reply(old(state)@, target)),
{
    proof {
        reveal(target_reply);
    }
    match &state.waiting_for {
        WaitingFor::TriggerTargetSelection { .. } => {},
        _ => {
            return Err(EngineError::WrongPrompt);
        },
    }
    let (slot, chosen) = match &state.pending_trigger {
        None => {
            return Err(EngineError::WrongPrompt);
        },
        Some(t) => {
            let slot: usize = find_open(&t.modes);
            proof {
                lemma_first_open(t@.modes, 0);
            }
            if slot >= t.modes.len() {
                return Err(EngineError::WrongPrompt);
            }
            match (target, effect_slot(&t.modes[slot].effect)) {
                (Some(r), Some(f)) => if is_legal_target(state, t.controller, f, r) {
                    (slot, r)
                } else {
                    return Err(EngineError::IllegalChoice);
                },
                _ => {
                    return Err(EngineError::IllegalChoice);
                },
            }
        },
    };
    match state.pending_trigger.take() {
        None => Err(EngineError::WrongPrompt),
        Some(t) => {
            let mut t = t;
            let ghost before = t@;
            let mut targets: Vec<TargetRef> = Vec::new();
            targets.push(chosen);
            t.modes[slot].targets = targets;
            proof {
                let filled = AbilityModel {
                    targets: seq![chosen],
                    ..before.modes[slot as int]
                };
                assert(t.modes@[slot as int]@ == filled);
                assert(t@.modes =~= before.modes.update(slot as int, filled));
            }
            place_trigger(state, t);
            Ok(Vec::new())
        },
    }
}

} // verus!
