//! What holds of chosen modes and their targets.
use vstd::prelude::*;

use crate::game::ability_utils;
use crate::game::effects::round_laws;
use crate::game::engine::modes;
use crate::game::engine::reply::ErrorModel;
use crate::game::filter;
use crate::game::filter::FilterContext;
use crate::game::mana_laws;
use crate::game::mana_payment;
use crate::types::ability::{AbilityDefinition, AbilityModel, Effect, SpellContext};
use crate::types::action_payloads::TargetRef;
use crate::types::events::GameEvent;
use crate::types::game_state::{GameModel, PendingTriggerModel};
use crate::types::identifiers::{ObjectId, PlayerId};
use crate::types::mana_cost::ManaCost;
use crate::types::player::PlayerModel;
use crate::types::prompts::PromptModel;
use crate::types::target_filter::TargetFilter;

verus! {

/// The instruction applies to what the filter describes.
pub open spec fn applies_to(e: Effect, f: TargetFilter) -> bool {
    match e {
        Effect::GainLife { target, .. } | Effect::DealDamage { target, .. } | Effect::Draw {
            target,
            ..
        } | Effect::Discard { target, .. } | Effect::Scry { target, .. } | Effect::GiveControl {
            target,
            ..
        } | Effect::Counter { target } => target == f,
        Effect::LoseLife { target, .. } => target == Some(f),
        _ => false,
    }
}

/// A mode needs a target exactly if it has none and its instruction applies to a target player or to
/// a permanent of a kind.
pub proof fn what_needs_a_target(a: AbilityModel)
    ensures
        modes::is_open(a) <==> a.targets.len() == 0 && exists|f: TargetFilter| #[trigger]
            applies_to(a.effect, f) && (f is Player || f is Typed),
{
    if modes::is_open(a) {
        assert(applies_to(a.effect, modes::target_slot(a.effect)->Some_0));
    }
}

/// The filter that a target has to meet is that of the instruction.
pub proof fn targets_meet_the_filter_of_the_instruction(e: Effect, f: TargetFilter)
    requires
        applies_to(e, f),
        f is Player || f is Typed,
    ensures
        modes::target_slot(e) == Some(f),
{
}

/// Players in the game can be targeted, and permanents that the filter of the instruction describes,
/// as its controller sees it. Nothing else can.
pub proof fn what_can_be_targeted(
    s: GameModel,
    controller: PlayerId,
    f: TargetFilter,
    p: PlayerId,
    id: ObjectId,
    i: int,
)
    requires
        round_laws::listed_at(s, p, i),
    ensures
        modes::legal_target(s, controller, f, TargetRef::Player(p)) <==> f is Player
            && !s.players[i].is_eliminated,
        modes::legal_target(s, controller, f, TargetRef::Object(id)) <==> f is Typed
            && s.battlefield.contains(id) && filter::object_matches(
            s,
            id,
            f,
            FilterContext { controller: Some(controller) },
        ),
{
    round_laws::lemma_listed_at(s, p, i);
}

/// The mode in a place is the first one that still needs a target.
pub open spec fn first_without_target(list: Seq<AbilityModel>, k: int) -> bool {
    &&& 0 <= k < list.len()
    &&& modes::is_open(list[k])
    &&& forall|j: int| 0 <= j < k ==> !modes::is_open(#[trigger] list[j])
}

proof fn lemma_first_without_target(list: Seq<AbilityModel>, from: int, k: int)
    requires
        first_without_target(list, k),
        0 <= from <= k,
    ensures
        modes::first_open(list, from) == k,
    decreases k - from,
{
    if from < k {
        assert(!modes::is_open(list[from]));
        lemma_first_without_target(list, from + 1, k);
    }
}

proof fn lemma_all_have_targets(list: Seq<AbilityModel>, from: int)
    requires
        0 <= from <= list.len(),
        forall|j: int| 0 <= j < list.len() ==> !modes::is_open(#[trigger] list[j]),
    ensures
        modes::first_open(list, from) == list.len(),
    decreases list.len() - from,
{
    if from < list.len() {
        assert(!modes::is_open(list[from]));
        lemma_all_have_targets(list, from + 1);
    }
}

/// The controller is asked for the targets one after the other, in the order of the modes.
pub proof fn targets_are_asked_for_in_order(s: GameModel, t: PendingTriggerModel, k: int)
    requires
        first_without_target(t.modes, k),
        k <= usize::MAX,
    ensures
        modes::trigger_placed(s, t) == (GameModel {
            pending_trigger: Some(t),
            waiting_for: PromptModel::TriggerTargetSelection {
                player: t.controller,
                source_id: t.source_id,
                slot: k as usize,
            },
            ..s
        }),
{
    lemma_first_without_target(t.modes, 0, k);
}

/// The instructions of an ability one after the other, each with its targets.
pub open spec fn steps(a: AbilityModel) -> Seq<(Effect, Seq<TargetRef>)>
    decreases a,
{
    match a.sub_ability {
        Some(sub) => seq![(a.effect, a.targets)] + steps(*sub),
        None => seq![(a.effect, a.targets)],
    }
}

/// The instructions of several abilities one after the other.
pub open spec fn steps_of_all(list: Seq<AbilityModel>) -> Seq<(Effect, Seq<TargetRef>)>
    decreases list.len(),
{
    if list.len() == 0 {
        Seq::empty()
    } else {
        steps(list[0]) + steps_of_all(list.drop_first())
    }
}

/// An ability that follows another one adds its instructions at the end.
pub proof fn following_abilities_add_their_instructions(a: AbilityModel, b: AbilityModel)
    ensures
        steps(ability_utils::followed_by(a, b)) == steps(a) + steps(b),
        ability_utils::followed_by(a, b).effect == a.effect,
        ability_utils::followed_by(a, b).targets == a.targets,
        ability_utils::followed_by(a, b).context == a.context,
        ability_utils::followed_by(a, b).controller == a.controller,
        ability_utils::followed_by(a, b).source_id == a.source_id,
        ability_utils::followed_by(a, b).condition == a.condition,
    decreases a,
{
    match a.sub_ability {
        Some(sub) => {
            following_abilities_add_their_instructions(*sub, b);
            assert(steps(ability_utils::followed_by(a, b)) =~= steps(a) + steps(b));
        },
        None => {
            assert(steps(ability_utils::followed_by(a, b)) =~= steps(a) + steps(b));
        },
    }
}

proof fn lemma_steps_of_all(list: Seq<AbilityModel>)
    requires
        list.len() > 0,
    ensures
        steps_of_all(list) == steps_of_all(list.drop_last()) + steps(list.last()),
    decreases list.len(),
{
    if list.len() == 1 {
        assert(steps_of_all(list.drop_first()) =~= Seq::empty());
        assert(steps_of_all(list) =~= steps(list[0]));
        assert(steps_of_all(list.drop_last()) + steps(list.last()) =~= steps(list[0]));
    } else {
        lemma_steps_of_all(list.drop_first());
        assert(list.drop_first().drop_last() =~= list.drop_last().drop_first());
        assert(steps_of_all(list) =~= steps_of_all(list.drop_last()) + steps(list.last()));
    }
}

proof fn lemma_joined(list: Seq<AbilityModel>)
    requires
        list.len() > 0,
    ensures
        steps(modes::joined(list)) == steps_of_all(list),
        modes::joined(list).context == list[0].context,
    decreases list.len(),
{
    lemma_steps_of_all(list);
    if list.len() > 1 {
        lemma_joined(list.drop_last());
        following_abilities_add_their_instructions(modes::joined(list.drop_last()), list.last());
    } else {
        assert(steps_of_all(list.drop_last()) =~= Seq::empty());
        assert(steps_of_all(list) =~= steps(list[0]));
    }
}

/// Once no target is missing, the modes go on the stack as one ability of its controller, which has
/// the instructions of all modes in order. The active player has priority next.
pub proof fn complete_triggers_go_on_the_stack(s: GameModel, t: PendingTriggerModel, k: int)
    requires
        t.modes.len() > 0,
        forall|j: int| 0 <= j < t.modes.len() ==> !modes::is_open(#[trigger] t.modes[j]),
    ensures
        ({
            let r = modes::trigger_placed(s, t);
            &&& r == (GameModel {
                pending_trigger: None,
                stack: r.stack,
                consecutive_passes: 0,
                priority_player: s.active_player,
                waiting_for: PromptModel::Priority { player: s.active_player },
                ..s
            })
            &&& r.stack.len() == s.stack.len() + 1
            &&& 0 <= k < s.stack.len() ==> r.stack[k] == s.stack[k]
            &&& r.stack.last().source_id == t.source_id
            &&& r.stack.last().controller == t.controller
            &&& !r.stack.last().is_spell
            &&& r.stack.last().context == t.modes[0].context
            &&& r.stack.last().ability matches Some(a) && steps(a) == steps_of_all(t.modes)
        }),
{
    lemma_all_have_targets(t.modes, 0);
    lemma_joined(t.modes);
}

/// A chosen target that is legal becomes the only target of the mode that it was asked for; the other
/// modes stay as they are.
pub proof fn chosen_targets_are_taken(s: GameModel, t: PendingTriggerModel, r: TargetRef, k: int)
    requires
        s.waiting_for is TriggerTargetSelection,
        s.pending_trigger == Some(t),
        first_without_target(t.modes, k),
        exists|f: TargetFilter| #[trigger]
            applies_to(t.modes[k].effect, f) && modes::legal_target(s, t.controller, f, r),
    ensures
        modes::target_reply(s, Some(r)).result == Ok::<Seq<GameEvent>, ErrorModel>(Seq::empty()),
        modes::target_reply(s, Some(r)).state == modes::trigger_placed(
            s,
            PendingTriggerModel {
                source_id: t.source_id,
                controller: t.controller,
                modes: t.modes.update(k, AbilityModel { targets: seq![r], ..t.modes[k] }),
            },
        ),
{
    reveal(modes::target_reply);
    lemma_first_without_target(t.modes, 0, k);
}

/// Without a target, or with one that is not legal, the answer is refused, and nothing changes.
pub proof fn impossible_targets_are_refused(
    s: GameModel,
    t: PendingTriggerModel,
    target: Option<TargetRef>,
    k: int,
)
    requires
        s.waiting_for is TriggerTargetSelection,
        s.pending_trigger == Some(t),
        first_without_target(t.modes, k),
        target matches Some(r) ==> forall|f: TargetFilter| #[trigger]
            applies_to(t.modes[k].effect, f) ==> !modes::legal_target(s, t.controller, f, r),
    ensures
        modes::target_reply(s, target).state == s,
        modes::target_reply(s, target).result == Err::<Seq<GameEvent>, ErrorModel>(
            ErrorModel::IllegalChoice,
        ),
{
    reveal(modes::target_reply);
    lemma_first_without_target(t.modes, 0, k);
    assert(applies_to(t.modes[k].effect, modes::target_slot(t.modes[k].effect)->Some_0));
}

/// A printed ability that comes to resolve has the printed instruction and no targets yet; it and
/// what follows it belong to the given source and controller, and know what was decided while the
/// spell was cast.
pub proof fn printed_abilities_resolve_as_printed(
    def: AbilityDefinition,
    source_id: ObjectId,
    controller: PlayerId,
    context: SpellContext,
)
    ensures
        ({
            let a = ability_utils::resolved_from(def, source_id, controller, context);
            &&& a.effect == *def.effect
            &&& a.targets.len() == 0
            &&& a.source_id == source_id
            &&& a.controller == controller
            &&& a.context == context
            &&& a.condition == def.condition
            &&& a.optional == def.optional
            &&& a.repeat_for == def.repeat_for
            &&& a.modal == def.modal
            &&& a.mode_abilities == def.mode_abilities
            &&& a.replacement_applied.len() == 0
            &&& a.sub_ability is Some <==> def.sub_ability is Some
            &&& def.sub_ability matches Some(sub) ==> {
                let b = *a.sub_ability->Some_0;
                &&& b.effect == *(*sub).effect
                &&& b.targets.len() == 0
                &&& b.source_id == source_id
                &&& b.controller == controller
                &&& b.context == context
                &&& b.condition == (*sub).condition
                &&& b.sub_ability is Some <==> (*sub).sub_ability is Some
            }
        }),
{
    reveal_with_fuel(ability_utils::resolved_from, 3);
}

/// The game offers modes for a cost to the player in a place.
pub open spec fn offers(s: GameModel, cost: ManaCost, a: AbilityModel, i: int) -> bool {
    &&& s.waiting_for is AbilityModeChoice
    &&& s.repeated_payment matches Some(frame) && frame.pending == Some((cost, a))
    &&& round_laws::listed_at(s, a.controller, i)
}

/// Modes that are chosen are paid for from the pool of the controller, once each, and then wait for
/// their targets or go on the stack.
pub proof fn chosen_modes_are_paid_for(
    s: GameModel,
    cost: ManaCost,
    a: AbilityModel,
    indices: Seq<usize>,
    i: int,
)
    requires
        offers(s, cost, a, i),
        a.mode_abilities is Some,
        indices.no_duplicates(),
        forall|k: int|
            0 <= k < indices.len() ==> #[trigger] indices[k] < (*a.mode_abilities->Some_0)@.len(),
        s.waiting_for->AbilityModeChoice_modal.min_choices <= indices.len()
            <= s.waiting_for->AbilityModeChoice_modal.max_choices,
        0 < indices.len() <= u32::MAX,
        mana_payment::payable(s.players[i].mana, cost, indices.len()),
    ensures
        ({
            let r = modes::select_reply(s, indices);
            let list = (*a.mode_abilities->Some_0)@;
            &&& r.result == Ok::<Seq<GameEvent>, ErrorModel>(Seq::empty())
            &&& r.state == modes::trigger_placed(
                GameModel {
                    repeated_payment: None,
                    players: s.players.update(
                        i,
                        PlayerModel {
                            mana: mana_payment::paid(s.players[i].mana, cost, indices.len()),
                            ..s.players[i]
                        },
                    ),
                    ..s
                },
                PendingTriggerModel {
                    source_id: a.source_id,
                    controller: a.controller,
                    modes: modes::chosen_modes(list, indices, a, list.len()),
                },
            )
        }),
{
    reveal(modes::select_reply);
    round_laws::lemma_listed_at(s, a.controller, i);
}

/// Modes that the pool cannot pay for are refused, and nothing changes.
pub proof fn unpaid_modes_are_refused(
    s: GameModel,
    cost: ManaCost,
    a: AbilityModel,
    indices: Seq<usize>,
    i: int,
)
    requires
        offers(s, cost, a, i),
        !mana_payment::payable(s.players[i].mana, cost, indices.len()),
    ensures
        modes::select_reply(s, indices).state == s,
        modes::select_reply(s, indices).result is Err,
{
    reveal(modes::select_reply);
    round_laws::lemma_listed_at(s, a.controller, i);
}

/// Who chooses no mode declines: nothing is paid, and the offer is over.
pub proof fn declined_offers_cost_nothing(s: GameModel, cost: ManaCost, a: AbilityModel, i: int)
    requires
        offers(s, cost, a, i),
        s.waiting_for->AbilityModeChoice_modal.min_choices == 0,
        s.pending_continuation is None,
    ensures
        modes::select_reply(s, Seq::empty()).result == Ok::<Seq<GameEvent>, ErrorModel>(
            Seq::empty(),
        ),
        modes::select_reply(s, Seq::empty()).state == (GameModel {
            repeated_payment: None,
            waiting_for: PromptModel::Priority { player: s.priority_player },
            ..s
        }),
{
    reveal(modes::select_reply);
    round_laws::lemma_listed_at(s, a.controller, i);
    mana_laws::what_a_pool_can_pay(s.players[i].mana, cost, 0);
}

} // verus!
