//! What holds of modes that are bought with a repeated payment.
use vstd::prelude::*;

use crate::game::ability_utils;
use crate::game::effects::basic;
use crate::game::effects::repeated_payment;
use crate::game::engine::modes;
use crate::game::engine::reply::ErrorModel;
use crate::game::mana_payment;
use crate::game::players;
use crate::game::quantity;
use crate::types::ability::{AbilityDefinition, AbilityModel};
use crate::types::events::GameEvent;
use crate::types::game_state::GameModel;
use crate::types::prompts::PromptModel;

verus! {

/// Each chosen mode costs one payment, and nothing more is paid.
pub proof fn each_mode_costs_one_payment(s: GameModel, indices: Seq<usize>)
    requires
        s.repeated_payment is Some,
        s.repeated_payment->Some_0.pending is Some,
        indices.len() > 0,
        players::seat(s, s.repeated_payment->Some_0.pending->Some_0.1.controller)
            < s.players.len(),
        modes::select_reply(s, indices).result is Ok,
    ensures
        ({
            let (cost, reflexive) = s.repeated_payment->Some_0.pending->Some_0;
            let i = players::seat(s, reflexive.controller);
            modes::select_reply(s, indices).state.players[i].mana.len() + indices.len()
                * cost.total() == s.players[i].mana.len()
        }),
{
    reveal(modes::select_reply);
    let (cost, reflexive) = s.repeated_payment->Some_0.pending->Some_0;
    let i = players::seat(s, reflexive.controller);
    players::lemma_player_index(s.players, reflexive.controller, 0);
    mana_payment::payment_spends_the_cost(s.players[i].mana, cost, indices.len());
}

/// Whatever selection an offer allows, the controller can pay for it.
pub proof fn offered_modes_are_affordable(s: GameModel, a: AbilityModel, indices: Seq<usize>)
    requires
        repeated_payment::offers_modes(a),
        indices.len() <= repeated_payment::mode_cap(s, a),
    ensures
        mana_payment::payable(
            repeated_payment::pool_of(s, a),
            a.effect->PayCost_cost,
            indices.len(),
        ),
{
    let pool = repeated_payment::pool_of(s, a);
    let cost = a.effect->PayCost_cost;
    let limit = basic::count_of(
        quantity::quantity(s, a.controller, a.repeat_for->Some_0),
    ) as nat;
    mana_payment::lemma_affordable_bound(pool, cost, limit);
    mana_payment::affordable_is_the_most(pool, cost, limit, indices.len());
}

/// How many modes are offered: as many as the pool can pay for, but no more than there are and no more
/// than the text allows.
pub proof fn the_offer_is_as_large_as_it_can_be(s: GameModel, a: AbilityModel, limit: nat)
    requires
        repeated_payment::offers_modes(a),
        limit == if quantity::quantity(s, a.controller, a.repeat_for->Some_0) > 0 {
            quantity::quantity(s, a.controller, a.repeat_for->Some_0)
        } else {
            0
        },
    ensures
        ({
            let cap = repeated_payment::mode_cap(s, a);
            let modes = (*a.sub_ability->Some_0.mode_abilities->Some_0)@.len();
            let pool = repeated_payment::pool_of(s, a);
            let cost = a.effect->PayCost_cost;
            &&& 0 <= cap <= modes
            &&& cap <= limit
            &&& mana_payment::payable(pool, cost, cap as nat)
            &&& cap < modes && cap < limit ==> !mana_payment::payable(pool, cost, (cap + 1) as nat)
        }),
{
    let cap = repeated_payment::mode_cap(s, a);
    let pool = repeated_payment::pool_of(s, a);
    let cost = a.effect->PayCost_cost;
    mana_payment::lemma_affordable_bound(pool, cost, limit);
    if cap <= limit {
        mana_payment::affordable_is_the_most(pool, cost, limit, cap as nat);
    }
    if cap + 1 <= limit {
        mana_payment::affordable_is_the_most(pool, cost, limit, (cap + 1) as nat);
    }
}

/// The offer asks the controller once, for no more modes than can be bought, each at the same cost.
/// Nothing has been paid yet.
pub proof fn what_an_offer_asks(s: GameModel, a: AbilityModel, k: int)
    requires
        repeated_payment::offers_modes(a),
        (*a.sub_ability->Some_0.mode_abilities->Some_0)@.len() <= usize::MAX,
    ensures
        ({
            let t = repeated_payment::offered(s, a);
            let n = (*a.sub_ability->Some_0.mode_abilities->Some_0)@.len();
            let cost = a.effect->PayCost_cost;
            &&& t == (GameModel {
                waiting_for: t.waiting_for,
                repeated_payment: t.repeated_payment,
                ..s
            })
            &&& t.waiting_for matches PromptModel::AbilityModeChoice { player, modal, source_id }
                && {
                &&& player == a.controller
                &&& source_id == a.source_id
                &&& modal.max_choices == repeated_payment::mode_cap(s, a)
                &&& modal.mode_count == n
                &&& modal.mode_costs.len() == n
                &&& 0 <= k < n ==> modal.mode_costs[k] == cost
            }
            &&& t.repeated_payment matches Some(frame) && {
                &&& frame.optional_cost_payments_this_resolution == 0
                &&& frame.pending matches Some((owed, _)) && owed == cost
            }
        }),
{
    let pool = repeated_payment::pool_of(s, a);
    let limit = basic::count_of(
        quantity::quantity(s, a.controller, a.repeat_for->Some_0),
    ) as nat;
    mana_payment::lemma_affordable_bound(pool, a.effect->PayCost_cost, limit);
}

/// A choice of a mode that does not exist, of one mode twice, or of more modes than were offered is
/// refused, and changes nothing.
pub proof fn impossible_choices_are_refused(s: GameModel, indices: Seq<usize>, i: int, j: int)
    requires
        s.waiting_for is AbilityModeChoice,
        s.repeated_payment is Some,
        s.repeated_payment->Some_0.pending is Some,
        ({
            let a = s.repeated_payment->Some_0.pending->Some_0.1;
            let modal = s.waiting_for->AbilityModeChoice_modal;
            ||| indices.len() > modal.max_choices
            ||| indices.len() < modal.min_choices
            ||| 0 <= i < j < indices.len() && indices[i] == indices[j]
            ||| 0 <= i < indices.len() && indices[i] >= modes::modes_of(a).len()
        }),
    ensures
        modes::select_reply(s, indices).state == s,
        modes::select_reply(s, indices).result == Err::<Seq<GameEvent>, ErrorModel>(
            ErrorModel::IllegalChoice,
        ),
{
    reveal(modes::select_reply);
}

/// The modes that are put together are those chosen, and no others, each as printed.
pub proof fn chosen_modes_are_those_chosen(
    list: Seq<AbilityDefinition>,
    indices: Seq<usize>,
    a: AbilityModel,
    n: nat,
    p: int,
) -> (i: int)
    requires
        n <= list.len() <= usize::MAX,
        0 <= p < modes::chosen_modes(list, indices, a, n).len(),
    ensures
        0 <= i < n,
        indices.contains(i as usize),
        modes::chosen_modes(list, indices, a, n)[p] == ability_utils::resolved_from(
            list[i],
            a.source_id,
            a.controller,
            a.context,
        ),
    decreases n,
{
    let m = (n - 1) as nat;
    let front = modes::chosen_modes(list, indices, a, m);
    if p < front.len() {
        chosen_modes_are_those_chosen(list, indices, a, m, p)
    } else {
        m as int
    }
}

/// Every chosen mode is put together with the others, in printed order.
pub proof fn chosen_modes_are_in_printed_order(
    list: Seq<AbilityDefinition>,
    indices: Seq<usize>,
    a: AbilityModel,
    n: nat,
    i: int,
    j: int,
) -> (r: (int, int))
    requires
        n <= list.len() <= usize::MAX,
        0 <= i < j < n,
        indices.contains(i as usize),
        indices.contains(j as usize),
    ensures
        0 <= r.0 < r.1 < modes::chosen_modes(list, indices, a, n).len(),
        modes::chosen_modes(list, indices, a, n)[r.0] == ability_utils::resolved_from(
            list[i],
            a.source_id,
            a.controller,
            a.context,
        ),
        modes::chosen_modes(list, indices, a, n)[r.1] == ability_utils::resolved_from(
            list[j],
            a.source_id,
            a.controller,
            a.context,
        ),
    decreases n,
{
    let m = (n - 1) as nat;
    let front = modes::chosen_modes(list, indices, a, m);
    if j < m {
        chosen_modes_are_in_printed_order(list, indices, a, m, i, j)
    } else {
        let p = lemma_chosen_place(list, indices, a, m, i);
        (p, front.len() as int)
    }
}

proof fn lemma_chosen_place(
    list: Seq<AbilityDefinition>,
    indices: Seq<usize>,
    a: AbilityModel,
    n: nat,
    i: int,
) -> (p: int)
    requires
        n <= list.len() <= usize::MAX,
        0 <= i < n,
        indices.contains(i as usize),
    ensures
        0 <= p < modes::chosen_modes(list, indices, a, n).len(),
        modes::chosen_modes(list, indices, a, n)[p] == ability_utils::resolved_from(
            list[i],
            a.source_id,
            a.controller,
            a.context,
        ),
    decreases n,
{
    let m = (n - 1) as nat;
    if i < m {
        lemma_chosen_place(list, indices, a, m, i)
    } else {
        modes::chosen_modes(list, indices, a, m).len() as int
    }
}

} // verus!
