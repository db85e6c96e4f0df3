//! Costs that may be paid several times for as many modes (CR 603.12a, CR 700.2d).
//!
//! "You may pay {1} up to three times. When you do, choose up to that many." The game offers the
//! modes once, capped by what the player can afford, and takes the payment with the answer.
use vstd::prelude::*;

use crate::game::effects::basic;
use crate::game::mana_payment;
use crate::game::players;
use crate::game::quantity;
use crate::types::ability::{
    AbilityCondition, AbilityModel, Effect, ModalChoice, ModalModel,
    ResolvedAbility,
};
use crate::types::game_state::{
    GameModel, GameState, PaymentFrameModel, PendingRepeatedPayment, RepeatedOptionalPaymentFrame,
};
use crate::types::mana_cost::{ManaCost, ManaUnit};
use crate::types::prompts::{PromptModel, WaitingFor};

verus! {

/// The ability offers a repeated payment and, under "when you do", the modes that it buys.
pub open spec fn offers_modes(a: AbilityModel) -> bool {
    &&& a.effect is PayCost
    &&& a.optional
    &&& a.repeat_for is Some
    &&& a.sub_ability matches Some(sub) && {
        &&& sub.condition == Some(AbilityCondition::WhenYouDo)
        &&& sub.modal is Some
        &&& sub.mode_abilities is Some
    }
}

/// The unspent mana of a player.
pub open spec fn pool_of(s: GameModel, a: AbilityModel) -> Seq<ManaUnit> {
    let i = players::seat(s, a.controller);
    if i < s.players.len() {
        s.players[i].mana
    } else {
        Seq::empty()
    }
}

pub open spec fn least(a: int, b: int) -> int {
    if a < b {
        a
    } else {
        b
    }
}

/// How many modes the controller can buy: as many as there are, as the text allows and as the
/// pool affords.
pub open spec fn mode_cap(s: GameModel, a: AbilityModel) -> int {
    let cost = a.effect->PayCost_cost;
    let modes = (*a.sub_ability->Some_0.mode_abilities->Some_0)@.len();
    let limit = quantity::quantity(s, a.controller, a.repeat_for->Some_0);
    least(
        modes as int,
        mana_payment::affordable(
            pool_of(s, a),
            cost,
            basic::count_of(limit) as nat,
        ) as int,
    )
}

/// The modes are offered once; the payment waits for the answer.
pub open spec fn offered(s: GameModel, a: AbilityModel) -> GameModel {
    let sub = *a.sub_ability->Some_0;
    let reflexive = AbilityModel {
        targets: if sub.targets.len() == 0 {
            a.targets
        } else {
            sub.targets
        },
        ..sub
    };
    let modal = *sub.modal->Some_0;
    let modes = (*sub.mode_abilities->Some_0)@.len();
    let cost = a.effect->PayCost_cost;
    GameModel {
        waiting_for: PromptModel::AbilityModeChoice {
            player: a.controller,
            modal: ModalModel {
                min_choices: modal.min_choices,
                max_choices: mode_cap(s, a) as usize,
                mode_count: modes as usize,
                dynamic_max_choices: modal.dynamic_max_choices,
                mode_costs: Seq::new(modes, |i: int| cost),
            },
            source_id: a.source_id,
        },
        repeated_payment: Some(
            PaymentFrameModel {
                optional_cost_payments_this_resolution: 0,
                pending: Some((cost, reflexive)),
            },
        ),
        ..s
    }
}

/// Whether the ability offers modes for a repeated payment.
pub fn is_mode_offer(a: &ResolvedAbility) -> (r: bool)
    ensures
        r == offers_modes(a@),
{
    let pays = match &*a.effect {
        Effect::PayCost { .. } => true,
        _ => false,
    };
    if !pays || !a.optional || a.repeat_for.is_none() {
        return false;
    }
    match &a.sub_ability {
        None => false,
        Some(sub) => {
            assert(a@.sub_ability == Some(Box::new(sub@)));
            let when_you_do = match sub.condition {
                Some(AbilityCondition::WhenYouDo) => true,
                _ => false,
            };
            when_you_do && sub.modal.is_some() && sub.mode_abilities.is_some()
        },
    }
}

fn repeat_cost(cost: ManaCost, n: usize) -> (r: Vec<ManaCost>)
    ensures
        r@ == Seq::new(n as nat, |i: int| cost),
{
    let mut r: Vec<ManaCost> = Vec::new();
    while r.len() < n
        invariant
            r.len() <= n,
            forall|j: int| 0 <= j < r.len() ==> r@[j] == cost,
        decreases n - r.len(),
    {
        r.push(cost);
    }
    assert(r@ =~= Seq::new(n as nat, |i: int| cost));
    r
}

/// An amount as a count, none if it is negative.
pub fn as_count(n: i64) -> (r: u32)
    requires
        n <= u32::MAX,
    ensures
        r == basic::count_of(n as int),
{
    if n < 0 {
        0
    } else {
        n as u32
    }
}

/// Offers the modes of an ability.
pub fn offer(state: &mut GameState, ability: ResolvedAbility)
    requires
        offers_modes(ability@),
    ensures
        final(state)@ == offered(old(state)@, ability@),
{
    let ghost model = ability@;
    let cost = match &*ability.effect {
        Effect::PayCost { cost } => *cost,
        _ => ManaCost::zero(),
    };
    let limit: u32 = match ability.repeat_for {
        Some(q) => as_count(quantity::resolve_quantity(state, ability.controller, q)),
        None => 0,
    };
    let i: usize = players::find_player(state, ability.controller);
    let payments: u32 = if i < state.players.len() {
        mana_payment::affordable_times(&state.players[i].mana_pool.mana, &cost, limit)
    } else {
        let none: Vec<ManaUnit> = Vec::new();
        mana_payment::affordable_times(&none, &cost, limit)
    };
    let ResolvedAbility { targets, source_id, controller, sub_ability, .. } = ability;
    if let Some(sub) = sub_ability {
        let mut reflexive = *sub;
        assert(model.sub_ability == Some(Box::new(reflexive@)));
        let ghost before = reflexive@;
        if reflexive.targets.len() == 0 {
            reflexive.targets = targets;
        }
        let modes: usize = match &reflexive.mode_abilities {
            Some(list) => list.len(),
            None => 0,
        };
        let (min_choices, dynamic_max_choices) = match &reflexive.modal {
            Some(modal) => (modal.min_choices, modal.dynamic_max_choices),
            None => (0usize, None),
        };
        let max_choices: usize = if modes < payments as usize {
            modes
        } else {
            payments as usize
        };
        state.waiting_for = WaitingFor::AbilityModeChoice {
            player: controller,
            modal: ModalChoice {
                min_choices,
                max_choices,
                mode_count: modes,
                dynamic_max_choices,
                mode_costs: repeat_cost(cost, modes),
            },
            source_id,
        };
        state.repeated_payment = Some(
            RepeatedOptionalPaymentFrame {
                optional_cost_payments_this_resolution: 0,
                pending: Some(PendingRepeatedPayment { cost, reflexive: Box::new(reflexive) }),
            },
        );
    }
}

} // verus!
