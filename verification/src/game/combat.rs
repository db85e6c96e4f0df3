//! Attack requirements (CR 508.1d).
use std::sync::Arc;
use vstd::prelude::*;

use crate::game::filter;
use crate::game::filter::FilterContext;
use crate::game::game_object::{GameObject, ObjectModel};
use crate::parser::oracle;
use crate::types::card_type::CoreType;
use crate::types::game_state::{GameModel, GameState};
use crate::types::identifiers::ObjectId;
use crate::types::statics::{StaticDefinition, StaticMode};

verus! {

/// The static ability makes the creature attack. Its filter alone says which creatures attack;
/// that a permanent carries the ability does not make it attack.
pub open spec fn forces_attack(
    s: GameModel,
    def: StaticDefinition,
    source: ObjectModel,
    id: ObjectId,
) -> bool {
    &&& def.mode == StaticMode::MustAttack
    &&& def.affected matches Some(f) && filter::object_matches(
        s,
        id,
        f,
        FilterContext { controller: Some(source.controller) },
    )
}

pub open spec fn some_forces_attack(
    s: GameModel,
    defs: Seq<Arc<StaticDefinition>>,
    source: ObjectModel,
    id: ObjectId,
) -> bool {
    exists|i: int| 0 <= i < defs.len() && forces_attack(s, *#[trigger] defs[i], source, id)
}

/// A static ability of a permanent on the battlefield makes the creature attack.
pub open spec fn must_attack(s: GameModel, id: ObjectId) -> bool {
    exists|i: int|
        0 <= i < s.battlefield.len() && {
            let source = #[trigger] s.battlefield[i];
            s.objects.contains_key(source) && some_forces_attack(
                s,
                s.objects[source].static_definitions,
                s.objects[source],
                id,
            )
        }
}

/// "Creatures your opponents control attack each combat if able" says nothing of the creatures of
/// its controller, the source itself among them (CR 109.5).
pub proof fn own_creatures_are_not_forced(
    s: GameModel,
    def: StaticDefinition,
    source: ObjectModel,
    id: ObjectId,
)
    requires
        oracle::opponents_must_attack(def),
        s.objects.contains_key(id),
        s.objects[id].controller == source.controller,
    ensures
        !forces_attack(s, def, source, id),
{
}

/// The creatures of the opponents of its controller it does force.
pub proof fn opposing_creatures_are_forced(
    s: GameModel,
    def: StaticDefinition,
    source: ObjectModel,
    id: ObjectId,
)
    requires
        oracle::opponents_must_attack(def),
        s.objects.contains_key(id),
        s.objects[id].controller != source.controller,
        s.objects[id].core_types.contains(CoreType::Creature),
    ensures
        forces_attack(s, def, source, id),
{
}

fn any_forces_attack(state: &GameState, source: &GameObject, id: ObjectId) -> (r: bool)
    ensures
        r == some_forces_attack(state@, source@.static_definitions, source@, id),
{
    let defs = &source.static_definitions;
    let ctx = FilterContext { controller: Some(source.controller) };
    let mut i: usize = 0;
    while i < defs.len()
        invariant
            i <= defs.len(),
            defs@ == source@.static_definitions,
            ctx == (FilterContext { controller: Some(source@.controller) }),
            forall|j: int| 0 <= j < i ==> !forces_attack(state@, *#[trigger] defs@[j], source@, id),
        decreases defs.len() - i,
    {
        let applies = match defs[i].mode {
            StaticMode::MustAttack => match &defs[i].affected {
                Some(f) => filter::matches_target_filter(state, id, f, &ctx),
                None => false,
            },
            _ => false,
        };
        if applies {
            assert(forces_attack(state@, *defs@[i as int], source@, id));
            return true;
        }
        i = i + 1;
    }
    false
}

/// Whether a creature has to attack if able.
pub fn creature_must_attack(state: &GameState, id: ObjectId) -> (r: bool)
    ensures
        r == must_attack(state@, id),
{
    let mut i: usize = 0;
    while i < state.battlefield.len()
        invariant
            i <= state.battlefield.len(),
            forall|j: int|
                0 <= j < i ==> {
                    let source = #[trigger] state@.battlefield[j];
                    !(state@.objects.contains_key(source) && some_forces_attack(
                        state@,
                        state@.objects[source].static_definitions,
                        state@.objects[source],
                        id,
                    ))
                },
        decreases state.battlefield.len() - i,
    {
        if let Some(source) = state.objects.get(&state.battlefield[i]) {
            if any_forces_attack(state, source, id) {
                assert(state@.objects.contains_key(state@.battlefield[i as int]));
                return true;
            }
        }
        i = i + 1;
    }
    false
}

} // verus!
