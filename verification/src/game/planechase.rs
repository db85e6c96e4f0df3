//! Planeswalking in the Planechase variant (CR 701.31, CR 901).
use vstd::prelude::*;

use crate::game::outcome;
use crate::game::outcome::Outcome;
use crate::game::replacement;
use crate::game::replacement::{ReplacementModel, ReplacementResult};
use crate::types::card_type::CoreType;
use crate::types::events::{GameEvent, PlaneswalkCause};
use crate::types::game_state::{GameModel, GameState};
use crate::types::identifiers::{ObjectId, PlayerId};
use crate::types::proposed_event::{ProposedEvent, ProposedModel};
use crate::types::replacements::{AppliedReplacements, ReplacementId};

verus! {

/// The identifier under which the abilities of the planar die resolve (CR 901.9).
pub const PLANAR_ABILITY_SOURCE: u64 = 0xffff_ffff_ffff_ffff;

pub fn is_planar_ability_source(id: ObjectId) -> (r: bool)
    ensures
        r == (id.0 == PLANAR_ABILITY_SOURCE),
{
    id.0 == PLANAR_ABILITY_SOURCE
}

/// The object is a plane or phenomenon (CR 311, CR 312).
pub open spec fn planar(s: GameModel, id: ObjectId) -> bool {
    s.objects.contains_key(id) && (s.objects[id].core_types.contains(CoreType::Plane)
        || s.objects[id].core_types.contains(CoreType::Phenomenon))
}

/// The planar cards of a list, in order.
pub open spec fn planar_among(s: GameModel, ids: Seq<ObjectId>) -> Seq<ObjectId>
    decreases ids.len(),
{
    if ids.len() == 0 {
        Seq::empty()
    } else {
        let front = planar_among(s, ids.drop_last());
        if planar(s, ids.last()) {
            front.push(ids.last())
        } else {
            front
        }
    }
}

/// The cards of a list that are not planar, in order.
pub open spec fn others_among(s: GameModel, ids: Seq<ObjectId>) -> Seq<ObjectId>
    decreases ids.len(),
{
    if ids.len() == 0 {
        Seq::empty()
    } else {
        let front = others_among(s, ids.drop_last());
        if planar(s, ids.last()) {
            front
        } else {
            front.push(ids.last())
        }
    }
}

/// One planeswalk (CR 701.31b): the face-up planar cards go to the bottom of the planar deck, then
/// its top card is turned face up.
pub open spec fn planeswalked(o: Outcome, player: PlayerId, cause: PlaneswalkCause) -> Outcome {
    let s = o.state;
    let deck = s.planar_deck + planar_among(s, s.command_zone);
    let rest = others_among(s, s.command_zone);
    let state = if deck.len() == 0 {
        GameModel { planar_deck: deck, command_zone: rest, ..s }
    } else {
        GameModel {
            planar_deck: deck.drop_first(),
            command_zone: rest.push(deck[0]),
            ..s
        }
    };
    Outcome { state, events: o.events.push(GameEvent::Planeswalked { player_id: player, cause }) }
}

pub open spec fn planeswalked_times(
    o: Outcome,
    player: PlayerId,
    cause: PlaneswalkCause,
    n: nat,
) -> Outcome
    decreases n,
{
    if n == 0 {
        o
    } else {
        planeswalked(planeswalked_times(o, player, cause, (n - 1) as nat), player, cause)
    }
}

fn is_planar(state: &GameState, id: ObjectId) -> (r: bool)
    ensures
        r == planar(state@, id),
{
    match state.objects.get(&id) {
        None => false,
        Some(obj) => {
            let types = &obj.card_types.core_types;
            let mut i: usize = 0;
            while i < types.len()
                invariant
                    i <= types.len(),
                    types@ == obj@.core_types,
                    obj@ == state@.objects[id],
                    state@.objects.contains_key(id),
                    forall|j: int|
                        0 <= j < i ==> types@[j] != CoreType::Plane && types@[j]
                            != CoreType::Phenomenon,
                decreases types.len() - i,
            {
                if types[i] == CoreType::Plane || types[i] == CoreType::Phenomenon {
                    assert(obj@.core_types[i as int] == types@[i as int]);
                    return true;
                }
                i = i + 1;
            }
            false
        },
    }
}

/// Planeswalks once.
pub fn planeswalk(
    state: &mut GameState,
    player: PlayerId,
    cause: PlaneswalkCause,
    events: &mut Vec<GameEvent>,
)
    ensures
        outcome::at(final(state)@, final(events)@) == planeswalked(
            outcome::at(old(state)@, old(events)@),
            player,
            cause,
        ),
{
    let mut rest: Vec<ObjectId> = Vec::new();
    let mut leaving: Vec<ObjectId> = Vec::new();
    let mut i: usize = 0;
    while i < state.command_zone.len()
        invariant
            i <= state.command_zone.len(),
            leaving@ == planar_among(state@, state.command_zone@.take(i as int)),
            rest@ == others_among(state@, state.command_zone@.take(i as int)),
        decreases state.command_zone.len() - i,
    {
        assert(state.command_zone@.take(i + 1).drop_last() =~= state.command_zone@.take(i as int));
        let id = state.command_zone[i];
        if is_planar(state, id) {
            leaving.push(id);
        } else {
            rest.push(id);
        }
        i = i + 1;
    }
    assert(state.command_zone@.take(i as int) =~= state.command_zone@);
    let ghost before = state@;
    state.planar_deck.append(&mut leaving);
    if state.planar_deck.len() > 0 {
        let ghost deck = state.planar_deck@;
        let top = state.planar_deck.remove(0);
        assert(deck.remove(0) =~= deck.drop_first());
        rest.push(top);
    }
    state.command_zone = rest;
    events.push(GameEvent::Planeswalked { player_id: player, cause });
    assert(outcome::at(state@, events@) =~= planeswalked(
        outcome::at(old(state)@, old(events)@),
        player,
        cause,
    ));
}

/// The player would planeswalk once.
pub open spec fn proposed_planeswalk(
    player: PlayerId,
    cause: PlaneswalkCause,
    applied: Seq<ReplacementId>,
) -> ProposedModel {
    ProposedModel::Planeswalk { player, cause, count: 1, applied }
}

/// A planeswalk that goes through its replacement effects.
pub open spec fn walked_through(
    o: Outcome,
    player: PlayerId,
    cause: PlaneswalkCause,
    applied: Seq<ReplacementId>,
) -> Outcome {
    let e = proposed_planeswalk(player, cause, applied);
    match replacement::replaced(o.state, e) {
        ReplacementModel::Execute(ProposedModel::Planeswalk { player, cause, count, .. }) =>
            planeswalked_times(o, player, cause, count as nat),
        ReplacementModel::Execute(_) => o,
        ReplacementModel::Prevented => o,
        ReplacementModel::NeedsChoice(_) => Outcome {
            state: replacement::held(o.state, e),
            ..o
        },
    }
}

/// Planeswalks unless the event is replaced or waits for a choice.
pub fn planeswalk_through_replacements(
    state: &mut GameState,
    player: PlayerId,
    cause: PlaneswalkCause,
    applied: AppliedReplacements,
    events: &mut Vec<GameEvent>,
) -> (r: ReplacementResult)
    ensures
        r@ == replacement::replaced(old(state)@, proposed_planeswalk(player, cause, applied@)),
        outcome::at(final(state)@, final(events)@) == walked_through(
            outcome::at(old(state)@, old(events)@),
            player,
            cause,
            applied@,
        ),
{
    let proposed = ProposedEvent::Planeswalk { player, cause, count: 1, applied };
    let ghost before = outcome::at(state@, events@);
    let result = replacement::replace_event(state, proposed);
    if let ReplacementResult::Execute(ProposedEvent::Planeswalk { player, cause, count, .. }) = &result {
        let mut i: u32 = 0;
        while i < *count
            invariant
                i <= *count,
                outcome::at(state@, events@) == planeswalked_times(
                    before,
                    *player,
                    *cause,
                    i as nat,
                ),
            decreases *count - i,
        {
            planeswalk(state, *player, *cause, events);
            i = i + 1;
        }
    }
    result
}

} // verus!
