//! Replacing events before they happen (CR 614, CR 616).
use vstd::prelude::*;

use crate::game::game_object::{GameObject, ObjectModel};
use crate::types::game_state::{GameModel, GameState};
use crate::types::identifiers::{ObjectId, PlayerId};
use crate::types::prompts::{PromptModel, WaitingFor};
use crate::types::proposed_event::{ProposedEvent, ProposedModel};
use crate::types::replacements::{
    AppliedReplacements, ReplacementEvent, ReplacementId, ReplacementOutcome,
};

verus! {

/// What became of a proposed event.
#[derive(Debug, PartialEq, Eq)]
pub enum ReplacementResult {
    /// The event happens, perhaps changed.
    Execute(ProposedEvent),
    /// Nothing happens.
    Prevented,
    /// The player chooses which replacement effect applies first (CR 616.1).
    NeedsChoice(PlayerId),
}

/// The contents of a replacement result.
pub enum ReplacementModel {
    Execute(ProposedModel),
    Prevented,
    NeedsChoice(PlayerId),
}

impl View for ReplacementResult {
    type V = ReplacementModel;

    open spec fn view(&self) -> ReplacementModel {
        match *self {
            ReplacementResult::Execute(e) => ReplacementModel::Execute(e@),
            ReplacementResult::Prevented => ReplacementModel::Prevented,
            ReplacementResult::NeedsChoice(p) => ReplacementModel::NeedsChoice(p),
        }
    }
}

impl ProposedModel {
    /// The player to whom the event happens.
    pub open spec fn affected(self) -> PlayerId {
        match self {
            ProposedModel::CreateToken { owner, .. } => owner,
            ProposedModel::Planeswalk { player, .. } => player,
            ProposedModel::Draw { player, .. } => player,
        }
    }

    pub open spec fn kind(self) -> ReplacementEvent {
        match self {
            ProposedModel::CreateToken { .. } => ReplacementEvent::CreateToken,
            ProposedModel::Planeswalk { .. } => ReplacementEvent::Planeswalk,
            ProposedModel::Draw { .. } => ReplacementEvent::Draw,
        }
    }

    /// The replacement effects that it went through.
    pub open spec fn applied(self) -> Seq<ReplacementId> {
        match self {
            ProposedModel::CreateToken { applied, .. } => applied,
            ProposedModel::Planeswalk { applied, .. } => applied,
            ProposedModel::Draw { applied, .. } => applied,
        }
    }
}

pub open spec fn doubled(count: u32) -> u32 {
    if 2 * count > u32::MAX {
        u32::MAX
    } else {
        (2 * count) as u32
    }
}

/// The event after one replacement effect applied to it.
pub open spec fn replaced_once(
    e: ProposedModel,
    id: ReplacementId,
    outcome: ReplacementOutcome,
) -> Option<ProposedModel> {
    match outcome {
        ReplacementOutcome::Prevent => None,
        ReplacementOutcome::Double => Some(
            match e {
                ProposedModel::CreateToken { owner, spec, enter_tapped, count, applied } =>
                    ProposedModel::CreateToken {
                        owner,
                        spec,
                        enter_tapped,
                        count: doubled(count),
                        applied: applied.push(id),
                    },
                ProposedModel::Planeswalk { player, cause, count, applied } =>
                    ProposedModel::Planeswalk {
                        player,
                        cause,
                        count: doubled(count),
                        applied: applied.push(id),
                    },
                ProposedModel::Draw { player, count, applied } => ProposedModel::Draw {
                    player,
                    count: doubled(count),
                    applied: applied.push(id),
                },
            },
        ),
    }
}

/// Those of the first `n` replacement effects of an object that still apply to an event.
pub open spec fn object_candidates(
    source: ObjectId,
    o: ObjectModel,
    kind: ReplacementEvent,
    applied: Seq<ReplacementId>,
    n: nat,
) -> Seq<(ReplacementId, ReplacementOutcome)>
    decreases n,
{
    if n == 0 {
        Seq::empty()
    } else {
        let i = (n - 1) as nat;
        let front = object_candidates(source, o, kind, applied, i);
        let def = o.replacement_definitions[i as int];
        let id = ReplacementId { source, index: i as usize };
        if def.event == kind && !applied.contains(id) {
            front.push((id, def.outcome))
        } else {
            front
        }
    }
}

/// The replacement effects of a player's permanents that still apply to an event of that player.
pub open spec fn permanent_candidates(
    s: GameModel,
    ids: Seq<ObjectId>,
    player: PlayerId,
    kind: ReplacementEvent,
    applied: Seq<ReplacementId>,
) -> Seq<(ReplacementId, ReplacementOutcome)>
    decreases ids.len(),
{
    if ids.len() == 0 {
        Seq::empty()
    } else {
        let front = permanent_candidates(s, ids.drop_last(), player, kind, applied);
        let id = ids.last();
        if s.objects.contains_key(id) && s.objects[id].controller == player {
            let o = s.objects[id];
            front + object_candidates(id, o, kind, applied, o.replacement_definitions.len())
        } else {
            front
        }
    }
}

pub open spec fn candidates(s: GameModel, e: ProposedModel) -> Seq<
    (ReplacementId, ReplacementOutcome),
> {
    permanent_candidates(s, s.battlefield, e.affected(), e.kind(), e.applied())
}

/// What becomes of an event: nothing replaces it, one effect does, or a player has to choose.
pub open spec fn replaced(s: GameModel, e: ProposedModel) -> ReplacementModel {
    let c = candidates(s, e);
    if c.len() == 0 {
        ReplacementModel::Execute(e)
    } else if c.len() == 1 {
        match replaced_once(e, c[0].0, c[0].1) {
            Some(e1) => ReplacementModel::Execute(e1),
            None => ReplacementModel::Prevented,
        }
    } else {
        ReplacementModel::NeedsChoice(e.affected())
    }
}

/// The game after an event was held against its replacement effects: it keeps an event that waits
/// for a choice.
pub open spec fn held(s: GameModel, e: ProposedModel) -> GameModel {
    match replaced(s, e) {
        ReplacementModel::NeedsChoice(_) => GameModel { pending_replacement: Some(e), ..s },
        _ => s,
    }
}

fn add_object_candidates(
    source: ObjectId,
    obj: &GameObject,
    kind: ReplacementEvent,
    applied: &AppliedReplacements,
    list: &mut Vec<(ReplacementId, ReplacementOutcome)>,
)
    ensures
        final(list)@ == old(list)@ + object_candidates(
            source,
            obj@,
            kind,
            applied@,
            obj@.replacement_definitions.len(),
        ),
{
    let defs = &obj.replacement_definitions;
    let mut i: usize = 0;
    while i < defs.len()
        invariant
            i <= defs.len(),
            *defs == obj.replacement_definitions,
            list@ == old(list)@ + object_candidates(source, obj@, kind, applied@, i as nat),
        decreases defs.len() - i,
    {
        let id = ReplacementId { source, index: i };
        let ghost before = list@;
        if defs[i].event == kind && !applied.contains(id) {
            list.push((id, defs[i].outcome));
        }
        i = i + 1;
        assert(list@ =~= old(list)@ + object_candidates(source, obj@, kind, applied@, i as nat));
    }
}

fn find_candidates(
    state: &GameState,
    player: PlayerId,
    kind: ReplacementEvent,
    applied: &AppliedReplacements,
) -> (r: Vec<(ReplacementId, ReplacementOutcome)>)
    ensures
        r@ == permanent_candidates(state@, state@.battlefield, player, kind, applied@),
{
    let mut r: Vec<(ReplacementId, ReplacementOutcome)> = Vec::new();
    let mut i: usize = 0;
    while i < state.battlefield.len()
        invariant
            i <= state.battlefield.len(),
            r@ == permanent_candidates(
                state@,
                state.battlefield@.take(i as int),
                player,
                kind,
                applied@,
            ),
        decreases state.battlefield.len() - i,
    {
        assert(state.battlefield@.take(i + 1).drop_last() =~= state.battlefield@.take(i as int));
        let id = state.battlefield[i];
        if let Some(obj) = state.objects.get(&id) {
            if obj.controller == player {
                add_object_candidates(id, obj, kind, applied, &mut r);
            }
        }
        i = i + 1;
    }
    assert(state.battlefield@.take(i as int) =~= state.battlefield@);
    r
}

/// The replacement effects that still apply to an event.
pub fn event_candidates(state: &GameState, e: &ProposedEvent) -> (r: Vec<
    (ReplacementId, ReplacementOutcome),
>)
    ensures
        r@ == candidates(state@, e@),
{
    match e {
        ProposedEvent::CreateToken { owner, applied, .. } => find_candidates(
            state,
            *owner,
            ReplacementEvent::CreateToken,
            applied,
        ),
        ProposedEvent::Planeswalk { player, applied, .. } => find_candidates(
            state,
            *player,
            ReplacementEvent::Planeswalk,
            applied,
        ),
        ProposedEvent::Draw { player, applied, .. } => find_candidates(
            state,
            *player,
            ReplacementEvent::Draw,
            applied,
        ),
    }
}

fn double_count(count: u32) -> (r: u32)
    ensures
        r == doubled(count),
{
    if count > u32::MAX / 2 {
        u32::MAX
    } else {
        2 * count
    }
}

/// Applies one replacement effect to an event.
pub fn apply_replacement(e: ProposedEvent, id: ReplacementId, outcome: ReplacementOutcome) -> (r:
    Option<ProposedEvent>)
    ensures
        match r {
            Some(e1) => replaced_once(e@, id, outcome) == Some(e1@),
            None => replaced_once(e@, id, outcome) is None,
        },
{
    match outcome {
        ReplacementOutcome::Prevent => None,
        ReplacementOutcome::Double => Some(
            match e {
                ProposedEvent::CreateToken { owner, spec, enter_tapped, count, applied } => {
                    let mut applied = applied;
                    applied.ids.push(id);
                    ProposedEvent::CreateToken {
                        owner,
                        spec,
                        enter_tapped,
                        count: double_count(count),
                        applied,
                    }
                },
                ProposedEvent::Planeswalk { player, cause, count, applied } => {
                    let mut applied = applied;
                    applied.ids.push(id);
                    ProposedEvent::Planeswalk { player, cause, count: double_count(count), applied }
                },
                ProposedEvent::Draw { player, count, applied } => {
                    let mut applied = applied;
                    applied.ids.push(id);
                    ProposedEvent::Draw { player, count: double_count(count), applied }
                },
            },
        ),
    }
}

/// Holds an event against the replacement effects that apply to it.
pub fn replace_event(state: &mut GameState, proposed: ProposedEvent) -> (r: ReplacementResult)
    ensures
        r@ == replaced(old(state)@, proposed@),
        final(state)@ == held(old(state)@, proposed@),
{
    let c = event_candidates(state, &proposed);
    if c.len() == 0 {
        ReplacementResult::Execute(proposed)
    } else if c.len() == 1 {
        let (id, outcome) = c[0];
        match apply_replacement(proposed, id, outcome) {
            Some(e) => ReplacementResult::Execute(e),
            None => ReplacementResult::Prevented,
        }
    } else {
        let player = match &proposed {
            ProposedEvent::CreateToken { owner, .. } => *owner,
            ProposedEvent::Planeswalk { player, .. } => *player,
            ProposedEvent::Draw { player, .. } => *player,
        };
        state.pending_replacement = Some(proposed);
        ReplacementResult::NeedsChoice(player)
    }
}

/// How many replacement effects wait to be chosen from.
pub open spec fn choices(s: GameModel) -> nat {
    match s.pending_replacement {
        Some(e) => candidates(s, e).len(),
        None => 0,
    }
}

/// The game waits for a player to choose a replacement effect.
pub open spec fn awaiting_choice(s: GameModel, player: PlayerId) -> GameModel {
    GameModel {
        waiting_for: PromptModel::ReplacementChoice { player, candidate_count: choices(s) as usize },
        ..s
    }
}

/// The prompt for the player who chooses a replacement effect.
pub fn replacement_choice_waiting_for(player: PlayerId, state: &GameState) -> (r: WaitingFor)
    ensures
        r matches WaitingFor::ReplacementChoice { player: p, candidate_count } && p == player
            && candidate_count == choices(state@),
{
    let candidate_count: usize = match &state.pending_replacement {
        Some(e) => event_candidates(state, e).len(),
        None => 0,
    };
    WaitingFor::ReplacementChoice { player, candidate_count }
}

} // verus!
