//! What replacement effects do to events.
use vstd::prelude::*;

use crate::game::replacement;
use crate::game::replacement::ReplacementModel;
use crate::types::game_state::GameModel;
use crate::types::identifiers::{ObjectId, PlayerId};
use crate::types::proposed_event::ProposedModel;
use crate::types::replacements::{ReplacementEvent, ReplacementId, ReplacementOutcome};

verus! {

/// The player that an event happens to, its kind, and the effects it already went through.
pub open spec fn happens_to(e: ProposedModel) -> (PlayerId, ReplacementEvent, Seq<ReplacementId>) {
    match e {
        ProposedModel::CreateToken { owner, applied, .. } => (
            owner,
            ReplacementEvent::CreateToken,
            applied,
        ),
        ProposedModel::Planeswalk { player, applied, .. } => (
            player,
            ReplacementEvent::Planeswalk,
            applied,
        ),
        ProposedModel::Draw { player, applied, .. } => (player, ReplacementEvent::Draw, applied),
    }
}

/// The replacement effect is one of a permanent of the player to whom the event happens, is meant for
/// events of this kind, and has not applied to the event yet.
pub open spec fn applies(
    s: GameModel,
    e: ProposedModel,
    id: ReplacementId,
    outcome: ReplacementOutcome,
) -> bool {
    let (player, kind, applied) = happens_to(e);
    &&& s.battlefield.contains(id.source)
    &&& s.objects.contains_key(id.source)
    &&& s.objects[id.source].controller == player
    &&& id.index < s.objects[id.source].replacement_definitions.len()
    &&& s.objects[id.source].replacement_definitions[id.index as int].event == kind
    &&& s.objects[id.source].replacement_definitions[id.index as int].outcome == outcome
    &&& !applied.contains(id)
}

proof fn lemma_of_one(
    s: GameModel,
    source: ObjectId,
    kind: ReplacementEvent,
    applied: Seq<ReplacementId>,
    n: nat,
    x: (ReplacementId, ReplacementOutcome),
)
    requires
        n <= s.objects[source].replacement_definitions.len() <= usize::MAX,
    ensures
        replacement::object_candidates(source, s.objects[source], kind, applied, n).contains(x) <==> {
            let defs = s.objects[source].replacement_definitions;
            &&& x.0.source == source
            &&& x.0.index < n
            &&& defs[x.0.index as int].event == kind
            &&& defs[x.0.index as int].outcome == x.1
            &&& !applied.contains(x.0)
        },
    decreases n,
{
    let o = s.objects[source];
    let r = replacement::object_candidates(source, o, kind, applied, n);
    if n > 0 {
        let i = (n - 1) as nat;
        lemma_of_one(s, source, kind, applied, i, x);
        let front = replacement::object_candidates(source, o, kind, applied, i);
        let id = ReplacementId { source, index: i as usize };
        let y = (id, o.replacement_definitions[i as int].outcome);
        if o.replacement_definitions[i as int].event == kind && !applied.contains(id) {
            assert(r == front.push(y));
            if front.contains(x) {
                let k = choose|k: int| 0 <= k < front.len() && front[k] == x;
                assert(r[k] == x);
            }
            if x == y {
                assert(r[front.len() as int] == x);
            }
            if r.contains(x) && x != y {
                let k = choose|k: int| 0 <= k < r.len() && r[k] == x;
                assert(front[k] == x);
            }
        }
    }
}

proof fn lemma_of_all(
    s: GameModel,
    ids: Seq<ObjectId>,
    player: PlayerId,
    kind: ReplacementEvent,
    applied: Seq<ReplacementId>,
    x: (ReplacementId, ReplacementOutcome),
)
    requires
        forall|i: int|
            0 <= i < ids.len() ==> s.objects[#[trigger] ids[i]].replacement_definitions.len()
                <= usize::MAX,
    ensures
        replacement::permanent_candidates(s, ids, player, kind, applied).contains(x) <==> {
            let defs = s.objects[x.0.source].replacement_definitions;
            &&& ids.contains(x.0.source)
            &&& s.objects.contains_key(x.0.source)
            &&& s.objects[x.0.source].controller == player
            &&& x.0.index < defs.len()
            &&& defs[x.0.index as int].event == kind
            &&& defs[x.0.index as int].outcome == x.1
            &&& !applied.contains(x.0)
        },
    decreases ids.len(),
{
    if ids.len() > 0 {
        let front_ids = ids.drop_last();
        let last = ids.last();
        assert forall|i: int| 0 <= i < front_ids.len() implies s.objects[
        #[trigger] front_ids[i]].replacement_definitions.len() <= usize::MAX by {
            assert(front_ids[i] == ids[i]);
        }
        lemma_of_all(s, front_ids, player, kind, applied, x);
        assert(s.objects[ids[ids.len() - 1]].replacement_definitions.len() <= usize::MAX);
        let defs = s.objects[last].replacement_definitions;
        lemma_of_one(s, last, kind, applied, defs.len(), x);
        let front = replacement::permanent_candidates(s, front_ids, player, kind, applied);
        let own = replacement::object_candidates(last, s.objects[last], kind, applied, defs.len());
        let both = front + own;
        assert(both.contains(x) <==> front.contains(x) || own.contains(x)) by {
            if front.contains(x) {
                let k = choose|k: int| 0 <= k < front.len() && front[k] == x;
                assert(both[k] == x);
            }
            if own.contains(x) {
                let k = choose|k: int| 0 <= k < own.len() && own[k] == x;
                assert(both[front.len() + k] == x);
            }
            if both.contains(x) {
                let k = choose|k: int| 0 <= k < both.len() && both[k] == x;
                if k < front.len() {
                    assert(front[k] == x);
                } else {
                    assert(own[k - front.len()] == x);
                }
            }
        }
        assert(ids.contains(x.0.source) <==> front_ids.contains(x.0.source) || x.0.source == last) by {
            if front_ids.contains(x.0.source) {
                let k = choose|k: int| 0 <= k < front_ids.len() && front_ids[k] == x.0.source;
                assert(ids[k] == x.0.source);
            }
            if x.0.source == last {
                assert(ids[ids.len() - 1] == x.0.source);
            }
            if ids.contains(x.0.source) {
                let k = choose|k: int| 0 <= k < ids.len() && ids[k] == x.0.source;
                if k < front_ids.len() {
                    assert(front_ids[k] == x.0.source);
                }
            }
        }
    }
}

/// No permanent has more replacement effects than can be counted.
pub open spec fn countable(s: GameModel) -> bool {
    forall|i: int|
        0 <= i < s.battlefield.len() ==> s.objects[
        #[trigger] s.battlefield[i]].replacement_definitions.len() <= usize::MAX
}

/// The effects among which is chosen are those that apply to the event, all of them and no others.
pub proof fn candidates_are_what_applies(
    s: GameModel,
    e: ProposedModel,
    id: ReplacementId,
    outcome: ReplacementOutcome,
)
    requires
        countable(s),
    ensures
        replacement::candidates(s, e).contains((id, outcome)) <==> applies(s, e, id, outcome),
{
    lemma_of_all(s, s.battlefield, e.affected(), e.kind(), e.applied(), (id, outcome));
}

/// The same event, twice as often, as far as that can be counted, after one more effect.
pub open spec fn twice(e: ProposedModel, e2: ProposedModel, id: ReplacementId) -> bool {
    match (e, e2) {
        (
            ProposedModel::CreateToken { owner, spec, enter_tapped, count, applied },
            ProposedModel::CreateToken {
                owner: owner2,
                spec: spec2,
                enter_tapped: tap2,
                count: count2,
                applied: applied2,
            },
        ) => {
            &&& owner2 == owner
            &&& spec2 == spec
            &&& tap2 == enter_tapped
            &&& count <= 0x7fff_ffff ==> count2 == count + count
            &&& count > 0x7fff_ffff ==> count2 == u32::MAX
            &&& applied2 == applied.push(id)
        },
        (
            ProposedModel::Planeswalk { player, cause, count, applied },
            ProposedModel::Planeswalk {
                player: player2,
                cause: cause2,
                count: count2,
                applied: applied2,
            },
        ) => {
            &&& player2 == player
            &&& cause2 == cause
            &&& count <= 0x7fff_ffff ==> count2 == count + count
            &&& count > 0x7fff_ffff ==> count2 == u32::MAX
            &&& applied2 == applied.push(id)
        },
        (
            ProposedModel::Draw { player, count, applied },
            ProposedModel::Draw { player: player2, count: count2, applied: applied2 },
        ) => {
            &&& player2 == player
            &&& count <= 0x7fff_ffff ==> count2 == count + count
            &&& count > 0x7fff_ffff ==> count2 == u32::MAX
            &&& applied2 == applied.push(id)
        },
        _ => false,
    }
}

/// An event that no effect applies to happens as it is.
pub proof fn untouched_events_happen(s: GameModel, e: ProposedModel)
    requires
        countable(s),
        forall|id: ReplacementId, outcome: ReplacementOutcome| !#[trigger] applies(s, e, id, outcome),
    ensures
        replacement::replaced(s, e) == ReplacementModel::Execute(e),
{
    let c = replacement::candidates(s, e);
    if c.len() > 0 {
        assert(c.contains(c[0]));
        candidates_are_what_applies(s, e, c[0].0, c[0].1);
    }
}

/// An event to which one effect applies, and no other one, does not happen where the effect prevents
/// it, and happens twice where the effect doubles it.
pub proof fn one_effect_applies_at_once(s: GameModel, e: ProposedModel)
    requires
        replacement::candidates(s, e).len() == 1,
    ensures
        ({
            let (id, outcome) = replacement::candidates(s, e)[0];
            match outcome {
                ReplacementOutcome::Prevent => replacement::replaced(s, e)
                    == ReplacementModel::Prevented,
                ReplacementOutcome::Double => replacement::replaced(
                    s,
                    e,
                ) matches ReplacementModel::Execute(e2) && twice(e, e2, id),
            }
        }),
{
}

/// Where several effects apply, the player to whom the event happens has to choose, and the event
/// waits.
pub proof fn several_effects_are_chosen_from(s: GameModel, e: ProposedModel)
    requires
        replacement::candidates(s, e).len() > 1,
    ensures
        replacement::replaced(s, e) == ReplacementModel::NeedsChoice(happens_to(e).0),
        replacement::held(s, e) == (GameModel { pending_replacement: Some(e), ..s }),
{
}

} // verus!
