//! What holds of planeswalking as a whole.
use vstd::prelude::*;

use crate::game::effects::gift_laws;
use crate::game::effects::planeswalk;
use crate::game::outcome::Outcome;
use crate::game::planechase;
use crate::game::replacement;
use crate::game::replacement::ReplacementModel;
use crate::types::ability::AbilityModel;
use crate::types::card_type::CoreType;
use crate::types::events::{GameEvent, PlaneswalkCause};
use crate::types::game_state::GameModel;
use crate::types::identifiers::{ObjectId, PlayerId};
use crate::types::replacements::{ReplacementEvent, ReplacementId, ReplacementOutcome};

verus! {

/// All cards of the planar deck and the command zone.
pub open spec fn planar_pool(s: GameModel) -> Seq<ObjectId> {
    s.planar_deck + s.command_zone
}

/// How often a card occurs in a list.
pub open spec fn times(ids: Seq<ObjectId>, id: ObjectId) -> nat {
    ids.to_multiset().count(id)
}

proof fn lemma_times_push(ids: Seq<ObjectId>, last: ObjectId, id: ObjectId)
    ensures
        times(ids.push(last), id) == times(ids, id) + if last == id {
            1int
        } else {
            0
        },
{
    broadcast use vstd::seq_lib::group_to_multiset_ensures;

    assert(ids.push(last).to_multiset() =~= ids.to_multiset().insert(last));
}

proof fn lemma_times_add(a: Seq<ObjectId>, b: Seq<ObjectId>, id: ObjectId)
    ensures
        times(a + b, id) == times(a, id) + times(b, id),
{
    vstd::seq_lib::lemma_multiset_commutative(a, b);
    assert((a + b).to_multiset() =~= a.to_multiset().add(b.to_multiset()));
}

proof fn lemma_times_first(ids: Seq<ObjectId>, id: ObjectId)
    requires
        ids.len() > 0,
    ensures
        times(ids, id) == times(ids.drop_first(), id) + if ids[0] == id {
            1int
        } else {
            0
        },
{
    broadcast use vstd::seq_lib::group_to_multiset_ensures;

    let first = Seq::<ObjectId>::empty().push(ids[0]);
    assert(ids =~= first + ids.drop_first());
    lemma_times_add(first, ids.drop_first(), id);
    lemma_times_push(Seq::empty(), ids[0], id);
    assert(times(Seq::empty(), id) == 0);
}

proof fn lemma_split_keeps_count(s: GameModel, ids: Seq<ObjectId>, id: ObjectId)
    ensures
        times(planechase::planar_among(s, ids), id) + times(
            planechase::others_among(s, ids),
            id,
        ) == times(ids, id),
    decreases ids.len(),
{
    if ids.len() == 0 {
        broadcast use vstd::seq_lib::group_to_multiset_ensures;

        assert(ids =~= Seq::empty());
        assert(times(ids, id) == 0);
    } else {
        lemma_split_keeps_count(s, ids.drop_last(), id);
        assert(ids =~= ids.drop_last().push(ids.last()));
        lemma_times_push(ids.drop_last(), ids.last(), id);
        lemma_times_push(planechase::planar_among(s, ids.drop_last()), ids.last(), id);
        lemma_times_push(planechase::others_among(s, ids.drop_last()), ids.last(), id);
    }
}

/// A planeswalk moves cards between the planar deck and the command zone; none is lost or made.
pub proof fn planeswalks_keep_every_card(o: Outcome, player: PlayerId, cause: PlaneswalkCause)
    ensures
        planar_pool(planechase::planeswalked(o, player, cause).state).to_multiset() == planar_pool(
            o.state,
        ).to_multiset(),
{
    let s = o.state;
    let leaving = planechase::planar_among(s, s.command_zone);
    let rest = planechase::others_among(s, s.command_zone);
    let deck = s.planar_deck + leaving;
    let after = planechase::planeswalked(o, player, cause).state;
    assert forall|id: ObjectId| #[trigger] times(planar_pool(after), id) == times(
        planar_pool(s),
        id,
    ) by {
        lemma_split_keeps_count(s, s.command_zone, id);
        lemma_times_add(s.planar_deck, s.command_zone, id);
        lemma_times_add(s.planar_deck, leaving, id);
        lemma_times_add(after.planar_deck, after.command_zone, id);
        if deck.len() > 0 {
            lemma_times_first(deck, id);
            lemma_times_push(rest, deck[0], id);
        }
    }
    assert forall|id: ObjectId|
        planar_pool(after).to_multiset().count(id) == #[trigger] planar_pool(
            s,
        ).to_multiset().count(id) by {
        assert(times(planar_pool(after), id) == times(planar_pool(s), id));
    }
    assert(planar_pool(after).to_multiset() =~= planar_pool(s).to_multiset());
}

/// A planeswalk instruction whose event is replaced by nothing changes nothing, whatever its
/// source.
pub proof fn prevented_planeswalks_change_nothing(o: Outcome, a: AbilityModel)
    requires
        replacement::replaced(
            o.state,
            planechase::proposed_planeswalk(
                a.controller,
                planeswalk::cause_of(a),
                a.replacement_applied,
            ),
        ) is Prevented,
    ensures
        planeswalk::walked(o, a) == o,
{
}

/// A planeswalk that waits for the choice of a replacement effect has not happened: nothing is
/// reported, and no card has moved.
pub proof fn waiting_planeswalks_have_not_happened(o: Outcome, a: AbilityModel, player: PlayerId)
    requires
        replacement::replaced(
            o.state,
            planechase::proposed_planeswalk(
                a.controller,
                planeswalk::cause_of(a),
                a.replacement_applied,
            ),
        ) == ReplacementModel::NeedsChoice(player),
    ensures
        planeswalk::walked(o, a).events == o.events,
        planar_pool(planeswalk::walked(o, a).state) == planar_pool(o.state),
{
}

/// The card is a plane or a phenomenon.
pub open spec fn is_planar_card(s: GameModel, id: ObjectId) -> bool {
    s.objects.contains_key(id) && exists|i: int|
        0 <= i < s.objects[id].core_types.len() && (#[trigger] s.objects[id].core_types[i]
            == CoreType::Plane || s.objects[id].core_types[i] == CoreType::Phenomenon)
}

/// The two cards stand in this order somewhere in the list.
pub open spec fn card_before(ids: Seq<ObjectId>, x: ObjectId, y: ObjectId) -> bool {
    exists|i: int, j: int|
        #![trigger ids[i], ids[j]]
        0 <= i < j < ids.len() && ids[i] == x && ids[j] == y
}

/// The list holds the cards of another one that are planar, or those that are not, in the same order.
pub open spec fn picks(s: GameModel, part: Seq<ObjectId>, ids: Seq<ObjectId>, wanted: bool) -> bool {
    &&& forall|id: ObjectId| #[trigger]
        part.contains(id) <==> ids.contains(id) && is_planar_card(s, id) == wanted
    &&& forall|i: int, j: int|
        0 <= i < j < part.len() ==> #[trigger] card_before(ids, part[i], part[j])
}

proof fn lemma_planar(s: GameModel, id: ObjectId)
    ensures
        planechase::planar(s, id) == is_planar_card(s, id),
{
    if planechase::planar(s, id) {
        let types = s.objects[id].core_types;
        if types.contains(CoreType::Plane) {
            let i = choose|i: int| 0 <= i < types.len() && types[i] == CoreType::Plane;
            assert(s.objects[id].core_types[i] == CoreType::Plane);
        } else {
            let i = choose|i: int| 0 <= i < types.len() && types[i] == CoreType::Phenomenon;
            assert(s.objects[id].core_types[i] == CoreType::Phenomenon);
        }
    }
}

proof fn lemma_picks_push(
    s: GameModel,
    part: Seq<ObjectId>,
    front: Seq<ObjectId>,
    last: ObjectId,
    wanted: bool,
)
    requires
        picks(s, part, front, wanted),
    ensures
        picks(
            s,
            if is_planar_card(s, last) == wanted {
                part.push(last)
            } else {
                part
            },
            front.push(last),
            wanted,
        ),
{
    let ids = front.push(last);
    let r = if is_planar_card(s, last) == wanted {
        part.push(last)
    } else {
        part
    };
    assert forall|id: ObjectId| #[trigger]
        r.contains(id) <==> ids.contains(id) && is_planar_card(s, id) == wanted by {
        assert(part.contains(id) <==> front.contains(id) && is_planar_card(s, id) == wanted);
        if front.contains(id) {
            let k = choose|k: int| 0 <= k < front.len() && front[k] == id;
            assert(ids[k] == id);
        }
        if id == last {
            assert(ids[front.len() as int] == id);
        }
        if ids.contains(id) && id != last {
            let k = choose|k: int| 0 <= k < ids.len() && ids[k] == id;
            assert(front[k] == id);
        }
        if is_planar_card(s, last) == wanted {
            if part.contains(id) {
                let k = choose|k: int| 0 <= k < part.len() && part[k] == id;
                assert(r[k] == id);
            }
            if id == last {
                assert(r[part.len() as int] == id);
            }
            if r.contains(id) && id != last {
                let k = choose|k: int| 0 <= k < r.len() && r[k] == id;
                assert(part[k] == id);
            }
        }
    }
    assert forall|i: int, j: int| 0 <= i < j < r.len() implies #[trigger] card_before(
        ids,
        r[i],
        r[j],
    ) by {
        if j < part.len() {
            assert(card_before(front, part[i], part[j]));
            let (x, y) = choose|x: int, y: int|
                #![trigger front[x], front[y]]
                0 <= x < y < front.len() && front[x] == part[i] && front[y] == part[j];
            assert(ids[x] == r[i] && ids[y] == r[j]);
        } else {
            assert(part.contains(part[i]));
            let x = choose|x: int| 0 <= x < front.len() && front[x] == part[i];
            assert(ids[x] == r[i] && ids[front.len() as int] == r[j]);
        }
    }
}

proof fn lemma_picks(s: GameModel, ids: Seq<ObjectId>)
    ensures
        picks(s, planechase::planar_among(s, ids), ids, true),
        picks(s, planechase::others_among(s, ids), ids, false),
    decreases ids.len(),
{
    if ids.len() > 0 {
        let front = ids.drop_last();
        lemma_picks(s, front);
        lemma_planar(s, ids.last());
        lemma_picks_push(s, planechase::planar_among(s, front), front, ids.last(), true);
        lemma_picks_push(s, planechase::others_among(s, front), front, ids.last(), false);
        assert(front.push(ids.last()) =~= ids);
    }
}

/// One planeswalk of a player with a planar deck: its top card comes face up, last in the command
/// zone; the planar cards that were there go below the rest of the deck, in their order; the other
/// cards of the command zone stay in theirs. The planeswalk is reported with its cause, and nothing
/// else changes.
pub open spec fn walks_to_the_top_card(
    o: Outcome,
    after: Outcome,
    player: PlayerId,
    cause: PlaneswalkCause,
) -> bool {
    let s = o.state;
    let t = after.state;
    let n = s.planar_deck.len() - 1;
    &&& t == (GameModel { planar_deck: t.planar_deck, command_zone: t.command_zone, ..s })
    &&& t.command_zone.len() > 0
    &&& t.command_zone.last() == s.planar_deck[0]
    &&& picks(s, t.command_zone.drop_last(), s.command_zone, false)
    &&& t.planar_deck.len() >= n
    &&& forall|i: int| 0 <= i < n ==> #[trigger] t.planar_deck[i] == s.planar_deck[i + 1]
    &&& picks(s, t.planar_deck.skip(n), s.command_zone, true)
    &&& after.events == o.events.push(GameEvent::Planeswalked { player_id: player, cause })
}

/// A planeswalk goes to the top card of the planar deck.
pub proof fn planeswalks_go_to_the_top_card(o: Outcome, player: PlayerId, cause: PlaneswalkCause)
    requires
        o.state.planar_deck.len() > 0,
    ensures
        walks_to_the_top_card(o, planechase::planeswalked(o, player, cause), player, cause),
{
    let s = o.state;
    let n = s.planar_deck.len() - 1;
    lemma_picks(s, s.command_zone);
    let t = planechase::planeswalked(o, player, cause).state;
    assert(t.planar_deck.skip(n) =~= planechase::planar_among(s, s.command_zone));
    assert(t.command_zone.drop_last() =~= planechase::others_among(s, s.command_zone));
}

/// Why an instruction makes its controller planeswalk: the planar die for the ability of the die, whose
/// source is the last identifier there is; else the instruction itself.
pub open spec fn expected_cause(a: AbilityModel) -> PlaneswalkCause {
    if a.source_id.0 == 0xffff_ffff_ffff_ffff {
        PlaneswalkCause::PlanarDie
    } else {
        PlaneswalkCause::Instruction
    }
}

/// Carrying out a planeswalk instruction that no permanent of its controller replaces is one
/// planeswalk of the controller.
pub proof fn unreplaced_instructions_walk_once(o: Outcome, a: AbilityModel)
    requires
        o.state.planar_deck.len() > 0,
        forall|i: int|
            0 <= i < o.state.battlefield.len() ==> !gift_laws::replaces(
                o.state,
                #[trigger] o.state.battlefield[i],
                a.controller,
                ReplacementEvent::Planeswalk,
            ),
    ensures
        walks_to_the_top_card(
            o,
            planeswalk::walked(o, a),
            a.controller,
            expected_cause(a),
        ),
{
    gift_laws::lemma_no_candidates(
        o.state,
        o.state.battlefield,
        a.controller,
        ReplacementEvent::Planeswalk,
        a.replacement_applied,
    );
    let cause = planeswalk::cause_of(a);
    assert(planechase::planeswalked_times(o, a.controller, cause, 0) == o);
    assert(planechase::planeswalked_times(o, a.controller, cause, 1) == planechase::planeswalked(
        o,
        a.controller,
        cause,
    ));
    planeswalks_go_to_the_top_card(o, a.controller, cause);
}

/// Where the one effect that applies doubles planeswalks, the controller planeswalks twice, one after
/// the other.
pub proof fn doubled_instructions_walk_twice(o: Outcome, a: AbilityModel, id: ReplacementId)
    requires
        replacement::candidates(
            o.state,
            planechase::proposed_planeswalk(
                a.controller,
                planeswalk::cause_of(a),
                a.replacement_applied,
            ),
        ) == seq![(id, ReplacementOutcome::Double)],
        o.state.planar_deck.len() > 0,
    ensures
        exists|between: Outcome|
            {
                &&& #[trigger] walks_to_the_top_card(o, between, a.controller, expected_cause(a))
                &&& between.state.planar_deck.len() > 0 ==> walks_to_the_top_card(
                    between,
                    planeswalk::walked(o, a),
                    a.controller,
                    expected_cause(a),
                )
            },
{
    let cause = planeswalk::cause_of(a);
    let between = planechase::planeswalked(o, a.controller, cause);
    assert(planechase::planeswalked_times(o, a.controller, cause, 0) == o);
    assert(planechase::planeswalked_times(o, a.controller, cause, 1) == between);
    assert(planechase::planeswalked_times(o, a.controller, cause, 2) == planechase::planeswalked(
        between,
        a.controller,
        cause,
    ));
    planeswalks_go_to_the_top_card(o, a.controller, cause);
    if between.state.planar_deck.len() > 0 {
        planeswalks_go_to_the_top_card(between, a.controller, cause);
    }
    assert(walks_to_the_top_card(o, between, a.controller, cause));
}

} // verus!
