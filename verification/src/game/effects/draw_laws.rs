//! What holds of drawing several cards.
use std::sync::Arc;
use vstd::prelude::*;

use crate::game::effects::draw;
use crate::game::effects::gift_laws;
use crate::game::effects::round_laws;
use crate::game::outcome::Outcome;
use crate::game::replacement;
use crate::types::events::GameEvent;
use crate::types::game_state::GameModel;
use crate::types::identifiers::PlayerId;
use crate::types::prompts::PromptModel;
use crate::types::proposed_event::ProposedModel;
use crate::types::replacements::ReplacementOutcome;
use crate::types::statics::StaticDefinition;
use crate::types::zones::Zone;

verus! {

proof fn lemma_tight(
    defs: Seq<Arc<StaticDefinition>>,
    controller: PlayerId,
    player: PlayerId,
    drawn: int,
    n: int,
) -> (d: int)
    ensures
        draw::left_by_statics(defs, controller, player, drawn, n) == n || {
            &&& 0 <= d < defs.len()
            &&& (defs[d].mode is CantDraw || defs[d].mode is PerTurnDrawLimit)
            &&& gift_laws::touches(*defs[d], controller, player)
            &&& draw::left_by_statics(defs, controller, player, drawn, n) == gift_laws::limit_of(
                defs[d].mode,
                drawn,
            )
        },
    decreases defs.len(),
{
    if defs.len() > 0 {
        let front = defs.drop_last();
        let d0 = lemma_tight(front, controller, player, drawn, n);
        let m = draw::left_by_statics(front, controller, player, drawn, n);
        let r = draw::left_by_statics(defs, controller, player, drawn, n);
        if r == m {
            assert(0 <= d0 < front.len() ==> front[d0] == defs[d0]);
            d0
        } else {
            assert(defs.last() == defs[defs.len() - 1]);
            assert(draw::affects_player(*defs[defs.len() - 1], controller, player)
                == gift_laws::touches(*defs[defs.len() - 1], controller, player));
            defs.len() - 1
        }
    } else {
        0
    }
}

proof fn lemma_tight_among(s: GameModel, player: PlayerId, k: int, drawn: int, n: int) -> (r: (
    int,
    int,
))
    requires
        0 <= k <= s.battlefield.len(),
    ensures
        ({
            let left = draw::left_by_permanents(s, s.battlefield.take(k), player, drawn, n);
            left == n || {
                &&& gift_laws::limits_draws(s, player, r.0, r.1)
                &&& left == gift_laws::limit_of(
                    s.objects[s.battlefield[r.0]].static_definitions[r.1].mode,
                    drawn,
                )
            }
        }),
    decreases k,
{
    let ids = s.battlefield.take(k);
    if k > 0 {
        assert(ids.drop_last() =~= s.battlefield.take(k - 1));
        let before = lemma_tight_among(s, player, k - 1, drawn, n);
        let m = draw::left_by_permanents(s, ids.drop_last(), player, drawn, n);
        let id = s.battlefield[k - 1];
        assert(ids.last() == id);
        if s.objects.contains_key(id) {
            let o = s.objects[id];
            let d = lemma_tight(o.static_definitions, o.controller, player, drawn, m);
            let left = draw::left_by_statics(o.static_definitions, o.controller, player, drawn, m);
            if left == m {
                before
            } else {
                assert(gift_laws::limits_draws(s, player, k - 1, d));
                (k - 1, d)
            }
        } else {
            before
        }
    } else {
        (0, 0)
    }
}

/// A player may draw all that they are to draw, or as many cards as some permanent that limits their
/// draws leaves: nothing else takes draws away.
pub proof fn draws_are_limited_no_further(s: GameModel, player: PlayerId, i: int, n: int) -> (r: (
    int,
    int,
))
    requires
        round_laws::listed_at(s, player, i),
    ensures
        draw::allowed_draws(s, player, n) == n || {
            &&& gift_laws::limits_draws(s, player, r.0, r.1)
            &&& draw::allowed_draws(s, player, n) == gift_laws::limit_of(
                s.objects[s.battlefield[r.0]].static_definitions[r.1].mode,
                s.players[i].cards_drawn_this_turn as int,
            )
        },
{
    round_laws::lemma_listed_at(s, player, i);
    assert(s.battlefield.take(s.battlefield.len() as int) =~= s.battlefield);
    lemma_tight_among(
        s,
        player,
        s.battlefield.len() as int,
        s.players[i].cards_drawn_this_turn as int,
        n,
    )
}

/// Cards are drawn from the top, one after the other: they leave the library in order, come last into
/// the hand, and each is counted and reported. Other players and zones are not touched.
pub proof fn cards_are_drawn_from_the_top(o: Outcome, player: PlayerId, n: nat, i: int, k: int)
    requires
        round_laws::listed_at(o.state, player, i),
        n <= o.state.players[i].library.len(),
        o.state.players[i].cards_drawn_this_turn + n <= u32::MAX,
    ensures
        ({
            let t = draw::cards_drawn(o, player, n);
            let library = o.state.players[i].library;
            &&& round_laws::listed_at(t.state, player, i)
            &&& t.state == (GameModel {
                players: t.state.players,
                objects: t.state.objects,
                ..o.state
            })
            &&& t.state.players.len() == o.state.players.len()
            &&& t.state.players[i].library == library.skip(n as int)
            &&& t.state.players[i].hand == o.state.players[i].hand + library.take(n as int)
            &&& t.state.players[i].cards_drawn_this_turn == o.state.players[i].cards_drawn_this_turn
                + n
            &&& t.state.players[i].life == o.state.players[i].life
            &&& t.state.players[i].graveyard == o.state.players[i].graveyard
            &&& t.events.len() == o.events.len() + n
            &&& 0 <= k < n ==> t.events[o.events.len() + k] == (GameEvent::CardDrawn {
                player_id: player,
                object_id: library[k],
            })
            &&& 0 <= k < n && o.state.objects.contains_key(library[k])
                ==> t.state.objects[library[k]].zone == Zone::Hand
            &&& t.state.objects.dom() == o.state.objects.dom()
            &&& forall|j: int|
                0 <= j < o.state.players.len() && j != i ==> #[trigger] t.state.players[j]
                    == o.state.players[j]
        }),
    decreases n,
{
    let library = o.state.players[i].library;
    if n > 0 {
        cards_are_drawn_from_the_top(o, player, (n - 1) as nat, i, k);
        let m = draw::cards_drawn(o, player, (n - 1) as nat);
        round_laws::lemma_listed_at(m.state, player, i);
        let t = draw::cards_drawn(o, player, n);
        assert(m.state.players[i].library[0] == library[n - 1]);
        assert(library.skip(n - 1).drop_first() =~= library.skip(n as int));
        assert(library.take(n - 1).push(library[n - 1]) =~= library.take(n as int));
        assert(o.state.players[i].hand + library.take(n as int) =~= (o.state.players[i].hand
            + library.take(n - 1)).push(library[n - 1]));
        assert(round_laws::listed_at(t.state, player, i)) by {
            assert forall|j: int| 0 <= j < i implies (#[trigger] t.state.players[j]).id
                != player by {
                assert(m.state.players[j].id != player);
            }
        }
        assert forall|j: int| 0 <= j < o.state.players.len() && j != i implies #[trigger] t.state.players[j]
            == o.state.players[j] by {
            assert(m.state.players[j] == o.state.players[j]);
        }
        assert(t.state.objects.dom() =~= o.state.objects.dom());
    } else {
        assert(library.skip(0) =~= library);
        assert(o.state.players[i].hand + library.take(0) =~= o.state.players[i].hand);
    }
}

/// With an empty library nothing is drawn.
pub proof fn empty_libraries_give_nothing(o: Outcome, player: PlayerId, n: nat, i: int)
    requires
        round_laws::listed_at(o.state, player, i),
        o.state.players[i].library.len() == 0,
    ensures
        draw::cards_drawn(o, player, n) == o,
    decreases n,
{
    round_laws::lemma_listed_at(o.state, player, i);
    if n > 0 {
        empty_libraries_give_nothing(o, player, (n - 1) as nat, i);
    }
}

/// A draw within the limits happens as it is where no effect replaces it; one effect prevents it or
/// doubles it; of several the player chooses, and nothing is drawn yet.
pub proof fn draws_are_replaced(o: Outcome, player: PlayerId, count: int, n: u32)
    requires
        n == draw::allowed_draws(o.state, player, count),
        0 < n <= 0x7fff_ffff,
    ensures
        ({
            let e = ProposedModel::Draw { player, count: n, applied: Seq::empty() };
            let c = replacement::candidates(o.state, e);
            let t = draw::draw_sequence(o, player, count);
            &&& c.len() == 0 ==> t == draw::drawn_within_limits(o, player, n as int)
            &&& c.len() == 1 && c[0].1 == ReplacementOutcome::Prevent ==> t == o
            &&& c.len() == 1 && c[0].1 == ReplacementOutcome::Double
                ==> t == draw::drawn_within_limits(o, player, 2 * n)
            &&& c.len() > 1 ==> {
                &&& t.events == o.events
                &&& t.state.pending_replacement == Some(e)
                &&& t.state == (GameModel {
                    pending_replacement: t.state.pending_replacement,
                    waiting_for: t.state.waiting_for,
                    ..o.state
                })
                &&& t.state.waiting_for matches PromptModel::ReplacementChoice { player: p, .. } && p
                    == player
            }
        }),
{
}

/// Where the limits leave nothing, nothing is drawn.
pub proof fn forbidden_draws_do_not_happen(o: Outcome, player: PlayerId, count: int)
    requires
        draw::allowed_draws(o.state, player, count) == 0,
    ensures
        draw::draw_sequence(o, player, count) == o,
{
}

} // verus!
