//! What the updates after a timeout hold, message by message.
use vstd::prelude::*;

use crate::game::legal_actions;
use crate::server::client_view;
use crate::server::client_view::{ClientPlayer, ClientState};
use crate::server::clock_loop;
use crate::server::clock_loop::{BundleStep, GuardedResult, Tick};
use crate::server::derived_views;
use crate::server::derived_views::DerivedViews;
use crate::server::protocol::ServerMessage;
use crate::server::session;
use crate::server::session::{ActionResult, GameSession};
use crate::types::actions::GameAction;
use crate::types::events::GameEvent;
use crate::types::game_state::GameModel;
use crate::types::identifiers::PlayerId;
use crate::types::log;

verus! {

/// A player is shown to a viewer: everything but hidden cards, of which the viewer sees their own
/// hand.
pub open spec fn is_shown(c: ClientState, s: GameModel, viewer: Option<PlayerId>, i: int) -> bool {
    let shown = c.players@[i];
    let p = s.players[i];
    &&& shown.id == p.id
    &&& shown.life == p.life
    &&& shown.graveyard@ == p.graveyard
    &&& shown.is_eliminated == p.is_eliminated
    &&& shown.hand_size == p.hand.len()
    &&& shown.library_size == p.library.len()
    &&& viewer == Some(p.id) ==> shown.hand@ == p.hand
    &&& viewer != Some(p.id) ==> shown.hand@.len() == 0
}

/// What a viewer is shown of a game.
pub proof fn views_show_the_game(c: ClientState, s: GameModel, viewer: Option<PlayerId>, i: int)
    requires
        client_view::shows(c, s, viewer),
        0 <= i < s.players.len(),
    ensures
        c.players@.len() == s.players.len(),
        is_shown(c, s, viewer, i),
        c.battlefield@ == s.battlefield,
        c.command_zone@ == s.command_zone,
        c.exile@ == s.exile,
        c.stack_size == s.stack.len(),
        c.phase == s.phase,
        c.turn_number == s.turn_number,
        c.active_player == s.active_player,
        c.priority_player == s.priority_player,
{
    assert(client_view::shows_player(c.players@[i], s.players[i], viewer));
}

/// What an accepted action reports: to each seat its own view, to spectators theirs, the events as
/// they happened, who is to act and with what, and who is out of the game. To pass is recommended
/// exactly where it is the only action.
pub proof fn results_report_the_game(
    r: ActionResult,
    s: GameModel,
    events: Seq<GameEvent>,
    seats: u8,
    seat: u8,
)
    requires
        session::reports(r, s, events, seats),
        seat < seats,
    ensures
        r.views@.len() == seats,
        client_view::shows(r.views@[seat as int], s, Some(PlayerId(seat))),
        client_view::shows(r.spectator, s, None),
        r.events@ == events,
        r.actors@ == s.waiting_for.actors(),
        r.eliminated_players@ == s.eliminated_players,
        legal_actions::lists_actions(s, (*r.legal_actions)@),
        legal_actions::groups_actions(s, (*r.legal_actions_by_object)@),
        r.spell_costs@ == legal_actions::costs_to_cast(s),
        r.log_entries@ == log::entries_of(s, events),
        r.auto_pass_recommended <==> (*r.legal_actions)@.len() == 1 && (*r.legal_actions)@[0]
            == GameAction::PassPriority,
{
    assert(client_view::shows(r.views@[seat as int], s, Some(PlayerId((seat as int) as u8))));
}

/// The other players of a view who are still in the game are a viewer's opponents, in their order.
pub proof fn rivals_are_the_others_in_the_game(
    players: Seq<ClientPlayer>,
    viewer: Option<PlayerId>,
    p: PlayerId,
)
    ensures
        derived_views::rivals(players, viewer).contains(p) <==> viewer != Some(p) && exists|i: int|
            0 <= i < players.len() && (#[trigger] players[i]).id == p && !players[i].is_eliminated,
    decreases players.len(),
{
    if players.len() > 0 {
        let front = players.drop_last();
        let last = players.last();
        let before = derived_views::rivals(front, viewer);
        let r = derived_views::rivals(players, viewer);
        rivals_are_the_others_in_the_game(front, viewer, p);
        if exists|i: int|
            0 <= i < front.len() && (#[trigger] front[i]).id == p && !front[i].is_eliminated {
            let i = choose|i: int|
                0 <= i < front.len() && (#[trigger] front[i]).id == p && !front[i].is_eliminated;
            assert(players[i].id == p && !players[i].is_eliminated);
        }
        if exists|i: int|
            0 <= i < players.len() && (#[trigger] players[i]).id == p && !players[i].is_eliminated {
            let i = choose|i: int|
                0 <= i < players.len() && (#[trigger] players[i]).id == p
                    && !players[i].is_eliminated;
            if i < front.len() {
                assert(front[i].id == p && !front[i].is_eliminated);
            }
        }
        if !last.is_eliminated && viewer != Some(last.id) {
            assert(r == before.push(last.id));
            if before.contains(p) {
                let k = choose|k: int| 0 <= k < before.len() && before[k] == p;
                assert(r[k] == p);
            }
            if p == last.id {
                assert(r[before.len() as int] == p);
                assert(players[players.len() - 1].id == p);
            }
            if r.contains(p) && p != last.id {
                let k = choose|k: int| 0 <= k < r.len() && r[k] == p;
                assert(before[k] == p);
            }
        }
    }
}

/// The facts that come with a view are those of its viewer.
pub open spec fn facts_for(d: DerivedViews, view: ClientState, viewer: Option<PlayerId>) -> bool {
    &&& d.has_turn <==> viewer == Some(view.active_player)
    &&& d.has_priority <==> viewer == Some(view.priority_player)
    &&& forall|p: PlayerId| #[trigger]
        d.opponents@.contains(p) <==> viewer != Some(p) && exists|i: int|
            0 <= i < view.players@.len() && (#[trigger] view.players@[i]).id == p
                && !view.players@[i].is_eliminated
}

proof fn lemma_facts(d: DerivedViews, view: ClientState, viewer: Option<PlayerId>)
    requires
        derived_views::derived(d, view, viewer),
    ensures
        facts_for(d, view, viewer),
{
    assert forall|p: PlayerId| #[trigger]
        d.opponents@.contains(p) <==> viewer != Some(p) && exists|i: int|
            0 <= i < view.players@.len() && (#[trigger] view.players@[i]).id == p
                && !view.players@[i].is_eliminated by {
        rivals_are_the_others_in_the_game(view.players@, viewer, p);
    }
}

/// The message to a viewer shows their view of a result, what happened, what is logged, and who was
/// out of the game when the bundle began.
pub open spec fn message_tells(
    m: ServerMessage,
    view: ClientState,
    viewer: Option<PlayerId>,
    r: ActionResult,
    human: GuardedResult,
) -> bool {
    m matches ServerMessage::StateUpdate {
        state,
        events,
        eliminated_players,
        log_entries,
        derived,
        ..
    } && {
        &&& state == view
        &&& events@ == r.events@
        &&& eliminated_players@ == human.result.eliminated_players@
        &&& log_entries@ == r.log_entries@
        &&& facts_for(derived, view, viewer)
    }
}

/// The message offers what can be done after a result.
pub open spec fn message_offers(m: ServerMessage, r: ActionResult) -> bool {
    m matches ServerMessage::StateUpdate {
        legal_actions,
        auto_pass_recommended,
        spell_costs,
        legal_actions_by_object,
        ..
    } && {
        &&& legal_actions == r.legal_actions
        &&& auto_pass_recommended == r.auto_pass_recommended
        &&& spell_costs@ == r.spell_costs@
        &&& legal_actions_by_object == r.legal_actions_by_object
    }
}

/// One step of a bundle about a result: every seat and the spectators are told of it in their own
/// view; actions are offered to nobody but those who are to act after the last move; spectators are
/// sent only the first step.
pub open spec fn step_is_about(
    step: BundleStep,
    r: ActionResult,
    human: GuardedResult,
    last: bool,
) -> bool {
    &&& step.messages.seats@.len() == r.views@.len()
    &&& forall|seat: int|
        0 <= seat < r.views@.len() ==> {
            let m = #[trigger] step.messages.seats@[seat];
            &&& message_tells(m, r.views@[seat], Some(PlayerId(seat as u8)), r, human)
            &&& if last && r.actors@.contains(PlayerId(seat as u8)) {
                message_offers(m, r)
            } else {
                clock_loop::offers_nothing(m)
            }
        }
    &&& message_tells(step.messages.spectators, r.spectator, None, r, human)
    &&& clock_loop::offers_nothing(step.messages.spectators)
}

proof fn lemma_step(
    step: BundleStep,
    r: ActionResult,
    human: GuardedResult,
    position: int,
    ai_moves: nat,
    spectators: bool,
)
    requires
        clock_loop::step_tells(
            step,
            r,
            human.result.eliminated_players@,
            position,
            ai_moves,
            spectators,
        ),
    ensures
        step_is_about(step, r, human, position == ai_moves),
        step.position == position,
        step.to_spectators <==> spectators && position == 0,
{
    let eliminated = human.result.eliminated_players@;
    assert forall|seat: int| 0 <= seat < r.views@.len() implies {
        let m = #[trigger] step.messages.seats@[seat];
        &&& message_tells(m, r.views@[seat], Some(PlayerId(seat as u8)), r, human)
        &&& if position == ai_moves && r.actors@.contains(PlayerId(seat as u8)) {
            message_offers(m, r)
        } else {
            clock_loop::offers_nothing(m)
        }
    } by {
        let m = step.messages.seats@[seat];
        let viewer = Some(PlayerId(seat as u8));
        assert(clock_loop::tells(
            m,
            r.views@[seat],
            viewer,
            r,
            eliminated,
            clock_loop::seat_is_open(r, seat, position == ai_moves),
        ));
        lemma_facts(m->StateUpdate_derived, r.views@[seat], viewer);
    }
    let m = step.messages.spectators;
    lemma_facts(m->StateUpdate_derived, r.spectator, None);
}

/// The steps of a bundle: none if the pass may not be sent. Else the first one is about the pass, and
/// each later one about a move of a computer player that may be sent.
pub proof fn steps_tell_of_the_moves(
    steps: Seq<BundleStep>,
    human: GuardedResult,
    ai: Seq<GuardedResult>,
    spectators: bool,
    k: int,
)
    requires
        clock_loop::bundle_of(steps, human, ai, spectators),
        0 <= k < steps.len(),
    ensures
        human.sendable,
        k == 0 ==> {
            &&& steps[k].position == 0
            &&& step_is_about(steps[k], human.result, human, ai.len() == 0)
            &&& steps[k].to_spectators <==> spectators
        },
        k > 0 ==> {
            let move_index = steps[k].position - 1;
            &&& 0 <= move_index < ai.len()
            &&& ai[move_index].sendable
            &&& step_is_about(
                steps[k],
                ai[move_index].result,
                human,
                move_index == ai.len() - 1,
            )
            &&& !steps[k].to_spectators
            &&& steps[k - 1].position < steps[k].position
        },
{
    let sent = clock_loop::sendable_positions(ai);
    let eliminated = human.result.eliminated_players@;
    lemma_step(steps[0], human.result, human, 0, ai.len(), spectators);
    if k > 0 {
        lemma_sent(ai, k - 1);
        assert(clock_loop::step_tells(
            steps[(k - 1) + 1],
            ai[sent[k - 1]].result,
            eliminated,
            sent[k - 1] + 1,
            ai.len(),
            spectators,
        ));
        lemma_step(
            steps[k],
            ai[sent[k - 1]].result,
            human,
            sent[k - 1] + 1,
            ai.len(),
            spectators,
        );
        if k > 1 {
            clock_loop::bundles_keep_the_order_of_moves(ai, k - 2, k - 1);
            assert(clock_loop::step_tells(
                steps[(k - 2) + 1],
                ai[sent[k - 2]].result,
                eliminated,
                sent[k - 2] + 1,
                ai.len(),
                spectators,
            ));
        }
    }
}

proof fn lemma_sent(ai: Seq<GuardedResult>, k: int)
    requires
        0 <= k < clock_loop::sendable_positions(ai).len(),
    ensures
        0 <= clock_loop::sendable_positions(ai)[k] < ai.len(),
        ai[clock_loop::sendable_positions(ai)[k]].sendable,
    decreases ai.len(),
{
    let front = ai.drop_last();
    if k < clock_loop::sendable_positions(front).len() {
        lemma_sent(front, k);
    }
}

proof fn lemma_all_sent(ai: Seq<GuardedResult>, j: int) -> (k: int)
    requires
        0 <= j < ai.len(),
        ai[j].sendable,
    ensures
        0 <= k < clock_loop::sendable_positions(ai).len(),
        clock_loop::sendable_positions(ai)[k] == j,
    decreases ai.len(),
{
    let front = ai.drop_last();
    if j < front.len() {
        lemma_all_sent(front, j)
    } else {
        clock_loop::sendable_positions(front).len() as int
    }
}

/// Every move that may be sent is told of, if the pass is.
pub proof fn every_sendable_move_is_told(
    steps: Seq<BundleStep>,
    human: GuardedResult,
    ai: Seq<GuardedResult>,
    spectators: bool,
    j: int,
)
    requires
        clock_loop::bundle_of(steps, human, ai, spectators),
        human.sendable,
        0 <= j < ai.len(),
        ai[j].sendable,
    ensures
        steps.len() > 0,
        exists|k: int| 0 < k < steps.len() && (#[trigger] steps[k]).position == j + 1,
{
    let k = lemma_all_sent(ai, j);
    let sent = clock_loop::sendable_positions(ai);
    assert(clock_loop::step_tells(
        steps[k + 1],
        ai[sent[k]].result,
        human.result.eliminated_players@,
        sent[k] + 1,
        ai.len(),
        spectators,
    ));
    assert(steps[k + 1].position == j + 1);
}

/// The clock task of a game stops exactly if the game has no time limit.
pub proof fn clock_tasks_run_with_a_limit(s: GameSession, now: u64)
    ensures
        clock_loop::tick_of(s, now) == Tick::Stop <==> (s.timer_seconds is None || s.timer_seconds
            == Some(0u32)),
{
}

} // verus!
