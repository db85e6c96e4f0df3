//! The decisions of the server's turn-clock task. The task itself sleeps, locks, sends and stores.
use std::sync::Arc;
use vstd::prelude::*;

use crate::server::client_view::ClientState;
use crate::server::derived_views;
use crate::server::protocol::ServerMessage;
use crate::server::session;
use crate::server::session::{ActionResult, GameSession, SessionManager};
use crate::server::turn_clock;
use crate::shared;
use crate::types::actions::GameAction;
use crate::types::events::GameEvent;
use crate::types::identifiers::{ObjectId, PlayerId};
use crate::types::log::LogEntry;
use crate::types::mana_cost::ManaCost;

verus! {

/// What the task does after a look at its game.
#[derive(Debug, PartialEq, Eq)]
pub enum Tick {
    /// The game is gone or has no time limit: the task ends.
    Stop,
    /// The clients are told of the clock; with `expired` the timeout is handled next.
    Sync { message: Option<ServerMessage>, expired: bool, player_count: u8 },
}

/// The game has a time limit.
pub open spec fn timed(s: GameSession) -> bool {
    s.timer_seconds matches Some(t) && t > 0
}

/// What a tick decides for a session, after its clock was synchronised at `now`.
pub open spec fn tick_of(s: GameSession, now: u64) -> Tick {
    if timed(s) {
        let after = turn_clock::refreshed(s, now);
        Tick::Sync {
            message: turn_clock::clock_message(after.turn_clock),
            expired: turn_clock::expired(after.turn_clock, now),
            player_count: s.player_count,
        }
    } else {
        Tick::Stop
    }
}

/// Only the clock of the session with the code was synchronised, if there is one.
pub open spec fn clock_refreshed(
    before: SessionManager,
    after: SessionManager,
    code: Seq<char>,
    now: u64,
) -> bool {
    let i = session::session_index(before.sessions@, code, 0);
    if i >= before.sessions@.len() {
        after == before
    } else {
        &&& after.sessions@.len() == before.sessions@.len()
        &&& after.sessions@[i] == (
            before.sessions@[i].0,
            turn_clock::refreshed(before.sessions@[i].1, now),
        )
        &&& forall|j: int|
            0 <= j < before.sessions@.len() && j != i ==> #[trigger] after.sessions@[j]
                == before.sessions@[j]
    }
}

impl SessionManager {
    /// Synchronises the clock of a session; whether there is such a session.
    pub fn refresh_session_clock(&mut self, code: &str, now: u64) -> (r: bool)
        ensures
            r == (session::session_index(old(self).sessions@, code@, 0) < old(
                self,
            ).sessions@.len()),
            clock_refreshed(*old(self), *final(self), code@, now),
    {
        let i: usize = self.find(code);
        if i >= self.sessions.len() {
            return false;
        }
        self.sessions[i].1.refresh_turn_clock_at(now);
        true
    }

    /// One tick of the clock task.
    pub fn turn_clock_tick(&mut self, code: &str, now: u64) -> (r: Tick)
        ensures
            ({
                let i = session::session_index(old(self).sessions@, code@, 0);
                if i >= old(self).sessions@.len() {
                    r == Tick::Stop && *final(self) == *old(self)
                } else {
                    let s = old(self).sessions@[i].1;
                    &&& r == tick_of(s, now)
                    &&& timed(s) ==> clock_refreshed(*old(self), *final(self), code@, now)
                    &&& !timed(s) ==> *final(self) == *old(self)
                }
            }),
    {
        let i: usize = self.find(code);
        if i >= self.sessions.len() {
            return Tick::Stop;
        }
        let limit: u32 = match self.sessions[i].1.timer_seconds {
            Some(t) => t,
            None => 0,
        };
        if limit == 0 {
            return Tick::Stop;
        }
        self.sessions[i].1.refresh_turn_clock_at(now);
        let session = &self.sessions[i].1;
        Tick::Sync {
            message: session.turn_clock_sync_message(),
            expired: session.turn_clock.is_expired(now),
            player_count: session.player_count,
        }
    }

    /// The message with which a clock task starts; none means that no task should run.
    pub fn reschedule_message(&mut self, code: &str, now: u64) -> (r: Option<ServerMessage>)
        ensures
            clock_refreshed(*old(self), *final(self), code@, now),
            ({
                let i = session::session_index(old(self).sessions@, code@, 0);
                r == if i >= old(self).sessions@.len() {
                    None
                } else {
                    turn_clock::clock_message(
                        turn_clock::refreshed(old(self).sessions@[i].1, now).turn_clock,
                    )
                }
            }),
    {
        let i: usize = self.find(code);
        if i >= self.sessions.len() {
            return None;
        }
        self.sessions[i].1.refresh_turn_clock_at(now);
        self.sessions[i].1.turn_clock_sync_message()
    }
}

/// What follows a timeout.
#[derive(Debug)]
pub enum AfterTimeout {
    /// Priority was passed: the computer players move, the game is stored, and the clients are
    /// told.
    Passed(ActionResult),
    /// Nothing was done; the clock was synchronised once more.
    Wait,
    Failed(String),
}

/// What follows the handling of a timeout that came out as `r` and left the sessions as `mid`.
pub open spec fn timeout_settled(
    mid: SessionManager,
    after: SessionManager,
    code: Seq<char>,
    r: Result<Option<ActionResult>, String>,
    out: AfterTimeout,
    latest: u64,
) -> bool {
    match r {
        Ok(Some(result)) => out == AfterTimeout::Passed(result) && after == mid,
        Ok(None) => out is Wait && clock_refreshed(mid, after, code, latest),
        Err(m) => out == AfterTimeout::Failed(m) && after == mid,
    }
}

impl SessionManager {
    /// Handles a timeout; the clock is read at `now`, at `later` where the seat cannot pass, and at
    /// `latest` where nothing was done.
    pub fn settle_timeout(&mut self, code: &str, now: u64, later: u64, latest: u64) -> (r:
        AfterTimeout)
        requires
            turn_clock::slot_exists_at(*old(self), code@, now),
        ensures
            exists|mid: SessionManager, handled: Result<Option<ActionResult>, String>| #[trigger]
                turn_clock::timeout_handled(*old(self), mid, code@, handled, now, later)
                    && timeout_settled(mid, *final(self), code@, handled, r, latest),
    {
        let handled = self.handle_turn_clock_timeout_at(code, now, later);
        let ghost mid = *self;
        let ghost outcome = handled;
        let r = match handled {
            Ok(Some(result)) => AfterTimeout::Passed(result),
            Ok(None) => {
                self.refresh_session_clock(code, latest);
                AfterTimeout::Wait
            },
            Err(m) => AfterTimeout::Failed(m),
        };
        assert(turn_clock::timeout_handled(*old(self), mid, code@, outcome, now, later)
            && timeout_settled(mid, *self, code@, outcome, r, latest));
        r
    }
}

/// The update is the last one of its bundle: the pass itself where no computer player moved after
/// it (`position` 0), else the last of their moves.
pub open spec fn is_last(position: usize, ai_moves: usize) -> bool {
    position == ai_moves
}

/// The message tells a viewer of a result, with their view of the game. The log is told to everybody;
/// what can be done next is told only where the message is `open`.
pub open spec fn tells(
    m: ServerMessage,
    view: ClientState,
    viewer: Option<PlayerId>,
    r: ActionResult,
    eliminated: Seq<PlayerId>,
    open: bool,
) -> bool {
    m matches ServerMessage::StateUpdate {
        state,
        events,
        legal_actions,
        auto_pass_recommended,
        eliminated_players,
        log_entries,
        spell_costs,
        legal_actions_by_object,
        derived,
    } && {
        &&& state == view
        &&& events@ == r.events@
        &&& eliminated_players@ == eliminated
        &&& log_entries@ == r.log_entries@
        &&& derived_views::derived(derived, view, viewer)
        &&& open ==> {
            &&& legal_actions == r.legal_actions
            &&& auto_pass_recommended == r.auto_pass_recommended
            &&& spell_costs@ == r.spell_costs@
            &&& legal_actions_by_object == r.legal_actions_by_object
        }
        &&& !open ==> {
            &&& (*legal_actions)@.len() == 0
            &&& !auto_pass_recommended
            &&& spell_costs@.len() == 0
            &&& (*legal_actions_by_object)@.len() == 0
        }
    }
}

/// The messages of one update.
#[derive(Debug)]
pub struct UpdateMessages {
    /// One for each seat, by seat number.
    pub seats: Vec<ServerMessage>,
    pub spectators: ServerMessage,
}

/// A seat is told what it can do if it is to act after the last update.
pub open spec fn seat_is_open(r: ActionResult, seat: int, last: bool) -> bool {
    last && r.actors@.contains(PlayerId(seat as u8))
}

fn is_actor(actors: &Vec<PlayerId>, player: PlayerId) -> (r: bool)
    ensures
        r == actors@.contains(player),
{
    let mut i: usize = 0;
    while i < actors.len()
        invariant
            i <= actors.len(),
            forall|j: int| 0 <= j < i ==> actors@[j] != player,
        decreases actors.len() - i,
    {
        if actors[i] == player {
            return true;
        }
        i = i + 1;
    }
    false
}

/// What everybody is told alike of a result, and what those who act next are told.
struct CommonParts {
    events: Vec<GameEvent>,
    log_entries: Vec<LogEntry>,
    legal_actions: Arc<Vec<GameAction>>,
    auto_pass_recommended: bool,
    spell_costs: Vec<(ObjectId, ManaCost)>,
    legal_actions_by_object: Arc<Vec<(ObjectId, Vec<GameAction>)>>,
}

impl CommonParts {
    spec fn of(self, r: ActionResult) -> bool {
        &&& self.events == r.events
        &&& self.log_entries == r.log_entries
        &&& self.legal_actions == r.legal_actions
        &&& self.auto_pass_recommended == r.auto_pass_recommended
        &&& self.spell_costs == r.spell_costs
        &&& self.legal_actions_by_object == r.legal_actions_by_object
    }
}

fn update(
    view: ClientState,
    viewer: Option<PlayerId>,
    parts: &CommonParts,
    eliminated: &Vec<PlayerId>,
    open: bool,
    result: Ghost<ActionResult>,
) -> (m: ServerMessage)
    requires
        parts.of(result@),
    ensures
        tells(m, view, viewer, result@, eliminated@, open),
{
    let derived = derived_views::derive_views(&view, viewer);
    let events = shared::copy_all(&parts.events);
    let log_entries = shared::copy_all(&parts.log_entries);
    let eliminated_players = shared::copy_all(eliminated);
    if open {
        ServerMessage::StateUpdate {
            state: view,
            events,
            legal_actions: shared::share(&parts.legal_actions),
            auto_pass_recommended: parts.auto_pass_recommended,
            eliminated_players,
            log_entries,
            spell_costs: shared::copy_all(&parts.spell_costs),
            legal_actions_by_object: shared::share(&parts.legal_actions_by_object),
            derived,
        }
    } else {
        ServerMessage::StateUpdate {
            state: view,
            events,
            legal_actions: Arc::new(Vec::new()),
            auto_pass_recommended: false,
            eliminated_players,
            log_entries,
            spell_costs: Vec::new(),
            legal_actions_by_object: Arc::new(Vec::new()),
            derived,
        }
    }
}

/// The messages tell of a result with the players that were out of the game when the bundle began.
pub open spec fn messages_tell(
    m: UpdateMessages,
    r: ActionResult,
    eliminated: Seq<PlayerId>,
    last: bool,
) -> bool {
    &&& m.seats@.len() == r.views@.len()
    &&& forall|i: int|
        0 <= i < r.views@.len() ==> tells(
            #[trigger] m.seats@[i],
            r.views@[i],
            Some(PlayerId(i as u8)),
            r,
            eliminated,
            seat_is_open(r, i, last),
        )
    &&& tells(m.spectators, r.spectator, None, r, eliminated, false)
}

/// The messages about a result of an action, with the players that were out of the game when the
/// bundle began.
pub fn update_messages(result: ActionResult, eliminated: &Vec<PlayerId>, last: bool) -> (r:
    UpdateMessages)
    requires
        result.views@.len() <= 256,
    ensures
        messages_tell(r, result, eliminated@, last),
{
    let ghost all = result.views@;
    let ActionResult {
        views,
        spectator,
        events,
        legal_actions,
        auto_pass_recommended,
        actors,
        eliminated_players: _,
        log_entries,
        spell_costs,
        legal_actions_by_object,
    } = result;
    let parts = CommonParts {
        events,
        log_entries,
        legal_actions,
        auto_pass_recommended,
        spell_costs,
        legal_actions_by_object,
    };
    let mut left = views;
    let mut seats: Vec<ServerMessage> = Vec::new();
    while left.len() > 0
        invariant
            seats@.len() + left@.len() == all.len(),
            all.len() <= 256,
            all == result.views@,
            left@ == all.skip(seats@.len() as int),
            parts.of(result),
            actors == result.actors,
            forall|i: int|
                0 <= i < seats@.len() ==> tells(
                    #[trigger] seats@[i],
                    all[i],
                    Some(PlayerId(i as u8)),
                    result,
                    eliminated@,
                    seat_is_open(result, i, last),
                ),
        decreases left.len(),
    {
        let ghost n = seats@.len() as int;
        let seat: u8 = seats.len() as u8;
        let view = left.remove(0);
        assert(view == all[n]);
        let open = last && is_actor(&actors, PlayerId(seat));
        let m = update(
            view,
            Some(PlayerId(seat)),
            &parts,
            eliminated,
            open,
            Ghost(result),
        );
        seats.push(m);
        assert(left@ =~= all.skip(n + 1));
    }
    let spectators = update(spectator, None, &parts, eliminated, false, Ghost(result));
    UpdateMessages { seats, spectators }
}

/// Whether an update is the last one of a bundle with `ai_moves` moves of computer players after
/// the pass.
pub fn is_last_update(position: usize, ai_moves: usize) -> (r: bool)
    ensures
        r == is_last(position, ai_moves),
{
    position == ai_moves
}

/// A result of an action, and whether it may be sent to the clients.
#[derive(Debug)]
pub struct GuardedResult {
    pub result: ActionResult,
    pub sendable: bool,
}

/// One update of a bundle.
#[derive(Debug)]
pub struct BundleStep {
    /// Zero for the pass, then one for each move of a computer player.
    pub position: usize,
    pub messages: UpdateMessages,
    /// Spectators are told of the pass only, and only if there is a message for them.
    pub to_spectators: bool,
}

/// The step sends an update about a result.
pub open spec fn step_tells(
    step: BundleStep,
    r: ActionResult,
    eliminated: Seq<PlayerId>,
    position: int,
    ai_moves: nat,
    spectators: bool,
) -> bool {
    &&& step.position == position
    &&& messages_tell(step.messages, r, eliminated, position == ai_moves)
    &&& step.to_spectators == (spectators && position == 0)
}

/// Positions of the results that may be sent, first to last.
pub open spec fn sendable_positions(results: Seq<GuardedResult>) -> Seq<int>
    decreases results.len(),
{
    if results.len() == 0 {
        Seq::empty()
    } else {
        let front = sendable_positions(results.drop_last());
        if results.last().sendable {
            front.push(results.len() - 1)
        } else {
            front
        }
    }
}

/// The bundle of updates after a timeout: the pass, then each move of a computer player that may be
/// sent. Where the pass may not be sent, nothing is. `spectators` says whether there is a message for
/// the spectators.
pub open spec fn bundle_of(
    steps: Seq<BundleStep>,
    human: GuardedResult,
    ai: Seq<GuardedResult>,
    spectators: bool,
) -> bool {
    let eliminated = human.result.eliminated_players@;
    let sent = sendable_positions(ai);
    if !human.sendable {
        steps.len() == 0
    } else {
        &&& steps.len() == 1 + sent.len()
        &&& step_tells(steps[0], human.result, eliminated, 0, ai.len(), spectators)
        &&& forall|k: int|
            0 <= k < sent.len() ==> step_tells(
                #[trigger] steps[k + 1],
                ai[sent[k]].result,
                eliminated,
                sent[k] + 1,
                ai.len(),
                spectators,
            )
    }
}

proof fn lemma_positions_in_range(results: Seq<GuardedResult>)
    ensures
        forall|k: int|
            0 <= k < sendable_positions(results).len() ==> 0 <= #[trigger] sendable_positions(
                results,
            )[k] < results.len(),
    decreases results.len(),
{
    if results.len() > 0 {
        lemma_positions_in_range(results.drop_last());
        let front = sendable_positions(results.drop_last());
        assert forall|k: int| 0 <= k < sendable_positions(results).len() implies 0
            <= #[trigger] sendable_positions(results)[k] < results.len() by {
            if k < front.len() {
                assert(sendable_positions(results)[k] == front[k]);
            }
        }
    }
}

/// The updates that follow a timeout; `spectators` says whether there is a message for the
/// spectators.
pub fn timeout_bundle(human: GuardedResult, ai: Vec<GuardedResult>, spectators: bool) -> (r: Vec<
    BundleStep,
>)
    requires
        human.result.views@.len() <= 256,
        forall|i: int| 0 <= i < ai@.len() ==> (#[trigger] ai@[i]).result.views@.len() <= 256,
        ai@.len() < usize::MAX,
    ensures
        bundle_of(r@, human, ai@, spectators),
{
    let ghost all = ai@;
    let ghost first = human;
    let mut steps: Vec<BundleStep> = Vec::new();
    if !human.sendable {
        return steps;
    }
    let moves: usize = ai.len();
    let eliminated = shared::copy_all(&human.result.eliminated_players);
    let GuardedResult { result, sendable: _ } = human;
    steps.push(
        BundleStep {
            position: 0,
            messages: update_messages(result, &eliminated, is_last_update(0, moves)),
            to_spectators: spectators,
        },
    );
    let mut left = ai;
    let mut i: usize = 0;
    assert(all.take(0) =~= Seq::empty());
    while left.len() > 0
        invariant
            i + left@.len() == all.len(),
            i <= moves,
            moves == all.len(),
            moves < usize::MAX,
            left@ == all.skip(i as int),
            first.sendable,
            eliminated@ == first.result.eliminated_players@,
            forall|j: int| 0 <= j < all.len() ==> (#[trigger] all[j]).result.views@.len() <= 256,
            steps@.len() == 1 + sendable_positions(all.take(i as int)).len(),
            step_tells(steps@[0], first.result, eliminated@, 0, all.len(), spectators),
            forall|k: int|
                0 <= k < sendable_positions(all.take(i as int)).len() ==> step_tells(
                    #[trigger] steps@[k + 1],
                    all[sendable_positions(all.take(i as int))[k]].result,
                    eliminated@,
                    sendable_positions(all.take(i as int))[k] + 1,
                    all.len(),
                    spectators,
                ),
        decreases left.len(),
    {
        let ghost sent = sendable_positions(all.take(i as int));
        let next = left.remove(0);
        assert(next == all[i as int]);
        assert(left@ =~= all.skip(i + 1));
        assert(all.take(i + 1).drop_last() =~= all.take(i as int));
        assert(all.take(i + 1).last() == next);
        let GuardedResult { result, sendable } = next;
        if sendable {
            let ghost before = steps@;
            steps.push(
                BundleStep {
                    position: i + 1,
                    messages: update_messages(result, &eliminated, is_last_update(i + 1, moves)),
                    to_spectators: false,
                },
            );
            assert(sendable_positions(all.take(i + 1)) == sent.push(i as int));
            assert forall|k: int|
                0 <= k < sendable_positions(all.take(i + 1)).len() implies step_tells(
                #[trigger] steps@[k + 1],
                all[sendable_positions(all.take(i + 1))[k]].result,
                eliminated@,
                sendable_positions(all.take(i + 1))[k] + 1,
                all.len(),
                spectators,
            ) by {
                if k < sent.len() {
                    assert(steps@[k + 1] == before[k + 1]);
                }
            }
        }
        i = i + 1;
    }
    assert(all.take(i as int) =~= all);
    steps
}

/// In a bundle, the steps after the pass tell of later and later moves.
pub proof fn bundles_keep_the_order_of_moves(ai: Seq<GuardedResult>, j: int, k: int)
    requires
        0 <= j < k < sendable_positions(ai).len(),
    ensures
        0 <= sendable_positions(ai)[j] < sendable_positions(ai)[k] < ai.len(),
    decreases ai.len(),
{
    let front = ai.drop_last();
    lemma_positions_in_range(front);
    if k < sendable_positions(front).len() {
        bundles_keep_the_order_of_moves(front, j, k);
    }
}

/// The result that a step of a bundle tells of.
pub open spec fn told_result(
    human: GuardedResult,
    ai: Seq<GuardedResult>,
    k: int,
) -> ActionResult {
    if k == 0 {
        human.result
    } else {
        ai[sendable_positions(ai)[k - 1]].result
    }
}

/// The message offers nothing to do.
pub open spec fn offers_nothing(m: ServerMessage) -> bool {
    m matches ServerMessage::StateUpdate {
        legal_actions,
        auto_pass_recommended,
        spell_costs,
        legal_actions_by_object,
        ..
    } && {
        &&& (*legal_actions)@.len() == 0
        &&& !auto_pass_recommended
        &&& spell_costs@.len() == 0
        &&& (*legal_actions_by_object)@.len() == 0
    }
}

/// Every message of a bundle to a seat shows the seat's own view of the result it tells of, with its
/// log. It offers nothing to do unless the seat is to act and the update is the last one; then it
/// offers what the result does.
pub proof fn only_actors_of_the_last_update_are_offered_actions(
    steps: Seq<BundleStep>,
    human: GuardedResult,
    ai: Seq<GuardedResult>,
    spectators: bool,
    k: int,
    seat: int,
)
    requires
        bundle_of(steps, human, ai, spectators),
        0 <= k < steps.len(),
        0 <= seat < told_result(human, ai, k).views@.len(),
    ensures
        ({
            let r = told_result(human, ai, k);
            let m = steps[k].messages.seats@[seat];
            &&& m matches ServerMessage::StateUpdate {
                state,
                legal_actions,
                auto_pass_recommended,
                log_entries,
                spell_costs,
                legal_actions_by_object,
                ..
            } && {
                &&& state == r.views@[seat]
                &&& log_entries@ == r.log_entries@
                &&& seat_is_open(r, seat, steps[k].position == ai.len()) ==> {
                    &&& legal_actions == r.legal_actions
                    &&& auto_pass_recommended == r.auto_pass_recommended
                    &&& spell_costs@ == r.spell_costs@
                    &&& legal_actions_by_object == r.legal_actions_by_object
                }
            }
            &&& !seat_is_open(r, seat, steps[k].position == ai.len()) ==> offers_nothing(m)
        }),
{
    let r = told_result(human, ai, k);
    if k > 0 {
        assert(step_tells(
            steps[(k - 1) + 1],
            r,
            human.result.eliminated_players@,
            sendable_positions(ai)[k - 1] + 1,
            ai.len(),
            spectators,
        ));
    }
    assert(messages_tell(
        steps[k].messages,
        r,
        human.result.eliminated_players@,
        steps[k].position == ai.len(),
    ));
    assert(tells(
        steps[k].messages.seats@[seat],
        r.views@[seat],
        Some(PlayerId(seat as u8)),
        r,
        human.result.eliminated_players@,
        seat_is_open(r, seat, steps[k].position == ai.len()),
    ));
}

/// The last result of a bundle: the pass where no computer player moved after it, else their last
/// move.
pub open spec fn last_result(human: GuardedResult, ai: Seq<GuardedResult>) -> ActionResult {
    if ai.len() == 0 {
        human.result
    } else {
        ai.last().result
    }
}

/// The message lists actions.
pub open spec fn lists_something(m: ServerMessage) -> bool {
    m matches ServerMessage::StateUpdate { legal_actions, .. } && (*legal_actions)@.len() > 0
}

/// In any bundle, a message that lists actions tells of the last result and goes to a seat that is
/// to act after it; spectators are never told any.
pub proof fn only_the_last_update_is_open(
    steps: Seq<BundleStep>,
    human: GuardedResult,
    ai: Seq<GuardedResult>,
    spectators: bool,
    k: int,
    seat: int,
)
    requires
        bundle_of(steps, human, ai, spectators),
        0 <= k < steps.len(),
        0 <= seat < steps[k].messages.seats@.len(),
    ensures
        lists_something(steps[k].messages.seats@[seat]) ==> {
            &&& told_result(human, ai, k) == last_result(human, ai)
            &&& last_result(human, ai).actors@.contains(PlayerId(seat as u8))
        },
        !lists_something(steps[k].messages.spectators),
{
    let sent = sendable_positions(ai);
    if k > 0 {
        lemma_positions_in_range(ai);
        assert(0 <= sent[k - 1] < ai.len());
        assert(step_tells(
            steps[(k - 1) + 1],
            told_result(human, ai, k),
            human.result.eliminated_players@,
            sent[k - 1] + 1,
            ai.len(),
            spectators,
        ));
    }
    only_actors_of_the_last_update_are_offered_actions(steps, human, ai, spectators, k, seat);
}

} // verus!
