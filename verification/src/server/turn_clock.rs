//! The turn clock of online games.
//!
//! Where the host set a time limit, the server counts down for the one human seat that has to
//! decide. When the time is up it passes priority for that seat, if passing is legal. This is no
//! rule of the game.
use vstd::prelude::*;

use crate::game::legal_actions;
use crate::server::clock;
use crate::server::protocol::ServerMessage;
use crate::server::session;
use crate::server::session::{ActionResult, GameSession, SessionManager};
use crate::types::actions::GameAction;
use crate::types::identifiers::PlayerId;
use crate::types::prompts::WaitingFor;

verus! {

/// The clock of a live session.
#[derive(Clone, Copy, Debug, PartialEq, Eq, Structural)]
pub struct TurnClockState {
    /// The human seat whose clock runs, if any.
    pub active_player: Option<PlayerId>,
    /// When their time is up, in milliseconds since the Unix epoch.
    pub deadline_ms: Option<u64>,
    /// The time left when the clock was last synchronised.
    pub remaining_ms: Option<u32>,
}

impl Default for TurnClockState {
    /// A clock that does not run.
    fn default() -> (r: Self)
        ensures
            r == stopped(),
    {
        TurnClockState { active_player: None, deadline_ms: None, remaining_ms: None }
    }
}

/// A clock that does not run.
pub open spec fn stopped() -> TurnClockState {
    TurnClockState { active_player: None, deadline_ms: None, remaining_ms: None }
}

/// The human seat on the clock: the only one that may decide, in a started game with a time limit,
/// unless an action is about to be taken back.
pub open spec fn clock_target(s: GameSession) -> Option<PlayerId> {
    let actors = s.state@.waiting_for.actors();
    if s.timer_seconds.unwrap_or(0) == 0 || !s.game_started || s.pending_takeback is Some
        || s.state@.waiting_for is GameOver || actors.len() != 1 || s.ai_seats@.contains(actors[0]) {
        None
    } else {
        Some(actors[0])
    }
}

/// The seat that should be on the clock, if any. While several players decide at the same time,
/// nobody is timed out.
pub fn clock_target_player(session: &GameSession) -> (r: Option<PlayerId>)
    ensures
        r == clock_target(*session),
{
    let budget: u32 = match session.timer_seconds {
        Some(s) => s,
        None => 0,
    };
    if budget == 0 || !session.game_started || session.pending_takeback.is_some() {
        return None;
    }
    if let WaitingFor::GameOver { .. } = &session.state.waiting_for {
        return None;
    }
    let submitters = session::acting_players(&session.state);
    if submitters.len() != 1 {
        return None;
    }
    let player = submitters[0];
    assert(submitters@ =~= seq![player]);
    let mut i: usize = 0;
    while i < session.ai_seats.len()
        invariant
            i <= session.ai_seats.len(),
            session.state@.waiting_for.actors() == seq![player],
            forall|j: int| 0 <= j < i ==> session.ai_seats@[j] != player,
        decreases session.ai_seats.len() - i,
    {
        if session.ai_seats[i] == player {
            assert(session.ai_seats@.contains(player));
            return None;
        }
        i = i + 1;
    }
    Some(player)
}

/// A time limit in milliseconds, as far as it fits.
pub open spec fn budget_ms(timer_seconds: Option<u32>) -> int {
    let ms = timer_seconds.unwrap_or(0) * 1000;
    if ms > u32::MAX {
        u32::MAX as int
    } else {
        ms
    }
}

/// The time left until a deadline, as far as it fits.
pub open spec fn time_left(deadline: u64, now: u64) -> int {
    if now >= deadline {
        0
    } else if deadline - now > u32::MAX {
        u32::MAX as int
    } else {
        deadline - now
    }
}

pub open spec fn later_by(now: u64, ms: int) -> int {
    if now + ms > u64::MAX {
        u64::MAX as int
    } else {
        now + ms
    }
}

/// The clock after a synchronisation: without a seat or a limit it stops; a new seat gets the whole
/// limit; for the same seat the time left is read off again.
pub open spec fn synced(
    c: TurnClockState,
    target: Option<PlayerId>,
    timer_seconds: Option<u32>,
    now: u64,
) -> TurnClockState {
    let budget = budget_ms(timer_seconds);
    match target {
        None => stopped(),
        Some(player) => if budget == 0 {
            stopped()
        } else if c.active_player != Some(player) {
            TurnClockState {
                active_player: Some(player),
                deadline_ms: Some(later_by(now, budget) as u64),
                remaining_ms: Some(budget as u32),
            }
        } else {
            match c.deadline_ms {
                Some(deadline) => TurnClockState {
                    remaining_ms: Some(time_left(deadline, now) as u32),
                    ..c
                },
                None => c,
            }
        },
    }
}

/// The time of the seat on the clock is up.
pub open spec fn expired(c: TurnClockState, now: u64) -> bool {
    c.active_player is Some && (c.deadline_ms matches Some(deadline) && now >= deadline)
}

/// What the clients are told of the clock.
pub open spec fn clock_message(c: TurnClockState) -> Option<ServerMessage> {
    match (c.active_player, c.remaining_ms) {
        (Some(active_player), Some(remaining_ms)) => Some(
            ServerMessage::TurnClockSync { active_player, remaining_ms, running: remaining_ms > 0 },
        ),
        _ => None,
    }
}

impl TurnClockState {
    /// Synchronises the clock with the seat that should be on it.
    pub fn sync_for_target(
        &mut self,
        target: Option<PlayerId>,
        timer_seconds: Option<u32>,
        now: u64,
    )
        ensures
            *final(self) == synced(*old(self), target, timer_seconds, now),
    {
        let target = match target {
            Some(t) => t,
            None => {
                *self = TurnClockState::default();
                return ;
            },
        };
        let seconds: u32 = match timer_seconds {
            Some(s) => s,
            None => 0,
        };
        let ms: u64 = seconds as u64 * 1000;
        let budget: u32 = if ms > u32::MAX as u64 {
            u32::MAX
        } else {
            ms as u32
        };
        if budget == 0 {
            *self = TurnClockState::default();
            return ;
        }
        if self.active_player != Some(target) {
            let deadline: u64 = if now > u64::MAX - budget as u64 {
                u64::MAX
            } else {
                now + budget as u64
            };
            self.active_player = Some(target);
            self.deadline_ms = Some(deadline);
            self.remaining_ms = Some(budget);
            return ;
        }
        if let Some(deadline) = self.deadline_ms {
            let left: u64 = if now >= deadline {
                0
            } else {
                deadline - now
            };
            let remaining: u32 = if left > u32::MAX as u64 {
                u32::MAX
            } else {
                left as u32
            };
            self.remaining_ms = Some(remaining);
        }
    }

    /// Synchronises the clock with a session.
    pub fn sync_from_session(&mut self, session: &GameSession, now: u64)
        ensures
            *final(self) == synced(
                *old(self),
                clock_target(*session),
                session.timer_seconds,
                now,
            ),
    {
        self.sync_for_target(clock_target_player(session), session.timer_seconds, now);
    }

    /// Whether the time of the seat on the clock is up.
    pub fn is_expired(&self, now: u64) -> (r: bool)
        ensures
            r == expired(*self, now),
    {
        match self.deadline_ms {
            Some(deadline) => self.active_player.is_some() && now >= deadline,
            None => false,
        }
    }

    /// The message about the clock; none while it does not run.
    pub fn sync_message(&self) -> (r: Option<ServerMessage>)
        ensures
            r == clock_message(*self),
    {
        match (self.active_player, self.remaining_ms) {
            (Some(active_player), Some(remaining_ms)) => Some(
                ServerMessage::TurnClockSync {
                    active_player,
                    remaining_ms,
                    running: remaining_ms > 0,
                },
            ),
            _ => None,
        }
    }
}

/// The session with its clock synchronised at a point in time.
pub open spec fn refreshed(s: GameSession, now: u64) -> GameSession {
    GameSession {
        turn_clock: synced(s.turn_clock, clock_target(s), s.timer_seconds, now),
        ..s
    }
}

impl GameSession {
    /// Synchronises the clock at a point in time.
    pub fn refresh_turn_clock_at(&mut self, now: u64)
        ensures
            *final(self) == refreshed(*old(self), now),
    {
        let target = clock_target_player(self);
        self.turn_clock.sync_for_target(target, self.timer_seconds, now);
    }

    /// Synchronises the clock now.
    pub fn refresh_turn_clock(&mut self)
        ensures
            exists|now: u64| *final(self) == #[trigger] refreshed(*old(self), now),
    {
        let now: u64 = clock::now_ms();
        self.refresh_turn_clock_at(now);
    }

    pub fn turn_clock_sync_message(&self) -> (r: Option<ServerMessage>)
        ensures
            r == clock_message(self.turn_clock),
    {
        self.turn_clock.sync_message()
    }

    /// Whether the time of the seat on the clock is up now.
    pub fn turn_clock_expired(&self) -> (r: bool)
        ensures
            exists|now: u64| r == #[trigger] expired(self.turn_clock, now),
    {
        self.turn_clock.is_expired(clock::now_ms())
    }
}

/// Passing is legal in the session's game.
pub open spec fn may_pass(s: GameSession) -> bool {
    legal_actions::may_pass(s.state@)
}

fn is_pass_legal(session: &GameSession) -> (r: bool)
    ensures
        r == may_pass(*session),
{
    let actions = legal_actions::legal_actions(&session.state);
    let mut i: usize = 0;
    while i < actions.len()
        invariant
            i <= actions.len(),
            legal_actions::lists_actions(session.state@, actions@),
            forall|j: int| 0 <= j < i ==> !(#[trigger] actions@[j] is PassPriority),
        decreases actions.len() - i,
    {
        if let GameAction::PassPriority = &actions[i] {
            proof {
                assert(actions@[i as int] == GameAction::PassPriority);
                legal_actions::passing_is_listed(session.state@, actions@);
            }
            return true;
        }
        i = i + 1;
    }
    proof {
        legal_actions::passing_is_listed(session.state@, actions@);
    }
    false
}

/// The seat on the clock has a token slot.
pub open spec fn seat_has_slot(s: GameSession) -> bool {
    s.turn_clock.active_player matches Some(p) ==> p.0 < s.player_tokens@.len()
}

/// The token of the seat on the clock.
pub open spec fn clocked_token(s: GameSession) -> Seq<char> {
    s.player_tokens@[s.turn_clock.active_player->Some_0.0 as int]@
}

/// A priority pass with a token: what the game replies, and what is reported.
pub open spec fn passed_for(
    before: GameSession,
    after: GameSession,
    r: Result<Option<ActionResult>, String>,
    token: Seq<char>,
) -> bool {
    &&& after == (GameSession { state: after.state, ..before })
    &&& match session::session_reply(before, token, GameAction::PassPriority) {
        None => after.state == before.state && (r matches Err(m) && m@ == "Invalid player token"@),
        Some(reply) => after.state@ == reply.state && (match reply.result {
            Ok(events) => r matches Ok(Some(result)) && session::reports(
                result,
                reply.state,
                events,
                before.player_count,
            ),
            Err(_) => r matches Err(m) && m@ == "Action rejected"@,
        }),
    }
}

/// What a timeout does to a session whose clock is read at `now`, and again at `later` if the seat
/// cannot pass: nothing while there is time left; an error for a seat that nobody has taken; where
/// passing is not legal, the clock is synchronised, which keeps the deadline for the same seat; else
/// the seat passes.
pub open spec fn timed_out(
    before: GameSession,
    after: GameSession,
    r: Result<Option<ActionResult>, String>,
    now: u64,
    later: u64,
) -> bool {
    if !expired(before.turn_clock, now) {
        after == before && r == Ok::<Option<ActionResult>, String>(None)
    } else if clocked_token(before).len() == 0 {
        after == before && (r matches Err(m) && m@ == "Timed-out seat has no player token"@)
    } else if !may_pass(before) {
        after == refreshed(before, later) && r == Ok::<Option<ActionResult>, String>(None)
    } else {
        passed_for(before, after, r, clocked_token(before))
    }
}

/// What a timeout does among all sessions: only the one with the code is touched.
pub open spec fn timeout_handled(
    before: SessionManager,
    after: SessionManager,
    code: Seq<char>,
    r: Result<Option<ActionResult>, String>,
    now: u64,
    later: u64,
) -> bool {
    let i = session::session_index(before.sessions@, code, 0);
    if i >= before.sessions@.len() {
        after == before && (r matches Err(m) && m@ == "Game not found: "@ + code)
    } else {
        &&& after.sessions@.len() == before.sessions@.len()
        &&& after.sessions@[i].0 == before.sessions@[i].0
        &&& forall|j: int|
            0 <= j < before.sessions@.len() && j != i ==> #[trigger] after.sessions@[j]
                == before.sessions@[j]
        &&& timed_out(before.sessions@[i].1, after.sessions@[i].1, r, now, later)
    }
}

/// If the time of the seat on the session's clock is up at `now`, the seat has a token slot.
pub open spec fn slot_exists_at(m: SessionManager, code: Seq<char>, now: u64) -> bool {
    let i = session::session_index(m.sessions@, code, 0);
    i < m.sessions@.len() && expired(m.sessions@[i].1.turn_clock, now) ==> seat_has_slot(
        m.sessions@[i].1,
    )
}

/// If the session's clock can expire, its seat has a token slot.
pub open spec fn slot_exists(m: SessionManager, code: Seq<char>) -> bool {
    let i = session::session_index(m.sessions@, code, 0);
    i < m.sessions@.len() && m.sessions@[i].1.turn_clock.deadline_ms is Some ==> seat_has_slot(
        m.sessions@[i].1,
    )
}

impl GameSession {
    /// Handles a timeout at a point in time; the clock is read again at `later` if needed.
    fn handle_timeout_at(&mut self, now: u64, later: u64) -> (r: Result<
        Option<ActionResult>,
        String,
    >)
        requires
            expired(old(self).turn_clock, now) ==> seat_has_slot(*old(self)),
        ensures
            timed_out(*old(self), *final(self), r, now, later),
    {
        if !self.turn_clock.is_expired(now) {
            return Ok(None);
        }
        let player = match self.turn_clock.active_player {
            Some(p) => p,
            None => {
                return Err(String::from_str("Turn clock expired without an active player"));
            },
        };
        let token = self.player_tokens[player.0 as usize].clone();
        if token.as_str().is_empty() {
            return Err(String::from_str("Timed-out seat has no player token"));
        }
        if !is_pass_legal(self) {
            self.refresh_turn_clock_at(later);
            return Ok(None);
        }
        match self.handle_action(token.as_str(), GameAction::PassPriority) {
            Ok(result) => Ok(Some(result)),
            Err(m) => Err(m),
        }
    }
}

impl SessionManager {
    /// Handles a timeout at a point in time; the clock is read again at `later` if needed.
    pub fn handle_turn_clock_timeout_at(
        &mut self,
        game_code: &str,
        now: u64,
        later: u64,
    ) -> (r: Result<
        Option<ActionResult>,
        String,
    >)
        requires
            slot_exists_at(*old(self), game_code@, now),
        ensures
            timeout_handled(*old(self), *final(self), game_code@, r, now, later),
    {
        let i: usize = self.find(game_code);
        if i >= self.sessions.len() {
            return Err(String::from_str("Game not found: ").concat(game_code));
        }
        self.sessions[i].1.handle_timeout_at(now, later)
    }

    /// Passes priority for the seat whose time is up, where that is legal.
    pub fn handle_turn_clock_timeout(&mut self, game_code: &str) -> (r: Result<
        Option<ActionResult>,
        String,
    >)
        requires
            slot_exists(*old(self), game_code@),
        ensures
            exists|now: u64, later: u64|
                #[trigger] timeout_handled(*old(self), *final(self), game_code@, r, now, later),
    {
        let now: u64 = clock::now_ms();
        let later: u64 = clock::now_ms();
        self.handle_turn_clock_timeout_at(game_code, now, later)
    }
}

} // verus!
