//! What a timeout does to the sessions.
use vstd::prelude::*;

use crate::game::engine::dispatch;
use crate::server::session;
use crate::server::session::{ActionResult, GameSession, SessionManager};
use crate::server::turn_clock;
use crate::types::actions::GameAction;
use crate::types::identifiers::PlayerId;
use crate::types::prompts::PromptModel;

verus! {

/// The first session with the code stands in a place.
pub open spec fn session_at(m: SessionManager, code: Seq<char>, i: int) -> bool {
    &&& 0 <= i < m.sessions@.len()
    &&& m.sessions@[i].0@ == code
    &&& forall|j: int| 0 <= j < i ==> (#[trigger] m.sessions@[j]).0@ != code
}

proof fn lemma_session_index(m: SessionManager, code: Seq<char>, from: int, i: int)
    requires
        0 <= from <= i <= m.sessions@.len(),
        forall|j: int| from <= j < i ==> (#[trigger] m.sessions@[j]).0@ != code,
        i < m.sessions@.len() ==> m.sessions@[i].0@ == code,
    ensures
        session::session_index(m.sessions@, code, from) == i,
    decreases i - from,
{
    if from < i {
        assert(m.sessions@[from].0@ != code);
        lemma_session_index(m, code, from + 1, i);
    }
}

/// A timeout for a code that no session has is an error that names the code, and changes nothing.
pub proof fn unknown_games_time_nobody_out(
    before: SessionManager,
    after: SessionManager,
    code: Seq<char>,
    r: Result<Option<ActionResult>, String>,
    now: u64,
    later: u64,
)
    requires
        turn_clock::timeout_handled(before, after, code, r, now, later),
        forall|j: int| 0 <= j < before.sessions@.len() ==> (#[trigger] before.sessions@[j]).0@ != code,
    ensures
        after == before,
        r matches Err(m) && m@ == "Game not found: "@ + code,
{
    lemma_session_index(before, code, 0, before.sessions@.len() as int);
}

/// A timeout touches the first session with its code and no other one.
pub proof fn timeouts_touch_one_session(
    before: SessionManager,
    after: SessionManager,
    code: Seq<char>,
    r: Result<Option<ActionResult>, String>,
    now: u64,
    later: u64,
    i: int,
)
    requires
        turn_clock::timeout_handled(before, after, code, r, now, later),
        session_at(before, code, i),
    ensures
        after.sessions@.len() == before.sessions@.len(),
        forall|j: int|
            0 <= j < before.sessions@.len() && j != i ==> #[trigger] after.sessions@[j]
                == before.sessions@[j],
        after.sessions@[i].0 == before.sessions@[i].0,
        turn_clock::timed_out(before.sessions@[i].1, after.sessions@[i].1, r, now, later),
{
    lemma_session_index(before, code, 0, i);
}

/// A seat is on the clock, and its deadline has come.
pub open spec fn time_is_up(s: GameSession, now: u64) -> bool {
    &&& s.turn_clock.active_player is Some
    &&& s.turn_clock.deadline_ms matches Some(deadline) && deadline <= now
}

/// The seat on the clock is the player's, who holds a token that no other seat has.
pub open spec fn clocked(s: GameSession, player: PlayerId) -> bool {
    &&& s.turn_clock.active_player == Some(player)
    &&& player.0 < s.player_tokens@.len()
    &&& s.player_tokens@[player.0 as int]@.len() > 0
    &&& forall|j: int|
        0 <= j < s.player_tokens@.len() && j != player.0 ==> (#[trigger] s.player_tokens@[j])@
            != s.player_tokens@[player.0 as int]@
}

/// While there is time left, a timeout changes nothing.
pub proof fn nothing_happens_before_the_deadline(
    before: GameSession,
    after: GameSession,
    r: Result<Option<ActionResult>, String>,
    now: u64,
    later: u64,
)
    requires
        turn_clock::timed_out(before, after, r, now, later),
        !time_is_up(before, now),
    ensures
        after == before,
        r == Ok::<Option<ActionResult>, String>(None),
{
}

/// A seat that nobody holds cannot be timed out.
pub proof fn vacant_seats_are_not_timed_out(
    before: GameSession,
    after: GameSession,
    r: Result<Option<ActionResult>, String>,
    now: u64,
    later: u64,
    player: PlayerId,
)
    requires
        turn_clock::timed_out(before, after, r, now, later),
        time_is_up(before, now),
        before.turn_clock.active_player == Some(player),
        before.player_tokens@[player.0 as int]@.len() == 0,
    ensures
        after == before,
        r matches Err(m) && m@ == "Timed-out seat has no player token"@,
{
}

/// A seat that has to decide something else than whether to pass is left alone: the game does not
/// change, and the clock is read again. If the game still waits for the same seat, its deadline
/// stays.
pub proof fn seats_that_cannot_pass_are_left_alone(
    before: GameSession,
    after: GameSession,
    r: Result<Option<ActionResult>, String>,
    now: u64,
    later: u64,
    player: PlayerId,
)
    requires
        turn_clock::timed_out(before, after, r, now, later),
        time_is_up(before, now),
        clocked(before, player),
        !(before.state@.waiting_for is Priority),
        !(before.state@.waiting_for is OrderTriggers),
        !(before.state@.waiting_for is ManaPayment),
    ensures
        after == (GameSession { turn_clock: after.turn_clock, ..before }),
        r == Ok::<Option<ActionResult>, String>(None),
        turn_clock::clock_target(before) == Some(player) ==> after.turn_clock.active_player == Some(
            player,
        ) && after.turn_clock.deadline_ms == before.turn_clock.deadline_ms,
        turn_clock::clock_target(before) is None ==> after.turn_clock.active_player is None,
{
}

proof fn lemma_token_index(tokens: Seq<String>, token: Seq<char>, from: int, i: int)
    requires
        0 <= from <= i < tokens.len(),
        forall|j: int| from <= j < i ==> (#[trigger] tokens[j])@ != token,
        tokens[i]@ == token,
    ensures
        session::token_index(tokens, token, from) == i,
    decreases i - from,
{
    if from < i {
        assert(tokens[from]@ != token);
        lemma_token_index(tokens, token, from + 1, i);
    }
}

/// A seat that has priority when its time is up passes, as if its player had: the game goes on as
/// after a pass of this player, and nothing else of the session changes.
pub proof fn seats_with_priority_pass(
    before: GameSession,
    after: GameSession,
    r: Result<Option<ActionResult>, String>,
    now: u64,
    later: u64,
    player: PlayerId,
)
    requires
        turn_clock::timed_out(before, after, r, now, later),
        time_is_up(before, now),
        clocked(before, player),
        before.state@.waiting_for == (PromptModel::Priority { player }),
    ensures
        after == (GameSession { state: after.state, ..before }),
        ({
            let reply = dispatch::action_reply(before.state@, player, GameAction::PassPriority);
            &&& after.state@ == reply.state
            &&& (r is Ok && r->Ok_0 is Some) <==> reply.result is Ok
            &&& r matches Err(m) ==> m@ == "Action rejected"@
        }),
{
    lemma_token_index(
        before.player_tokens@,
        before.player_tokens@[player.0 as int]@,
        0,
        player.0 as int,
    );
}

/// The first seat with a token is the one that the token stands for.
pub proof fn tokens_stand_for_their_seats(session: GameSession, token: Seq<char>, i: int)
    requires
        0 <= i < session.player_tokens@.len(),
        i <= u8::MAX,
        session.player_tokens@[i]@ == token,
        forall|j: int| 0 <= j < i ==> (#[trigger] session.player_tokens@[j])@ != token,
    ensures
        session::seat_of(session, token) matches Some(p) && p.0 == i,
{
    lemma_token_index(session.player_tokens@, token, 0, i);
}

proof fn lemma_no_token(tokens: Seq<String>, token: Seq<char>, from: int)
    requires
        0 <= from <= tokens.len(),
        forall|j: int| from <= j < tokens.len() ==> (#[trigger] tokens[j])@ != token,
    ensures
        session::token_index(tokens, token, from) == tokens.len(),
    decreases tokens.len() - from,
{
    if from < tokens.len() {
        assert(tokens[from]@ != token);
        lemma_no_token(tokens, token, from + 1);
    }
}

/// A token that nobody has stands for no seat, so that its actions never reach the game.
pub proof fn unknown_tokens_have_no_seat(
    session: GameSession,
    token: Seq<char>,
    action: GameAction,
)
    requires
        forall|j: int|
            0 <= j < session.player_tokens@.len() ==> (#[trigger] session.player_tokens@[j])@ != token,
    ensures
        session::seat_of(session, token) is None,
        session::session_reply(session, token, action) is None,
{
    lemma_no_token(session.player_tokens@, token, 0);
}

/// An action with the token of a seat is an action of the player in that seat.
pub proof fn actions_are_those_of_the_seat(
    session: GameSession,
    token: Seq<char>,
    action: GameAction,
    i: int,
)
    requires
        0 <= i < session.player_tokens@.len(),
        i <= u8::MAX,
        session.player_tokens@[i]@ == token,
        forall|j: int| 0 <= j < i ==> (#[trigger] session.player_tokens@[j])@ != token,
    ensures
        session::session_reply(session, token, action) == Some(
            dispatch::action_reply(session.state@, PlayerId(i as u8), action),
        ),
{
    lemma_token_index(session.player_tokens@, token, 0, i);
}

} // verus!
