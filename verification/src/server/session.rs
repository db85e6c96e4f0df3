//! Live games and who takes part in them.
use std::sync::Arc;
use vstd::prelude::*;

use crate::game::deck_loading::PlayerDeckPayload;
use crate::game::engine::dispatch;
use crate::game::engine::reply;
use crate::game::engine::reply::Reply;
use crate::game::legal_actions;
use crate::server::client_view;
use crate::server::client_view::ClientState;
use crate::server::turn_clock::TurnClockState;
use crate::shared;
use crate::text;
use crate::types::actions::GameAction;
use crate::types::events::GameEvent;
use crate::types::game_state::{GameModel, GameState};
use crate::types::identifiers::{ObjectId, PlayerId};
use crate::types::log;
use crate::types::log::LogEntry;
use crate::types::mana_cost::ManaCost;

verus! {

/// One live game.
#[derive(Debug)]
pub struct GameSession {
    pub game_code: String,
    pub state: GameState,
    /// The secret of each seat; empty while nobody has taken it.
    pub player_tokens: Vec<String>,
    pub connected: Vec<bool>,
    pub decks: Vec<Option<PlayerDeckPayload>>,
    pub display_names: Vec<String>,
    pub timer_seconds: Option<u32>,
    pub player_count: u8,
    pub ai_seats: Vec<PlayerId>,
    pub game_started: bool,
    pub start_when_full: bool,
    pub ranked: bool,
    pub start_events: Vec<GameEvent>,
    /// The player who asked to take back an action, while the others decide.
    pub pending_takeback: Option<PlayerId>,
    pub turn_clock: TurnClockState,
}

/// The players whose decision the game waits for.
pub fn acting_players(state: &GameState) -> (r: Vec<PlayerId>)
    ensures
        r@ == state@.waiting_for.actors(),
{
    state.waiting_for.acting_players()
}

/// What an accepted action brought about, as the clients are told.
#[derive(Debug)]
pub struct ActionResult {
    /// The game as each seat sees it, by seat number.
    pub views: Vec<ClientState>,
    /// The game as spectators see it.
    pub spectator: ClientState,
    pub events: Vec<GameEvent>,
    pub legal_actions: Arc<Vec<GameAction>>,
    /// Nothing is listed but to pass.
    pub auto_pass_recommended: bool,
    pub actors: Vec<PlayerId>,
    pub eliminated_players: Vec<PlayerId>,
    pub log_entries: Vec<LogEntry>,
    /// What the cards that can be cast cost.
    pub spell_costs: Vec<(ObjectId, ManaCost)>,
    /// The legal actions that are about one object, by object.
    pub legal_actions_by_object: Arc<Vec<(ObjectId, Vec<GameAction>)>>,
}

/// The result tells of the game `s` at a table of `seats`.
pub open spec fn reports(r: ActionResult, s: GameModel, events: Seq<GameEvent>, seats: u8) -> bool {
    &&& r.views@.len() == seats
    &&& forall|i: int|
        0 <= i < seats ==> client_view::shows(
            #[trigger] r.views@[i],
            s,
            Some(PlayerId(i as u8)),
        )
    &&& client_view::shows(r.spectator, s, None)
    &&& r.events@ == events
    &&& legal_actions::lists_actions(s, (*r.legal_actions)@)
    &&& r.auto_pass_recommended == ((*r.legal_actions)@ =~= seq![GameAction::PassPriority])
    &&& r.actors@ == s.waiting_for.actors()
    &&& r.eliminated_players@ == s.eliminated_players
    &&& r.log_entries@ == log::entries_of(s, events)
    &&& r.spell_costs@ == legal_actions::costs_to_cast(s)
    &&& legal_actions::groups_actions(s, (*r.legal_actions_by_object)@)
}

fn is_pass(action: &GameAction) -> (r: bool)
    ensures
        r == (*action == GameAction::PassPriority),
{
    match action {
        GameAction::PassPriority => true,
        _ => false,
    }
}

fn report(state: &GameState, events: Vec<GameEvent>, seats: u8) -> (r: ActionResult)
    ensures
        reports(r, state@, events@, seats),
{
    let mut views: Vec<ClientState> = Vec::new();
    let mut i: u8 = 0;
    while i < seats
        invariant
            i <= seats,
            views.len() == i,
            forall|j: int|
                0 <= j < i ==> client_view::shows(
                    #[trigger] views@[j],
                    state@,
                    Some(PlayerId(j as u8)),
                ),
        decreases seats - i,
    {
        views.push(client_view::filter_state_for_player(state, Some(PlayerId(i))));
        i = i + 1;
    }
    let legal_actions = legal_actions::legal_actions(state);
    let auto_pass_recommended = legal_actions.len() == 1 && is_pass(&legal_actions[0]);
    let log_entries = log::log_entries(state, &events);
    ActionResult {
        views,
        spectator: client_view::filter_state_for_player(state, None),
        events,
        legal_actions: Arc::new(legal_actions),
        auto_pass_recommended,
        actors: acting_players(state),
        eliminated_players: shared::copy_all(&state.eliminated_players),
        log_entries,
        spell_costs: legal_actions::spell_costs(state),
        legal_actions_by_object: Arc::new(legal_actions::legal_actions_by_object(state)),
    }
}

/// All live games, by code.
#[derive(Debug)]
pub struct SessionManager {
    pub sessions: Vec<(String, GameSession)>,
}

/// Position of the first session with a code at or after `from`, their number without one.
pub open spec fn session_index(
    sessions: Seq<(String, GameSession)>,
    code: Seq<char>,
    from: int,
) -> int
    decreases sessions.len() - from,
{
    if from >= sessions.len() {
        sessions.len() as int
    } else if sessions[from].0@ == code {
        from
    } else {
        session_index(sessions, code, from + 1)
    }
}

/// Position of the first seat with a token at or after `from`, their number without one.
pub open spec fn token_index(tokens: Seq<String>, token: Seq<char>, from: int) -> int
    decreases tokens.len() - from,
{
    if from >= tokens.len() {
        tokens.len() as int
    } else if tokens[from]@ == token {
        from
    } else {
        token_index(tokens, token, from + 1)
    }
}

fn find_token(tokens: &Vec<String>, token: &str) -> (r: usize)
    ensures
        r == token_index(tokens@, token@, 0),
        r <= tokens.len(),
{
    let mut i: usize = 0;
    while i < tokens.len() && !text::is_word(&text::chars_of(tokens[i].as_str()), token)
        invariant
            i <= tokens.len(),
            token_index(tokens@, token@, i as int) == token_index(tokens@, token@, 0),
        decreases tokens.len() - i,
    {
        i = i + 1;
    }
    i
}

/// The seat that a token belongs to.
pub open spec fn seat_of(session: GameSession, token: Seq<char>) -> Option<PlayerId> {
    let i = token_index(session.player_tokens@, token, 0);
    if i < session.player_tokens@.len() && i <= u8::MAX {
        Some(PlayerId(i as u8))
    } else {
        None
    }
}

/// A player's action in a session: the reply of the game, or why it never reached the game.
pub open spec fn session_reply(
    session: GameSession,
    token: Seq<char>,
    action: GameAction,
) -> Option<
    Reply,
> {
    match seat_of(session, token) {
        Some(player) => Some(dispatch::action_reply(session.state@, player, action)),
        None => None,
    }
}

impl GameSession {
    /// Hands an action of the player with the given token to the game.
    pub fn handle_action(&mut self, token: &str, action: GameAction) -> (r: Result<
        ActionResult,
        String,
    >)
        ensures
            *final(self) == (GameSession { state: final(self).state, ..*old(self) }),
            match session_reply(*old(self), token@, action) {
                None => {
                    &&& final(self).state == old(self).state
                    &&& r matches Err(m) && m@ == "Invalid player token"@
                },
                Some(reply) => {
                    &&& final(self).state@ == reply.state
                    &&& match reply.result {
                        Ok(events) => r matches Ok(result) && reports(
                            result,
                            reply.state,
                            events,
                            old(self).player_count,
                        ),
                        Err(_) => r matches Err(m) && m@ == "Action rejected"@,
                    }
                },
            },
    {
        let seat: usize = find_token(&self.player_tokens, token);
        if seat >= self.player_tokens.len() || seat > u8::MAX as usize {
            return Err(String::from_str("Invalid player token"));
        }
        match dispatch::apply(&mut self.state, PlayerId(seat as u8), action) {
            Ok(events) => Ok(report(&self.state, events, self.player_count)),
            Err(_) => Err(String::from_str("Action rejected")),
        }
    }
}

impl SessionManager {
    pub fn new() -> (r: Self)
        ensures
            r.sessions@.len() == 0,
    {
        SessionManager { sessions: Vec::new() }
    }

    /// Position of a session; the number of sessions for an unknown code.
    pub fn find(&self, code: &str) -> (r: usize)
        ensures
            r == session_index(self.sessions@, code@, 0),
            r <= self.sessions@.len(),
    {
        let mut i: usize = 0;
        while i < self.sessions.len() && !text::is_word(
            &text::chars_of(self.sessions[i].0.as_str()),
            code,
        )
            invariant
                i <= self.sessions.len(),
                session_index(self.sessions@, code@, i as int) == session_index(
                    self.sessions@,
                    code@,
                    0,
                ),
            decreases self.sessions.len() - i,
        {
            i = i + 1;
        }
        i
    }
}

} // verus!
