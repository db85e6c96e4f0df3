//! Messages from the server to its clients.
use std::sync::Arc;
use vstd::prelude::*;

use crate::server::client_view::ClientState;
use crate::server::derived_views::DerivedViews;
use crate::types::actions::GameAction;
use crate::types::events::GameEvent;
use crate::types::identifiers::{ObjectId, PlayerId};
use crate::types::log::LogEntry;
use crate::types::mana_cost::ManaCost;

verus! {

#[allow(inconsistent_fields)]
#[derive(Clone, Debug, PartialEq, Eq)]
pub enum ServerMessage {
    /// How much time the player on the clock has left.
    TurnClockSync { active_player: PlayerId, remaining_ms: u32, running: bool },
    /// The game after an action.
    StateUpdate {
        state: ClientState,
        events: Vec<GameEvent>,
        legal_actions: Arc<Vec<GameAction>>,
        auto_pass_recommended: bool,
        eliminated_players: Vec<PlayerId>,
        log_entries: Vec<LogEntry>,
        /// What the cards that can be cast cost.
        spell_costs: Vec<(ObjectId, ManaCost)>,
        /// The legal actions that are about one object, by object.
        legal_actions_by_object: Arc<Vec<(ObjectId, Vec<GameAction>)>>,
        derived: DerivedViews,
    },
}

} // verus!
