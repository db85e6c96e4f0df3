//! A game together with what it has reported.
use vstd::prelude::*;

use crate::types::events::GameEvent;
use crate::types::game_state::GameModel;

verus! {

/// The contents of a game and its list of events.
#[verifier::ext_equal]
pub struct Outcome {
    pub state: GameModel,
    pub events: Seq<GameEvent>,
}

impl Outcome {
    /// The same game with one more event.
    pub open spec fn report(self, e: GameEvent) -> Outcome {
        Outcome { events: self.events.push(e), ..self }
    }
}

/// A game with its events.
pub open spec fn at(state: GameModel, events: Seq<GameEvent>) -> Outcome {
    Outcome { state, events }
}

} // verus!
