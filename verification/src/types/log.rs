//! The log of a game, as players read it.
use vstd::prelude::*;

use crate::types::events::GameEvent;
use crate::types::game_state::{GameModel, GameState};
use crate::types::phase::Phase;

verus! {

/// One line of the log: what happened, and when.
#[derive(Clone, Copy, Debug, PartialEq, Eq, Structural, Hash)]
pub struct LogEntry {
    pub turn: u32,
    pub phase: Phase,
    pub event: GameEvent,
}

/// The lines about events that have just happened, one for each.
pub open spec fn entries_of(s: GameModel, events: Seq<GameEvent>) -> Seq<LogEntry> {
    Seq::new(
        events.len(),
        |i: int| LogEntry { turn: s.turn_number, phase: s.phase, event: events[i] },
    )
}

/// The lines about events that have just happened.
pub fn log_entries(state: &GameState, events: &Vec<GameEvent>) -> (r: Vec<LogEntry>)
    ensures
        r@ == entries_of(state@, events@),
{
    let mut r: Vec<LogEntry> = Vec::new();
    let mut i: usize = 0;
    while i < events.len()
        invariant
            i <= events.len(),
            r@ == entries_of(state@, events@).take(i as int),
        decreases events.len() - i,
    {
        r.push(LogEntry { turn: state.turn_number, phase: state.phase, event: events[i] });
        i = i + 1;
        assert(r@ =~= entries_of(state@, events@).take(i as int));
    }
    assert(r@ =~= entries_of(state@, events@));
    r
}

} // verus!
