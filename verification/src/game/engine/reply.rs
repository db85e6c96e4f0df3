//! What an action brings about.
use vstd::prelude::*;

use crate::game::effects::chain::ChainOutcome;
use crate::types::ability::EffectError;
use crate::types::events::GameEvent;
use crate::types::game_state::GameModel;

verus! {

/// Why an action was not accepted.
#[derive(Debug, PartialEq, Eq)]
pub enum EngineError {
    /// Somebody else has to decide.
    WrongPlayer,
    /// The action does not answer what the game waits for.
    WrongPrompt,
    /// The answer is not one of those offered.
    IllegalChoice,
    /// The mana pool cannot pay for it.
    Unaffordable,
    /// An instruction could not be carried out.
    Effect(EffectError),
}

/// The contents of an engine error.
pub enum ErrorModel {
    WrongPlayer,
    WrongPrompt,
    IllegalChoice,
    Unaffordable,
    Effect(Seq<char>),
}

impl View for EngineError {
    type V = ErrorModel;

    open spec fn view(&self) -> ErrorModel {
        match *self {
            EngineError::WrongPlayer => ErrorModel::WrongPlayer,
            EngineError::WrongPrompt => ErrorModel::WrongPrompt,
            EngineError::IllegalChoice => ErrorModel::IllegalChoice,
            EngineError::Unaffordable => ErrorModel::Unaffordable,
            EngineError::Effect(e) => ErrorModel::Effect(e.message()),
        }
    }
}

/// The game after an action, with what it reports or why it was refused.
pub struct Reply {
    pub state: GameModel,
    pub result: Result<Seq<GameEvent>, ErrorModel>,
}

/// The action is refused and the game stays as it was.
pub open spec fn refused(s: GameModel, e: ErrorModel) -> Reply {
    Reply { state: s, result: Err(e) }
}

/// A reply that refuses the action leaves the game as it was; only an instruction that fails while
/// it resolves may leave traces.
pub open spec fn harmless(s: GameModel, r: Reply) -> bool {
    r.result matches Err(e) ==> (e is Effect || r.state == s)
}

/// What came of resolving instructions.
pub open spec fn resolved(c: ChainOutcome) -> Reply {
    Reply {
        state: c.after.state,
        result: match c.failure {
            None => Ok(c.after.events),
            Some(message) => Err(ErrorModel::Effect(message)),
        },
    }
}

/// The result of an executed action agrees with its description.
pub open spec fn agrees(
    r: Result<Vec<GameEvent>, EngineError>,
    state: GameModel,
    reply: Reply,
) -> bool {
    &&& state == reply.state
    &&& match reply.result {
        Ok(events) => r matches Ok(v) && v@ == events,
        Err(e) => r matches Err(x) && x@ == e,
    }
}

/// The events of instructions that were carried out, or their error.
pub fn conclude(r: Result<(), EffectError>, events: Vec<GameEvent>) -> (out: Result<
    Vec<GameEvent>,
    EngineError,
>)
    ensures
        match r {
            Ok(_) => out == Ok::<Vec<GameEvent>, EngineError>(events),
            Err(e) => out matches Err(EngineError::Effect(x)) && x == e,
        },
{
    match r {
        Ok(()) => Ok(events),
        Err(e) => Err(EngineError::Effect(e)),
    }
}

} // verus!
