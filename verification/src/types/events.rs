//! What the game reports.
use vstd::prelude::*;

use crate::types::ability::EffectKind;
use crate::types::action_payloads::TargetRef;
use crate::types::identifiers::{ObjectId, PlayerId};
use crate::types::zones::Zone;

verus! {

/// Why a player planeswalks (CR 701.31).
#[derive(Clone, Copy, Debug, PartialEq, Eq, Structural, Hash)]
pub enum PlaneswalkCause {
    /// The planeswalking ability of the planar die (CR 901.8).
    PlanarDie,
    /// Another spell or ability.
    Instruction,
}

#[allow(inconsistent_fields)]
#[derive(Clone, Copy, Debug, PartialEq, Eq, Structural, Hash)]
pub enum GameEvent {
    EffectResolved { kind: EffectKind, source_id: ObjectId, subject: Option<TargetRef> },
    CardDrawn { player_id: PlayerId, object_id: ObjectId },
    LifeChanged { player_id: PlayerId, life: i32 },
    ControllerChanged { object_id: ObjectId, controller: PlayerId },
    ZoneChanged { object_id: ObjectId, from: Zone, to: Zone },
    TokenCreated { object_id: ObjectId, owner: PlayerId },
    SpellCountered { object_id: ObjectId },
    Planeswalked { player_id: PlayerId, cause: PlaneswalkCause },
}

} // verus!
