//! Static abilities (CR 604).
use vstd::prelude::*;

use crate::types::target_filter::TargetFilter;
use crate::types::zones::Zone;

verus! {

/// How a maximum hand size is changed (CR 402.2).
#[derive(Clone, Copy, Debug, PartialEq, Eq, Structural, Hash)]
pub enum HandSizeModification {
    AdjustedBy(i32),
    SetTo(u32),
}

/// What a static ability does.
#[derive(Clone, Copy, Debug, PartialEq, Eq, Structural, Hash)]
pub enum StaticMode {
    MaximumHandSize { modification: HandSizeModification },
    /// The affected players can't draw cards.
    CantDraw,
    /// The affected players can't draw more than this many cards each turn.
    PerTurnDrawLimit { max: u32 },
    /// The affected creatures attack each combat if able (CR 508.1d).
    MustAttack,
}

/// A static ability: what it does, to whom, and from which zones it works.
#[derive(Debug, PartialEq, Eq)]
pub struct StaticDefinition {
    pub mode: StaticMode,
    pub affected: Option<TargetFilter>,
    pub active_zones: Vec<Zone>,
}

impl StaticDefinition {
    pub fn new(mode: StaticMode) -> (r: Self)
        ensures
            r.mode == mode,
            r.affected is None,
            r.active_zones@.len() == 0,
    {
        StaticDefinition { mode, affected: None, active_zones: Vec::new() }
    }

    pub fn affected(self, filter: TargetFilter) -> (r: Self)
        ensures
            r == (StaticDefinition { affected: Some(filter), ..self }),
    {
        StaticDefinition { affected: Some(filter), ..self }
    }

    pub fn active_zones(self, zones: Vec<Zone>) -> (r: Self)
        ensures
            r == (StaticDefinition { active_zones: zones, ..self }),
    {
        StaticDefinition { active_zones: zones, ..self }
    }
}

} // verus!
