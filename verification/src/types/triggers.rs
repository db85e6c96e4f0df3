//! Triggered abilities (CR 603).
use vstd::prelude::*;

use crate::types::ability::AbilityDefinition;

verus! {

/// The event that triggers an ability.
#[derive(Clone, Copy, Debug, PartialEq, Eq, Structural, Hash)]
pub enum TriggerMode {
    /// The permanent enters the battlefield.
    Enters,
    /// The permanent becomes tapped.
    Taps,
}

#[derive(Debug, PartialEq, Eq)]
pub struct TriggerDefinition {
    pub mode: TriggerMode,
    pub execute: Option<Box<AbilityDefinition>>,
}

} // verus!
