//! Phases and steps of a turn (CR 500).
use std::cmp::Ordering;
use vstd::prelude::*;

use crate::order::key::Key;
use crate::order::stable_ord::StableOrd;

verus! {

/// A phase or step (CR 500.1).
#[derive(Clone, Copy, Debug, PartialEq, Eq, Structural, Hash)]
pub enum Phase {
    Untap,
    Upkeep,
    Draw,
    PreCombatMain,
    BeginCombat,
    DeclareAttackers,
    DeclareBlockers,
    CombatDamage,
    EndCombat,
    PostCombatMain,
    End,
    Cleanup,
}

impl Phase {
    /// Position of the variant in the declaration.
    #[verifier::opaque]
    pub open spec fn rank(&self) -> int {
        match self {
            Phase::Untap => 0,
            Phase::Upkeep => 1,
            Phase::Draw => 2,
            Phase::PreCombatMain => 3,
            Phase::BeginCombat => 4,
            Phase::DeclareAttackers => 5,
            Phase::DeclareBlockers => 6,
            Phase::CombatDamage => 7,
            Phase::EndCombat => 8,
            Phase::PostCombatMain => 9,
            Phase::End => 10,
            Phase::Cleanup => 11,
        }
    }

    pub fn ordinal(&self) -> (r: u8)
        ensures
            r == self.rank(),
    {
        proof {
            reveal(Phase::rank);
        }
        match self {
            Phase::Untap => 0,
            Phase::Upkeep => 1,
            Phase::Draw => 2,
            Phase::PreCombatMain => 3,
            Phase::BeginCombat => 4,
            Phase::DeclareAttackers => 5,
            Phase::DeclareBlockers => 6,
            Phase::CombatDamage => 7,
            Phase::EndCombat => 8,
            Phase::PostCombatMain => 9,
            Phase::End => 10,
            Phase::Cleanup => 11,
        }
    }
}

impl StableOrd for Phase {
    open spec fn key(&self) -> Key {
        Key::Num(self.rank())
    }

    fn stable_cmp(&self, other: &Self) -> (o: Ordering) {
        self.ordinal().stable_cmp(&other.ordinal())
    }
}

} // verus!
