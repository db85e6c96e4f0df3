//! Zones of the game (CR 400).
use std::cmp::Ordering;
use vstd::prelude::*;

use crate::order::key::Key;
use crate::order::stable_ord::StableOrd;

verus! {

/// A zone (CR 400.1).
#[derive(Clone, Copy, Debug, PartialEq, Eq, Structural, Hash)]
pub enum Zone {
    Library,
    Hand,
    Battlefield,
    Graveyard,
    Stack,
    Exile,
    Command,
}

impl Zone {
    /// Position of the variant in the declaration.
    #[verifier::opaque]
    pub open spec fn rank(&self) -> int {
        match self {
            Zone::Library => 0,
            Zone::Hand => 1,
            Zone::Battlefield => 2,
            Zone::Graveyard => 3,
            Zone::Stack => 4,
            Zone::Exile => 5,
            Zone::Command => 6,
        }
    }

    pub fn ordinal(&self) -> (r: u8)
        ensures
            r == self.rank(),
    {
        proof {
            reveal(Zone::rank);
        }
        match self {
            Zone::Library => 0,
            Zone::Hand => 1,
            Zone::Battlefield => 2,
            Zone::Graveyard => 3,
            Zone::Stack => 4,
            Zone::Exile => 5,
            Zone::Command => 6,
        }
    }
}

impl StableOrd for Zone {
    open spec fn key(&self) -> Key {
        Key::Num(self.rank())
    }

    fn stable_cmp(&self, other: &Self) -> (o: Ordering) {
        self.ordinal().stable_cmp(&other.ordinal())
    }
}

/// Whether an entering permanent is told to enter tapped.
#[derive(Clone, Copy, Debug, PartialEq, Eq, Structural, Hash)]
pub enum EtbTapState {
    Unspecified,
    Tapped,
    Untapped,
}

impl EtbTapState {
    pub open spec fn resolved(self, default_tapped: bool) -> bool {
        match self {
            EtbTapState::Unspecified => default_tapped,
            EtbTapState::Tapped => true,
            EtbTapState::Untapped => false,
        }
    }

    /// The tap state on entry, `default_tapped` where nothing is specified.
    pub fn resolve(self, default_tapped: bool) -> (tapped: bool)
        ensures
            tapped == self.resolved(default_tapped),
    {
        match self {
            EtbTapState::Unspecified => default_tapped,
            EtbTapState::Tapped => true,
            EtbTapState::Untapped => false,
        }
    }
}

} // verus!
