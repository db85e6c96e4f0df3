//! Mana colors and types (CR 105, CR 106).
use std::cmp::Ordering;
use vstd::prelude::*;

use crate::order::key::Key;
use crate::order::stable_ord::StableOrd;

verus! {

/// A color (CR 105.1).
#[derive(Clone, Copy, Debug, PartialEq, Eq, Structural, Hash)]
pub enum ManaColor {
    White,
    Blue,
    Black,
    Red,
    Green,
}

impl ManaColor {
    /// Position of the variant in the declaration.
    #[verifier::opaque]
    pub open spec fn rank(&self) -> int {
        match self {
            ManaColor::White => 0,
            ManaColor::Blue => 1,
            ManaColor::Black => 2,
            ManaColor::Red => 3,
            ManaColor::Green => 4,
        }
    }

    pub fn ordinal(&self) -> (r: u8)
        ensures
            r == self.rank(),
    {
        proof {
            reveal(ManaColor::rank);
        }
        match self {
            ManaColor::White => 0,
            ManaColor::Blue => 1,
            ManaColor::Black => 2,
            ManaColor::Red => 3,
            ManaColor::Green => 4,
        }
    }
}

impl StableOrd for ManaColor {
    open spec fn key(&self) -> Key {
        Key::Num(self.rank())
    }

    fn stable_cmp(&self, other: &Self) -> (o: Ordering) {
        self.ordinal().stable_cmp(&other.ordinal())
    }
}

/// A type of mana (CR 106.1b).
#[derive(Clone, Copy, Debug, PartialEq, Eq, Structural, Hash)]
pub enum ManaType {
    White,
    Blue,
    Black,
    Red,
    Green,
    Colorless,
}

impl ManaType {
    /// Position of the variant in the declaration.
    #[verifier::opaque]
    pub open spec fn rank(&self) -> int {
        match self {
            ManaType::White => 0,
            ManaType::Blue => 1,
            ManaType::Black => 2,
            ManaType::Red => 3,
            ManaType::Green => 4,
            ManaType::Colorless => 5,
        }
    }

    pub fn ordinal(&self) -> (r: u8)
        ensures
            r == self.rank(),
    {
        proof {
            reveal(ManaType::rank);
        }
        match self {
            ManaType::White => 0,
            ManaType::Blue => 1,
            ManaType::Black => 2,
            ManaType::Red => 3,
            ManaType::Green => 4,
            ManaType::Colorless => 5,
        }
    }
}

impl StableOrd for ManaType {
    open spec fn key(&self) -> Key {
        Key::Num(self.rank())
    }

    fn stable_cmp(&self, other: &Self) -> (o: Ordering) {
        self.ordinal().stable_cmp(&other.ordinal())
    }
}

} // verus!
