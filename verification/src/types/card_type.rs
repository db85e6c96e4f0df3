//! Card types and supertypes (CR 205).
use std::cmp::Ordering;
use vstd::prelude::*;

use crate::order::key::Key;
use crate::order::stable_ord::StableOrd;

verus! {

/// A card type (CR 205.2a).
#[derive(Clone, Copy, Debug, PartialEq, Eq, Structural, Hash)]
pub enum CoreType {
    Artifact,
    Battle,
    Creature,
    Enchantment,
    Instant,
    Kindred,
    Land,
    Planeswalker,
    Sorcery,
    Plane,
    Phenomenon,
    Scheme,
    Vanguard,
    Conspiracy,
    Dungeon,
}

impl CoreType {
    /// Position of the variant in the declaration.
    #[verifier::opaque]
    pub open spec fn rank(&self) -> int {
        match self {
            CoreType::Artifact => 0,
            CoreType::Battle => 1,
            CoreType::Creature => 2,
            CoreType::Enchantment => 3,
            CoreType::Instant => 4,
            CoreType::Kindred => 5,
            CoreType::Land => 6,
            CoreType::Planeswalker => 7,
            CoreType::Sorcery => 8,
            CoreType::Plane => 9,
            CoreType::Phenomenon => 10,
            CoreType::Scheme => 11,
            CoreType::Vanguard => 12,
            CoreType::Conspiracy => 13,
            CoreType::Dungeon => 14,
        }
    }

    pub fn ordinal(&self) -> (r: u8)
        ensures
            r == self.rank(),
    {
        proof {
            reveal(CoreType::rank);
        }
        match self {
            CoreType::Artifact => 0,
            CoreType::Battle => 1,
            CoreType::Creature => 2,
            CoreType::Enchantment => 3,
            CoreType::Instant => 4,
            CoreType::Kindred => 5,
            CoreType::Land => 6,
            CoreType::Planeswalker => 7,
            CoreType::Sorcery => 8,
            CoreType::Plane => 9,
            CoreType::Phenomenon => 10,
            CoreType::Scheme => 11,
            CoreType::Vanguard => 12,
            CoreType::Conspiracy => 13,
            CoreType::Dungeon => 14,
        }
    }
}

impl StableOrd for CoreType {
    open spec fn key(&self) -> Key {
        Key::Num(self.rank())
    }

    fn stable_cmp(&self, other: &Self) -> (o: Ordering) {
        self.ordinal().stable_cmp(&other.ordinal())
    }
}

/// A supertype (CR 205.4a).
#[derive(Clone, Copy, Debug, PartialEq, Eq, Structural, Hash)]
pub enum Supertype {
    Basic,
    Legendary,
    Ongoing,
    Snow,
    World,
}

impl Supertype {
    /// Position of the variant in the declaration.
    #[verifier::opaque]
    pub open spec fn rank(&self) -> int {
        match self {
            Supertype::Basic => 0,
            Supertype::Legendary => 1,
            Supertype::Ongoing => 2,
            Supertype::Snow => 3,
            Supertype::World => 4,
        }
    }

    pub fn ordinal(&self) -> (r: u8)
        ensures
            r == self.rank(),
    {
        proof {
            reveal(Supertype::rank);
        }
        match self {
            Supertype::Basic => 0,
            Supertype::Legendary => 1,
            Supertype::Ongoing => 2,
            Supertype::Snow => 3,
            Supertype::World => 4,
        }
    }
}

impl StableOrd for Supertype {
    open spec fn key(&self) -> Key {
        Key::Num(self.rank())
    }

    fn stable_cmp(&self, other: &Self) -> (o: Ordering) {
        self.ordinal().stable_cmp(&other.ordinal())
    }
}

} // verus!
