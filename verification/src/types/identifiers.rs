//! Identifiers of players, game objects and cards.
use std::cmp::Ordering;
use vstd::prelude::*;

use crate::order::key::Key;
use crate::order::stable_ord::StableOrd;

verus! {

/// A seat at the table.
#[derive(Clone, Copy, Debug, PartialEq, Eq, Structural, Hash)]
pub struct PlayerId(pub u8);

impl StableOrd for PlayerId {
    open spec fn key(&self) -> Key {
        self.0.key()
    }

    fn stable_cmp(&self, other: &Self) -> (o: Ordering) {
        self.0.stable_cmp(&other.0)
    }
}

/// A game object (CR 109).
#[derive(Clone, Copy, Debug, PartialEq, Eq, Structural, Hash)]
pub struct ObjectId(pub u64);

impl StableOrd for ObjectId {
    open spec fn key(&self) -> Key {
        self.0.key()
    }

    fn stable_cmp(&self, other: &Self) -> (o: Ordering) {
        self.0.stable_cmp(&other.0)
    }
}

/// The physical or virtual card an object came from; tokens carry `CardId(0)`.
#[derive(Clone, Copy, Debug, PartialEq, Eq, Structural, Hash)]
pub struct CardId(pub u64);

impl StableOrd for CardId {
    open spec fn key(&self) -> Key {
        self.0.key()
    }

    fn stable_cmp(&self, other: &Self) -> (o: Ordering) {
        self.0.stable_cmp(&other.0)
    }
}

} // verus!
