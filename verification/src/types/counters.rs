//! Counters on objects and players (CR 122).
use std::cmp::Ordering;
use vstd::prelude::*;

use crate::order::key::Key;
use crate::order::stable_ord;
use crate::order::stable_ord::{cmp_val1, StableOrd};

verus! {

/// A kind of counter on an object (CR 122.1).
#[derive(Clone, Debug, PartialEq, Eq, Hash)]
pub enum CounterType {
    Plus1Plus1,
    Minus1Minus1,
    Loyalty,
    Defense,
    Lore,
    Stun,
    Generic(String),
}

impl CounterType {
    /// The same kind of counter.
    pub fn copied(&self) -> (r: Self)
        ensures
            r == *self,
    {
        match self {
            CounterType::Plus1Plus1 => CounterType::Plus1Plus1,
            CounterType::Minus1Minus1 => CounterType::Minus1Minus1,
            CounterType::Loyalty => CounterType::Loyalty,
            CounterType::Defense => CounterType::Defense,
            CounterType::Lore => CounterType::Lore,
            CounterType::Stun => CounterType::Stun,
            CounterType::Generic(name) => CounterType::Generic(name.clone()),
        }
    }

    /// The word that the kind goes by.
    pub open spec fn shown(&self) -> Seq<char> {
        match self {
            CounterType::Plus1Plus1 => "P1P1"@,
            CounterType::Minus1Minus1 => "M1M1"@,
            CounterType::Loyalty => "loyalty"@,
            CounterType::Defense => "defense"@,
            CounterType::Lore => "lore"@,
            CounterType::Stun => "stun"@,
            CounterType::Generic(name) => name@,
        }
    }

    /// The word that the kind goes by.
    pub fn as_str(&self) -> (r: &str)
        ensures
            r@ == self.shown(),
    {
        match self {
            CounterType::Plus1Plus1 => "P1P1",
            CounterType::Minus1Minus1 => "M1M1",
            CounterType::Loyalty => "loyalty",
            CounterType::Defense => "defense",
            CounterType::Lore => "lore",
            CounterType::Stun => "stun",
            CounterType::Generic(name) => name.as_str(),
        }
    }

    #[verifier::opaque]
    pub open spec fn rank(&self) -> int {
        match self {
            CounterType::Plus1Plus1 => 0,
            CounterType::Minus1Minus1 => 1,
            CounterType::Loyalty => 2,
            CounterType::Defense => 3,
            CounterType::Lore => 4,
            CounterType::Stun => 5,
            CounterType::Generic(..) => 6,
        }
    }

    #[verifier::opaque]
    pub open spec fn fields(&self) -> Seq<Key> {
        match self {
            CounterType::Plus1Plus1 => seq![],
            CounterType::Minus1Minus1 => seq![],
            CounterType::Loyalty => seq![],
            CounterType::Defense => seq![],
            CounterType::Lore => seq![],
            CounterType::Stun => seq![],
            CounterType::Generic(x) => seq![x.key()],
        }
    }

    fn ordinal(&self) -> (r: u8)
        ensures
            r == self.rank(),
    {
        proof {
            reveal(CounterType::rank);
        }
        match self {
            CounterType::Plus1Plus1 => 0,
            CounterType::Minus1Minus1 => 1,
            CounterType::Loyalty => 2,
            CounterType::Defense => 3,
            CounterType::Lore => 4,
            CounterType::Stun => 5,
            CounterType::Generic(..) => 6,
        }
    }
}

impl StableOrd for CounterType {
    open spec fn key(&self) -> Key {
        stable_ord::tagged(self.rank(), self.fields())
    }

    fn stable_cmp(&self, other: &Self) -> (o: Ordering) {
        proof {
            reveal(CounterType::rank);
            reveal(CounterType::fields);
            stable_ord::lemma_tagged(self.rank(), self.fields(), other.rank(), other.fields());
        }
        match self.ordinal().stable_cmp(&other.ordinal()) {
            Ordering::Equal => match (self, other) {
                (CounterType::Generic(a), CounterType::Generic(b)) => cmp_val1(a, b),
                _ => Ordering::Equal,
            },
            verdict => verdict,
        }
    }
}

/// A kind of counter on a player (CR 122.1).
#[derive(Clone, Copy, Debug, PartialEq, Eq, Structural, Hash)]
pub enum PlayerCounterKind {
    Poison,
    Energy,
    Experience,
    Rad,
    Ticket,
}

impl PlayerCounterKind {
    /// Position of the variant in the declaration.
    #[verifier::opaque]
    pub open spec fn rank(&self) -> int {
        match self {
            PlayerCounterKind::Poison => 0,
            PlayerCounterKind::Energy => 1,
            PlayerCounterKind::Experience => 2,
            PlayerCounterKind::Rad => 3,
            PlayerCounterKind::Ticket => 4,
        }
    }

    pub fn ordinal(&self) -> (r: u8)
        ensures
            r == self.rank(),
    {
        proof {
            reveal(PlayerCounterKind::rank);
        }
        match self {
            PlayerCounterKind::Poison => 0,
            PlayerCounterKind::Energy => 1,
            PlayerCounterKind::Experience => 2,
            PlayerCounterKind::Rad => 3,
            PlayerCounterKind::Ticket => 4,
        }
    }
}

impl StableOrd for PlayerCounterKind {
    open spec fn key(&self) -> Key {
        Key::Num(self.rank())
    }

    fn stable_cmp(&self, other: &Self) -> (o: Ordering) {
        self.ordinal().stable_cmp(&other.ordinal())
    }
}

} // verus!
