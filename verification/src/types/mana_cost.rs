//! Mana costs and mana in pools (CR 106, CR 202).
use vstd::prelude::*;

use crate::types::identifiers::ObjectId;
use crate::types::mana::ManaType;

verus! {

/// A mana cost: how many symbols of each type, and how much generic mana.
#[derive(Clone, Copy, Debug, PartialEq, Eq, Structural, Hash)]
pub struct ManaCost {
    pub white: u32,
    pub blue: u32,
    pub black: u32,
    pub red: u32,
    pub green: u32,
    pub colorless: u32,
    pub generic: u32,
}

impl ManaCost {
    pub open spec fn nothing() -> ManaCost {
        ManaCost { white: 0, blue: 0, black: 0, red: 0, green: 0, colorless: 0, generic: 0 }
    }

    /// The cost {0}.
    pub fn zero() -> (r: Self)
        ensures
            r == ManaCost::nothing(),
    {
        ManaCost { white: 0, blue: 0, black: 0, red: 0, green: 0, colorless: 0, generic: 0 }
    }

    /// A cost of generic mana only.
    pub fn generic(amount: u32) -> (r: Self)
        ensures
            r == (ManaCost { generic: amount, ..ManaCost::nothing() }),
    {
        ManaCost { generic: amount, ..ManaCost::zero() }
    }

    pub open spec fn symbols(&self, kind: ManaType) -> nat {
        match kind {
            ManaType::White => self.white as nat,
            ManaType::Blue => self.blue as nat,
            ManaType::Black => self.black as nat,
            ManaType::Red => self.red as nat,
            ManaType::Green => self.green as nat,
            ManaType::Colorless => self.colorless as nat,
        }
    }

    /// How many symbols of one type the cost holds.
    pub fn symbols_of(&self, kind: ManaType) -> (r: u32)
        ensures
            r == self.symbols(kind),
    {
        match kind {
            ManaType::White => self.white,
            ManaType::Blue => self.blue,
            ManaType::Black => self.black,
            ManaType::Red => self.red,
            ManaType::Green => self.green,
            ManaType::Colorless => self.colorless,
        }
    }

    /// The amount of mana that pays the cost.
    pub open spec fn total(&self) -> nat {
        (self.white + self.blue + self.black + self.red + self.green + self.colorless
            + self.generic) as nat
    }
}

/// One mana in a pool, with the object that produced it.
#[derive(Clone, Copy, Debug, PartialEq, Eq, Structural, Hash)]
pub struct ManaUnit {
    pub color: ManaType,
    pub source_id: ObjectId,
    pub snow: bool,
}

impl ManaUnit {
    pub fn new(color: ManaType, source_id: ObjectId, snow: bool) -> (r: Self)
        ensures
            r == (ManaUnit { color, source_id, snow }),
    {
        ManaUnit { color, source_id, snow }
    }
}

/// The unspent mana of a player (CR 106.4).
#[derive(Clone, Debug, PartialEq, Eq)]
pub struct ManaPool {
    pub mana: Vec<ManaUnit>,
}

impl ManaPool {
    /// How much mana the pool holds.
    pub fn total(&self) -> (r: usize)
        ensures
            r == self.mana@.len(),
    {
        self.mana.len()
    }
}

} // verus!
