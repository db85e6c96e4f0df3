//! The parts of the MTGJSON card files that the subtype vocabulary is built from.
use vstd::prelude::*;

verus! {

/// One card type with its subtypes and supertypes.
#[derive(Clone, Debug)]
pub struct CardTypeEntry {
    pub sub_types: Vec<String>,
    pub super_types: Vec<String>,
}

#[derive(Clone, Debug)]
pub struct CardTypesData {
    pub creature: CardTypeEntry,
}

/// `CardTypes.json`.
#[derive(Clone, Debug)]
pub struct CardTypesFile {
    pub data: CardTypesData,
}

/// One face of a card.
#[derive(Clone, Debug)]
pub struct AtomicCard {
    pub type_line: Option<String>,
    pub subtypes: Vec<String>,
}

/// `AtomicCards.json`: the faces of each card, by card name.
#[derive(Clone, Debug)]
pub struct AtomicCardsFile {
    pub data: Vec<(String, Vec<AtomicCard>)>,
}

} // verus!
