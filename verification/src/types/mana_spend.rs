//! What mana may be spent on (CR 106.6).
use vstd::prelude::*;

use crate::types::keywords::KeywordKind;
use crate::types::zones::Zone;

verus! {

#[derive(Clone, Copy, Debug, PartialEq, Eq, Structural, Hash)]
pub enum Comparator {
    GreaterThan,
    LessThan,
    GreaterOrEqual,
    LessOrEqual,
    Equal,
    NotEqual,
}

/// The abilities that mana for spells of a type may also activate.
#[derive(Clone, Copy, Debug, PartialEq, Eq, Structural, Hash)]
pub enum AbilityActivationScope {
    /// Abilities of permanents of that type.
    OfSpellType,
    Any,
}

/// The keyword that an activated ability comes from.
#[derive(Clone, Copy, Debug, PartialEq, Eq, Structural, Hash)]
pub enum AbilityTag {
    Backup,
    PowerUp,
}

/// A property of a spell's cost.
#[derive(Clone, Copy, Debug, PartialEq, Eq, Structural, Hash)]
pub enum SpellCostCriterion {
    ManaValue { comparator: Comparator, value: u32 },
    /// The cost has {X} in it.
    HasX,
}

/// Whether a spell has to come from a zone, or must not.
#[derive(Clone, Copy, Debug, PartialEq, Eq, Structural, Hash)]
pub enum ZoneSpendPolarity {
    From,
    NotFrom,
}

#[derive(Clone, Copy, Debug, PartialEq, Eq, Structural, Hash)]
pub struct ZoneSpend {
    pub zone: Zone,
    pub polarity: ZoneSpendPolarity,
}

/// "Spend this mana only ...", before it is read against a game.
#[allow(inconsistent_fields)]
#[derive(Debug, PartialEq, Eq)]
pub enum ManaSpendRestriction {
    SpellOnly,
    SpellType(String),
    ChosenCreatureType,
    SpellTypeOrAbilityActivation { spell_type: String, ability: AbilityActivationScope },
    ActivateOnly,
    ActivateTagged(AbilityTag),
    XCostOnly,
    SpellWithKeywordKind(KeywordKind),
    SpellWithKeywordKindFromZone { kind: KeywordKind, zone: Zone },
    SpellWithManaValue { comparator: Comparator, value: u32 },
    SpellMatchingCostCriteria { spell_type: Option<String>, criteria: Vec<SpellCostCriterion> },
    SpellWithColorCount { comparator: Comparator, count: u32 },
    SpellFromZone(ZoneSpend),
    UnlockDoor,
    FaceDownSpell,
    TurnPermanentFaceUp,
    /// One of the branches.
    Any(Vec<ManaSpendRestriction>),
}

/// The game can hold a payment to the restriction. That fails only for a choice without branches,
/// or with a branch for which it fails.
pub open spec fn covered(r: ManaSpendRestriction) -> bool
    decreases r,
{
    match r {
        ManaSpendRestriction::Any(subs) => {
            &&& subs@.len() > 0
            &&& forall|i: int| 0 <= i < subs@.len() ==> covered(#[trigger] subs@[i])
        },
        _ => true,
    }
}

impl ManaSpendRestriction {
    /// Whether the game can hold a payment to the restriction.
    pub fn is_coverage_supported(&self) -> (r: bool)
        ensures
            r == covered(*self),
        decreases *self,
    {
        match self {
            ManaSpendRestriction::SpellOnly => true,
            ManaSpendRestriction::SpellType(_) => true,
            ManaSpendRestriction::ChosenCreatureType => true,
            ManaSpendRestriction::SpellTypeOrAbilityActivation { .. } => true,
            ManaSpendRestriction::ActivateOnly => true,
            ManaSpendRestriction::ActivateTagged(_) => true,
            ManaSpendRestriction::XCostOnly => true,
            ManaSpendRestriction::SpellWithKeywordKind(_) => true,
            ManaSpendRestriction::SpellWithKeywordKindFromZone { .. } => true,
            ManaSpendRestriction::SpellWithManaValue { .. } => true,
            ManaSpendRestriction::SpellMatchingCostCriteria { .. } => true,
            ManaSpendRestriction::SpellWithColorCount { .. } => true,
            ManaSpendRestriction::SpellFromZone(_) => true,
            ManaSpendRestriction::UnlockDoor => true,
            ManaSpendRestriction::FaceDownSpell => true,
            ManaSpendRestriction::TurnPermanentFaceUp => true,
            ManaSpendRestriction::Any(subs) => {
                let mut i: usize = 0;
                while i < subs.len()
                    invariant
                        i <= subs.len(),
                        *self == ManaSpendRestriction::Any(*subs),
                        forall|j: int| 0 <= j < i ==> covered(#[trigger] subs@[j]),
                    decreases subs.len() - i,
                {
                    assert(decreases_to!(*self => self->Any_0@[i as int]));
                    if !subs[i].is_coverage_supported() {
                        return false;
                    }
                    i = i + 1;
                }
                subs.len() > 0
            },
        }
    }
}

} // verus!
