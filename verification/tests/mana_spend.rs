//! Restrictions on what mana is spent on.
use phase_engine::types::keywords::KeywordKind;
use phase_engine::types::mana_spend::{
    AbilityActivationScope, Comparator, ManaSpendRestriction, SpellCostCriterion, ZoneSpend,
    ZoneSpendPolarity,
};
use phase_engine::types::zones::Zone;

#[test]
fn single_restrictions_are_covered() {
    for restriction in [
        ManaSpendRestriction::SpellOnly,
        ManaSpendRestriction::FaceDownSpell,
        ManaSpendRestriction::SpellWithKeywordKind(KeywordKind::Flying),
        ManaSpendRestriction::SpellTypeOrAbilityActivation {
            spell_type: "Creature".to_string(),
            ability: AbilityActivationScope::Any,
        },
        ManaSpendRestriction::SpellMatchingCostCriteria {
            spell_type: None,
            criteria: vec![
                SpellCostCriterion::HasX,
                SpellCostCriterion::ManaValue {
                    comparator: Comparator::GreaterOrEqual,
                    value: 5,
                },
            ],
        },
        ManaSpendRestriction::SpellFromZone(ZoneSpend {
            zone: Zone::Hand,
            polarity: ZoneSpendPolarity::NotFrom,
        }),
    ] {
        assert!(restriction.is_coverage_supported(), "{restriction:?}");
    }
}

#[test]
fn choices_need_branches_that_are_covered() {
    let gossip = ManaSpendRestriction::Any(vec![
        ManaSpendRestriction::FaceDownSpell,
        ManaSpendRestriction::TurnPermanentFaceUp,
    ]);
    assert!(gossip.is_coverage_supported());
    assert!(!ManaSpendRestriction::Any(vec![]).is_coverage_supported());
    let hollow = ManaSpendRestriction::Any(vec![
        ManaSpendRestriction::UnlockDoor,
        ManaSpendRestriction::Any(vec![]),
    ]);
    assert!(!hollow.is_coverage_supported());
    assert!(ManaSpendRestriction::Any(vec![gossip]).is_coverage_supported());
}
