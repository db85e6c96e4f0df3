//! The subtype vocabulary.
use phase_engine::database::mtgjson::{CardTypeEntry, CardTypesData, CardTypesFile};
use phase_engine::database::subtype_vocab::{
    build_parser_subtype_vocabulary, canonical_creature_subtypes_from_card_types,
    is_valid_subtype_spelling, type_line_corroborates_subtype,
};

fn fixture_card_types(creature: &[&str]) -> CardTypesFile {
    CardTypesFile {
        data: CardTypesData {
            creature: CardTypeEntry {
                sub_types: creature.iter().map(|s| (*s).to_string()).collect(),
                super_types: Vec::new(),
            },
        },
    }
}

#[test]
fn rejects_common_oracle_words_and_mtgjson_garbage() {
    for garbage in [
        "The",
        "You",
        "and/or",
        "of",
        "Baddest,",
        "Elemental?",
        "creature",
    ] {
        assert!(
            !is_valid_subtype_spelling(garbage),
            "{garbage} must not be a subtype"
        );
    }
}

#[test]
fn accepts_legitimate_subtype_spellings() {
    for good in [
        "Human",
        "Time Lord",
        "Jace",
        "Nahiri",
        "Plains",
        "Equipment",
        "Sliver",
        "Phyrexian",
    ] {
        assert!(
            is_valid_subtype_spelling(good),
            "{good} should be a valid subtype spelling"
        );
    }
}

#[test]
fn canonical_creature_subtypes_include_token_only_types() {
    let card_types = fixture_card_types(&[
        "Human",
        "Army",
        "Germ",
        "Servo",
        "Tentacle",
        "Camarid",
        "Tetravite",
    ]);
    let subtypes = canonical_creature_subtypes_from_card_types(&card_types);
    for token_subtype in ["Army", "Germ", "Servo", "Tentacle", "Camarid", "Tetravite"] {
        assert!(
            subtypes.contains(token_subtype),
            "{token_subtype} must be in canonical creature subtypes"
        );
    }
}

#[test]
fn build_parser_vocabulary_includes_token_creature_subtypes() {
    let creature = canonical_creature_subtypes_from_card_types(&fixture_card_types(&[
        "Human", "Army", "Germ", "Servo", "Tentacle",
    ]));
    let vocab = build_parser_subtype_vocabulary(&creature.words);
    for token_subtype in ["Army", "Germ", "Servo", "Tentacle"] {
        assert!(
            vocab.iter().any(|s| s == token_subtype),
            "{token_subtype} must be parser-authoritative"
        );
    }
}

#[test]
fn type_line_corroboration_requires_em_dash_section() {
    assert!(type_line_corroborates_subtype(
        "Legendary Creature — Human Wizard",
        "Human"
    ));
    assert!(type_line_corroborates_subtype(
        "Legendary Creature — Time Lord",
        "Time Lord"
    ));
    assert!(!type_line_corroborates_subtype("Creature", "Human"));
    assert!(!type_line_corroborates_subtype(
        "Legendary Creature — Human Wizard",
        "The"
    ));
}
