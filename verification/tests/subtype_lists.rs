//! Harvested and sorted subtype lists.
use phase_engine::database::mtgjson::{AtomicCard, AtomicCardsFile};
use phase_engine::database::subtype_vocab::{
    build_parser_subtype_vocabulary, harvest_creature_subtypes_from_atomic,
    is_valid_subtype_spelling, subtype_section_from_type_line, type_line_corroborates_subtype,
};

fn face(type_line: Option<&str>, subtypes: &[&str]) -> AtomicCard {
    AtomicCard {
        type_line: type_line.map(|t| t.to_string()),
        subtypes: subtypes.iter().map(|s| s.to_string()).collect(),
    }
}

#[test]
fn spellings_are_bounded_and_plain() {
    assert!(!is_valid_subtype_spelling(""));
    assert!(!is_valid_subtype_spelling("   "));
    assert!(is_valid_subtype_spelling("  Human "));
    assert!(is_valid_subtype_spelling("Urza's"));
    assert!(is_valid_subtype_spelling("Power-Plant"));
    assert!(!is_valid_subtype_spelling("Élan"));
    assert!(!is_valid_subtype_spelling("Elf2"));
    let mut long = "A".to_string();
    long.push_str(&"b".repeat(47));
    assert!(is_valid_subtype_spelling(&long));
    long.push('b');
    assert!(!is_valid_subtype_spelling(&long));
}

#[test]
fn the_section_stands_between_two_dashes() {
    assert_eq!(
        subtype_section_from_type_line("Creature — Elf Druid"),
        Some("Elf Druid")
    );
    assert_eq!(
        subtype_section_from_type_line("Creature — Elf — Druid"),
        Some("Elf")
    );
    assert_eq!(subtype_section_from_type_line("Creature —  "), None);
    assert_eq!(subtype_section_from_type_line("Creature"), None);
    assert!(type_line_corroborates_subtype("CREATURE — ELF", "elf"));
}

#[test]
fn harvested_subtypes_are_confirmed_by_their_type_line() {
    let atomic = AtomicCardsFile {
        data: vec![
            (
                "A".to_string(),
                vec![
                    face(Some("Creature — Human Wizard"), &["Human", "Wizard", "Elf"]),
                    face(None, &["Goblin"]),
                ],
            ),
            (
                "B".to_string(),
                vec![face(Some("Creature — Elf?"), &["Elf", "Elf?"])],
            ),
        ],
    };
    let words = harvest_creature_subtypes_from_atomic(&atomic).words;
    assert_eq!(words, vec!["Elf", "Human", "Wizard"]);
}

#[test]
fn the_vocabulary_is_sorted_and_has_no_duplicates() {
    let vocab = build_parser_subtype_vocabulary(&[
        "Elf".to_string(),
        "Time Lord".to_string(),
        "Elf".to_string(),
        "and/or".to_string(),
        "Equipment".to_string(),
    ]);
    for pair in vocab.windows(2) {
        assert!(
            pair[0].len() > pair[1].len()
                || (pair[0].len() == pair[1].len() && pair[0] < pair[1]),
            "{:?}",
            pair
        );
    }
    assert_eq!(vocab.iter().filter(|w| *w == "Elf").count(), 1);
    assert_eq!(vocab.iter().filter(|w| *w == "Equipment").count(), 1);
    assert!(!vocab.iter().any(|w| w == "and/or"));
    let place = |word: &str| vocab.iter().position(|w| w == word).unwrap();
    assert!(place("Time Lord") < place("Elf"));
}
