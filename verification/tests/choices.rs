//! Named choices, varying numbers of targets and iterations.
use std::sync::Arc;

use phase_engine::game::filter::{matches_target_filter, FilterContext};
use phase_engine::game::zones::create_object;
use phase_engine::types::card_type::CoreType;
use phase_engine::types::choices::{
    BasicLandType, CardPredicateChoice, ChoiceType, ChoiceValue, ChosenAttribute,
    NumberDistinctness, Parity, PlayerFilter,
};
use phase_engine::types::counters::CounterType;
use phase_engine::types::game_state::GameState;
use phase_engine::types::identifiers::{CardId, ObjectId, PlayerId};
use phase_engine::types::keywords::{Keyword, ProtectionTarget};
use phase_engine::types::mana::ManaColor;
use phase_engine::types::named_choice::find_label;
use phase_engine::types::quantity::{QuantityExpr, QuantityRef};
use phase_engine::types::selection::{CounterAdjustment, IterationCategory, MultiTargetSpec};
use phase_engine::types::target_filter::{FilterProp, TypeFilter, TypedFilter};
use phase_engine::types::zones::Zone;

#[test]
fn colors_are_read_unless_they_are_excluded() {
    let any = ChoiceType::color();
    let not_white = ChoiceType::color_excluding(vec![ManaColor::White]);
    assert_eq!(
        ChoiceValue::from_choice(&any, "White"),
        Some(ChoiceValue::Color(ManaColor::White))
    );
    assert_eq!(ChoiceValue::from_choice(&not_white, "White"), None);
    assert_eq!(
        ChoiceValue::from_choice(&not_white, "Black"),
        Some(ChoiceValue::Color(ManaColor::Black))
    );
    assert_eq!(ChoiceValue::from_choice(&any, "Purple"), None);
}

#[test]
fn card_types_are_read_unless_they_are_excluded() {
    let restricted = ChoiceType::card_type_excluding(vec![CoreType::Creature, CoreType::Land]);
    assert_eq!(ChoiceValue::from_choice(&restricted, "Creature"), None);
    assert_eq!(
        ChoiceValue::from_choice(&restricted, "Planeswalker"),
        Some(ChoiceValue::CardType(CoreType::Planeswalker))
    );
    assert_eq!(ChoiceValue::from_choice(&ChoiceType::card_type(), "Plain"), None);
}

#[test]
fn numbers_have_one_byte() {
    let range = ChoiceType::NumberRange {
        min: 0,
        max: 20,
        distinctness: NumberDistinctness::Repeatable,
    };
    assert_eq!(
        ChoiceValue::from_choice(&range, "17"),
        Some(ChoiceValue::Number(17))
    );
    assert_eq!(
        ChoiceValue::from_choice(&range, "+007"),
        Some(ChoiceValue::Number(7))
    );
    assert_eq!(
        ChoiceValue::from_choice(&range, "255"),
        Some(ChoiceValue::Number(255))
    );
    for wrong in ["256", "", "+", "-1", "1 ", "9999999999999999999999"] {
        assert_eq!(ChoiceValue::from_choice(&range, wrong), None, "{wrong:?}");
    }
    assert_eq!(
        ChoiceValue::from_choice(&ChoiceType::Opponent { restriction: None }, "3"),
        Some(ChoiceValue::Player(PlayerId(3)))
    );
}

#[test]
fn two_colors_are_separated_by_a_comma() {
    let two = ChoiceType::TwoColors;
    assert_eq!(
        ChoiceValue::from_choice(&two, "Red, Green"),
        Some(ChoiceValue::TwoColors(ManaColor::Red, ManaColor::Green))
    );
    for wrong in ["Red,Green", "Red", "Red, ", "Red, Green, Blue", ", Red"] {
        assert_eq!(ChoiceValue::from_choice(&two, wrong), None, "{wrong:?}");
    }
}

#[test]
fn qualities_are_read_back_from_their_labels() {
    let all = [
        CardPredicateChoice::Land,
        CardPredicateChoice::Nonland,
        CardPredicateChoice::Color(ManaColor::White),
        CardPredicateChoice::Color(ManaColor::Blue),
        CardPredicateChoice::Color(ManaColor::Black),
        CardPredicateChoice::Color(ManaColor::Red),
        CardPredicateChoice::Color(ManaColor::Green),
    ];
    for choice in all {
        assert_eq!(
            CardPredicateChoice::from_label(&choice.label()),
            Some(choice)
        );
    }
    assert_eq!(
        ChoiceType::card_predicate_labels(&ChoiceType::land_or_nonland_card_predicate_options()),
        vec!["Land", "Nonland"]
    );
    let offered = ChoiceType::CardPredicateGuess {
        options: vec![CardPredicateChoice::Land],
    };
    assert_eq!(
        ChoiceValue::from_choice(&offered, "Land"),
        Some(ChoiceValue::CardPredicate(CardPredicateChoice::Land))
    );
    assert_eq!(ChoiceValue::from_choice(&offered, "Nonland"), None);
    assert!(offered.is_card_predicate_guess());
    assert!(offered.needs_choice_source_context());
    assert!(offered.is_resolution_scoped_card_predicate_choice());
}

#[test]
fn qualities_may_overlap() {
    let types = [CoreType::Land, CoreType::Creature];
    let colors = [ManaColor::Red, ManaColor::Black];
    assert!(CardPredicateChoice::Land.matches_card(&types, &colors));
    assert!(!CardPredicateChoice::Nonland.matches_card(&types, &colors));
    assert!(CardPredicateChoice::Color(ManaColor::Red).matches_card(&types, &colors));
    assert!(CardPredicateChoice::Color(ManaColor::Black).matches_card(&types, &colors));
    assert!(!CardPredicateChoice::Color(ManaColor::Blue).matches_card(&types, &colors));
}

#[test]
fn permanents_remember_most_choices() {
    assert_eq!(
        ChosenAttribute::from_choice(ChoiceType::color(), "Green"),
        Some(ChosenAttribute::Color(ManaColor::Green))
    );
    assert_eq!(
        ChosenAttribute::from_choice(ChoiceType::OddOrEven, "Even"),
        Some(ChosenAttribute::OddOrEven(Parity::Even))
    );
    assert_eq!(
        ChosenAttribute::from_choice(ChoiceType::Word, "xyzzy"),
        Some(ChosenAttribute::Label("xyzzy".to_string()))
    );
    assert_eq!(
        ChosenAttribute::from_choice(ChoiceType::LandType, "Desert"),
        None
    );
    assert_eq!(
        ChosenAttribute::from_choice(ChoiceType::BasicLandType, "Desert"),
        None
    );
    assert_eq!(
        ChosenAttribute::Card(ObjectId(4)).choice_type(),
        ChoiceType::Labeled { options: vec![] }
    );
    assert_eq!(
        ChosenAttribute::Number(3).choice_type(),
        ChoiceType::NumberRange {
            min: 0,
            max: 20,
            distinctness: NumberDistinctness::Repeatable
        }
    );
}

#[test]
fn basic_land_types_go_with_the_colors() {
    let colors: Vec<ManaColor> = BasicLandType::all()
        .into_iter()
        .map(|t| t.mana_color())
        .collect();
    assert_eq!(
        colors,
        vec![
            ManaColor::White,
            ManaColor::Blue,
            ManaColor::Black,
            ManaColor::Red,
            ManaColor::Green
        ]
    );
    for land in BasicLandType::all() {
        assert_eq!(BasicLandType::read(land.as_subtype_str()), Some(land));
    }
    assert_eq!(BasicLandType::read("plains"), None);
}

#[test]
fn bounds_of_target_numbers() {
    let hand = QuantityExpr::Ref {
        qty: QuantityRef::HandSize,
    };
    assert!(MultiTargetSpec::up_to(hand).min_is_fixed_zero());
    assert_eq!(MultiTargetSpec::exact(hand).max, Some(hand));
    assert_eq!(MultiTargetSpec::exact(hand).fixed_min_usize(), None);
    assert_eq!(MultiTargetSpec::unlimited(2).max, None);
    assert_eq!(MultiTargetSpec::fixed(1, 3).fixed_min_usize(), Some(1));
    let mut spec = MultiTargetSpec::bounded(1, QuantityExpr::Fixed { value: 5 });
    spec.map_quantities(|_| QuantityExpr::Fixed { value: -1 });
    assert_eq!(spec.fixed_min_usize(), None);
    assert_eq!(spec.max, Some(QuantityExpr::Fixed { value: -1 }));
    assert!(CounterAdjustment::Add.allows_add() && !CounterAdjustment::Add.allows_remove());
    assert!(CounterAdjustment::AddOrRemove.allows_add());
    assert!(CounterAdjustment::AddOrRemove.allows_remove());
}

#[test]
fn iterations_go_through_their_members_in_order() {
    let mut state = GameState::new_two_player(1);
    let id = create_object(
        &mut state,
        CardId(1),
        PlayerId(0),
        "Kindred Sorcery".to_string(),
        Zone::Library,
    );
    let obj = state.objects.get_mut(&id).unwrap();
    obj.card_types.core_types = vec![CoreType::Kindred, CoreType::Sorcery];
    obj.color = vec![ManaColor::Blue, ManaColor::Green];
    let accepted = |category: IterationCategory| -> Vec<usize> {
        category
            .member_filters()
            .iter()
            .enumerate()
            .filter(|(_, f)| matches_target_filter(&state, id, f, &FilterContext::neutral()))
            .map(|(i, _)| i)
            .collect()
    };
    assert_eq!(accepted(IterationCategory::Color), vec![1, 4]);
    assert_eq!(accepted(IterationCategory::CardType), vec![5, 8]);
}

#[test]
fn filters_tell_their_first_types() {
    let filter = TypedFilter::new(TypeFilter::Non(Box::new(TypeFilter::Land)))
        .subtype("Elf".to_string())
        .with_type(TypeFilter::Creature);
    assert_eq!(filter.get_subtype(), Some("Elf"));
    assert_eq!(filter.get_primary_type(), Some(&TypeFilter::Creature));
    assert!(filter.has_meaningful_type_constraint());
    assert!(!TypedFilter::card().has_meaningful_type_constraint());
    assert_eq!(TypedFilter::land().get_subtype(), None);
    assert!(TypedFilter::card()
        .properties(vec![FilterProp::Token])
        .has_meaningful_type_constraint());
    assert!(FilterProp::HasColor {
        color: ManaColor::Red
    }
    .same_kind(&FilterProp::HasColor {
        color: ManaColor::Blue
    }));
    assert!(!FilterProp::Token.same_kind(&FilterProp::Tapped));
}

#[test]
fn names_and_words_come_from_the_player() {
    assert!(ChoiceType::CardName.options_supplied_by_player());
    assert!(ChoiceType::Word.options_supplied_by_player());
    assert!(ChoiceType::Artist.options_supplied_by_player());
    assert!(!ChoiceType::color().options_supplied_by_player());
    let listed = ChoiceType::creature_type_from(vec!["Elf".to_string(), "Goblin".to_string()]);
    assert!(!listed.options_supplied_by_player());
    assert!(matches!(listed, ChoiceType::CreatureType { options } if options == ["Elf", "Goblin"]));
}

#[test]
fn opponents_are_read_whatever_the_restriction() {
    let restricted = ChoiceType::Opponent {
        restriction: Some(Box::new(PlayerFilter::MostLife)),
    };
    assert_eq!(
        ChoiceValue::from_choice(&restricted, "2"),
        Some(ChoiceValue::Player(PlayerId(2)))
    );
    assert_eq!(ChoiceValue::from_choice(&restricted, "two"), None);
}

#[test]
fn keywords_are_read_in_any_case() {
    let options = vec![
        Arc::new(Keyword::FirstStrike),
        Arc::new(Keyword::Trample),
        Arc::new(Keyword::Protection(ProtectionTarget::Color(ManaColor::Red))),
    ];
    let choice = ChoiceType::Keyword { options, count: 2 };
    for (answer, keyword) in [
        ("First strike", Keyword::FirstStrike),
        ("FIRST STRIKE", Keyword::FirstStrike),
        ("first stri\u{212a}e", Keyword::FirstStrike),
        ("trample", Keyword::Trample),
        (
            "protection from red",
            Keyword::Protection(ProtectionTarget::Color(ManaColor::Red)),
        ),
    ] {
        let keyword = Arc::new(keyword);
        assert_eq!(
            ChoiceValue::from_choice(&choice, answer),
            Some(ChoiceValue::Keyword(keyword.clone())),
            "{answer}"
        );
        assert_eq!(
            ChosenAttribute::from_choice(choice.clone(), answer),
            Some(ChosenAttribute::Keyword(keyword))
        );
    }
    assert_eq!(ChoiceValue::from_choice(&choice, "Flying"), None);
    assert_eq!(ChoiceValue::from_choice(&choice, "trample "), None);
    assert_eq!(
        ChosenAttribute::Keyword(Arc::new(Keyword::Trample)).choice_type(),
        ChoiceType::Keyword {
            options: vec![],
            count: 1
        }
    );
}

#[test]
fn counter_kinds_are_read_in_any_case() {
    let choice = ChoiceType::CounterKind {
        options: vec![
            CounterType::Plus1Plus1,
            CounterType::Stun,
            CounterType::Generic("\u{c9}nergie".to_string()),
        ],
    };
    for (answer, kind) in [
        ("p1p1", CounterType::Plus1Plus1),
        ("P1P1", CounterType::Plus1Plus1),
        ("Stun", CounterType::Stun),
        (
            "\u{e9}NERGIE",
            CounterType::Generic("\u{c9}nergie".to_string()),
        ),
    ] {
        assert_eq!(
            ChoiceValue::from_choice(&choice, answer),
            Some(ChoiceValue::Counter(kind.clone())),
            "{answer}"
        );
        assert_eq!(
            ChosenAttribute::from_choice(choice.clone(), answer),
            Some(ChosenAttribute::Counter(kind))
        );
    }
    assert_eq!(ChoiceValue::from_choice(&choice, "lore"), None);
    assert_eq!(
        ChosenAttribute::Counter(CounterType::Lore).choice_type(),
        ChoiceType::CounterKind { options: vec![] }
    );
}

#[test]
fn the_first_label_is_found() {
    let labels = vec!["stun".to_string(), "lore".to_string(), "lore".to_string()];
    assert_eq!(find_label(&labels, "lore"), 1);
    assert_eq!(find_label(&labels, "Lore"), 3);
    assert_eq!(find_label(&vec![], ""), 0);
}
