//! What answers to named choices stand for.
use std::sync::Arc;
use vstd::prelude::*;

use crate::text;
use crate::types::card_type::CoreType;
use crate::types::choices;
use crate::types::choices::{
    BasicLandType, CardPredicateChoice, ChoiceType, ChosenAttribute, Parity, ValueModel,
};
use crate::types::counters::CounterType;
use crate::types::identifiers::PlayerId;
use crate::types::keywords::Keyword;
use crate::types::mana::ManaColor;
use crate::types::named_choice;

verus! {

/// A word names a color exactly if it is the name of the color with a capital.
pub proof fn words_that_name_colors(s: Seq<char>)
    ensures
        choices::named_color(s) == Some(ManaColor::White) <==> s == "White"@,
        choices::named_color(s) == Some(ManaColor::Blue) <==> s == "Blue"@,
        choices::named_color(s) == Some(ManaColor::Black) <==> s == "Black"@,
        choices::named_color(s) == Some(ManaColor::Red) <==> s == "Red"@,
        choices::named_color(s) == Some(ManaColor::Green) <==> s == "Green"@,
{
    reveal_strlit("White");
    reveal_strlit("Blue");
    reveal_strlit("Black");
    reveal_strlit("Red");
    reveal_strlit("Green");
    assert("White"@.len() == 5 && "Blue"@.len() == 4 && "Red"@.len() == 3);
    assert("Black"@.len() == 5 && "Green"@.len() == 5);
    assert("White"@[0] == 'W' && "Black"@[0] == 'B' && "Green"@[0] == 'G');
}

/// The word of a color names it, and no other word does.
pub proof fn colors_are_read_back(c: ManaColor, s: Seq<char>)
    ensures
        choices::named_color(s) == Some(c) <==> s == choices::color_name(c),
        choices::color_name(ManaColor::White) == "White"@,
        choices::color_name(ManaColor::Blue) == "Blue"@,
        choices::color_name(ManaColor::Black) == "Black"@,
        choices::color_name(ManaColor::Red) == "Red"@,
        choices::color_name(ManaColor::Green) == "Green"@,
{
    words_that_name_colors(s);
}

/// A word names a basic land type exactly if it is its subtype.
pub proof fn words_that_name_basic_lands(s: Seq<char>, t: BasicLandType)
    ensures
        BasicLandType::named(s) == Some(BasicLandType::Plains) <==> s == "Plains"@,
        BasicLandType::named(s) == Some(BasicLandType::Island) <==> s == "Island"@,
        BasicLandType::named(s) == Some(BasicLandType::Swamp) <==> s == "Swamp"@,
        BasicLandType::named(s) == Some(BasicLandType::Mountain) <==> s == "Mountain"@,
        BasicLandType::named(s) == Some(BasicLandType::Forest) <==> s == "Forest"@,
        BasicLandType::named(s) == Some(t) <==> s == t.name(),
{
    reveal_strlit("Plains");
    reveal_strlit("Island");
    reveal_strlit("Swamp");
    reveal_strlit("Mountain");
    reveal_strlit("Forest");
    assert("Plains"@.len() == 6 && "Island"@.len() == 6 && "Forest"@.len() == 6);
    assert("Swamp"@.len() == 5 && "Mountain"@.len() == 8);
    assert("Plains"@[0] == 'P' && "Island"@[0] == 'I' && "Forest"@[0] == 'F');
}

/// Plains make white mana, Islands blue, Swamps black, Mountains red and Forests green.
pub proof fn colors_of_basic_lands(t: BasicLandType)
    ensures
        t.color() == ManaColor::White <==> t == BasicLandType::Plains,
        t.color() == ManaColor::Blue <==> t == BasicLandType::Island,
        t.color() == ManaColor::Black <==> t == BasicLandType::Swamp,
        t.color() == ManaColor::Red <==> t == BasicLandType::Mountain,
        t.color() == ManaColor::Green <==> t == BasicLandType::Forest,
{
}

/// Only "Odd" and "Even" name a parity.
pub proof fn words_that_name_parities(s: Seq<char>)
    ensures
        Parity::named(s) == Some(Parity::Odd) <==> s == "Odd"@,
        Parity::named(s) == Some(Parity::Even) <==> s == "Even"@,
{
    reveal_strlit("Odd");
    reveal_strlit("Even");
    assert("Odd"@.len() == 3 && "Even"@.len() == 4);
}

/// A card has the quality of being a land or not by its types, and that of a color by its colors.
pub proof fn what_qualities_ask_for(
    types: Seq<CoreType>,
    colors: Seq<ManaColor>,
    c: ManaColor,
)
    ensures
        CardPredicateChoice::Land.holds(types, colors) <==> types.contains(CoreType::Land),
        CardPredicateChoice::Nonland.holds(types, colors) <==> !types.contains(CoreType::Land),
        CardPredicateChoice::Color(c).holds(types, colors) <==> colors.contains(c),
        CardPredicateChoice::Land.name() == "Land"@,
        CardPredicateChoice::Nonland.name() == "Nonland"@,
        CardPredicateChoice::Color(c).name() == choices::color_name(c),
{
}

/// A word names a quality exactly if the quality is offered as that word.
pub proof fn words_that_name_qualities(s: Seq<char>, p: CardPredicateChoice)
    ensures
        CardPredicateChoice::named(s) == Some(p) <==> s == p.name(),
{
    choices::labels_are_read_back(p);
    if CardPredicateChoice::named(s) == Some(p) {
        if let CardPredicateChoice::Color(c) = p {
            colors_are_read_back(c, s);
        }
    }
}

proof fn lemma_among(words: Seq<(Seq<char>, CoreType)>, s: Seq<char>, k: int)
    requires
        0 <= k < words.len(),
        words[k].0 == s,
        forall|j: int| 0 <= j < k ==> (#[trigger] words[j]).0 != s,
    ensures
        named_choice::type_among(words, s) == Some(words[k].1),
    decreases k,
{
    if k > 0 {
        assert(words[0].0 != s);
        let rest = words.drop_first();
        assert forall|j: int| 0 <= j < k - 1 implies (#[trigger] rest[j]).0 != s by {
            assert(rest[j] == words[j + 1]);
        }
        assert(rest[k - 1] == words[k]);
        lemma_among(rest, s, k - 1);
    }
}

proof fn lemma_is_among(words: Seq<(Seq<char>, CoreType)>, s: Seq<char>)
    ensures
        named_choice::type_among(words, s) matches Some(t) ==> words.contains((s, t)),
    decreases words.len(),
{
    if words.len() > 0 && words[0].0 != s {
        lemma_is_among(words.drop_first(), s);
        if let Some(t) = named_choice::type_among(words, s) {
            let rest = words.drop_first();
            let k = choose|k: int| 0 <= k < rest.len() && rest[k] == (s, t);
            assert(words[k + 1] == (s, t));
        }
    } else if words.len() > 0 {
        assert(words[0] == (s, words[0].1));
    }
}

/// The word of a card type, with a capital.
pub open spec fn type_word(t: CoreType) -> Seq<char> {
    match t {
        CoreType::Artifact => "Artifact"@,
        CoreType::Battle => "Battle"@,
        CoreType::Conspiracy => "Conspiracy"@,
        CoreType::Creature => "Creature"@,
        CoreType::Dungeon => "Dungeon"@,
        CoreType::Enchantment => "Enchantment"@,
        CoreType::Instant => "Instant"@,
        CoreType::Kindred => "Kindred"@,
        CoreType::Land => "Land"@,
        CoreType::Phenomenon => "Phenomenon"@,
        CoreType::Plane => "Plane"@,
        CoreType::Planeswalker => "Planeswalker"@,
        CoreType::Scheme => "Scheme"@,
        CoreType::Sorcery => "Sorcery"@,
        CoreType::Vanguard => "Vanguard"@,
    }
}

proof fn lemma_type_words(t: CoreType, u: CoreType)
    ensures
        type_word(t) == type_word(u) ==> t == u,
{
    reveal_strlit("Artifact");
    reveal_strlit("Battle");
    reveal_strlit("Conspiracy");
    reveal_strlit("Creature");
    reveal_strlit("Dungeon");
    reveal_strlit("Enchantment");
    reveal_strlit("Instant");
    reveal_strlit("Kindred");
    reveal_strlit("Land");
    reveal_strlit("Phenomenon");
    reveal_strlit("Plane");
    reveal_strlit("Planeswalker");
    reveal_strlit("Scheme");
    reveal_strlit("Sorcery");
    reveal_strlit("Vanguard");
    assert(type_word(t).len() == type_word(u).len() && type_word(t)[0] == type_word(u)[0] ==> t
        == u);
}

/// A word names a card type exactly if it is the word of that type.
pub proof fn words_that_name_card_types(s: Seq<char>, t: CoreType)
    ensures
        named_choice::named_type(s) == Some(t) <==> s == type_word(t),
{
    let words = named_choice::type_words();
    let k: int = match t {
        CoreType::Artifact => 0,
        CoreType::Battle => 1,
        CoreType::Creature => 2,
        CoreType::Enchantment => 3,
        CoreType::Instant => 4,
        CoreType::Kindred => 5,
        CoreType::Land => 6,
        CoreType::Planeswalker => 7,
        CoreType::Sorcery => 8,
        CoreType::Plane => 9,
        CoreType::Phenomenon => 10,
        CoreType::Scheme => 11,
        CoreType::Vanguard => 12,
        CoreType::Conspiracy => 13,
        CoreType::Dungeon => 14,
    };
    assert(words[k] == (type_word(t), t));
    assert forall|j: int| 0 <= j < words.len() implies (#[trigger] words[j]).0 == type_word(
        words[j].1,
    ) && (j != k ==> words[j].1 != t) by {}
    if s == type_word(t) {
        assert forall|j: int| 0 <= j < k implies (#[trigger] words[j]).0 != s by {
            lemma_type_words(words[j].1, t);
        }
        lemma_among(words, s, k);
    }
    lemma_is_among(words, s);
    if named_choice::named_type(s) == Some(t) {
        let j = choose|j: int| 0 <= j < words.len() && words[j] == (s, t);
        assert(words[j].0 == type_word(words[j].1));
    }
}

/// One decimal digit stands for its value.
pub proof fn digits_are_numbers(c: char)
    requires
        '0' <= c <= '9',
    ensures
        named_choice::small_number(seq![c]) == Some((c as u32 - '0' as u32) as u8),
{
    let s = seq![c];
    assert(s.drop_last() =~= Seq::empty());
    assert(named_choice::decimal(Seq::empty()) == 0);
    assert(named_choice::unsigned_digits(s) == s);
    assert(named_choice::decimal(s) == (c as u32 - '0' as u32) as nat);
}

/// A further digit makes a number ten times as large and adds the digit, as long as it fits in a byte.
pub proof fn digits_are_added(s: Seq<char>, n: u8, c: char)
    requires
        named_choice::small_number(s) == Some(n),
        '0' <= c <= '9',
    ensures
        ({
            let m = 10 * n + (c as u32 - '0' as u32);
            named_choice::small_number(s.push(c)) == if m <= 255 {
                Some(m as u8)
            } else {
                None
            }
        }),
{
    let d = named_choice::unsigned_digits(s);
    let e = named_choice::unsigned_digits(s.push(c));
    assert(e =~= d.push(c));
    assert(e.drop_last() =~= d);
}

/// A plus sign in front of a number changes nothing.
pub proof fn plus_signs_are_allowed(s: Seq<char>)
    requires
        s.len() > 0,
        s[0] != '+',
    ensures
        named_choice::small_number(seq!['+'] + s) == named_choice::small_number(s),
{
    assert((seq!['+'] + s).drop_first() =~= s);
}

/// What holds anything but digits behind an optional plus sign is no number, nor is nothing.
pub proof fn other_texts_are_no_numbers(s: Seq<char>, i: int)
    requires
        s.len() == 0 || 0 <= i < s.len() && !('0' <= s[i] <= '9') && !(i == 0 && s[i] == '+'),
    ensures
        named_choice::small_number(s) is None,
{
    let d = named_choice::unsigned_digits(s);
    if s.len() > 0 {
        if s[0] == '+' {
            assert(d[i - 1] == s[i]);
        } else {
            assert(d[i] == s[i]);
        }
    }
}

proof fn lemma_separator(x: Seq<char>, y: Seq<char>, from: int)
    requires
        0 <= from <= x.len(),
        forall|j: int| 0 <= j < x.len() ==> #[trigger] x[j] != ',',
    ensures
        named_choice::separator(x + seq![',', ' '] + y, from) == x.len(),
    decreases x.len() - from,
{
    let s = x + seq![',', ' '] + y;
    if from < x.len() {
        assert(s[from] == x[from]);
        lemma_separator(x, y, from + 1);
    } else {
        assert(s[from] == ',' && s[from + 1] == ' ');
    }
}

proof fn lemma_separated(s: Seq<char>, from: int)
    requires
        0 <= from,
        named_choice::separator(s, from) < s.len(),
    ensures
        ({
            let at = named_choice::separator(s, from);
            from <= at && at + 1 < s.len() && s[at] == ',' && s[at + 1] == ' '
        }),
    decreases s.len() - from,
{
    if from + 1 < s.len() && !(s[from] == ',' && s[from + 1] == ' ') {
        lemma_separated(s, from + 1);
    }
}

/// Two colors are read from their words with a comma and a blank between them, in that order.
pub proof fn pairs_of_colors_are_read(s: Seq<char>, a: ManaColor, b: ManaColor)
    ensures
        named_choice::two_colors(s) == Some((a, b)) <==> s == choices::color_name(a) + seq![
            ',',
            ' ',
        ] + choices::color_name(b),
{
    let x = choices::color_name(a);
    let y = choices::color_name(b);
    reveal_strlit("White");
    reveal_strlit("Blue");
    reveal_strlit("Black");
    reveal_strlit("Red");
    reveal_strlit("Green");
    let whole = x + seq![',', ' '] + y;
    lemma_separator(x, y, 0);
    assert(whole.take(x.len() as int) =~= x);
    assert(whole.skip(x.len() as int + 2) =~= y);
    colors_are_read_back(a, x);
    colors_are_read_back(b, y);
    if named_choice::two_colors(s) == Some((a, b)) {
        let at = named_choice::separator(s, 0);
        lemma_separated(s, 0);
        colors_are_read_back(a, s.take(at));
        colors_are_read_back(b, s.skip(at + 2));
        assert(s =~= s.take(at) + seq![',', ' '] + s.skip(at + 2));
    }
}

/// The answers that a choice of a color, a basic land type, a card type, a parity, two colors or a
/// quality allows: the word of something that is not excluded, or that is offered.
pub proof fn answers_by_word(
    s: Seq<char>,
    excluded_colors: Vec<ManaColor>,
    excluded_types: Vec<CoreType>,
    qualities: Vec<CardPredicateChoice>,
    c: ManaColor,
    d: ManaColor,
    land: BasicLandType,
    t: CoreType,
    p: CardPredicateChoice,
)
    ensures
        named_choice::chosen_value(ChoiceType::Color { excluded: excluded_colors }, s) == Some(
            ValueModel::Color(c),
        ) <==> s == choices::color_name(c) && !excluded_colors@.contains(c),
        named_choice::chosen_value(ChoiceType::BasicLandType, s) == Some(
            ValueModel::BasicLandType(land),
        ) <==> s == land.name(),
        named_choice::chosen_value(ChoiceType::CardType { excluded: excluded_types }, s) == Some(
            ValueModel::CardType(t),
        ) <==> s == type_word(t) && !excluded_types@.contains(t),
        named_choice::chosen_value(ChoiceType::OddOrEven, s) == Some(
            ValueModel::OddOrEven(Parity::Odd),
        ) <==> s == "Odd"@,
        named_choice::chosen_value(ChoiceType::OddOrEven, s) == Some(
            ValueModel::OddOrEven(Parity::Even),
        ) <==> s == "Even"@,
        named_choice::chosen_value(ChoiceType::TwoColors, s) == Some(ValueModel::TwoColors(c, d))
            <==> s == choices::color_name(c) + seq![',', ' '] + choices::color_name(d),
        named_choice::chosen_value(ChoiceType::CardPredicate { options: qualities }, s) == Some(
            ValueModel::CardPredicate(p),
        ) <==> s == p.name() && qualities@.contains(p),
        named_choice::chosen_value(ChoiceType::CardPredicateGuess { options: qualities }, s)
            == Some(ValueModel::CardPredicate(p)) <==> s == p.name() && qualities@.contains(p),
{
    colors_are_read_back(c, s);
    words_that_name_basic_lands(s, land);
    words_that_name_card_types(s, t);
    words_that_name_parities(s);
    pairs_of_colors_are_read(s, c, d);
    words_that_name_qualities(s, p);
}

/// What the game does not check is taken as it was given: names of cards, creature types, land types,
/// labels, words and artists.
pub proof fn free_answers_are_taken(t: ChoiceType, s: Seq<char>)
    ensures
        t is CreatureType ==> named_choice::chosen_value(t, s) == Some(ValueModel::CreatureType(s)),
        t is CardName ==> named_choice::chosen_value(t, s) == Some(ValueModel::CardName(s)),
        t is LandType ==> named_choice::chosen_value(t, s) == Some(ValueModel::LandType(s)),
        t is Labeled || t is Word || t is Artist ==> named_choice::chosen_value(t, s) == Some(
            ValueModel::Label(s),
        ),
{
}

/// Numbers answer choices of numbers, and the numbers of players choices of players. Anything else is
/// not allowed there.
pub proof fn numbers_answer_for_players(t: ChoiceType, s: Seq<char>)
    ensures
        match named_choice::small_number(s) {
            Some(n) => {
                &&& t is NumberRange ==> named_choice::chosen_value(t, s) == Some(
                    ValueModel::Number(n),
                )
                &&& t is Opponent || t is Player ==> named_choice::chosen_value(t, s) == Some(
                    ValueModel::Player(PlayerId(n)),
                )
            },
            None => t is NumberRange || t is Opponent || t is Player
                ==> named_choice::chosen_value(t, s) is None,
        },
{
}

proof fn lemma_label_index(labels: Seq<Seq<char>>, word: Seq<char>, from: int, k: int)
    requires
        0 <= from <= k < labels.len(),
        labels[k] == word,
        forall|j: int| 0 <= j < k ==> #[trigger] labels[j] != word,
    ensures
        named_choice::label_index(labels, word, from) == k,
    decreases k - from,
{
    if from < k {
        assert(labels[from] != word);
        lemma_label_index(labels, word, from + 1, k);
    }
}

/// An answer stands for the first offered keyword that is shown as it, whatever its case.
pub proof fn the_first_keyword_shown_is_chosen(
    options: Vec<Arc<Keyword>>,
    s: Seq<char>,
    k: int,
    t: ChoiceType,
)
    requires
        t matches ChoiceType::Keyword { options: o, .. } && o == options,
        0 <= k < options@.len(),
        text::lowercase(options@[k].shown()) == text::lowercase(s),
        forall|j: int|
            0 <= j < k ==> text::lowercase((#[trigger] options@[j]).shown()) != text::lowercase(s),
    ensures
        named_choice::chosen_value(t, s) == Some(ValueModel::Keyword(options@[k])),
{
    let labels = named_choice::keyword_labels(options@);
    assert forall|j: int| 0 <= j < k implies #[trigger] labels[j] != text::lowercase(s) by {
        assert(labels[j] == text::lowercase(options@[j].shown()));
    }
    lemma_label_index(labels, text::lowercase(s), 0, k);
}

/// An answer stands for the first offered kind of counter that is shown as it, whatever its case.
pub proof fn the_first_counter_shown_is_chosen(
    options: Vec<CounterType>,
    s: Seq<char>,
    k: int,
)
    requires
        0 <= k < options@.len(),
        text::lowercase(options@[k].shown()) == text::lowercase(s),
        forall|j: int|
            0 <= j < k ==> text::lowercase((#[trigger] options@[j]).shown()) != text::lowercase(s),
    ensures
        named_choice::chosen_value(ChoiceType::CounterKind { options }, s) == Some(
            ValueModel::Counter(options@[k]),
        ),
{
    let labels = named_choice::counter_labels(options@);
    assert forall|j: int| 0 <= j < k implies #[trigger] labels[j] != text::lowercase(s) by {
        assert(labels[j] == text::lowercase(options@[j].shown()));
    }
    lemma_label_index(labels, text::lowercase(s), 0, k);
}

/// A remembered choice reads the answer that it was made by as the same value. Only keywords and kinds
/// of counters are read among the options of their choice.
pub proof fn remembered_choices_read_the_same_answer(
    t: ChoiceType,
    s: Seq<char>,
    v: ValueModel,
    a: ChosenAttribute,
    again: ChoiceType,
)
    requires
        named_choice::chosen_value(t, s) == Some(v),
        named_choice::remembers(a, v),
        named_choice::template_of(a, again),
        !(v is Keyword),
        !(v is Counter),
    ensures
        named_choice::chosen_value(again, s) == Some(v),
{
}

/// A permanent remembers a value as what it is, and remembers everything but qualities of cards and
/// land types.
pub proof fn values_are_remembered(v: ValueModel, a: ChosenAttribute)
    requires
        named_choice::remembers(a, v),
    ensures
        v matches ValueModel::Color(c) ==> a == ChosenAttribute::Color(c),
        v matches ValueModel::Number(n) ==> a == ChosenAttribute::Number(n),
        v matches ValueModel::Player(p) ==> a == ChosenAttribute::Player(p),
        v matches ValueModel::CardType(t) ==> a == ChosenAttribute::CardType(t),
        v matches ValueModel::TwoColors(c, d) ==> a == ChosenAttribute::TwoColors(c, d),
        v matches ValueModel::Keyword(k) ==> a == ChosenAttribute::Keyword(k),
        v matches ValueModel::Counter(c) ==> a == ChosenAttribute::Counter(c),
        v matches ValueModel::OddOrEven(p) ==> a == ChosenAttribute::OddOrEven(p),
        v matches ValueModel::BasicLandType(t) ==> a == ChosenAttribute::BasicLandType(t),
        !named_choice::forgotten(v),
{
}

/// A permanent forgets only qualities of cards and land types.
pub proof fn what_is_forgotten(v: ValueModel)
    ensures
        named_choice::forgotten(v) <==> v is CardPredicate || v is LandType,
{
}

/// The words that kinds of counters go by.
pub proof fn words_of_counters(c: CounterType)
    ensures
        c is Plus1Plus1 ==> c.shown() == "P1P1"@,
        c is Minus1Minus1 ==> c.shown() == "M1M1"@,
        c is Loyalty ==> c.shown() == "loyalty"@,
        c is Defense ==> c.shown() == "defense"@,
        c is Lore ==> c.shown() == "lore"@,
        c is Stun ==> c.shown() == "stun"@,
        c matches CounterType::Generic(name) ==> c.shown() == name@,
{
}

} // verus!
