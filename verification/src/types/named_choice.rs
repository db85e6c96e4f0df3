//! Reading a player's answer to a named choice.
use std::sync::Arc;
use vstd::prelude::*;

use crate::shared;
use crate::text;
use crate::types::card_type::CoreType;
use crate::types::choices;
use crate::types::choices::{
    BasicLandType, CardPredicateChoice, ChoiceType, ChoiceValue, ChosenAttribute,
    NumberDistinctness, Parity, ValueModel,
};
use crate::types::counters::CounterType;
use crate::types::identifiers::PlayerId;
use crate::types::keywords::Keyword;
use crate::types::mana::ManaColor;

verus! {

/// The card types with their words.
pub open spec fn type_words() -> Seq<(Seq<char>, CoreType)> {
    seq![
        ("Artifact"@, CoreType::Artifact), ("Battle"@, CoreType::Battle),
        ("Creature"@, CoreType::Creature), ("Enchantment"@, CoreType::Enchantment),
        ("Instant"@, CoreType::Instant), ("Kindred"@, CoreType::Kindred),
        ("Land"@, CoreType::Land), ("Planeswalker"@, CoreType::Planeswalker),
        ("Sorcery"@, CoreType::Sorcery), ("Plane"@, CoreType::Plane),
        ("Phenomenon"@, CoreType::Phenomenon), ("Scheme"@, CoreType::Scheme),
        ("Vanguard"@, CoreType::Vanguard), ("Conspiracy"@, CoreType::Conspiracy),
        ("Dungeon"@, CoreType::Dungeon)
    ]
}

/// The card type that a word names, by a table.
pub open spec fn type_among(words: Seq<(Seq<char>, CoreType)>, s: Seq<char>) -> Option<CoreType>
    decreases words.len(),
{
    if words.len() == 0 {
        None
    } else if words[0].0 == s {
        Some(words[0].1)
    } else {
        type_among(words.drop_first(), s)
    }
}

/// The card type that a word names.
pub open spec fn named_type(s: Seq<char>) -> Option<CoreType> {
    type_among(type_words(), s)
}

pub open spec fn table_view(words: Seq<(&'static str, CoreType)>) -> Seq<(Seq<char>, CoreType)> {
    Seq::new(words.len(), |i: int| (words[i].0@, words[i].1))
}

fn read_type(s: &Vec<char>) -> (r: Option<CoreType>)
    ensures
        r == named_type(s@),
{
    let words: Vec<(&'static str, CoreType)> = vec![
        ("Artifact", CoreType::Artifact), ("Battle", CoreType::Battle),
        ("Creature", CoreType::Creature), ("Enchantment", CoreType::Enchantment),
        ("Instant", CoreType::Instant), ("Kindred", CoreType::Kindred),
        ("Land", CoreType::Land), ("Planeswalker", CoreType::Planeswalker),
        ("Sorcery", CoreType::Sorcery), ("Plane", CoreType::Plane),
        ("Phenomenon", CoreType::Phenomenon), ("Scheme", CoreType::Scheme),
        ("Vanguard", CoreType::Vanguard), ("Conspiracy", CoreType::Conspiracy),
        ("Dungeon", CoreType::Dungeon)
    ];
    assert(table_view(words@) =~= type_words());
    let ghost all = type_words();
    assert(all.skip(0) =~= all);
    let mut i: usize = 0;
    while i < words.len()
        invariant
            i <= words.len(),
            all == table_view(words@),
            all == type_words(),
            type_among(all.skip(i as int), s@) == type_among(all, s@),
        decreases words.len() - i,
    {
        assert(all.skip(i as int)[0] == all[i as int]);
        assert(all.skip(i as int).drop_first() =~= all.skip(i + 1));
        if text::is_word(s, words[i].0) {
            return Some(words[i].1);
        }
        i = i + 1;
    }
    None
}

pub open spec fn all_digits(s: Seq<char>) -> bool {
    forall|i: int| 0 <= i < s.len() ==> '0' <= #[trigger] s[i] <= '9'
}

/// The value of a row of decimal digits.
pub open spec fn decimal(s: Seq<char>) -> nat
    decreases s.len(),
{
    if s.len() == 0 {
        0
    } else {
        10 * decimal(s.drop_last()) + (s.last() as u32 - '0' as u32) as nat
    }
}

/// The digits of a number, behind a plus sign if there is one.
pub open spec fn unsigned_digits(s: Seq<char>) -> Seq<char> {
    if s.len() > 0 && s[0] == '+' {
        s.drop_first()
    } else {
        s
    }
}

/// A number of one byte in decimal digits.
pub open spec fn small_number(s: Seq<char>) -> Option<u8> {
    let digits = unsigned_digits(s);
    if digits.len() > 0 && all_digits(digits) && decimal(digits) <= u8::MAX {
        Some(decimal(digits) as u8)
    } else {
        None
    }
}

proof fn lemma_decimal_grows(s: Seq<char>, k: int)
    requires
        0 <= k <= s.len(),
        all_digits(s),
    ensures
        decimal(s.take(k)) <= decimal(s),
    decreases s.len() - k,
{
    if k < s.len() {
        assert(s.take(k + 1).drop_last() =~= s.take(k));
        lemma_decimal_grows(s, k + 1);
    } else {
        assert(s.take(k) =~= s);
    }
}

fn read_small_number(s: &Vec<char>) -> (r: Option<u8>)
    ensures
        r == small_number(s@),
{
    let start: usize = if s.len() > 0 && s[0] == '+' {
        1
    } else {
        0
    };
    let ghost digits = unsigned_digits(s@);
    assert(digits =~= s@.skip(start as int));
    if start == s.len() {
        return None;
    }
    let mut value: u32 = 0;
    let mut large = false;
    let mut i: usize = start;
    while i < s.len()
        invariant
            start <= i <= s.len(),
            start <= 1,
            digits == s@.skip(start as int),
            digits == unsigned_digits(s@),
            value <= u8::MAX,
            all_digits(digits.take(i - start)),
            !large ==> value == decimal(digits.take(i - start)),
            large ==> exists|k: int|
                0 <= k <= i - start && #[trigger] decimal(digits.take(k)) > u8::MAX,
        decreases s.len() - i,
    {
        let c = s[i];
        assert(digits[i - start] == c);
        if c < '0' || c > '9' {
            assert(!all_digits(digits));
            return None;
        }
        let ghost before = digits.take(i - start);
        assert(digits.take(i + 1 - start).drop_last() =~= before);
        assert(digits.take(i + 1 - start) =~= before.push(c));
        if !large {
            let next: u32 = 10 * value + (c as u32 - '0' as u32);
            if next > u8::MAX as u32 {
                large = true;
                assert(decimal(digits.take(i + 1 - start)) > u8::MAX);
            } else {
                value = next;
            }
        }
        i = i + 1;
    }
    assert(digits.take(i - start) =~= digits);
    if large {
        proof {
            let k = choose|k: int|
                0 <= k <= i - start && #[trigger] decimal(digits.take(k)) > u8::MAX;
            lemma_decimal_grows(digits, k);
        }
        return None;
    }
    Some(value as u8)
}

/// Where ", " first stands at or after a position; the length of the text without it.
pub open spec fn separator(s: Seq<char>, from: int) -> int
    decreases s.len() - from,
{
    if from + 1 >= s.len() {
        s.len() as int
    } else if s[from] == ',' && s[from + 1] == ' ' {
        from
    } else {
        separator(s, from + 1)
    }
}

/// Two colors with ", " between them.
pub open spec fn two_colors(s: Seq<char>) -> Option<(ManaColor, ManaColor)> {
    let at = separator(s, 0);
    if at < s.len() {
        match (
            choices::named_color(s.take(at)),
            choices::named_color(s.skip(at + 2)),
        ) {
            (Some(a), Some(b)) => Some((a, b)),
            _ => None,
        }
    } else {
        None
    }
}

fn read_two_colors(s: &Vec<char>) -> (r: Option<(ManaColor, ManaColor)>)
    ensures
        r == two_colors(s@),
{
    let mut at: usize = 0;
    while at < s.len()
        invariant
            at <= s.len(),
            separator(s@, at as int) == separator(s@, 0),
        decreases s.len() - at,
    {
        if at == s.len() - 1 {
            return None;
        }
        if s[at] == ',' && s[at + 1] == ' ' {
            let head = text::slice_chars(s, 0, at);
            let tail = text::slice_chars(s, at + 2, s.len());
            assert(head@ =~= s@.take(at as int));
            assert(tail@ =~= s@.skip(at + 2));
            return match (choices::read_color(&head), choices::read_color(&tail)) {
                (Some(a), Some(b)) => Some((a, b)),
                _ => None,
            };
        }
        at = at + 1;
    }
    None
}

/// The texts of a list.
pub open spec fn texts_of(list: Seq<String>) -> Seq<Seq<char>> {
    Seq::new(list.len(), |i: int| list[i]@)
}

/// Position of the first label at or after `from` that is the word; their number without one.
pub open spec fn label_index(labels: Seq<Seq<char>>, word: Seq<char>, from: int) -> int
    decreases labels.len() - from,
{
    if from >= labels.len() {
        labels.len() as int
    } else if labels[from] == word {
        from
    } else {
        label_index(labels, word, from + 1)
    }
}

/// Position of the first label that is the word; their number without one.
pub fn find_label(labels: &Vec<String>, word: &str) -> (r: usize)
    ensures
        r == label_index(texts_of(labels@), word@, 0),
        r <= labels@.len(),
{
    let mut i: usize = 0;
    while i < labels.len() && !text::is_word(&text::chars_of(labels[i].as_str()), word)
        invariant
            i <= labels.len(),
            label_index(texts_of(labels@), word@, i as int) == label_index(
                texts_of(labels@),
                word@,
                0,
            ),
        decreases labels.len() - i,
    {
        i = i + 1;
    }
    i
}

/// What the keywords are shown as, in lower case.
pub open spec fn keyword_labels(options: Seq<Arc<Keyword>>) -> Seq<Seq<char>> {
    Seq::new(options.len(), |i: int| text::lowercase(options[i].shown()))
}

/// What the kinds of counters are shown as, in lower case.
pub open spec fn counter_labels(options: Seq<CounterType>) -> Seq<Seq<char>> {
    Seq::new(options.len(), |i: int| text::lowercase(options[i].shown()))
}

fn lower_keyword_labels(options: &Vec<Arc<Keyword>>) -> (r: Vec<String>)
    ensures
        texts_of(r@) == keyword_labels(options@),
{
    let mut r: Vec<String> = Vec::new();
    let mut i: usize = 0;
    while i < options.len()
        invariant
            i <= options.len(),
            r@.len() == i,
            forall|j: int| 0 <= j < i ==> (#[trigger] r@[j])@ == keyword_labels(options@)[j],
        decreases options.len() - i,
    {
        r.push(text::to_lowercase(options[i].label().as_str()));
        i = i + 1;
    }
    assert(texts_of(r@) =~= keyword_labels(options@));
    r
}

fn lower_counter_labels(options: &Vec<CounterType>) -> (r: Vec<String>)
    ensures
        texts_of(r@) == counter_labels(options@),
{
    let mut r: Vec<String> = Vec::new();
    let mut i: usize = 0;
    while i < options.len()
        invariant
            i <= options.len(),
            r@.len() == i,
            forall|j: int| 0 <= j < i ==> (#[trigger] r@[j])@ == counter_labels(options@)[j],
        decreases options.len() - i,
    {
        r.push(text::to_lowercase(options[i].as_str()));
        i = i + 1;
    }
    assert(texts_of(r@) =~= counter_labels(options@));
    r
}

/// The first of the keywords that is shown as the answer, whatever its case.
pub open spec fn keyword_named(options: Seq<Arc<Keyword>>, s: Seq<char>) -> Option<Arc<Keyword>> {
    let i = label_index(keyword_labels(options), text::lowercase(s), 0);
    if i < options.len() {
        Some(options[i])
    } else {
        None
    }
}

/// The first of the kinds of counters that is shown as the answer, whatever its case.
pub open spec fn counter_named(options: Seq<CounterType>, s: Seq<char>) -> Option<CounterType> {
    let i = label_index(counter_labels(options), text::lowercase(s), 0);
    if i < options.len() {
        Some(options[i])
    } else {
        None
    }
}

fn read_keyword(options: &Vec<Arc<Keyword>>, value: &str) -> (r: Option<Arc<Keyword>>)
    ensures
        r == keyword_named(options@, value@),
{
    let needle = text::to_lowercase(value);
    let labels = lower_keyword_labels(options);
    assert(texts_of(labels@).len() == options@.len());
    let i: usize = find_label(&labels, needle.as_str());
    if i < options.len() {
        Some(shared::share(&options[i]))
    } else {
        None
    }
}

fn read_counter(options: &Vec<CounterType>, value: &str) -> (r: Option<CounterType>)
    ensures
        r == counter_named(options@, value@),
{
    let needle = text::to_lowercase(value);
    let labels = lower_counter_labels(options);
    assert(texts_of(labels@).len() == options@.len());
    let i: usize = find_label(&labels, needle.as_str());
    if i < options.len() {
        Some(options[i].copied())
    } else {
        None
    }
}

/// The value that an answer stands for; `None` for an answer that the choice does not allow.
pub open spec fn chosen_value(t: ChoiceType, s: Seq<char>) -> Option<ValueModel> {
    match t {
        ChoiceType::Color { excluded } => match choices::named_color(s) {
            Some(c) => if excluded@.contains(c) {
                None
            } else {
                Some(ValueModel::Color(c))
            },
            None => None,
        },
        ChoiceType::CreatureType { .. } => Some(ValueModel::CreatureType(s)),
        ChoiceType::BasicLandType => match BasicLandType::named(s) {
            Some(land) => Some(ValueModel::BasicLandType(land)),
            None => None,
        },
        ChoiceType::CardType { excluded } => match named_type(s) {
            Some(core) => if excluded@.contains(core) {
                None
            } else {
                Some(ValueModel::CardType(core))
            },
            None => None,
        },
        ChoiceType::OddOrEven => match Parity::named(s) {
            Some(p) => Some(ValueModel::OddOrEven(p)),
            None => None,
        },
        ChoiceType::CardName => Some(ValueModel::CardName(s)),
        ChoiceType::NumberRange { .. } => match small_number(s) {
            Some(n) => Some(ValueModel::Number(n)),
            None => None,
        },
        ChoiceType::Labeled { .. } => Some(ValueModel::Label(s)),
        ChoiceType::CardPredicate { options } | ChoiceType::CardPredicateGuess { options } =>
            match CardPredicateChoice::named(s) {
            Some(p) => if options@.contains(p) {
                Some(ValueModel::CardPredicate(p))
            } else {
                None
            },
            None => None,
        },
        ChoiceType::LandType => Some(ValueModel::LandType(s)),
        ChoiceType::Opponent { .. } | ChoiceType::Player => match small_number(s) {
            Some(id) => Some(ValueModel::Player(PlayerId(id))),
            None => None,
        },
        ChoiceType::TwoColors => match two_colors(s) {
            Some((a, b)) => Some(ValueModel::TwoColors(a, b)),
            None => None,
        },
        ChoiceType::Word | ChoiceType::Artist => Some(ValueModel::Label(s)),
        ChoiceType::Keyword { options, .. } => match keyword_named(options@, s) {
            Some(k) => Some(ValueModel::Keyword(k)),
            None => None,
        },
        ChoiceType::CounterKind { options } => match counter_named(options@, s) {
            Some(c) => Some(ValueModel::Counter(c)),
            None => None,
        },
    }
}

fn offers(options: &Vec<CardPredicateChoice>, p: CardPredicateChoice) -> (r: bool)
    ensures
        r == options@.contains(p),
{
    let mut i: usize = 0;
    while i < options.len()
        invariant
            i <= options.len(),
            forall|j: int| 0 <= j < i ==> options@[j] != p,
        decreases options.len() - i,
    {
        if options[i] == p {
            return true;
        }
        i = i + 1;
    }
    false
}

fn read_predicate(options: &Vec<CardPredicateChoice>, value: &str) -> (r: Option<ChoiceValue>)
    ensures
        match r {
            Some(v) => CardPredicateChoice::named(value@) matches Some(p) && options@.contains(p)
                && v@ == ValueModel::CardPredicate(p),
            None => CardPredicateChoice::named(value@) matches Some(p) ==> !options@.contains(p),
        },
{
    match CardPredicateChoice::from_label(value) {
        Some(p) => if offers(options, p) {
            Some(ChoiceValue::CardPredicate(p))
        } else {
            None
        },
        None => None,
    }
}

impl ChoiceValue {
    /// Reads a player's answer.
    pub fn from_choice(choice_type: &ChoiceType, value: &str) -> (r: Option<ChoiceValue>)
        ensures
            match r {
                Some(v) => chosen_value(*choice_type, value@) == Some(v@),
                None => chosen_value(*choice_type, value@) is None,
            },
    {
        let s = text::chars_of(value);
        match choice_type {
            ChoiceType::Color { excluded } => match choices::read_color(&s) {
                Some(c) => if choices::holds_color(excluded.as_slice(), c) {
                    None
                } else {
                    Some(ChoiceValue::Color(c))
                },
                None => None,
            },
            ChoiceType::CreatureType { .. } => Some(
                ChoiceValue::CreatureType(String::from_str(value)),
            ),
            ChoiceType::BasicLandType => match BasicLandType::read(value) {
                Some(land) => Some(ChoiceValue::BasicLandType(land)),
                None => None,
            },
            ChoiceType::CardType { excluded } => match read_type(&s) {
                Some(core) => if choices::holds_type(excluded.as_slice(), core) {
                    None
                } else {
                    Some(ChoiceValue::CardType(core))
                },
                None => None,
            },
            ChoiceType::OddOrEven => match Parity::read(value) {
                Some(p) => Some(ChoiceValue::OddOrEven(p)),
                None => None,
            },
            ChoiceType::CardName => Some(ChoiceValue::CardName(String::from_str(value))),
            ChoiceType::NumberRange { .. } => match read_small_number(&s) {
                Some(n) => Some(ChoiceValue::Number(n)),
                None => None,
            },
            ChoiceType::Labeled { .. } => Some(ChoiceValue::Label(String::from_str(value))),
            ChoiceType::CardPredicate { options } => read_predicate(options, value),
            ChoiceType::CardPredicateGuess { options } => read_predicate(options, value),
            ChoiceType::LandType => Some(ChoiceValue::LandType(String::from_str(value))),
            ChoiceType::Opponent { .. } | ChoiceType::Player => match read_small_number(&s) {
                Some(id) => Some(ChoiceValue::Player(PlayerId(id))),
                None => None,
            },
            ChoiceType::TwoColors => match read_two_colors(&s) {
                Some((a, b)) => Some(ChoiceValue::TwoColors(a, b)),
                None => None,
            },
            ChoiceType::Word | ChoiceType::Artist => Some(
                ChoiceValue::Label(String::from_str(value)),
            ),
            ChoiceType::Keyword { options, .. } => match read_keyword(options, value) {
                Some(k) => Some(ChoiceValue::Keyword(k)),
                None => None,
            },
            ChoiceType::CounterKind { options } => match read_counter(options, value) {
                Some(c) => Some(ChoiceValue::Counter(c)),
                None => None,
            },
        }
    }
}

/// The permanent remembers the value.
pub open spec fn remembers(attribute: ChosenAttribute, v: ValueModel) -> bool {
    match v {
        ValueModel::Color(c) => attribute == ChosenAttribute::Color(c),
        ValueModel::CreatureType(s) => attribute matches ChosenAttribute::CreatureType(t) && t@
            == s,
        ValueModel::BasicLandType(t) => attribute == ChosenAttribute::BasicLandType(t),
        ValueModel::CardType(t) => attribute == ChosenAttribute::CardType(t),
        ValueModel::OddOrEven(p) => attribute == ChosenAttribute::OddOrEven(p),
        ValueModel::CardName(s) => attribute matches ChosenAttribute::CardName(t) && t@ == s,
        ValueModel::Number(n) => attribute == ChosenAttribute::Number(n),
        ValueModel::Label(s) => attribute matches ChosenAttribute::Label(t) && t@ == s,
        ValueModel::Player(p) => attribute == ChosenAttribute::Player(p),
        ValueModel::TwoColors(a, b) => attribute == ChosenAttribute::TwoColors(a, b),
        ValueModel::Keyword(k) => attribute == ChosenAttribute::Keyword(k),
        ValueModel::Counter(c) => attribute == ChosenAttribute::Counter(c),
        ValueModel::CardPredicate(_) | ValueModel::LandType(_) => false,
    }
}

/// Values of this kind are not remembered by a permanent.
pub open spec fn forgotten(v: ValueModel) -> bool {
    v is CardPredicate || v is LandType
}

/// The words of a list.
pub open spec fn words_are(list: Seq<String>, words: Seq<Seq<char>>) -> bool {
    list.len() == words.len() && forall|i: int|
        0 <= i < words.len() ==> (#[trigger] list[i])@ == words[i]
}

/// The kind of choice that a remembered value comes from, without the options it was made from.
pub open spec fn template_of(attribute: ChosenAttribute, t: ChoiceType) -> bool {
    match attribute {
        ChosenAttribute::Color(_) => t matches ChoiceType::Color { excluded } && excluded@.len()
            == 0,
        ChosenAttribute::CreatureType(_) => t matches ChoiceType::CreatureType { options }
            && options@.len() == 0,
        ChosenAttribute::BasicLandType(_) => t is BasicLandType,
        ChosenAttribute::CardType(_) => t matches ChoiceType::CardType { excluded }
            && excluded@.len() == 0,
        ChosenAttribute::OddOrEven(_) => t is OddOrEven,
        ChosenAttribute::CardName(_) => t is CardName,
        ChosenAttribute::Number(_) => t == (ChoiceType::NumberRange {
            min: 0,
            max: 20,
            distinctness: NumberDistinctness::Repeatable,
        }),
        ChosenAttribute::Player(_) => t is Player,
        ChosenAttribute::TwoColors(_, _) => t is TwoColors,
        ChosenAttribute::TributeOutcome(_) => t matches ChoiceType::Labeled { options }
            && words_are(options@, seq!["Paid"@, "Declined"@]),
        ChosenAttribute::Label(label) => t matches ChoiceType::Labeled { options } && words_are(
            options@,
            seq![label@],
        ),
        ChosenAttribute::Card(_) => t matches ChoiceType::Labeled { options } && options@.len()
            == 0,
        ChosenAttribute::Direction(_) => t matches ChoiceType::Labeled { options } && words_are(
            options@,
            seq!["Left"@, "Right"@],
        ),
        ChosenAttribute::Keyword(_) => t matches ChoiceType::Keyword { options, count }
            && options@.len() == 0 && count == 1,
        ChosenAttribute::Counter(_) => t matches ChoiceType::CounterKind { options }
            && options@.len() == 0,
    }
}

impl ChosenAttribute {
    /// The kind of choice that the value comes from.
    pub fn choice_type(&self) -> (r: ChoiceType)
        ensures
            template_of(*self, r),
    {
        match self {
            ChosenAttribute::Color(_) => ChoiceType::color(),
            ChosenAttribute::CreatureType(_) => ChoiceType::creature_type(),
            ChosenAttribute::BasicLandType(_) => ChoiceType::BasicLandType,
            ChosenAttribute::CardType(_) => ChoiceType::card_type(),
            ChosenAttribute::OddOrEven(_) => ChoiceType::OddOrEven,
            ChosenAttribute::CardName(_) => ChoiceType::CardName,
            ChosenAttribute::Number(_) => ChoiceType::NumberRange {
                min: 0,
                max: 20,
                distinctness: NumberDistinctness::Repeatable,
            },
            ChosenAttribute::Player(_) => ChoiceType::Player,
            ChosenAttribute::TwoColors(_, _) => ChoiceType::TwoColors,
            ChosenAttribute::TributeOutcome(_) => ChoiceType::Labeled {
                options: vec![String::from_str("Paid"), String::from_str("Declined")],
            },
            ChosenAttribute::Label(label) => ChoiceType::Labeled { options: vec![label.clone()] },
            ChosenAttribute::Card(_) => ChoiceType::Labeled { options: Vec::new() },
            ChosenAttribute::Direction(_) => ChoiceType::Labeled {
                options: vec![String::from_str("Left"), String::from_str("Right")],
            },
            ChosenAttribute::Keyword(_) => ChoiceType::Keyword { options: Vec::new(), count: 1 },
            ChosenAttribute::Counter(_) => ChoiceType::CounterKind { options: Vec::new() },
        }
    }

    /// Reads a player's answer as a value that a permanent remembers.
    pub fn from_choice(choice_type: ChoiceType, value: &str) -> (r: Option<ChosenAttribute>)
        ensures
            match chosen_value(choice_type, value@) {
                Some(v) => match r {
                    Some(attribute) => remembers(attribute, v),
                    None => forgotten(v),
                },
                None => r is None,
            },
    {
        match ChoiceValue::from_choice(&choice_type, value) {
            None => None,
            Some(v) => match v {
                ChoiceValue::Color(c) => Some(ChosenAttribute::Color(c)),
                ChoiceValue::CreatureType(t) => Some(ChosenAttribute::CreatureType(t)),
                ChoiceValue::BasicLandType(t) => Some(ChosenAttribute::BasicLandType(t)),
                ChoiceValue::CardType(t) => Some(ChosenAttribute::CardType(t)),
                ChoiceValue::OddOrEven(p) => Some(ChosenAttribute::OddOrEven(p)),
                ChoiceValue::CardName(t) => Some(ChosenAttribute::CardName(t)),
                ChoiceValue::Player(p) => Some(ChosenAttribute::Player(p)),
                ChoiceValue::TwoColors(a, b) => Some(ChosenAttribute::TwoColors(a, b)),
                ChoiceValue::Number(n) => Some(ChosenAttribute::Number(n)),
                ChoiceValue::Label(t) => Some(ChosenAttribute::Label(t)),
                ChoiceValue::Keyword(k) => Some(ChosenAttribute::Keyword(k)),
                ChoiceValue::Counter(c) => Some(ChosenAttribute::Counter(c)),
                ChoiceValue::CardPredicate(_) => None,
                ChoiceValue::LandType(_) => None,
            },
        }
    }
}

/// An excluded color is never the value of a color choice (CR 105.4).
pub proof fn excluded_colors_are_not_chosen(excluded: Vec<ManaColor>, s: Seq<char>, c: ManaColor)
    requires
        chosen_value(ChoiceType::Color { excluded }, s) == Some(ValueModel::Color(c)),
    ensures
        !excluded@.contains(c),
{
}

/// A quality that is chosen or guessed is one of those that were offered.
pub proof fn chosen_qualities_were_offered(
    options: Vec<CardPredicateChoice>,
    s: Seq<char>,
    p: CardPredicateChoice,
)
    requires
        chosen_value(ChoiceType::CardPredicate { options }, s) == Some(
            ValueModel::CardPredicate(p),
        ) || chosen_value(ChoiceType::CardPredicateGuess { options }, s) == Some(
            ValueModel::CardPredicate(p),
        ),
    ensures
        options@.contains(p),
{
}

proof fn lemma_label_index(labels: Seq<Seq<char>>, word: Seq<char>, from: int)
    requires
        0 <= from <= labels.len(),
    ensures
        ({
            let i = label_index(labels, word, from);
            &&& from <= i <= labels.len()
            &&& i < labels.len() ==> labels[i] == word
            &&& forall|j: int| from <= j < i ==> #[trigger] labels[j] != word
        }),
    decreases labels.len() - from,
{
    if from < labels.len() && labels[from] != word {
        lemma_label_index(labels, word, from + 1);
    }
}

/// A keyword that is chosen is one of those that were offered, and it is shown as the answer but for
/// case. There is one whenever an offered keyword is.
pub proof fn chosen_keywords_were_offered(options: Seq<Arc<Keyword>>, s: Seq<char>)
    ensures
        keyword_named(options, s) matches Some(k) ==> options.contains(k) && text::lowercase(
            k.shown(),
        ) == text::lowercase(s),
        keyword_named(options, s) is None ==> forall|i: int|
            0 <= i < options.len() ==> text::lowercase((#[trigger] options[i]).shown())
                != text::lowercase(s),
{
    let labels = keyword_labels(options);
    lemma_label_index(labels, text::lowercase(s), 0);
    assert forall|i: int| 0 <= i < options.len() implies labels[i] == text::lowercase(
        (#[trigger] options[i]).shown(),
    ) by {}
}

/// A kind of counter that is chosen is one of those that were offered, and it is shown as the answer
/// but for case. There is one whenever an offered kind is.
pub proof fn chosen_counters_were_offered(options: Seq<CounterType>, s: Seq<char>)
    ensures
        counter_named(options, s) matches Some(c) ==> options.contains(c) && text::lowercase(
            c.shown(),
        ) == text::lowercase(s),
        counter_named(options, s) is None ==> forall|i: int|
            0 <= i < options.len() ==> text::lowercase((#[trigger] options[i]).shown())
                != text::lowercase(s),
{
    let labels = counter_labels(options);
    lemma_label_index(labels, text::lowercase(s), 0);
    assert forall|i: int| 0 <= i < options.len() implies labels[i] == text::lowercase(
        (#[trigger] options[i]).shown(),
    ) by {}
}

} // verus!
