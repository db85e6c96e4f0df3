//! Named choices: what a player may be asked for, and how their answer is read.
use std::sync::Arc;
use vstd::prelude::*;

use crate::text;
use crate::types::card_type::CoreType;
use crate::types::counters::CounterType;
use crate::types::identifiers::{ObjectId, PlayerId};
use crate::types::keywords::Keyword;
use crate::types::mana::ManaColor;

verus! {

/// The five basic land types (CR 305.6).
#[derive(Clone, Copy, Debug, PartialEq, Eq, Structural, Hash)]
pub enum BasicLandType {
    Plains,
    Island,
    Swamp,
    Mountain,
    Forest,
}

/// Odd or even.
#[derive(Clone, Copy, Debug, PartialEq, Eq, Structural, Hash)]
pub enum Parity {
    Odd,
    Even,
}

/// The words of the colors.
pub open spec fn color_name(c: ManaColor) -> Seq<char> {
    match c {
        ManaColor::White => "White"@,
        ManaColor::Blue => "Blue"@,
        ManaColor::Black => "Black"@,
        ManaColor::Red => "Red"@,
        ManaColor::Green => "Green"@,
    }
}

/// The color that a word names.
pub open spec fn named_color(s: Seq<char>) -> Option<ManaColor> {
    if s == "White"@ {
        Some(ManaColor::White)
    } else if s == "Blue"@ {
        Some(ManaColor::Blue)
    } else if s == "Black"@ {
        Some(ManaColor::Black)
    } else if s == "Red"@ {
        Some(ManaColor::Red)
    } else if s == "Green"@ {
        Some(ManaColor::Green)
    } else {
        None
    }
}

pub(crate) fn write_color(c: ManaColor) -> (r: String)
    ensures
        r@ == color_name(c),
{
    String::from_str(
        match c {
            ManaColor::White => "White",
            ManaColor::Blue => "Blue",
            ManaColor::Black => "Black",
            ManaColor::Red => "Red",
            ManaColor::Green => "Green",
        },
    )
}

pub(crate) fn read_color(s: &Vec<char>) -> (r: Option<ManaColor>)
    ensures
        r == named_color(s@),
{
    if text::is_word(s, "White") {
        Some(ManaColor::White)
    } else if text::is_word(s, "Blue") {
        Some(ManaColor::Blue)
    } else if text::is_word(s, "Black") {
        Some(ManaColor::Black)
    } else if text::is_word(s, "Red") {
        Some(ManaColor::Red)
    } else if text::is_word(s, "Green") {
        Some(ManaColor::Green)
    } else {
        None
    }
}

impl BasicLandType {
    /// The color of mana that the land type makes (CR 305.6).
    pub open spec fn color(self) -> ManaColor {
        match self {
            BasicLandType::Plains => ManaColor::White,
            BasicLandType::Island => ManaColor::Blue,
            BasicLandType::Swamp => ManaColor::Black,
            BasicLandType::Mountain => ManaColor::Red,
            BasicLandType::Forest => ManaColor::Green,
        }
    }

    pub fn mana_color(self) -> (r: ManaColor)
        ensures
            r == self.color(),
    {
        match self {
            BasicLandType::Plains => ManaColor::White,
            BasicLandType::Island => ManaColor::Blue,
            BasicLandType::Swamp => ManaColor::Black,
            BasicLandType::Mountain => ManaColor::Red,
            BasicLandType::Forest => ManaColor::Green,
        }
    }

    /// All basic land types, in the order of their colors.
    pub fn all() -> (r: Vec<BasicLandType>)
        ensures
            r@ == seq![
                BasicLandType::Plains,
                BasicLandType::Island,
                BasicLandType::Swamp,
                BasicLandType::Mountain,
                BasicLandType::Forest,
            ],
    {
        vec![
            BasicLandType::Plains,
            BasicLandType::Island,
            BasicLandType::Swamp,
            BasicLandType::Mountain,
            BasicLandType::Forest,
        ]
    }

    pub open spec fn name(self) -> Seq<char> {
        match self {
            BasicLandType::Plains => "Plains"@,
            BasicLandType::Island => "Island"@,
            BasicLandType::Swamp => "Swamp"@,
            BasicLandType::Mountain => "Mountain"@,
            BasicLandType::Forest => "Forest"@,
        }
    }

    /// The subtype as type lines have it.
    pub fn as_subtype_str(&self) -> (r: &'static str)
        ensures
            r@ == self.name(),
    {
        match self {
            BasicLandType::Plains => "Plains",
            BasicLandType::Island => "Island",
            BasicLandType::Swamp => "Swamp",
            BasicLandType::Mountain => "Mountain",
            BasicLandType::Forest => "Forest",
        }
    }

    /// The land type that a word names.
    pub open spec fn named(s: Seq<char>) -> Option<BasicLandType> {
        if s == "Plains"@ {
            Some(BasicLandType::Plains)
        } else if s == "Island"@ {
            Some(BasicLandType::Island)
        } else if s == "Swamp"@ {
            Some(BasicLandType::Swamp)
        } else if s == "Mountain"@ {
            Some(BasicLandType::Mountain)
        } else if s == "Forest"@ {
            Some(BasicLandType::Forest)
        } else {
            None
        }
    }

    pub fn read(s: &str) -> (r: Option<BasicLandType>)
        ensures
            r == BasicLandType::named(s@),
    {
        let s = text::chars_of(s);
        if text::is_word(&s, "Plains") {
            Some(BasicLandType::Plains)
        } else if text::is_word(&s, "Island") {
            Some(BasicLandType::Island)
        } else if text::is_word(&s, "Swamp") {
            Some(BasicLandType::Swamp)
        } else if text::is_word(&s, "Mountain") {
            Some(BasicLandType::Mountain)
        } else if text::is_word(&s, "Forest") {
            Some(BasicLandType::Forest)
        } else {
            None
        }
    }
}

impl Parity {
    pub open spec fn named(s: Seq<char>) -> Option<Parity> {
        if s == "Odd"@ {
            Some(Parity::Odd)
        } else if s == "Even"@ {
            Some(Parity::Even)
        } else {
            None
        }
    }

    pub fn read(s: &str) -> (r: Option<Parity>)
        ensures
            r == Parity::named(s@),
    {
        let s = text::chars_of(s);
        if text::is_word(&s, "Odd") {
            Some(Parity::Odd)
        } else if text::is_word(&s, "Even") {
            Some(Parity::Even)
        } else {
            None
        }
    }
}

/// A quality that is chosen or guessed for a card that is about to be revealed. A card may have
/// several of them.
#[derive(Clone, Copy, Debug, PartialEq, Eq, Structural, Hash)]
pub enum CardPredicateChoice {
    Land,
    Nonland,
    Color(ManaColor),
}

impl CardPredicateChoice {
    pub open spec fn name(self) -> Seq<char> {
        match self {
            CardPredicateChoice::Land => "Land"@,
            CardPredicateChoice::Nonland => "Nonland"@,
            CardPredicateChoice::Color(c) => color_name(c),
        }
    }

    /// The word that the choice is offered as.
    pub fn label(self) -> (r: String)
        ensures
            r@ == self.name(),
    {
        match self {
            CardPredicateChoice::Land => String::from_str("Land"),
            CardPredicateChoice::Nonland => String::from_str("Nonland"),
            CardPredicateChoice::Color(c) => write_color(c),
        }
    }

    pub open spec fn named(s: Seq<char>) -> Option<CardPredicateChoice> {
        if s == "Land"@ {
            Some(CardPredicateChoice::Land)
        } else if s == "Nonland"@ {
            Some(CardPredicateChoice::Nonland)
        } else {
            match named_color(s) {
                Some(c) => Some(CardPredicateChoice::Color(c)),
                None => None,
            }
        }
    }

    /// The choice that a word stands for.
    pub fn from_label(label: &str) -> (r: Option<CardPredicateChoice>)
        ensures
            r == CardPredicateChoice::named(label@),
    {
        let s = text::chars_of(label);
        if text::is_word(&s, "Land") {
            Some(CardPredicateChoice::Land)
        } else if text::is_word(&s, "Nonland") {
            Some(CardPredicateChoice::Nonland)
        } else {
            match read_color(&s) {
                Some(c) => Some(CardPredicateChoice::Color(c)),
                None => None,
            }
        }
    }

    pub open spec fn holds(self, core_types: Seq<CoreType>, colors: Seq<ManaColor>) -> bool {
        match self {
            CardPredicateChoice::Land => core_types.contains(CoreType::Land),
            CardPredicateChoice::Nonland => !core_types.contains(CoreType::Land),
            CardPredicateChoice::Color(c) => colors.contains(c),
        }
    }

    /// Whether a card with the given types and colors has the quality.
    pub fn matches_card(self, core_types: &[CoreType], colors: &[ManaColor]) -> (r: bool)
        ensures
            r == self.holds(core_types@, colors@),
    {
        match self {
            CardPredicateChoice::Land => holds_type(core_types, CoreType::Land),
            CardPredicateChoice::Nonland => !holds_type(core_types, CoreType::Land),
            CardPredicateChoice::Color(c) => holds_color(colors, c),
        }
    }
}

pub(crate) fn holds_type(list: &[CoreType], t: CoreType) -> (r: bool)
    ensures
        r == list@.contains(t),
{
    let mut i: usize = 0;
    while i < list.len()
        invariant
            i <= list.len(),
            forall|j: int| 0 <= j < i ==> list@[j] != t,
        decreases list.len() - i,
    {
        if list[i] == t {
            return true;
        }
        i = i + 1;
    }
    false
}

pub(crate) fn holds_color(list: &[ManaColor], c: ManaColor) -> (r: bool)
    ensures
        r == list@.contains(c),
{
    let mut i: usize = 0;
    while i < list.len()
        invariant
            i <= list.len(),
            forall|j: int| 0 <= j < i ==> list@[j] != c,
        decreases list.len() - i,
    {
        if list[i] == c {
            return true;
        }
        i = i + 1;
    }
    false
}

/// A label is read back as the choice that it was written for.
pub proof fn labels_are_read_back(choice: CardPredicateChoice)
    ensures
        CardPredicateChoice::named(choice.name()) == Some(choice),
{
    reveal_strlit("Land");
    reveal_strlit("Nonland");
    reveal_strlit("White");
    reveal_strlit("Blue");
    reveal_strlit("Black");
    reveal_strlit("Red");
    reveal_strlit("Green");
    assert("Land"@[0] == 'L' && "Nonland"@[0] == 'N');
    assert("White"@[0] == 'W' && "Blue"@[0] == 'B' && "Blue"@[2] == 'u');
    assert("Black"@[0] == 'B' && "Black"@[2] == 'a');
    assert("Red"@[0] == 'R' && "Green"@[0] == 'G');
}

/// Whether a number may be chosen again.
#[derive(Clone, Copy, Debug, PartialEq, Eq, Structural, Hash)]
pub enum NumberDistinctness {
    Repeatable,
    /// It has to differ from every number chosen for the source before.
    DistinctFromSourceHistory,
}

/// Which players a choice is made from.
#[derive(Clone, Copy, Debug, PartialEq, Eq, Structural, Hash)]
pub enum PlayerFilter {
    Opponent,
    TriggeringPlayer,
    ParentObjectTargetController,
    /// Those with the most life among the opponents.
    MostLife,
}

/// What the player is asked to name.
#[allow(inconsistent_fields)]
#[derive(Clone, Debug, PartialEq, Eq)]
pub enum ChoiceType {
    /// A creature type (CR 205.3m), from the options if there are any.
    CreatureType { options: Vec<String> },
    /// A color (CR 105.4) that is not excluded.
    Color { excluded: Vec<ManaColor> },
    OddOrEven,
    BasicLandType,
    /// A card type (CR 205.2a) that is not excluded.
    CardType { excluded: Vec<CoreType> },
    CardName,
    NumberRange { min: u8, max: u8, distinctness: NumberDistinctness },
    /// One of the words.
    Labeled { options: Vec<String> },
    LandType,
    CardPredicate { options: Vec<CardPredicateChoice> },
    /// A guess at a card that is revealed next.
    CardPredicateGuess { options: Vec<CardPredicateChoice> },
    /// One opponent (CR 102.3), from those that match the restriction if there is one.
    Opponent { restriction: Option<Box<PlayerFilter>> },
    Player,
    TwoColors,
    Word,
    Artist,
    /// `count` of the listed keywords (CR 608.2d), each answered on its own.
    Keyword { options: Vec<Arc<Keyword>>, count: usize },
    /// One of the kinds of counters on an object (CR 608.2d, CR 122.1).
    CounterKind { options: Vec<CounterType> },
}

impl ChoiceType {
    /// Any creature type.
    pub fn creature_type() -> (r: Self)
        ensures
            r matches ChoiceType::CreatureType { options } && options@.len() == 0,
    {
        ChoiceType::CreatureType { options: Vec::new() }
    }

    /// One of the listed creature types.
    pub fn creature_type_from(options: Vec<String>) -> (r: Self)
        ensures
            r == (ChoiceType::CreatureType { options }),
    {
        ChoiceType::CreatureType { options }
    }

    /// Any color.
    pub fn color() -> (r: Self)
        ensures
            r matches ChoiceType::Color { excluded } && excluded@.len() == 0,
    {
        ChoiceType::Color { excluded: Vec::new() }
    }

    pub fn color_excluding(excluded: Vec<ManaColor>) -> (r: Self)
        ensures
            r == (ChoiceType::Color { excluded }),
    {
        ChoiceType::Color { excluded }
    }

    /// Any card type.
    pub fn card_type() -> (r: Self)
        ensures
            r matches ChoiceType::CardType { excluded } && excluded@.len() == 0,
    {
        ChoiceType::CardType { excluded: Vec::new() }
    }

    pub fn card_type_excluding(excluded: Vec<CoreType>) -> (r: Self)
        ensures
            r == (ChoiceType::CardType { excluded }),
    {
        ChoiceType::CardType { excluded }
    }

    pub fn land_or_nonland_card_predicate_options() -> (r: Vec<CardPredicateChoice>)
        ensures
            r@ == seq![CardPredicateChoice::Land, CardPredicateChoice::Nonland],
    {
        vec![CardPredicateChoice::Land, CardPredicateChoice::Nonland]
    }

    /// The choice is about a card of the current resolution and is not remembered.
    pub fn is_resolution_scoped_card_predicate_choice(&self) -> (r: bool)
        ensures
            r == (self is CardPredicate || self is CardPredicateGuess),
    {
        match self {
            ChoiceType::CardPredicate { .. } => true,
            ChoiceType::CardPredicateGuess { .. } => true,
            _ => false,
        }
    }

    pub fn is_card_predicate_guess(&self) -> (r: bool)
        ensures
            r == (self is CardPredicateGuess),
    {
        match self {
            ChoiceType::CardPredicateGuess { .. } => true,
            _ => false,
        }
    }

    pub fn needs_choice_source_context(&self) -> (r: bool)
        ensures
            r == (self is CardPredicateGuess),
    {
        self.is_card_predicate_guess()
    }

    /// The words that the qualities are offered as.
    pub fn card_predicate_labels(options: &[CardPredicateChoice]) -> (r: Vec<String>)
        ensures
            r@.len() == options@.len(),
            forall|i: int| 0 <= i < options@.len() ==> (#[trigger] r@[i])@ == options@[i].name(),
    {
        let mut r: Vec<String> = Vec::new();
        let mut i: usize = 0;
        while i < options.len()
            invariant
                i <= options.len(),
                r@.len() == i,
                forall|j: int| 0 <= j < i ==> (#[trigger] r@[j])@ == options@[j].name(),
            decreases options.len() - i,
        {
            r.push(options[i].label());
            i = i + 1;
        }
        r
    }

    /// The player supplies the value; for every other choice the game lists what can be chosen,
    /// and an empty list means that there is nothing to choose (CR 609.3).
    pub fn options_supplied_by_player(&self) -> (r: bool)
        ensures
            r == (self is CardName || self is Word || self is Artist),
    {
        match self {
            ChoiceType::CardName => true,
            ChoiceType::Word => true,
            ChoiceType::Artist => true,
            _ => false,
        }
    }
}

/// The outcome of a tribute (CR 702.104).
#[derive(Clone, Copy, Debug, PartialEq, Eq, Structural, Hash)]
pub enum TributeOutcome {
    Paid,
    Declined,
}

#[derive(Clone, Copy, Debug, PartialEq, Eq, Structural, Hash)]
pub enum SeatDirection {
    Left,
    Right,
}

/// A value that was chosen while an ability resolved.
#[derive(Clone, Debug, PartialEq, Eq)]
pub enum ChoiceValue {
    Color(ManaColor),
    CreatureType(String),
    BasicLandType(BasicLandType),
    CardType(CoreType),
    OddOrEven(Parity),
    CardName(String),
    Number(u8),
    Label(String),
    CardPredicate(CardPredicateChoice),
    LandType(String),
    Player(PlayerId),
    TwoColors(ManaColor, ManaColor),
    Keyword(Arc<Keyword>),
    Counter(CounterType),
}

/// The contents of a chosen value.
pub enum ValueModel {
    Color(ManaColor),
    CreatureType(Seq<char>),
    BasicLandType(BasicLandType),
    CardType(CoreType),
    OddOrEven(Parity),
    CardName(Seq<char>),
    Number(u8),
    Label(Seq<char>),
    CardPredicate(CardPredicateChoice),
    LandType(Seq<char>),
    Player(PlayerId),
    TwoColors(ManaColor, ManaColor),
    Keyword(Arc<Keyword>),
    Counter(CounterType),
}

impl View for ChoiceValue {
    type V = ValueModel;

    open spec fn view(&self) -> ValueModel {
        match *self {
            ChoiceValue::Color(c) => ValueModel::Color(c),
            ChoiceValue::CreatureType(s) => ValueModel::CreatureType(s@),
            ChoiceValue::BasicLandType(t) => ValueModel::BasicLandType(t),
            ChoiceValue::CardType(t) => ValueModel::CardType(t),
            ChoiceValue::OddOrEven(p) => ValueModel::OddOrEven(p),
            ChoiceValue::CardName(s) => ValueModel::CardName(s@),
            ChoiceValue::Number(n) => ValueModel::Number(n),
            ChoiceValue::Label(s) => ValueModel::Label(s@),
            ChoiceValue::CardPredicate(p) => ValueModel::CardPredicate(p),
            ChoiceValue::LandType(s) => ValueModel::LandType(s@),
            ChoiceValue::Player(p) => ValueModel::Player(p),
            ChoiceValue::TwoColors(a, b) => ValueModel::TwoColors(a, b),
            ChoiceValue::Keyword(k) => ValueModel::Keyword(k),
            ChoiceValue::Counter(c) => ValueModel::Counter(c),
        }
    }
}

/// A choice that a permanent remembers.
#[derive(Clone, Debug, PartialEq, Eq)]
pub enum ChosenAttribute {
    Color(ManaColor),
    CreatureType(String),
    BasicLandType(BasicLandType),
    CardType(CoreType),
    OddOrEven(Parity),
    CardName(String),
    Number(u8),
    Player(PlayerId),
    TwoColors(ManaColor, ManaColor),
    TributeOutcome(TributeOutcome),
    /// The anchor word (CR 614.12c).
    Label(String),
    /// The card that was chosen last.
    Card(ObjectId),
    Direction(SeatDirection),
    /// The keyword that was chosen (CR 608.2d).
    Keyword(Arc<Keyword>),
    /// The kind of counter that was chosen (CR 122.1).
    Counter(CounterType),
}

} // verus!
