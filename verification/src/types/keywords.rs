//! Keyword abilities (CR 702).
use std::cmp::Ordering;
use vstd::prelude::*;

use crate::order::key::Key;
use crate::order::stable_ord::StableOrd;
use crate::shared;
use crate::types::card_type::CoreType;
use crate::types::choices;
use crate::types::mana::ManaColor;
use crate::types::zones::EtbTapState;

verus! {

/// The discriminant of a keyword ability.
#[derive(Clone, Copy, Debug, PartialEq, Eq, Structural, Hash)]
pub enum KeywordKind {
    Flying,
    FirstStrike,
    DoubleStrike,
    Deathtouch,
    Defender,
    Haste,
    Hexproof,
    Indestructible,
    Lifelink,
    Menace,
    Reach,
    Shroud,
    Trample,
    Vigilance,
    Delve,
    Protection,
    Gift,
}

impl KeywordKind {
    /// Position of the variant in the declaration.
    #[verifier::opaque]
    pub open spec fn rank(&self) -> int {
        match self {
            KeywordKind::Flying => 0,
            KeywordKind::FirstStrike => 1,
            KeywordKind::DoubleStrike => 2,
            KeywordKind::Deathtouch => 3,
            KeywordKind::Defender => 4,
            KeywordKind::Haste => 5,
            KeywordKind::Hexproof => 6,
            KeywordKind::Indestructible => 7,
            KeywordKind::Lifelink => 8,
            KeywordKind::Menace => 9,
            KeywordKind::Reach => 10,
            KeywordKind::Shroud => 11,
            KeywordKind::Trample => 12,
            KeywordKind::Vigilance => 13,
            KeywordKind::Delve => 14,
            KeywordKind::Protection => 15,
            KeywordKind::Gift => 16,
        }
    }

    pub fn ordinal(&self) -> (r: u8)
        ensures
            r == self.rank(),
    {
        proof {
            reveal(KeywordKind::rank);
        }
        match self {
            KeywordKind::Flying => 0,
            KeywordKind::FirstStrike => 1,
            KeywordKind::DoubleStrike => 2,
            KeywordKind::Deathtouch => 3,
            KeywordKind::Defender => 4,
            KeywordKind::Haste => 5,
            KeywordKind::Hexproof => 6,
            KeywordKind::Indestructible => 7,
            KeywordKind::Lifelink => 8,
            KeywordKind::Menace => 9,
            KeywordKind::Reach => 10,
            KeywordKind::Shroud => 11,
            KeywordKind::Trample => 12,
            KeywordKind::Vigilance => 13,
            KeywordKind::Delve => 14,
            KeywordKind::Protection => 15,
            KeywordKind::Gift => 16,
        }
    }
}

impl StableOrd for KeywordKind {
    open spec fn key(&self) -> Key {
        Key::Num(self.rank())
    }

    fn stable_cmp(&self, other: &Self) -> (o: Ordering) {
        self.ordinal().stable_cmp(&other.ordinal())
    }
}

/// What a permanent has protection from (CR 702.16a).
#[derive(Clone, Copy, Debug, PartialEq, Eq, Structural, Hash)]
pub enum ProtectionTarget {
    Color(ManaColor),
    ChosenColor,
}

/// The token a gift promises (CR 702.174h-i).
#[derive(Clone, Debug, PartialEq, Eq, Hash)]
pub struct GiftTokenSpec {
    pub display_name: String,
    pub script_name: String,
    pub power: Option<i32>,
    pub toughness: Option<i32>,
    pub core_types: Vec<CoreType>,
    pub subtypes: Vec<String>,
    pub colors: Vec<ManaColor>,
    pub enter_tapped: EtbTapState,
}

/// A subtype list with one entry.
fn one_subtype(name: &str) -> (r: Vec<String>)
    ensures
        r@.len() == 1,
        r@[0]@ == name@,
{
    let mut r: Vec<String> = Vec::new();
    r.push(String::from_str(name));
    r
}

impl GiftTokenSpec {
    /// A colorless artifact token that is called by its subtype.
    pub open spec fn artifact_named(self, name: Seq<char>) -> bool {
        &&& self.display_name@ == name
        &&& self.script_name@ == name
        &&& self.power is None
        &&& self.toughness is None
        &&& self.core_types@ == seq![CoreType::Artifact]
        &&& self.subtypes@.len() == 1
        &&& self.subtypes@[0]@ == name
        &&& self.colors@.len() == 0
        &&& self.enter_tapped == EtbTapState::Unspecified
    }

    fn artifact(name: &str) -> (r: Self)
        ensures
            r.artifact_named(name@),
    {
        let mut core_types: Vec<CoreType> = Vec::new();
        core_types.push(CoreType::Artifact);
        GiftTokenSpec {
            display_name: String::from_str(name),
            script_name: String::from_str(name),
            power: None,
            toughness: None,
            core_types,
            subtypes: one_subtype(name),
            colors: Vec::new(),
            enter_tapped: EtbTapState::Unspecified,
        }
    }

    /// Gift a Treasure (CR 702.174h).
    pub fn treasure() -> (r: Self)
        ensures
            r.artifact_named("Treasure"@),
    {
        GiftTokenSpec::artifact("Treasure")
    }

    /// Gift a Food (CR 702.174f).
    pub fn food() -> (r: Self)
        ensures
            r.artifact_named("Food"@),
    {
        GiftTokenSpec::artifact("Food")
    }

    /// A creature token with the given characteristics.
    pub fn creature(
        name: &str,
        power: i32,
        toughness: i32,
        colors: Vec<ManaColor>,
        subtypes: Vec<String>,
        enter_tapped: EtbTapState,
    ) -> (r: Self)
        ensures
            r.display_name@ == name@,
            r.script_name@ == name@,
            r.power == Some(power),
            r.toughness == Some(toughness),
            r.core_types@ == seq![CoreType::Creature],
            r.subtypes == subtypes,
            r.colors == colors,
            r.enter_tapped == enter_tapped,
    {
        let mut core_types: Vec<CoreType> = Vec::new();
        core_types.push(CoreType::Creature);
        GiftTokenSpec {
            display_name: String::from_str(name),
            script_name: String::from_str(name),
            power: Some(power),
            toughness: Some(toughness),
            core_types,
            subtypes,
            colors,
            enter_tapped,
        }
    }

    /// Both describe the same token.
    pub open spec fn same_token(self, other: Self) -> bool {
        &&& self.display_name@ == other.display_name@
        &&& self.script_name@ == other.script_name@
        &&& self.power == other.power
        &&& self.toughness == other.toughness
        &&& self.core_types@ == other.core_types@
        &&& self.subtypes@ == other.subtypes@
        &&& self.colors@ == other.colors@
        &&& self.enter_tapped == other.enter_tapped
    }

    /// The same token once more.
    pub fn copied(&self) -> (r: Self)
        ensures
            r.same_token(*self),
    {
        GiftTokenSpec {
            display_name: self.display_name.clone(),
            script_name: self.script_name.clone(),
            power: self.power,
            toughness: self.toughness,
            core_types: shared::copy_all(&self.core_types),
            subtypes: shared::copy_texts(&self.subtypes),
            colors: shared::copy_all(&self.colors),
            enter_tapped: self.enter_tapped,
        }
    }

    /// Gift a tapped Fish: a 1/1 blue Fish that enters tapped (CR 702.174g).
    pub fn tapped_fish() -> (r: Self)
        ensures
            r.display_name@ == "Fish"@,
            r.script_name@ == "Fish"@,
            r.power == Some(1i32),
            r.toughness == Some(1i32),
            r.core_types@ == seq![CoreType::Creature],
            r.subtypes@.len() == 1,
            r.subtypes@[0]@ == "Fish"@,
            r.colors@ == seq![ManaColor::Blue],
            r.enter_tapped == EtbTapState::Tapped,
    {
        let mut colors: Vec<ManaColor> = Vec::new();
        colors.push(ManaColor::Blue);
        GiftTokenSpec::creature("Fish", 1, 1, colors, one_subtype("Fish"), EtbTapState::Tapped)
    }
}

/// What the chosen opponent receives (CR 702.174).
#[derive(Clone, Debug, PartialEq, Eq, Hash)]
pub enum GiftKind {
    Card,
    Token(GiftTokenSpec),
}

impl GiftKind {
    /// Both give the same.
    pub open spec fn same_gift(self, other: Self) -> bool {
        match (self, other) {
            (GiftKind::Card, GiftKind::Card) => true,
            (GiftKind::Token(a), GiftKind::Token(b)) => a.same_token(b),
            _ => false,
        }
    }

    /// The same gift once more.
    pub fn copied(&self) -> (r: Self)
        ensures
            r.same_gift(*self),
    {
        match self {
            GiftKind::Card => GiftKind::Card,
            GiftKind::Token(spec) => GiftKind::Token(spec.copied()),
        }
    }
}

/// A keyword ability (CR 702).
#[derive(Clone, Debug, PartialEq, Eq, Hash)]
pub enum Keyword {
    Flying,
    FirstStrike,
    DoubleStrike,
    Deathtouch,
    Defender,
    Haste,
    Hexproof,
    Indestructible,
    Lifelink,
    Menace,
    Reach,
    Shroud,
    Trample,
    Vigilance,
    Delve,
    Protection(ProtectionTarget),
    Gift(GiftKind),
}

impl Keyword {
    pub open spec fn kind_of(&self) -> KeywordKind {
        match self {
            Keyword::Flying => KeywordKind::Flying,
            Keyword::FirstStrike => KeywordKind::FirstStrike,
            Keyword::DoubleStrike => KeywordKind::DoubleStrike,
            Keyword::Deathtouch => KeywordKind::Deathtouch,
            Keyword::Defender => KeywordKind::Defender,
            Keyword::Haste => KeywordKind::Haste,
            Keyword::Hexproof => KeywordKind::Hexproof,
            Keyword::Indestructible => KeywordKind::Indestructible,
            Keyword::Lifelink => KeywordKind::Lifelink,
            Keyword::Menace => KeywordKind::Menace,
            Keyword::Reach => KeywordKind::Reach,
            Keyword::Shroud => KeywordKind::Shroud,
            Keyword::Trample => KeywordKind::Trample,
            Keyword::Vigilance => KeywordKind::Vigilance,
            Keyword::Delve => KeywordKind::Delve,
            Keyword::Protection(_) => KeywordKind::Protection,
            Keyword::Gift(_) => KeywordKind::Gift,
        }
    }

    /// The keyword's discriminant, without its parameters.
    pub fn kind(&self) -> (k: KeywordKind)
        ensures
            k == self.kind_of(),
    {
        match self {
            Keyword::Flying => KeywordKind::Flying,
            Keyword::FirstStrike => KeywordKind::FirstStrike,
            Keyword::DoubleStrike => KeywordKind::DoubleStrike,
            Keyword::Deathtouch => KeywordKind::Deathtouch,
            Keyword::Defender => KeywordKind::Defender,
            Keyword::Haste => KeywordKind::Haste,
            Keyword::Hexproof => KeywordKind::Hexproof,
            Keyword::Indestructible => KeywordKind::Indestructible,
            Keyword::Lifelink => KeywordKind::Lifelink,
            Keyword::Menace => KeywordKind::Menace,
            Keyword::Reach => KeywordKind::Reach,
            Keyword::Shroud => KeywordKind::Shroud,
            Keyword::Trample => KeywordKind::Trample,
            Keyword::Vigilance => KeywordKind::Vigilance,
            Keyword::Delve => KeywordKind::Delve,
            Keyword::Protection(_) => KeywordKind::Protection,
            Keyword::Gift(_) => KeywordKind::Gift,
        }
    }

    /// The words that the keyword is shown as.
    pub open spec fn shown(&self) -> Seq<char> {
        match self {
            Keyword::Flying => "Flying"@,
            Keyword::FirstStrike => "First strike"@,
            Keyword::DoubleStrike => "Double strike"@,
            Keyword::Deathtouch => "Deathtouch"@,
            Keyword::Defender => "Defender"@,
            Keyword::Haste => "Haste"@,
            Keyword::Hexproof => "Hexproof"@,
            Keyword::Indestructible => "Indestructible"@,
            Keyword::Lifelink => "Lifelink"@,
            Keyword::Menace => "Menace"@,
            Keyword::Reach => "Reach"@,
            Keyword::Shroud => "Shroud"@,
            Keyword::Trample => "Trample"@,
            Keyword::Vigilance => "Vigilance"@,
            Keyword::Delve => "Delve"@,
            Keyword::Protection(ProtectionTarget::Color(c)) => "Protection from "@
                + choices::color_name(*c),
            Keyword::Protection(ProtectionTarget::ChosenColor) =>
                "Protection from the chosen color"@,
            Keyword::Gift(_) => "Gift"@,
        }
    }

    /// The words that the keyword is shown as.
    pub fn label(&self) -> (r: String)
        ensures
            r@ == self.shown(),
    {
        match self {
            Keyword::Flying => String::from_str("Flying"),
            Keyword::FirstStrike => String::from_str("First strike"),
            Keyword::DoubleStrike => String::from_str("Double strike"),
            Keyword::Deathtouch => String::from_str("Deathtouch"),
            Keyword::Defender => String::from_str("Defender"),
            Keyword::Haste => String::from_str("Haste"),
            Keyword::Hexproof => String::from_str("Hexproof"),
            Keyword::Indestructible => String::from_str("Indestructible"),
            Keyword::Lifelink => String::from_str("Lifelink"),
            Keyword::Menace => String::from_str("Menace"),
            Keyword::Reach => String::from_str("Reach"),
            Keyword::Shroud => String::from_str("Shroud"),
            Keyword::Trample => String::from_str("Trample"),
            Keyword::Vigilance => String::from_str("Vigilance"),
            Keyword::Delve => String::from_str("Delve"),
            Keyword::Protection(ProtectionTarget::Color(c)) => String::from_str(
                "Protection from ",
            ).concat(choices::write_color(*c).as_str()),
            Keyword::Protection(ProtectionTarget::ChosenColor) => String::from_str(
                "Protection from the chosen color",
            ),
            Keyword::Gift(_) => String::from_str("Gift"),
        }
    }
}

} // verus!
