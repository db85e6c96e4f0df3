//! Oracle text of the gift keyword (CR 702.174).
use vstd::prelude::*;

use crate::parser::primitives;
use crate::text;
use crate::types::card_type::CoreType;
use crate::types::keywords::{GiftKind, GiftTokenSpec};
use crate::types::mana::ManaColor;
use crate::types::zones::EtbTapState;

verus! {

/// What a gift line promises.
pub enum GiftWords {
    Card,
    Treasure,
    Food,
    TappedFish,
    /// A creature token that the reminder text describes.
    Creature { power: u32, toughness: u32, color: ManaColor, name: Seq<char> },
}

/// The gift is the one that the words describe.
pub open spec fn gift_is(kind: GiftKind, words: GiftWords) -> bool {
    match words {
        GiftWords::Card => kind == GiftKind::Card,
        GiftWords::Treasure => kind matches GiftKind::Token(spec) && spec.artifact_named(
            "Treasure"@,
        ),
        GiftWords::Food => kind matches GiftKind::Token(spec) && spec.artifact_named("Food"@),
        GiftWords::TappedFish => kind matches GiftKind::Token(spec) && creature_token(
            spec,
            "Fish"@,
            1,
            1,
            ManaColor::Blue,
            EtbTapState::Tapped,
        ),
        GiftWords::Creature { power, toughness, color, name } => kind matches GiftKind::Token(spec)
            && creature_token(
            spec,
            name,
            power as i32,
            toughness as i32,
            color,
            EtbTapState::Unspecified,
        ),
    }
}

/// A creature token of one color that is called by its subtype.
pub open spec fn creature_token(
    spec: GiftTokenSpec,
    name: Seq<char>,
    power: i32,
    toughness: i32,
    color: ManaColor,
    enter_tapped: EtbTapState,
) -> bool {
    &&& spec.display_name@ == name
    &&& spec.script_name@ == name
    &&& spec.power == Some(power)
    &&& spec.toughness == Some(toughness)
    &&& spec.core_types@ == seq![CoreType::Creature]
    &&& spec.subtypes@.len() == 1
    &&& spec.subtypes@[0]@ == name
    &&& spec.colors@ == seq![color]
    &&& spec.enter_tapped == enter_tapped
}

/// How many characters come before the first space.
pub open spec fn word_len(rest: Seq<char>) -> nat
    decreases rest.len(),
{
    if rest.len() > 0 && rest[0] != ' ' {
        1 + word_len(rest.drop_first())
    } else {
        0
    }
}

/// A color word.
pub open spec fn color_word(rest: Seq<char>) -> Option<(Seq<char>, ManaColor)> {
    match primitives::stripped(rest, "white"@) {
        Some(a) => Some((a, ManaColor::White)),
        None => match primitives::stripped(rest, "blue"@) {
            Some(a) => Some((a, ManaColor::Blue)),
            None => match primitives::stripped(rest, "black"@) {
                Some(a) => Some((a, ManaColor::Black)),
                None => match primitives::stripped(rest, "red"@) {
                    Some(a) => Some((a, ManaColor::Red)),
                    None => match primitives::stripped(rest, "green"@) {
                        Some(a) => Some((a, ManaColor::Green)),
                        None => None,
                    },
                },
            },
        },
    }
}

/// "an 8/8 blue Octopus creature token.)", after its "a".
pub open spec fn token_phrase(rest: Seq<char>) -> Option<GiftWords> {
    match primitives::stripped(primitives::strip_optional(rest, "n"@), " "@) {
        None => None,
        Some(a) => match primitives::number(a) {
            None => None,
            Some((b, power)) => match primitives::stripped(b, "/"@) {
                None => None,
                Some(c) => match primitives::number(c) {
                    None => None,
                    Some((d, toughness)) => match primitives::stripped(d, " "@) {
                        None => None,
                        Some(e) => match color_word(e) {
                            None => None,
                            Some((f, color)) => match primitives::stripped(f, " "@) {
                                None => None,
                                Some(g) => {
                                    let n = word_len(g) as int;
                                    if primitives::stripped(g.skip(n), " creature token.)"@)
                                        == Some(Seq::<char>::empty()) {
                                        Some(
                                            GiftWords::Creature {
                                                power,
                                                toughness,
                                                color,
                                                name: g.take(n),
                                            },
                                        )
                                    } else {
                                        None
                                    }
                                },
                            },
                        },
                    },
                },
            },
        },
    }
}

/// "an Octopus (You may promise an opponent a gift as you cast this spell. If you do, when it
/// enters, they create ...)".
pub open spec fn creature_gift(rest: Seq<char>) -> Option<GiftWords> {
    match primitives::stripped(rest, "a"@) {
        None => None,
        Some(a) => match primitives::stripped(primitives::strip_optional(a, "n"@), " "@) {
            None => None,
            Some(b) => match primitives::stripped(
                b.skip(word_len(b) as int),
                " (you may promise an opponent a gift as you cast this spell. if you do, when it enters, they create a"@,
            ) {
                None => None,
                Some(c) => token_phrase(c),
            },
        },
    }
}

/// The words stand there, and nothing but reminder text follows.
pub open spec fn named_gift(rest: Seq<char>, words: Seq<char>) -> bool {
    match primitives::stripped(rest, words) {
        None => false,
        Some(a) => a.len() == 0 || primitives::stripped(a, " ("@) is Some,
    }
}

/// A gift line.
pub open spec fn gift_line(line: Seq<char>) -> Option<GiftWords> {
    match primitives::stripped(line, "gift "@) {
        None => None,
        Some(a) => if named_gift(a, "a card"@) {
            Some(GiftWords::Card)
        } else if named_gift(a, "a treasure"@) {
            Some(GiftWords::Treasure)
        } else if named_gift(a, "a food"@) {
            Some(GiftWords::Food)
        } else if named_gift(a, "a tapped fish"@) {
            Some(GiftWords::TappedFish)
        } else {
            creature_gift(a)
        },
    }
}

fn skip_word(line: &Vec<char>, at: usize) -> (n: usize)
    requires
        at <= line.len(),
    ensures
        n == at + word_len(line@.skip(at as int)),
        n <= line.len(),
{
    let mut n: usize = at;
    while n < line.len() && line[n] != ' '
        invariant
            at <= n <= line.len(),
            word_len(line@.skip(at as int)) == (n - at) + word_len(line@.skip(n as int)),
        decreases line.len() - n,
    {
        assert(line@.skip(n as int).drop_first() =~= line@.skip(n + 1));
        n = n + 1;
    }
    n
}

fn parse_color_word(line: &Vec<char>, at: usize) -> (r: Option<(usize, ManaColor)>)
    requires
        at <= line.len(),
    ensures
        match r {
            Some((n, c)) => at <= n <= line.len() && color_word(line@.skip(at as int)) == Some(
                (line@.skip(n as int), c),
            ),
            None => color_word(line@.skip(at as int)) is None,
        },
{
    if let Some(n) = primitives::strip(line, at, "white") {
        return Some((n, ManaColor::White));
    }
    if let Some(n) = primitives::strip(line, at, "blue") {
        return Some((n, ManaColor::Blue));
    }
    if let Some(n) = primitives::strip(line, at, "black") {
        return Some((n, ManaColor::Black));
    }
    if let Some(n) = primitives::strip(line, at, "red") {
        return Some((n, ManaColor::Red));
    }
    match primitives::strip(line, at, "green") {
        Some(n) => Some((n, ManaColor::Green)),
        None => None,
    }
}

/// Reads the description of the token, from behind its "a".
fn parse_token_phrase(source: &str, line: &Vec<char>, at: usize) -> (r: Option<GiftKind>)
    requires
        at <= line.len(),
        line@ == source@,
    ensures
        match r {
            Some(kind) => token_phrase(line@.skip(at as int)) matches Some(words) && gift_is(
                kind,
                words,
            ),
            None => token_phrase(line@.skip(at as int)) is None,
        },
{
    let a: usize = match primitives::strip(line, primitives::strip_opt(line, at, "n"), " ") {
        Some(n) => n,
        None => {
            return None;
        },
    };
    let (b, power): (usize, u32) = match primitives::parse_number(line, a) {
        Some(found) => found,
        None => {
            return None;
        },
    };
    let c: usize = match primitives::strip(line, b, "/") {
        Some(n) => n,
        None => {
            return None;
        },
    };
    let (d, toughness): (usize, u32) = match primitives::parse_number(line, c) {
        Some(found) => found,
        None => {
            return None;
        },
    };
    let e: usize = match primitives::strip(line, d, " ") {
        Some(n) => n,
        None => {
            return None;
        },
    };
    let (f, color) = match parse_color_word(line, e) {
        Some(found) => found,
        None => {
            return None;
        },
    };
    let g: usize = match primitives::strip(line, f, " ") {
        Some(n) => n,
        None => {
            return None;
        },
    };
    let end: usize = skip_word(line, g);
    let ghost rest = line@.skip(g as int);
    assert(rest.skip(end - g) =~= line@.skip(end as int));
    assert(rest.take(end - g) =~= line@.subrange(g as int, end as int));
    match primitives::strip(line, end, " creature token.)") {
        None => None,
        Some(n) => {
            if n < line.len() {
                assert(line@.skip(n as int).len() > 0);
                return None;
            }
            assert(line@.skip(n as int) =~= Seq::<char>::empty());
            let name = source.substring_char(g, end);
            let mut colors: Vec<ManaColor> = Vec::new();
            colors.push(color);
            let mut subtypes: Vec<String> = Vec::new();
            subtypes.push(String::from_str(name));
            Some(
                GiftKind::Token(
                    GiftTokenSpec::creature(
                        name,
                        power as i32,
                        toughness as i32,
                        colors,
                        subtypes,
                        EtbTapState::Unspecified,
                    ),
                ),
            )
        },
    }
}

fn parse_creature_gift(source: &str, line: &Vec<char>, at: usize) -> (r: Option<GiftKind>)
    requires
        at <= line.len(),
        line@ == source@,
    ensures
        match r {
            Some(kind) => creature_gift(line@.skip(at as int)) matches Some(words) && gift_is(
                kind,
                words,
            ),
            None => creature_gift(line@.skip(at as int)) is None,
        },
{
    let a: usize = match primitives::strip(line, at, "a") {
        Some(n) => n,
        None => {
            return None;
        },
    };
    let b: usize = match primitives::strip(line, primitives::strip_opt(line, a, "n"), " ") {
        Some(n) => n,
        None => {
            return None;
        },
    };
    let c: usize = skip_word(line, b);
    assert(line@.skip(b as int).skip(c - b) =~= line@.skip(c as int));
    match primitives::strip(
        line,
        c,
        " (you may promise an opponent a gift as you cast this spell. if you do, when it enters, they create a",
    ) {
        None => None,
        Some(d) => parse_token_phrase(source, line, d),
    }
}

fn parse_named_gift(line: &Vec<char>, at: usize, words: &str) -> (r: bool)
    requires
        at <= line.len(),
    ensures
        r == named_gift(line@.skip(at as int), words@),
{
    match primitives::strip(line, at, words) {
        None => false,
        Some(n) => n == line.len() || primitives::strip(line, n, " (").is_some(),
    }
}

/// Reads a gift line.
pub fn parse_gift_line(source: &str) -> (r: Option<GiftKind>)
    ensures
        match r {
            Some(kind) => gift_line(source@) matches Some(words) && gift_is(kind, words),
            None => gift_line(source@) is None,
        },
{
    let chars = text::chars_of(source);
    let line = &chars;
    assert(line@.skip(0) =~= line@);
    let a: usize = match primitives::strip(line, 0, "gift ") {
        Some(n) => n,
        None => {
            return None;
        },
    };
    if parse_named_gift(line, a, "a card") {
        Some(GiftKind::Card)
    } else if parse_named_gift(line, a, "a treasure") {
        Some(GiftKind::Token(GiftTokenSpec::treasure()))
    } else if parse_named_gift(line, a, "a food") {
        Some(GiftKind::Token(GiftTokenSpec::food()))
    } else if parse_named_gift(line, a, "a tapped fish") {
        Some(GiftKind::Token(GiftTokenSpec::tapped_fish()))
    } else {
        parse_creature_gift(source, line, a)
    }
}

} // verus!
