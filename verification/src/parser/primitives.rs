//! Building blocks of the Oracle text grammar. A parser takes the rest of a text and hands back what
//! it leaves, with what it read.
use vstd::prelude::*;

use crate::text;

verus! {

/// What follows `tag` at the beginning of the text, ASCII case ignored; `tag` is in lower case.
pub open spec fn stripped(rest: Seq<char>, tag: Seq<char>) -> Option<Seq<char>> {
    if tag.len() <= rest.len() && text::lowered(rest.take(tag.len() as int)) == tag {
        Some(rest.skip(tag.len() as int))
    } else {
        None
    }
}

/// What follows `tag`, or the whole text without it.
pub open spec fn strip_optional(rest: Seq<char>, tag: Seq<char>) -> Seq<char> {
    match stripped(rest, tag) {
        Some(after) => after,
        None => rest,
    }
}

/// A space, tab or line break.
pub open spec fn multispace(c: char) -> bool {
    c == ' ' || c == '\t' || c == '\r' || c == '\n'
}

/// The text without leading spaces, tabs and line breaks.
pub open spec fn skip_space(rest: Seq<char>) -> Seq<char>
    decreases rest.len(),
{
    if rest.len() > 0 && multispace(rest[0]) {
        skip_space(rest.drop_first())
    } else {
        rest
    }
}

/// Strips the characters `tag` at a position.
pub fn strip_chars(text: &Vec<char>, at: usize, tag: &Vec<char>) -> (r: Option<usize>)
    requires
        at <= text.len(),
    ensures
        match r {
            Some(n) => at <= n <= text.len() && stripped(text@.skip(at as int), tag@) == Some(
                text@.skip(n as int),
            ),
            None => stripped(text@.skip(at as int), tag@) is None,
        },
{
    let ghost rest = text@.skip(at as int);
    if tag.len() > text.len() - at {
        return None;
    }
    let mut i: usize = 0;
    while i < tag.len()
        invariant
            at + tag.len() <= text.len(),
            i <= tag.len(),
            rest == text@.skip(at as int),
            forall|j: int| 0 <= j < i ==> text::lower_char(text@[at + j]) == tag@[j],
        decreases tag.len() - i,
    {
        if text::fold_char(text[at + i]) != tag[i] {
            assert(text::lowered(rest.take(tag@.len() as int))[i as int] == text::lower_char(
                text@[at + i],
            ));
            return None;
        }
        i = i + 1;
    }
    assert(text::lowered(rest.take(tag@.len() as int)) =~= tag@);
    assert(rest.skip(tag@.len() as int) =~= text@.skip(at + tag.len()));
    Some(at + tag.len())
}

/// Strips `tag` at a position.
pub fn strip(text: &Vec<char>, at: usize, tag: &str) -> (r: Option<usize>)
    requires
        at <= text.len(),
    ensures
        match r {
            Some(n) => at <= n <= text.len() && stripped(text@.skip(at as int), tag@) == Some(
                text@.skip(n as int),
            ),
            None => stripped(text@.skip(at as int), tag@) is None,
        },
{
    strip_chars(text, at, &text::chars_of(tag))
}

/// Strips `tag` at a position where it stands there.
pub fn strip_opt(text: &Vec<char>, at: usize, tag: &str) -> (n: usize)
    requires
        at <= text.len(),
    ensures
        at <= n <= text.len(),
        text@.skip(n as int) == strip_optional(text@.skip(at as int), tag@),
{
    match strip(text, at, tag) {
        Some(n) => n,
        None => at,
    }
}

/// Skips spaces, tabs and line breaks at a position.
pub fn skip_spaces(text: &Vec<char>, at: usize) -> (n: usize)
    requires
        at <= text.len(),
    ensures
        at <= n <= text.len(),
        text@.skip(n as int) == skip_space(text@.skip(at as int)),
{
    let mut n: usize = at;
    while n < text.len() && (text[n] == ' ' || text[n] == '\t' || text[n] == '\r' || text[n] == '\n')
        invariant
            at <= n <= text.len(),
            skip_space(text@.skip(n as int)) == skip_space(text@.skip(at as int)),
        decreases text.len() - n,
    {
        assert(text@.skip(n as int).drop_first() =~= text@.skip(n + 1));
        n = n + 1;
    }
    n
}

pub open spec fn digit(c: char) -> bool {
    '0' <= c <= '9'
}

/// The value of the digits that begin the text, read after `value`.
pub open spec fn digits_value(rest: Seq<char>, value: nat) -> nat
    decreases rest.len(),
{
    if rest.len() > 0 && digit(rest[0]) {
        digits_value(rest.drop_first(), 10 * value + (rest[0] as u32 - '0' as u32) as nat)
    } else {
        value
    }
}

/// The text after the digits that begin it.
pub open spec fn after_digits(rest: Seq<char>) -> Seq<char>
    decreases rest.len(),
{
    if rest.len() > 0 && digit(rest[0]) {
        after_digits(rest.drop_first())
    } else {
        rest
    }
}

/// The number words; one that begins another comes after it.
pub open spec fn number_words() -> Seq<(Seq<char>, u32)> {
    seq![
        ("seventeen"@, 17u32), ("fourteen"@, 14u32), ("thirteen"@, 13u32), ("eighteen"@, 18u32),
        ("nineteen"@, 19u32), ("sixteen"@, 16u32), ("fifteen"@, 15u32), ("twelve"@, 12u32),
        ("eleven"@, 11u32), ("twenty"@, 20u32), ("three"@, 3u32), ("seven"@, 7u32),
        ("eight"@, 8u32), ("four"@, 4u32), ("five"@, 5u32), ("nine"@, 9u32), ("zero"@, 0u32),
        ("one"@, 1u32), ("two"@, 2u32), ("six"@, 6u32), ("ten"@, 10u32)
    ]
}

/// The first of the words that begins the text.
pub open spec fn word_number(
    rest: Seq<char>,
    words: Seq<(Seq<char>, u32)>,
) -> Option<(Seq<char>, u32)>
    decreases words.len(),
{
    if words.len() == 0 {
        None
    } else {
        match stripped(rest, words[0].0) {
            Some(after) => Some((after, words[0].1)),
            None => word_number(rest, words.drop_first()),
        }
    }
}

/// A number at the beginning of the text, in digits or as a word.
pub open spec fn number(rest: Seq<char>) -> Option<(Seq<char>, u32)> {
    if rest.len() > 0 && digit(rest[0]) {
        if digits_value(rest, 0) <= u32::MAX {
            Some((after_digits(rest), digits_value(rest, 0) as u32))
        } else {
            None
        }
    } else {
        word_number(rest, number_words())
    }
}

proof fn lemma_digits_grow(rest: Seq<char>, value: nat)
    ensures
        digits_value(rest, value) >= value,
    decreases rest.len(),
{
    if rest.len() > 0 && digit(rest[0]) {
        lemma_digits_grow(
            rest.drop_first(),
            10 * value + (rest[0] as u32 - '0' as u32) as nat,
        );
    }
}

fn parse_digits(text: &Vec<char>, at: usize) -> (r: Option<(usize, u32)>)
    requires
        at < text.len(),
        digit(text@[at as int]),
    ensures
        match r {
            Some((n, v)) => at <= n <= text.len() && number(text@.skip(at as int)) == Some(
                (text@.skip(n as int), v),
            ),
            None => number(text@.skip(at as int)) is None,
        },
{
    let ghost rest = text@.skip(at as int);
    let mut value: u64 = 0;
    let mut n: usize = at;
    while n < text.len() && '0' <= text[n] && text[n] <= '9'
        invariant
            at <= n <= text.len(),
            at < text.len(),
            digit(text@[at as int]),
            rest == text@.skip(at as int),
            value <= u32::MAX,
            digits_value(text@.skip(n as int), value as nat) == digits_value(rest, 0),
            after_digits(text@.skip(n as int)) == after_digits(rest),
        decreases text.len() - n,
    {
        assert(text@.skip(n as int).drop_first() =~= text@.skip(n + 1));
        let c = text[n];
        let d: u64 = (c as u32 - '0' as u32) as u64;
        value = 10 * value + d;
        n = n + 1;
        if value > u32::MAX as u64 {
            proof {
                lemma_digits_grow(text@.skip(n as int), value as nat);
            }
            return None;
        }
    }
    Some((n, value as u32))
}

fn parse_words(
    text: &Vec<char>,
    at: usize,
    words: &Vec<(&'static str, u32)>,
) -> (r: Option<(usize, u32)>)
    requires
        at <= text.len(),
    ensures
        match r {
            Some((n, v)) => at <= n <= text.len() && word_number(
                text@.skip(at as int),
                word_views(words@),
            ) == Some((text@.skip(n as int), v)),
            None => word_number(text@.skip(at as int), word_views(words@)) is None,
        },
{
    let ghost rest = text@.skip(at as int);
    let ghost all = word_views(words@);
    let mut i: usize = 0;
    assert(all.skip(0) =~= all);
    while i < words.len()
        invariant
            i <= words.len(),
            at <= text.len(),
            rest == text@.skip(at as int),
            all == word_views(words@),
            word_number(rest, all.skip(i as int)) == word_number(rest, all),
        decreases words.len() - i,
    {
        assert(all.skip(i as int)[0] == all[i as int]);
        assert(all.skip(i as int).drop_first() =~= all.skip(i + 1));
        if let Some(n) = strip(text, at, words[i].0) {
            return Some((n, words[i].1));
        }
        i = i + 1;
    }
    None
}

pub open spec fn word_views(words: Seq<(&'static str, u32)>) -> Seq<(Seq<char>, u32)> {
    Seq::new(words.len(), |i: int| (words[i].0@, words[i].1))
}

/// Reads a number at a position.
pub fn parse_number(text: &Vec<char>, at: usize) -> (r: Option<(usize, u32)>)
    requires
        at <= text.len(),
    ensures
        match r {
            Some((n, v)) => at <= n <= text.len() && number(text@.skip(at as int)) == Some(
                (text@.skip(n as int), v),
            ),
            None => number(text@.skip(at as int)) is None,
        },
{
    if at < text.len() && '0' <= text[at] && text[at] <= '9' {
        return parse_digits(text, at);
    }
    let words: Vec<(&'static str, u32)> = vec![
        ("seventeen", 17u32), ("fourteen", 14u32), ("thirteen", 13u32), ("eighteen", 18u32),
        ("nineteen", 19u32), ("sixteen", 16u32), ("fifteen", 15u32), ("twelve", 12u32),
        ("eleven", 11u32), ("twenty", 20u32), ("three", 3u32), ("seven", 7u32),
        ("eight", 8u32), ("four", 4u32), ("five", 5u32), ("nine", 9u32), ("zero", 0u32),
        ("one", 1u32), ("two", 2u32), ("six", 6u32), ("ten", 10u32)
    ];
    assert(word_views(words@) =~= number_words());
    parse_words(text, at, &words)
}

} // verus!
