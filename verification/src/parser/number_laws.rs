//! What is read off the beginning of a text: words, and numbers in digits or words.
use vstd::prelude::*;

use crate::parser::primitives;
use crate::text;

verus! {

/// The first `n` characters are not changed by folding ASCII case.
pub open spec fn folded(s: Seq<char>, n: nat) -> bool
    decreases n,
{
    n == 0 || (text::lower_char(s[n - 1]) == s[n - 1] && folded(s, (n - 1) as nat))
}

pub proof fn lemma_folded(s: Seq<char>, n: nat, i: int)
    requires
        folded(s, n),
        0 <= i < n,
    ensures
        text::lower_char(s[i]) == s[i],
    decreases n,
{
    if i < n - 1 {
        lemma_folded(s, (n - 1) as nat, i);
    }
}

/// A text in lower case that begins another one is read off it.
pub proof fn lemma_strip(tag: Seq<char>, rest: Seq<char>)
    requires
        folded(tag, tag.len()),
    ensures
        primitives::stripped(tag + rest, tag) == Some(rest),
        primitives::strip_optional(tag + rest, tag) == rest,
{
    let t = tag + rest;
    assert(t.take(tag.len() as int) =~= tag);
    assert(t.skip(tag.len() as int) =~= rest);
    assert forall|i: int| 0 <= i < tag.len() implies text::lowered(tag)[i] == tag[i] by {
        lemma_folded(tag, tag.len(), i);
    }
    assert(text::lowered(tag) =~= tag);
}

/// A text that differs in one place is not read.
pub proof fn lemma_no_strip(t: Seq<char>, tag: Seq<char>, i: int)
    requires
        0 <= i < tag.len(),
        i < t.len() ==> text::lower_char(t[i]) != tag[i],
    ensures
        primitives::stripped(t, tag) is None,
        primitives::strip_optional(t, tag) == t,
{
    if tag.len() <= t.len() {
        assert(text::lowered(t.take(tag.len() as int))[i] == text::lower_char(t[i]));
    }
}

/// The text is made of digits.
pub open spec fn all_digits(d: Seq<char>) -> bool {
    forall|i: int| 0 <= i < d.len() ==> '0' <= #[trigger] d[i] <= '9'
}

/// The value of a row of digits.
pub open spec fn decimal(d: Seq<char>) -> nat
    decreases d.len(),
{
    if d.len() == 0 {
        0
    } else {
        10 * decimal(d.drop_last()) + (d.last() as u32 - 48) as nat
    }
}

/// The text does not go on with a digit or a letter.
pub open spec fn breaks_off(rest: Seq<char>) -> bool {
    rest.len() > 0 ==> !('0' <= rest[0] <= '9') && !text::ascii_letter(rest[0])
}

proof fn lemma_digits_step(d: Seq<char>, rest: Seq<char>, before: Seq<char>)
    requires
        all_digits(d),
        breaks_off(rest),
    ensures
        primitives::digits_value(d + rest, decimal(before)) == decimal(before + d),
        primitives::after_digits(d + rest) == rest,
    decreases d.len(),
{
    let t = d + rest;
    if d.len() == 0 {
        assert(t =~= rest);
        assert(before + d =~= before);
    } else {
        let d1 = d.drop_first();
        assert(all_digits(d1)) by {
            assert forall|i: int| 0 <= i < d1.len() implies '0' <= #[trigger] d1[i] <= '9' by {
                assert('0' <= d[i + 1] <= '9');
            }
        }
        let b1 = before.push(d[0]);
        assert('0' <= d[0] <= '9');
        assert(t.drop_first() =~= d1 + rest);
        assert(b1.drop_last() =~= before);
        assert(b1 + d1 =~= before + d);
        lemma_digits_step(d1, rest, b1);
        assert(t[0] == d[0]);
    }
}

/// Digits are read as the number that they write.
pub proof fn digits_are_read(d: Seq<char>, rest: Seq<char>)
    requires
        all_digits(d),
        d.len() > 0,
        breaks_off(rest),
    ensures
        decimal(d) <= u32::MAX ==> primitives::number(d + rest) == Some((rest, decimal(d) as u32)),
        decimal(d) > u32::MAX ==> primitives::number(d + rest) is None,
{
    lemma_digits_step(d, rest, Seq::empty());
    assert(Seq::<char>::empty() + d =~= d);
    assert('0' <= d[0] <= '9');
    assert((d + rest)[0] == d[0]);
}

/// The word for a number up to twenty.
pub open spec fn number_word(n: u32) -> Seq<char> {
    match n {
        0 => "zero"@,
        1 => "one"@,
        2 => "two"@,
        3 => "three"@,
        4 => "four"@,
        5 => "five"@,
        6 => "six"@,
        7 => "seven"@,
        8 => "eight"@,
        9 => "nine"@,
        10 => "ten"@,
        11 => "eleven"@,
        12 => "twelve"@,
        13 => "thirteen"@,
        14 => "fourteen"@,
        15 => "fifteen"@,
        16 => "sixteen"@,
        17 => "seventeen"@,
        18 => "eighteen"@,
        19 => "nineteen"@,
        _ => "twenty"@,
    }
}

proof fn lemma_first_word(t: Seq<char>, words: Seq<(Seq<char>, u32)>, k: int)
    requires
        0 <= k < words.len(),
        primitives::stripped(t, words[k].0) is Some,
        forall|j: int| 0 <= j < k ==> primitives::stripped(t, #[trigger] words[j].0) is None,
    ensures
        primitives::word_number(t, words) == Some(
            (primitives::stripped(t, words[k].0)->Some_0, words[k].1),
        ),
    decreases words.len(),
{
    if k > 0 {
        assert(primitives::stripped(t, words[0].0) is None);
        let w1 = words.drop_first();
        assert forall|j: int| 0 <= j < k - 1 implies primitives::stripped(
            t,
            #[trigger] w1[j].0,
        ) is None by {
            assert(primitives::stripped(t, words[j + 1].0) is None);
        }
        assert(w1[k - 1] == words[k]);
        lemma_first_word(t, w1, k - 1);
    }
}

proof fn lemma_word_seventeen(rest: Seq<char>)
    requires
        breaks_off(rest),
    ensures
        primitives::number("seventeen"@ + rest) == Some((rest, 17u32)),
{
    let t = "seventeen"@ + rest;
    reveal_strlit("seventeen");
    reveal_with_fuel(folded, 10);
    lemma_strip("seventeen"@, rest);
    let words = primitives::number_words();
    assert(words[0] == ("seventeen"@, 17u32));
    lemma_first_word(t, words, 0);
    assert(t[0] == 's');
}

proof fn lemma_word_fourteen(rest: Seq<char>)
    requires
        breaks_off(rest),
    ensures
        primitives::number("fourteen"@ + rest) == Some((rest, 14u32)),
{
    let t = "fourteen"@ + rest;
    reveal_strlit("fourteen");
    reveal_with_fuel(folded, 9);
    lemma_strip("fourteen"@, rest);
    reveal_strlit("seventeen");
    assert(t[0] == 'f');
    lemma_no_strip(t, "seventeen"@, 0);
    let words = primitives::number_words();
    assert(words[1] == ("fourteen"@, 14u32));
    lemma_first_word(t, words, 1);
    assert(t[0] == 'f');
}

proof fn lemma_word_thirteen(rest: Seq<char>)
    requires
        breaks_off(rest),
    ensures
        primitives::number("thirteen"@ + rest) == Some((rest, 13u32)),
{
    let t = "thirteen"@ + rest;
    reveal_strlit("thirteen");
    reveal_with_fuel(folded, 9);
    lemma_strip("thirteen"@, rest);
    reveal_strlit("seventeen");
    assert(t[0] == 't');
    lemma_no_strip(t, "seventeen"@, 0);
    reveal_strlit("fourteen");
    assert(t[0] == 't');
    lemma_no_strip(t, "fourteen"@, 0);
    let words = primitives::number_words();
    assert(words[2] == ("thirteen"@, 13u32));
    lemma_first_word(t, words, 2);
    assert(t[0] == 't');
}

proof fn lemma_word_eighteen(rest: Seq<char>)
    requires
        breaks_off(rest),
    ensures
        primitives::number("eighteen"@ + rest) == Some((rest, 18u32)),
{
    let t = "eighteen"@ + rest;
    reveal_strlit("eighteen");
    reveal_with_fuel(folded, 9);
    lemma_strip("eighteen"@, rest);
    reveal_strlit("seventeen");
    assert(t[0] == 'e');
    lemma_no_strip(t, "seventeen"@, 0);
    reveal_strlit("fourteen");
    assert(t[0] == 'e');
    lemma_no_strip(t, "fourteen"@, 0);
    reveal_strlit("thirteen");
    assert(t[0] == 'e');
    lemma_no_strip(t, "thirteen"@, 0);
    let words = primitives::number_words();
    assert(words[3] == ("eighteen"@, 18u32));
    lemma_first_word(t, words, 3);
    assert(t[0] == 'e');
}

proof fn lemma_word_nineteen(rest: Seq<char>)
    requires
        breaks_off(rest),
    ensures
        primitives::number("nineteen"@ + rest) == Some((rest, 19u32)),
{
    let t = "nineteen"@ + rest;
    reveal_strlit("nineteen");
    reveal_with_fuel(folded, 9);
    lemma_strip("nineteen"@, rest);
    reveal_strlit("seventeen");
    assert(t[0] == 'n');
    lemma_no_strip(t, "seventeen"@, 0);
    reveal_strlit("fourteen");
    assert(t[0] == 'n');
    lemma_no_strip(t, "fourteen"@, 0);
    reveal_strlit("thirteen");
    assert(t[0] == 'n');
    lemma_no_strip(t, "thirteen"@, 0);
    reveal_strlit("eighteen");
    assert(t[0] == 'n');
    lemma_no_strip(t, "eighteen"@, 0);
    let words = primitives::number_words();
    assert(words[4] == ("nineteen"@, 19u32));
    lemma_first_word(t, words, 4);
    assert(t[0] == 'n');
}

proof fn lemma_word_sixteen(rest: Seq<char>)
    requires
        breaks_off(rest),
    ensures
        primitives::number("sixteen"@ + rest) == Some((rest, 16u32)),
{
    let t = "sixteen"@ + rest;
    reveal_strlit("sixteen");
    reveal_with_fuel(folded, 8);
    lemma_strip("sixteen"@, rest);
    reveal_strlit("seventeen");
    assert(t[1] == 'i');
    lemma_no_strip(t, "seventeen"@, 1);
    reveal_strlit("fourteen");
    assert(t[0] == 's');
    lemma_no_strip(t, "fourteen"@, 0);
    reveal_strlit("thirteen");
    assert(t[0] == 's');
    lemma_no_strip(t, "thirteen"@, 0);
    reveal_strlit("eighteen");
    assert(t[0] == 's');
    lemma_no_strip(t, "eighteen"@, 0);
    reveal_strlit("nineteen");
    assert(t[0] == 's');
    lemma_no_strip(t, "nineteen"@, 0);
    let words = primitives::number_words();
    assert(words[5] == ("sixteen"@, 16u32));
    lemma_first_word(t, words, 5);
    assert(t[0] == 's');
}

proof fn lemma_word_fifteen(rest: Seq<char>)
    requires
        breaks_off(rest),
    ensures
        primitives::number("fifteen"@ + rest) == Some((rest, 15u32)),
{
    let t = "fifteen"@ + rest;
    reveal_strlit("fifteen");
    reveal_with_fuel(folded, 8);
    lemma_strip("fifteen"@, rest);
    reveal_strlit("seventeen");
    assert(t[0] == 'f');
    lemma_no_strip(t, "seventeen"@, 0);
    reveal_strlit("fourteen");
    assert(t[1] == 'i');
    lemma_no_strip(t, "fourteen"@, 1);
    reveal_strlit("thirteen");
    assert(t[0] == 'f');
    lemma_no_strip(t, "thirteen"@, 0);
    reveal_strlit("eighteen");
    assert(t[0] == 'f');
    lemma_no_strip(t, "eighteen"@, 0);
    reveal_strlit("nineteen");
    assert(t[0] == 'f');
    lemma_no_strip(t, "nineteen"@, 0);
    reveal_strlit("sixteen");
    assert(t[0] == 'f');
    lemma_no_strip(t, "sixteen"@, 0);
    let words = primitives::number_words();
    assert(words[6] == ("fifteen"@, 15u32));
    lemma_first_word(t, words, 6);
    assert(t[0] == 'f');
}

proof fn lemma_word_twelve(rest: Seq<char>)
    requires
        breaks_off(rest),
    ensures
        primitives::number("twelve"@ + rest) == Some((rest, 12u32)),
{
    let t = "twelve"@ + rest;
    reveal_strlit("twelve");
    reveal_with_fuel(folded, 7);
    lemma_strip("twelve"@, rest);
    reveal_strlit("seventeen");
    assert(t[0] == 't');
    lemma_no_strip(t, "seventeen"@, 0);
    reveal_strlit("fourteen");
    assert(t[0] == 't');
    lemma_no_strip(t, "fourteen"@, 0);
    reveal_strlit("thirteen");
    assert(t[1] == 'w');
    lemma_no_strip(t, "thirteen"@, 1);
    reveal_strlit("eighteen");
    assert(t[0] == 't');
    lemma_no_strip(t, "eighteen"@, 0);
    reveal_strlit("nineteen");
    assert(t[0] == 't');
    lemma_no_strip(t, "nineteen"@, 0);
    reveal_strlit("sixteen");
    assert(t[0] == 't');
    lemma_no_strip(t, "sixteen"@, 0);
    reveal_strlit("fifteen");
    assert(t[0] == 't');
    lemma_no_strip(t, "fifteen"@, 0);
    let words = primitives::number_words();
    assert(words[7] == ("twelve"@, 12u32));
    lemma_first_word(t, words, 7);
    assert(t[0] == 't');
}

proof fn lemma_word_eleven(rest: Seq<char>)
    requires
        breaks_off(rest),
    ensures
        primitives::number("eleven"@ + rest) == Some((rest, 11u32)),
{
    let t = "eleven"@ + rest;
    reveal_strlit("eleven");
    reveal_with_fuel(folded, 7);
    lemma_strip("eleven"@, rest);
    reveal_strlit("seventeen");
    assert(t[0] == 'e');
    lemma_no_strip(t, "seventeen"@, 0);
    reveal_strlit("fourteen");
    assert(t[0] == 'e');
    lemma_no_strip(t, "fourteen"@, 0);
    reveal_strlit("thirteen");
    assert(t[0] == 'e');
    lemma_no_strip(t, "thirteen"@, 0);
    reveal_strlit("eighteen");
    assert(t[1] == 'l');
    lemma_no_strip(t, "eighteen"@, 1);
    reveal_strlit("nineteen");
    assert(t[0] == 'e');
    lemma_no_strip(t, "nineteen"@, 0);
    reveal_strlit("sixteen");
    assert(t[0] == 'e');
    lemma_no_strip(t, "sixteen"@, 0);
    reveal_strlit("fifteen");
    assert(t[0] == 'e');
    lemma_no_strip(t, "fifteen"@, 0);
    reveal_strlit("twelve");
    assert(t[0] == 'e');
    lemma_no_strip(t, "twelve"@, 0);
    let words = primitives::number_words();
    assert(words[8] == ("eleven"@, 11u32));
    lemma_first_word(t, words, 8);
    assert(t[0] == 'e');
}

proof fn lemma_word_twenty(rest: Seq<char>)
    requires
        breaks_off(rest),
    ensures
        primitives::number("twenty"@ + rest) == Some((rest, 20u32)),
{
    let t = "twenty"@ + rest;
    reveal_strlit("twenty");
    reveal_with_fuel(folded, 7);
    lemma_strip("twenty"@, rest);
    reveal_strlit("seventeen");
    assert(t[0] == 't');
    lemma_no_strip(t, "seventeen"@, 0);
    reveal_strlit("fourteen");
    assert(t[0] == 't');
    lemma_no_strip(t, "fourteen"@, 0);
    reveal_strlit("thirteen");
    assert(t[1] == 'w');
    lemma_no_strip(t, "thirteen"@, 1);
    reveal_strlit("eighteen");
    assert(t[0] == 't');
    lemma_no_strip(t, "eighteen"@, 0);
    reveal_strlit("nineteen");
    assert(t[0] == 't');
    lemma_no_strip(t, "nineteen"@, 0);
    reveal_strlit("sixteen");
    assert(t[0] == 't');
    lemma_no_strip(t, "sixteen"@, 0);
    reveal_strlit("fifteen");
    assert(t[0] == 't');
    lemma_no_strip(t, "fifteen"@, 0);
    reveal_strlit("twelve");
    assert(t[3] == 'n');
    lemma_no_strip(t, "twelve"@, 3);
    reveal_strlit("eleven");
    assert(t[0] == 't');
    lemma_no_strip(t, "eleven"@, 0);
    let words = primitives::number_words();
    assert(words[9] == ("twenty"@, 20u32));
    lemma_first_word(t, words, 9);
    assert(t[0] == 't');
}

proof fn lemma_word_three(rest: Seq<char>)
    requires
        breaks_off(rest),
    ensures
        primitives::number("three"@ + rest) == Some((rest, 3u32)),
{
    let t = "three"@ + rest;
    reveal_strlit("three");
    reveal_with_fuel(folded, 6);
    lemma_strip("three"@, rest);
    reveal_strlit("seventeen");
    assert(t[0] == 't');
    lemma_no_strip(t, "seventeen"@, 0);
    reveal_strlit("fourteen");
    assert(t[0] == 't');
    lemma_no_strip(t, "fourteen"@, 0);
    reveal_strlit("thirteen");
    assert(t[2] == 'r');
    lemma_no_strip(t, "thirteen"@, 2);
    reveal_strlit("eighteen");
    assert(t[0] == 't');
    lemma_no_strip(t, "eighteen"@, 0);
    reveal_strlit("nineteen");
    assert(t[0] == 't');
    lemma_no_strip(t, "nineteen"@, 0);
    reveal_strlit("sixteen");
    assert(t[0] == 't');
    lemma_no_strip(t, "sixteen"@, 0);
    reveal_strlit("fifteen");
    assert(t[0] == 't');
    lemma_no_strip(t, "fifteen"@, 0);
    reveal_strlit("twelve");
    assert(t[1] == 'h');
    lemma_no_strip(t, "twelve"@, 1);
    reveal_strlit("eleven");
    assert(t[0] == 't');
    lemma_no_strip(t, "eleven"@, 0);
    reveal_strlit("twenty");
    assert(t[1] == 'h');
    lemma_no_strip(t, "twenty"@, 1);
    let words = primitives::number_words();
    assert(words[10] == ("three"@, 3u32));
    lemma_first_word(t, words, 10);
    assert(t[0] == 't');
}

proof fn lemma_word_seven(rest: Seq<char>)
    requires
        breaks_off(rest),
    ensures
        primitives::number("seven"@ + rest) == Some((rest, 7u32)),
{
    let t = "seven"@ + rest;
    reveal_strlit("seven");
    reveal_with_fuel(folded, 6);
    lemma_strip("seven"@, rest);
    reveal_strlit("seventeen");
    assert(rest.len() > 0 ==> t[5] == rest[0]);
    lemma_no_strip(t, "seventeen"@, 5);
    reveal_strlit("fourteen");
    assert(t[0] == 's');
    lemma_no_strip(t, "fourteen"@, 0);
    reveal_strlit("thirteen");
    assert(t[0] == 's');
    lemma_no_strip(t, "thirteen"@, 0);
    reveal_strlit("eighteen");
    assert(t[0] == 's');
    lemma_no_strip(t, "eighteen"@, 0);
    reveal_strlit("nineteen");
    assert(t[0] == 's');
    lemma_no_strip(t, "nineteen"@, 0);
    reveal_strlit("sixteen");
    assert(t[1] == 'e');
    lemma_no_strip(t, "sixteen"@, 1);
    reveal_strlit("fifteen");
    assert(t[0] == 's');
    lemma_no_strip(t, "fifteen"@, 0);
    reveal_strlit("twelve");
    assert(t[0] == 's');
    lemma_no_strip(t, "twelve"@, 0);
    reveal_strlit("eleven");
    assert(t[0] == 's');
    lemma_no_strip(t, "eleven"@, 0);
    reveal_strlit("twenty");
    assert(t[0] == 's');
    lemma_no_strip(t, "twenty"@, 0);
    reveal_strlit("three");
    assert(t[0] == 's');
    lemma_no_strip(t, "three"@, 0);
    let words = primitives::number_words();
    assert(words[11] == ("seven"@, 7u32));
    lemma_first_word(t, words, 11);
    assert(t[0] == 's');
}

proof fn lemma_word_eight(rest: Seq<char>)
    requires
        breaks_off(rest),
    ensures
        primitives::number("eight"@ + rest) == Some((rest, 8u32)),
{
    let t = "eight"@ + rest;
    reveal_strlit("eight");
    reveal_with_fuel(folded, 6);
    lemma_strip("eight"@, rest);
    reveal_strlit("seventeen");
    assert(t[0] == 'e');
    lemma_no_strip(t, "seventeen"@, 0);
    reveal_strlit("fourteen");
    assert(t[0] == 'e');
    lemma_no_strip(t, "fourteen"@, 0);
    reveal_strlit("thirteen");
    assert(t[0] == 'e');
    lemma_no_strip(t, "thirteen"@, 0);
    reveal_strlit("eighteen");
    assert(rest.len() > 0 ==> t[5] == rest[0]);
    lemma_no_strip(t, "eighteen"@, 5);
    reveal_strlit("nineteen");
    assert(t[0] == 'e');
    lemma_no_strip(t, "nineteen"@, 0);
    reveal_strlit("sixteen");
    assert(t[0] == 'e');
    lemma_no_strip(t, "sixteen"@, 0);
    reveal_strlit("fifteen");
    assert(t[0] == 'e');
    lemma_no_strip(t, "fifteen"@, 0);
    reveal_strlit("twelve");
    assert(t[0] == 'e');
    lemma_no_strip(t, "twelve"@, 0);
    reveal_strlit("eleven");
    assert(t[1] == 'i');
    lemma_no_strip(t, "eleven"@, 1);
    reveal_strlit("twenty");
    assert(t[0] == 'e');
    lemma_no_strip(t, "twenty"@, 0);
    reveal_strlit("three");
    assert(t[0] == 'e');
    lemma_no_strip(t, "three"@, 0);
    reveal_strlit("seven");
    assert(t[0] == 'e');
    lemma_no_strip(t, "seven"@, 0);
    let words = primitives::number_words();
    assert(words[12] == ("eight"@, 8u32));
    lemma_first_word(t, words, 12);
    assert(t[0] == 'e');
}

proof fn lemma_word_four(rest: Seq<char>)
    requires
        breaks_off(rest),
    ensures
        primitives::number("four"@ + rest) == Some((rest, 4u32)),
{
    let t = "four"@ + rest;
    reveal_strlit("four");
    reveal_with_fuel(folded, 5);
    lemma_strip("four"@, rest);
    reveal_strlit("seventeen");
    assert(t[0] == 'f');
    lemma_no_strip(t, "seventeen"@, 0);
    reveal_strlit("fourteen");
    assert(rest.len() > 0 ==> t[4] == rest[0]);
    lemma_no_strip(t, "fourteen"@, 4);
    reveal_strlit("thirteen");
    assert(t[0] == 'f');
    lemma_no_strip(t, "thirteen"@, 0);
    reveal_strlit("eighteen");
    assert(t[0] == 'f');
    lemma_no_strip(t, "eighteen"@, 0);
    reveal_strlit("nineteen");
    assert(t[0] == 'f');
    lemma_no_strip(t, "nineteen"@, 0);
    reveal_strlit("sixteen");
    assert(t[0] == 'f');
    lemma_no_strip(t, "sixteen"@, 0);
    reveal_strlit("fifteen");
    assert(t[1] == 'o');
    lemma_no_strip(t, "fifteen"@, 1);
    reveal_strlit("twelve");
    assert(t[0] == 'f');
    lemma_no_strip(t, "twelve"@, 0);
    reveal_strlit("eleven");
    assert(t[0] == 'f');
    lemma_no_strip(t, "eleven"@, 0);
    reveal_strlit("twenty");
    assert(t[0] == 'f');
    lemma_no_strip(t, "twenty"@, 0);
    reveal_strlit("three");
    assert(t[0] == 'f');
    lemma_no_strip(t, "three"@, 0);
    reveal_strlit("seven");
    assert(t[0] == 'f');
    lemma_no_strip(t, "seven"@, 0);
    reveal_strlit("eight");
    assert(t[0] == 'f');
    lemma_no_strip(t, "eight"@, 0);
    let words = primitives::number_words();
    assert(words[13] == ("four"@, 4u32));
    lemma_first_word(t, words, 13);
    assert(t[0] == 'f');
}

proof fn lemma_word_five(rest: Seq<char>)
    requires
        breaks_off(rest),
    ensures
        primitives::number("five"@ + rest) == Some((rest, 5u32)),
{
    let t = "five"@ + rest;
    reveal_strlit("five");
    reveal_with_fuel(folded, 5);
    lemma_strip("five"@, rest);
    reveal_strlit("seventeen");
    assert(t[0] == 'f');
    lemma_no_strip(t, "seventeen"@, 0);
    reveal_strlit("fourteen");
    assert(t[1] == 'i');
    lemma_no_strip(t, "fourteen"@, 1);
    reveal_strlit("thirteen");
    assert(t[0] == 'f');
    lemma_no_strip(t, "thirteen"@, 0);
    reveal_strlit("eighteen");
    assert(t[0] == 'f');
    lemma_no_strip(t, "eighteen"@, 0);
    reveal_strlit("nineteen");
    assert(t[0] == 'f');
    lemma_no_strip(t, "nineteen"@, 0);
    reveal_strlit("sixteen");
    assert(t[0] == 'f');
    lemma_no_strip(t, "sixteen"@, 0);
    reveal_strlit("fifteen");
    assert(t[2] == 'v');
    lemma_no_strip(t, "fifteen"@, 2);
    reveal_strlit("twelve");
    assert(t[0] == 'f');
    lemma_no_strip(t, "twelve"@, 0);
    reveal_strlit("eleven");
    assert(t[0] == 'f');
    lemma_no_strip(t, "eleven"@, 0);
    reveal_strlit("twenty");
    assert(t[0] == 'f');
    lemma_no_strip(t, "twenty"@, 0);
    reveal_strlit("three");
    assert(t[0] == 'f');
    lemma_no_strip(t, "three"@, 0);
    reveal_strlit("seven");
    assert(t[0] == 'f');
    lemma_no_strip(t, "seven"@, 0);
    reveal_strlit("eight");
    assert(t[0] == 'f');
    lemma_no_strip(t, "eight"@, 0);
    reveal_strlit("four");
    assert(t[1] == 'i');
    lemma_no_strip(t, "four"@, 1);
    let words = primitives::number_words();
    assert(words[14] == ("five"@, 5u32));
    lemma_first_word(t, words, 14);
    assert(t[0] == 'f');
}

proof fn lemma_word_nine(rest: Seq<char>)
    requires
        breaks_off(rest),
    ensures
        primitives::number("nine"@ + rest) == Some((rest, 9u32)),
{
    let t = "nine"@ + rest;
    reveal_strlit("nine");
    reveal_with_fuel(folded, 5);
    lemma_strip("nine"@, rest);
    reveal_strlit("seventeen");
    assert(t[0] == 'n');
    lemma_no_strip(t, "seventeen"@, 0);
    reveal_strlit("fourteen");
    assert(t[0] == 'n');
    lemma_no_strip(t, "fourteen"@, 0);
    reveal_strlit("thirteen");
    assert(t[0] == 'n');
    lemma_no_strip(t, "thirteen"@, 0);
    reveal_strlit("eighteen");
    assert(t[0] == 'n');
    lemma_no_strip(t, "eighteen"@, 0);
    reveal_strlit("nineteen");
    assert(rest.len() > 0 ==> t[4] == rest[0]);
    lemma_no_strip(t, "nineteen"@, 4);
    reveal_strlit("sixteen");
    assert(t[0] == 'n');
    lemma_no_strip(t, "sixteen"@, 0);
    reveal_strlit("fifteen");
    assert(t[0] == 'n');
    lemma_no_strip(t, "fifteen"@, 0);
    reveal_strlit("twelve");
    assert(t[0] == 'n');
    lemma_no_strip(t, "twelve"@, 0);
    reveal_strlit("eleven");
    assert(t[0] == 'n');
    lemma_no_strip(t, "eleven"@, 0);
    reveal_strlit("twenty");
    assert(t[0] == 'n');
    lemma_no_strip(t, "twenty"@, 0);
    reveal_strlit("three");
    assert(t[0] == 'n');
    lemma_no_strip(t, "three"@, 0);
    reveal_strlit("seven");
    assert(t[0] == 'n');
    lemma_no_strip(t, "seven"@, 0);
    reveal_strlit("eight");
    assert(t[0] == 'n');
    lemma_no_strip(t, "eight"@, 0);
    reveal_strlit("four");
    assert(t[0] == 'n');
    lemma_no_strip(t, "four"@, 0);
    reveal_strlit("five");
    assert(t[0] == 'n');
    lemma_no_strip(t, "five"@, 0);
    let words = primitives::number_words();
    assert(words[15] == ("nine"@, 9u32));
    lemma_first_word(t, words, 15);
    assert(t[0] == 'n');
}

proof fn lemma_word_zero(rest: Seq<char>)
    requires
        breaks_off(rest),
    ensures
        primitives::number("zero"@ + rest) == Some((rest, 0u32)),
{
    let t = "zero"@ + rest;
    reveal_strlit("zero");
    reveal_with_fuel(folded, 5);
    lemma_strip("zero"@, rest);
    reveal_strlit("seventeen");
    assert(t[0] == 'z');
    lemma_no_strip(t, "seventeen"@, 0);
    reveal_strlit("fourteen");
    assert(t[0] == 'z');
    lemma_no_strip(t, "fourteen"@, 0);
    reveal_strlit("thirteen");
    assert(t[0] == 'z');
    lemma_no_strip(t, "thirteen"@, 0);
    reveal_strlit("eighteen");
    assert(t[0] == 'z');
    lemma_no_strip(t, "eighteen"@, 0);
    reveal_strlit("nineteen");
    assert(t[0] == 'z');
    lemma_no_strip(t, "nineteen"@, 0);
    reveal_strlit("sixteen");
    assert(t[0] == 'z');
    lemma_no_strip(t, "sixteen"@, 0);
    reveal_strlit("fifteen");
    assert(t[0] == 'z');
    lemma_no_strip(t, "fifteen"@, 0);
    reveal_strlit("twelve");
    assert(t[0] == 'z');
    lemma_no_strip(t, "twelve"@, 0);
    reveal_strlit("eleven");
    assert(t[0] == 'z');
    lemma_no_strip(t, "eleven"@, 0);
    reveal_strlit("twenty");
    assert(t[0] == 'z');
    lemma_no_strip(t, "twenty"@, 0);
    reveal_strlit("three");
    assert(t[0] == 'z');
    lemma_no_strip(t, "three"@, 0);
    reveal_strlit("seven");
    assert(t[0] == 'z');
    lemma_no_strip(t, "seven"@, 0);
    reveal_strlit("eight");
    assert(t[0] == 'z');
    lemma_no_strip(t, "eight"@, 0);
    reveal_strlit("four");
    assert(t[0] == 'z');
    lemma_no_strip(t, "four"@, 0);
    reveal_strlit("five");
    assert(t[0] == 'z');
    lemma_no_strip(t, "five"@, 0);
    reveal_strlit("nine");
    assert(t[0] == 'z');
    lemma_no_strip(t, "nine"@, 0);
    let words = primitives::number_words();
    assert(words[16] == ("zero"@, 0u32));
    lemma_first_word(t, words, 16);
    assert(t[0] == 'z');
}

proof fn lemma_word_one(rest: Seq<char>)
    requires
        breaks_off(rest),
    ensures
        primitives::number("one"@ + rest) == Some((rest, 1u32)),
{
    let t = "one"@ + rest;
    reveal_strlit("one");
    reveal_with_fuel(folded, 4);
    lemma_strip("one"@, rest);
    reveal_strlit("seventeen");
    assert(t[0] == 'o');
    lemma_no_strip(t, "seventeen"@, 0);
    reveal_strlit("fourteen");
    assert(t[0] == 'o');
    lemma_no_strip(t, "fourteen"@, 0);
    reveal_strlit("thirteen");
    assert(t[0] == 'o');
    lemma_no_strip(t, "thirteen"@, 0);
    reveal_strlit("eighteen");
    assert(t[0] == 'o');
    lemma_no_strip(t, "eighteen"@, 0);
    reveal_strlit("nineteen");
    assert(t[0] == 'o');
    lemma_no_strip(t, "nineteen"@, 0);
    reveal_strlit("sixteen");
    assert(t[0] == 'o');
    lemma_no_strip(t, "sixteen"@, 0);
    reveal_strlit("fifteen");
    assert(t[0] == 'o');
    lemma_no_strip(t, "fifteen"@, 0);
    reveal_strlit("twelve");
    assert(t[0] == 'o');
    lemma_no_strip(t, "twelve"@, 0);
    reveal_strlit("eleven");
    assert(t[0] == 'o');
    lemma_no_strip(t, "eleven"@, 0);
    reveal_strlit("twenty");
    assert(t[0] == 'o');
    lemma_no_strip(t, "twenty"@, 0);
    reveal_strlit("three");
    assert(t[0] == 'o');
    lemma_no_strip(t, "three"@, 0);
    reveal_strlit("seven");
    assert(t[0] == 'o');
    lemma_no_strip(t, "seven"@, 0);
    reveal_strlit("eight");
    assert(t[0] == 'o');
    lemma_no_strip(t, "eight"@, 0);
    reveal_strlit("four");
    assert(t[0] == 'o');
    lemma_no_strip(t, "four"@, 0);
    reveal_strlit("five");
    assert(t[0] == 'o');
    lemma_no_strip(t, "five"@, 0);
    reveal_strlit("nine");
    assert(t[0] == 'o');
    lemma_no_strip(t, "nine"@, 0);
    reveal_strlit("zero");
    assert(t[0] == 'o');
    lemma_no_strip(t, "zero"@, 0);
    let words = primitives::number_words();
    assert(words[17] == ("one"@, 1u32));
    lemma_first_word(t, words, 17);
    assert(t[0] == 'o');
}

proof fn lemma_word_two(rest: Seq<char>)
    requires
        breaks_off(rest),
    ensures
        primitives::number("two"@ + rest) == Some((rest, 2u32)),
{
    let t = "two"@ + rest;
    reveal_strlit("two");
    reveal_with_fuel(folded, 4);
    lemma_strip("two"@, rest);
    reveal_strlit("seventeen");
    assert(t[0] == 't');
    lemma_no_strip(t, "seventeen"@, 0);
    reveal_strlit("fourteen");
    assert(t[0] == 't');
    lemma_no_strip(t, "fourteen"@, 0);
    reveal_strlit("thirteen");
    assert(t[1] == 'w');
    lemma_no_strip(t, "thirteen"@, 1);
    reveal_strlit("eighteen");
    assert(t[0] == 't');
    lemma_no_strip(t, "eighteen"@, 0);
    reveal_strlit("nineteen");
    assert(t[0] == 't');
    lemma_no_strip(t, "nineteen"@, 0);
    reveal_strlit("sixteen");
    assert(t[0] == 't');
    lemma_no_strip(t, "sixteen"@, 0);
    reveal_strlit("fifteen");
    assert(t[0] == 't');
    lemma_no_strip(t, "fifteen"@, 0);
    reveal_strlit("twelve");
    assert(t[2] == 'o');
    lemma_no_strip(t, "twelve"@, 2);
    reveal_strlit("eleven");
    assert(t[0] == 't');
    lemma_no_strip(t, "eleven"@, 0);
    reveal_strlit("twenty");
    assert(t[2] == 'o');
    lemma_no_strip(t, "twenty"@, 2);
    reveal_strlit("three");
    assert(t[1] == 'w');
    lemma_no_strip(t, "three"@, 1);
    reveal_strlit("seven");
    assert(t[0] == 't');
    lemma_no_strip(t, "seven"@, 0);
    reveal_strlit("eight");
    assert(t[0] == 't');
    lemma_no_strip(t, "eight"@, 0);
    reveal_strlit("four");
    assert(t[0] == 't');
    lemma_no_strip(t, "four"@, 0);
    reveal_strlit("five");
    assert(t[0] == 't');
    lemma_no_strip(t, "five"@, 0);
    reveal_strlit("nine");
    assert(t[0] == 't');
    lemma_no_strip(t, "nine"@, 0);
    reveal_strlit("zero");
    assert(t[0] == 't');
    lemma_no_strip(t, "zero"@, 0);
    reveal_strlit("one");
    assert(t[0] == 't');
    lemma_no_strip(t, "one"@, 0);
    let words = primitives::number_words();
    assert(words[18] == ("two"@, 2u32));
    lemma_first_word(t, words, 18);
    assert(t[0] == 't');
}

proof fn lemma_word_six(rest: Seq<char>)
    requires
        breaks_off(rest),
    ensures
        primitives::number("six"@ + rest) == Some((rest, 6u32)),
{
    let t = "six"@ + rest;
    reveal_strlit("six");
    reveal_with_fuel(folded, 4);
    lemma_strip("six"@, rest);
    reveal_strlit("seventeen");
    assert(t[1] == 'i');
    lemma_no_strip(t, "seventeen"@, 1);
    reveal_strlit("fourteen");
    assert(t[0] == 's');
    lemma_no_strip(t, "fourteen"@, 0);
    reveal_strlit("thirteen");
    assert(t[0] == 's');
    lemma_no_strip(t, "thirteen"@, 0);
    reveal_strlit("eighteen");
    assert(t[0] == 's');
    lemma_no_strip(t, "eighteen"@, 0);
    reveal_strlit("nineteen");
    assert(t[0] == 's');
    lemma_no_strip(t, "nineteen"@, 0);
    reveal_strlit("sixteen");
    assert(rest.len() > 0 ==> t[3] == rest[0]);
    lemma_no_strip(t, "sixteen"@, 3);
    reveal_strlit("fifteen");
    assert(t[0] == 's');
    lemma_no_strip(t, "fifteen"@, 0);
    reveal_strlit("twelve");
    assert(t[0] == 's');
    lemma_no_strip(t, "twelve"@, 0);
    reveal_strlit("eleven");
    assert(t[0] == 's');
    lemma_no_strip(t, "eleven"@, 0);
    reveal_strlit("twenty");
    assert(t[0] == 's');
    lemma_no_strip(t, "twenty"@, 0);
    reveal_strlit("three");
    assert(t[0] == 's');
    lemma_no_strip(t, "three"@, 0);
    reveal_strlit("seven");
    assert(t[1] == 'i');
    lemma_no_strip(t, "seven"@, 1);
    reveal_strlit("eight");
    assert(t[0] == 's');
    lemma_no_strip(t, "eight"@, 0);
    reveal_strlit("four");
    assert(t[0] == 's');
    lemma_no_strip(t, "four"@, 0);
    reveal_strlit("five");
    assert(t[0] == 's');
    lemma_no_strip(t, "five"@, 0);
    reveal_strlit("nine");
    assert(t[0] == 's');
    lemma_no_strip(t, "nine"@, 0);
    reveal_strlit("zero");
    assert(t[0] == 's');
    lemma_no_strip(t, "zero"@, 0);
    reveal_strlit("one");
    assert(t[0] == 's');
    lemma_no_strip(t, "one"@, 0);
    reveal_strlit("two");
    assert(t[0] == 's');
    lemma_no_strip(t, "two"@, 0);
    let words = primitives::number_words();
    assert(words[19] == ("six"@, 6u32));
    lemma_first_word(t, words, 19);
    assert(t[0] == 's');
}

proof fn lemma_word_ten(rest: Seq<char>)
    requires
        breaks_off(rest),
    ensures
        primitives::number("ten"@ + rest) == Some((rest, 10u32)),
{
    let t = "ten"@ + rest;
    reveal_strlit("ten");
    reveal_with_fuel(folded, 4);
    lemma_strip("ten"@, rest);
    reveal_strlit("seventeen");
    assert(t[0] == 't');
    lemma_no_strip(t, "seventeen"@, 0);
    reveal_strlit("fourteen");
    assert(t[0] == 't');
    lemma_no_strip(t, "fourteen"@, 0);
    reveal_strlit("thirteen");
    assert(t[1] == 'e');
    lemma_no_strip(t, "thirteen"@, 1);
    reveal_strlit("eighteen");
    assert(t[0] == 't');
    lemma_no_strip(t, "eighteen"@, 0);
    reveal_strlit("nineteen");
    assert(t[0] == 't');
    lemma_no_strip(t, "nineteen"@, 0);
    reveal_strlit("sixteen");
    assert(t[0] == 't');
    lemma_no_strip(t, "sixteen"@, 0);
    reveal_strlit("fifteen");
    assert(t[0] == 't');
    lemma_no_strip(t, "fifteen"@, 0);
    reveal_strlit("twelve");
    assert(t[1] == 'e');
    lemma_no_strip(t, "twelve"@, 1);
    reveal_strlit("eleven");
    assert(t[0] == 't');
    lemma_no_strip(t, "eleven"@, 0);
    reveal_strlit("twenty");
    assert(t[1] == 'e');
    lemma_no_strip(t, "twenty"@, 1);
    reveal_strlit("three");
    assert(t[1] == 'e');
    lemma_no_strip(t, "three"@, 1);
    reveal_strlit("seven");
    assert(t[0] == 't');
    lemma_no_strip(t, "seven"@, 0);
    reveal_strlit("eight");
    assert(t[0] == 't');
    lemma_no_strip(t, "eight"@, 0);
    reveal_strlit("four");
    assert(t[0] == 't');
    lemma_no_strip(t, "four"@, 0);
    reveal_strlit("five");
    assert(t[0] == 't');
    lemma_no_strip(t, "five"@, 0);
    reveal_strlit("nine");
    assert(t[0] == 't');
    lemma_no_strip(t, "nine"@, 0);
    reveal_strlit("zero");
    assert(t[0] == 't');
    lemma_no_strip(t, "zero"@, 0);
    reveal_strlit("one");
    assert(t[0] == 't');
    lemma_no_strip(t, "one"@, 0);
    reveal_strlit("two");
    assert(t[1] == 'e');
    lemma_no_strip(t, "two"@, 1);
    reveal_strlit("six");
    assert(t[0] == 't');
    lemma_no_strip(t, "six"@, 0);
    let words = primitives::number_words();
    assert(words[20] == ("ten"@, 10u32));
    lemma_first_word(t, words, 20);
    assert(t[0] == 't');
}

/// A number word is read as its number.
pub proof fn number_words_are_read(n: u32, rest: Seq<char>)
    requires
        n <= 20,
        breaks_off(rest),
    ensures
        primitives::number(number_word(n) + rest) == Some((rest, n)),
{
    match n {
        0 => {
            lemma_word_zero(rest);
        },
        1 => {
            lemma_word_one(rest);
        },
        2 => {
            lemma_word_two(rest);
        },
        3 => {
            lemma_word_three(rest);
        },
        4 => {
            lemma_word_four(rest);
        },
        5 => {
            lemma_word_five(rest);
        },
        6 => {
            lemma_word_six(rest);
        },
        7 => {
            lemma_word_seven(rest);
        },
        8 => {
            lemma_word_eight(rest);
        },
        9 => {
            lemma_word_nine(rest);
        },
        10 => {
            lemma_word_ten(rest);
        },
        11 => {
            lemma_word_eleven(rest);
        },
        12 => {
            lemma_word_twelve(rest);
        },
        13 => {
            lemma_word_thirteen(rest);
        },
        14 => {
            lemma_word_fourteen(rest);
        },
        15 => {
            lemma_word_fifteen(rest);
        },
        16 => {
            lemma_word_sixteen(rest);
        },
        17 => {
            lemma_word_seventeen(rest);
        },
        18 => {
            lemma_word_eighteen(rest);
        },
        19 => {
            lemma_word_nineteen(rest);
        },
        _ => {
            lemma_word_twenty(rest);
        },
    }
}

/// How a number is written.
pub enum Written {
    Digits(Seq<char>),
    Word(u32),
}

impl Written {
    /// The number is written in digits that fit, or as a word that there is.
    pub open spec fn valid(self) -> bool {
        match self {
            Written::Digits(d) => all_digits(d) && d.len() > 0 && decimal(d) <= u32::MAX,
            Written::Word(n) => n <= 20,
        }
    }

    pub open spec fn value(self) -> u32 {
        match self {
            Written::Digits(d) => decimal(d) as u32,
            Written::Word(n) => n,
        }
    }

    pub open spec fn text(self) -> Seq<char> {
        match self {
            Written::Digits(d) => d,
            Written::Word(n) => number_word(n),
        }
    }
}

/// A written number is read as the number.
pub proof fn written_numbers_are_read(n: Written, rest: Seq<char>)
    requires
        n.valid(),
        breaks_off(rest),
    ensures
        primitives::number(n.text() + rest) == Some((rest, n.value())),
        (n.text() + rest).len() > 0,
        n.text().len() > 0,
        n.text()[0] != 'a',
        n.text()[0] != 'A',
{
    match n {
        Written::Digits(d) => {
            digits_are_read(d, rest);
            assert('0' <= d[0] <= '9');
        },
        Written::Word(v) => {
            number_words_are_read(v, rest);
            reveal_strlit("zero");
            reveal_strlit("one");
            reveal_strlit("two");
            reveal_strlit("three");
            reveal_strlit("four");
            reveal_strlit("five");
            reveal_strlit("six");
            reveal_strlit("seven");
            reveal_strlit("eight");
            reveal_strlit("nine");
            reveal_strlit("ten");
            reveal_strlit("eleven");
            reveal_strlit("twelve");
            reveal_strlit("thirteen");
            reveal_strlit("fourteen");
            reveal_strlit("fifteen");
            reveal_strlit("sixteen");
            reveal_strlit("seventeen");
            reveal_strlit("eighteen");
            reveal_strlit("nineteen");
            reveal_strlit("twenty");
        },
    }
}

} // verus!
