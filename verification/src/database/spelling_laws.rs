//! What spellings of subtypes and type lines are, letter by letter.
use std::cmp::Ordering;
use vstd::prelude::*;

use crate::database::mtgjson::AtomicCard;
use crate::database::noncreature_subtypes;
use crate::database::subtype_vocab;
use crate::database::vocab_laws;
use crate::database::word_list;
use crate::database::word_list::WordOrder;
use crate::order::key;
use crate::order::key::Key;
use crate::order::natural;
use crate::order::stable_ord;
use crate::text;

verus! {

broadcast use {key::key_cmp_numbers, key::key_cmp_lists};

/// White space by its code point.
pub open spec fn blank(c: char) -> bool {
    let n = c as int;
    ||| 9 <= n <= 13
    ||| n == 32
    ||| n == 0x85
    ||| n == 0xa0
    ||| n == 0x1680
    ||| 0x2000 <= n <= 0x200a
    ||| n == 0x2028
    ||| n == 0x2029
    ||| n == 0x202f
    ||| n == 0x205f
    ||| n == 0x3000
}

pub open spec fn all_blank(s: Seq<char>) -> bool {
    forall|i: int| 0 <= i < s.len() ==> blank(#[trigger] s[i])
}

/// The text neither begins nor ends with white space.
pub open spec fn tight(s: Seq<char>) -> bool {
    s.len() > 0 ==> !blank(s[0]) && !blank(s[s.len() - 1])
}

proof fn lemma_blank(c: char)
    ensures
        text::whitespace(c) == blank(c),
{
}

proof fn lemma_trim_start(pad: Seq<char>, s: Seq<char>)
    requires
        all_blank(pad),
        s.len() > 0 ==> !blank(s[0]),
    ensures
        text::trimmed_start(pad + s) == s,
    decreases pad.len(),
{
    if pad.len() == 0 {
        assert(pad + s =~= s);
        if s.len() > 0 {
            lemma_blank(s[0]);
        }
    } else {
        assert(blank(pad[0]));
        lemma_blank(pad[0]);
        let rest = pad.drop_first();
        assert((pad + s).drop_first() =~= rest + s);
        assert forall|i: int| 0 <= i < rest.len() implies blank(#[trigger] rest[i]) by {
            assert(blank(pad[i + 1]));
        }
        lemma_trim_start(rest, s);
    }
}

proof fn lemma_trim_end(s: Seq<char>, pad: Seq<char>)
    requires
        all_blank(pad),
        s.len() > 0 ==> !blank(s[s.len() - 1]),
    ensures
        text::trimmed_end(s + pad) == s,
    decreases pad.len(),
{
    if pad.len() == 0 {
        assert(s + pad =~= s);
        if s.len() > 0 {
            lemma_blank(s.last());
        }
    } else {
        assert(blank(pad[pad.len() - 1]));
        lemma_blank(pad.last());
        let rest = pad.drop_last();
        assert((s + pad).drop_last() =~= s + rest);
        assert forall|i: int| 0 <= i < rest.len() implies blank(#[trigger] rest[i]) by {
            assert(blank(pad[i]));
        }
        lemma_trim_end(s, rest);
    }
}

/// Trimming takes away the white space around a text and nothing else.
pub proof fn trimming_takes_the_blanks(before: Seq<char>, core: Seq<char>, after: Seq<char>)
    requires
        all_blank(before),
        tight(core),
        all_blank(after),
    ensures
        text::trimmed(before + core + after) == core,
{
    let all = before + core + after;
    if core.len() == 0 {
        let pad = before + after;
        let none = Seq::<char>::empty();
        assert(all =~= pad + none);
        assert forall|i: int| 0 <= i < pad.len() implies blank(#[trigger] pad[i]) by {
            if i < before.len() {
                assert(blank(before[i]));
            } else {
                assert(blank(after[i - before.len()]));
            }
        }
        lemma_trim_start(pad, none);
        assert(core =~= none);
        assert(none + none =~= none);
        lemma_trim_end(none, none);
    } else {
        assert(all =~= before + (core + after));
        lemma_trim_start(before, core + after);
        lemma_trim_end(core, after);
    }
}

/// An upper case letter of ASCII, by its code point.
pub open spec fn capital(c: char) -> bool {
    65 <= c as int <= 90
}

/// A letter of ASCII, a space, a hyphen or an apostrophe, by its code point.
pub open spec fn name_char(c: char) -> bool {
    let n = c as int;
    65 <= n <= 90 || 97 <= n <= 122 || n == 32 || n == 45 || n == 39
}

/// A text can name a subtype exactly if what is left without the white space around it has at most
/// 48 characters, begins with a capital, goes on with letters, spaces, hyphens and apostrophes, and
/// is none of the words that card data is known to hold by mistake.
pub proof fn what_can_name_a_subtype(before: Seq<char>, core: Seq<char>, after: Seq<char>)
    requires
        all_blank(before),
        tight(core),
        all_blank(after),
    ensures
        subtype_vocab::valid_spelling(before + core + after) <==> {
            &&& 1 <= core.len() <= 48
            &&& capital(core[0])
            &&& forall|i: int| 1 <= i < core.len() ==> name_char(#[trigger] core[i])
            &&& core != "The"@
            &&& core != "You"@
            &&& core != "and"@
            &&& core != "or"@
            &&& core != "and/or"@
            &&& core != "of"@
            &&& core != "Baddest,"@
            &&& core != "Elemental?"@
        },
{
    trimming_takes_the_blanks(before, core, after);
    assert forall|c: char| subtype_vocab::subtype_char(c) == #[trigger] name_char(c) by {
    }
    if core.len() > 0 {
        assert(text::ascii_upper(core[0]) == capital(core[0]));
    }
    if subtype_vocab::valid_spelling(before + core + after) {
        assert forall|i: int| 1 <= i < core.len() implies name_char(#[trigger] core[i]) by {
            assert(subtype_vocab::subtype_char(core[i]));
        }
    }
}

/// No em dash in the text.
pub open spec fn no_dash(s: Seq<char>) -> bool {
    forall|i: int| 0 <= i < s.len() ==> (#[trigger] s[i]) as int != 0x2014
}

proof fn lemma_next(s: Seq<char>, c: char, from: int, at: int)
    requires
        0 <= from <= at <= s.len(),
        forall|i: int| from <= i < at ==> #[trigger] s[i] != c,
        at < s.len() ==> s[at] == c,
    ensures
        subtype_vocab::next_index(s, c, from) == at,
    decreases at - from,
{
    if from < at {
        assert(s[from] != c);
        lemma_next(s, c, from + 1, at);
    }
}

/// A type line without an em dash has no subtype section.
pub proof fn lines_without_dash_have_no_section(line: Seq<char>)
    requires
        no_dash(line),
    ensures
        subtype_vocab::subtype_section(line) is None,
{
    assert forall|i: int| 0 <= i < line.len() implies #[trigger] line[i] != '—' by {
        assert(line[i] as int != 0x2014);
    }
    lemma_next(line, '—', 0, line.len() as int);
}

/// A type line that has an em dash: what is before it, the section, and what comes from a second em
/// dash on, if there is one.
pub open spec fn type_line(
    types: Seq<char>,
    before: Seq<char>,
    core: Seq<char>,
    after: Seq<char>,
    rest: Seq<char>,
) -> Seq<char> {
    types + seq!['—'] + (before + core + after) + rest
}

/// The parts make up a type line.
pub open spec fn line_parts(
    types: Seq<char>,
    before: Seq<char>,
    core: Seq<char>,
    after: Seq<char>,
    rest: Seq<char>,
) -> bool {
    &&& no_dash(types)
    &&& all_blank(before)
    &&& tight(core)
    &&& no_dash(core)
    &&& all_blank(after)
    &&& rest.len() > 0 ==> rest[0] as int == 0x2014
}

/// The subtype section is what stands between the first em dash and the second one, or the end,
/// without the white space around it; there is none if nothing stands there.
pub proof fn the_section_is_between_the_dashes(
    types: Seq<char>,
    before: Seq<char>,
    core: Seq<char>,
    after: Seq<char>,
    rest: Seq<char>,
)
    requires
        line_parts(types, before, core, after, rest),
    ensures
        subtype_vocab::subtype_section(type_line(types, before, core, after, rest))
            == if core.len() > 0 {
            Some(core)
        } else {
            None
        },
{
    let line = type_line(types, before, core, after, rest);
    let middle = before + core + after;
    let dash = types.len() as int;
    let end = dash + 1 + middle.len();
    assert(line[dash] == '—');
    assert forall|i: int| 0 <= i < dash implies #[trigger] line[i] != '—' by {
        assert(line[i] == types[i]);
        assert(types[i] as int != 0x2014);
    }
    lemma_next(line, '—', 0, dash);
    assert forall|i: int| dash + 1 <= i < end implies #[trigger] line[i] != '—' by {
        let k = i - dash - 1;
        assert(line[i] == middle[k]);
        if k < before.len() {
            assert(blank(before[k]));
        } else if k < before.len() + core.len() {
            assert(core[k - before.len()] as int != 0x2014);
        } else {
            assert(blank(after[k - before.len() - core.len()]));
        }
    }
    if rest.len() > 0 {
        assert(line[end] == rest[0]);
    }
    lemma_next(line, '—', dash + 1, end);
    assert(line.subrange(dash + 1, end) =~= middle);
    trimming_takes_the_blanks(before, core, after);
}

/// The same letter of ASCII in either case, or the same character.
pub open spec fn same_letter(a: char, b: char) -> bool {
    ||| a == b
    ||| capital(a) && b as int == a as int + 32
    ||| capital(b) && a as int == b as int + 32
}

/// Folding case makes two characters equal exactly if they are the same letter.
pub proof fn folding_joins_the_cases_of_a_letter(a: char, b: char)
    ensures
        text::lower_char(a) == text::lower_char(b) <==> same_letter(a, b),
{
}

/// The word stands in the text from a place on, in whatever case.
pub open spec fn stands_in(s: Seq<char>, word: Seq<char>, at: int) -> bool {
    &&& 0 <= at
    &&& at + word.len() <= s.len()
    &&& forall|i: int| 0 <= i < word.len() ==> same_letter(#[trigger] word[i], s[at + i])
}

/// A type line confirms a subtype exactly if the subtype stands somewhere in its subtype section, in
/// whatever case.
pub proof fn what_a_type_line_confirms(
    types: Seq<char>,
    before: Seq<char>,
    core: Seq<char>,
    after: Seq<char>,
    rest: Seq<char>,
    subtype: Seq<char>,
)
    requires
        line_parts(types, before, core, after, rest),
    ensures
        subtype_vocab::corroborated(type_line(types, before, core, after, rest), subtype) <==> {
            &&& core.len() > 0
            &&& exists|at: int| stands_in(core, subtype, at)
        },
{
    the_section_is_between_the_dashes(types, before, core, after, rest);
    let hay = text::lowered(core);
    let needle = text::lowered(subtype);
    assert forall|at: int| #[trigger] stands_in(core, subtype, at) == text::occurs_at(
        hay,
        needle,
        at,
    ) by {
        if 0 <= at && at + subtype.len() <= core.len() {
            let part = hay.subrange(at, at + needle.len());
            assert(forall|i: int|
                0 <= i < subtype.len() ==> needle[i] == text::lower_char(#[trigger] subtype[i])
                    && part[i] == text::lower_char(core[at + i]));
            assert forall|i: int| 0 <= i < subtype.len() implies same_letter(
                #[trigger] subtype[i],
                core[at + i],
            ) == (needle[i] == part[i]) by {
                folding_joins_the_cases_of_a_letter(subtype[i], core[at + i]);
            }
            if part == needle {
                assert(stands_in(core, subtype, at));
            }
            if stands_in(core, subtype, at) {
                assert forall|i: int| 0 <= i < needle.len() implies part[i] == needle[i] by {
                    assert(same_letter(subtype[i], core[at + i]));
                }
                assert(part =~= needle);
            }
        }
    }
    if core.len() > 0 {
        if exists|at: int| stands_in(core, subtype, at) {
            let at = choose|at: int| stands_in(core, subtype, at);
            assert(text::occurs_at(hay, needle, at));
        }
        if text::has_substring(hay, needle) {
            let at = choose|at: int| text::occurs_at(hay, needle, at);
            assert(stands_in(core, subtype, at));
        }
    }
}

proof fn lemma_faces(faces: Seq<AtomicCard>, j: int, word: Seq<char>)
    requires
        0 <= j < faces.len(),
        vocab_laws::confirms(faces[j], word),
        subtype_vocab::valid_spelling(word),
    ensures
        subtype_vocab::faces_subtypes(faces).contains(word),
    decreases faces.len(),
{
    if j < faces.len() - 1 {
        lemma_faces(faces.drop_last(), j, word);
    } else {
        let all = word_list::texts(faces[j].subtypes@);
        assert(all.to_set().contains(word));
    }
}

/// Every valid spelling that the type line of some face confirms is harvested.
pub proof fn confirmed_words_are_harvested(
    cards: Seq<(String, Vec<AtomicCard>)>,
    i: int,
    j: int,
    word: Seq<char>,
)
    requires
        0 <= i < cards.len(),
        0 <= j < cards[i].1@.len(),
        vocab_laws::confirms(cards[i].1@[j], word),
        subtype_vocab::valid_spelling(word),
    ensures
        subtype_vocab::cards_subtypes(cards).contains(word),
    decreases cards.len(),
{
    if i < cards.len() - 1 {
        confirmed_words_are_harvested(cards.drop_last(), i, j, word);
    } else {
        lemma_faces(cards[i].1@, j, word);
    }
}

/// The canonical creature subtypes are the valid spellings of the list, all of them and no others.
pub proof fn valid_words_are_kept(words: Seq<Seq<char>>, word: Seq<char>)
    ensures
        subtype_vocab::valid_words(words).contains(word) <==> subtype_vocab::valid_spelling(word)
            && exists|i: int| 0 <= i < words.len() && #[trigger] words[i] == word,
{
    if words.contains(word) {
        let i = choose|i: int| 0 <= i < words.len() && words[i] == word;
        assert(words[i] == word);
    }
}

/// The parser knows every word of the noncreature tables.
pub proof fn noncreature_subtypes_are_known(creature_subtypes: Seq<Seq<char>>, word: Seq<char>)
    requires
        noncreature_subtypes::noncreature_subtypes().contains(word),
    ensures
        subtype_vocab::vocabulary(creature_subtypes).contains(word),
{
}

proof fn lemma_texts_compare(a: Seq<char>, b: Seq<char>)
    ensures
        key::list_cmp(stable_ord::char_keys(a), stable_ord::char_keys(b)) == natural::verdict(
            a == b,
            natural::list_precedes(a, b),
        ),
{
    reveal(stable_ord::char_keys);
    reveal(stable_ord::keys_of);
    assert(stable_ord::char_keys(a) =~= stable_ord::keys_of(a));
    assert(stable_ord::char_keys(b) =~= stable_ord::keys_of(b));
    natural::lemma_lists(a, b);
    if natural::same_list(a, b) {
        assert forall|i: int| 0 <= i < a.len() implies a[i] == b[i] by {
            assert(natural::Natural::same(&a[i], &b[i]));
        }
        assert(a =~= b);
    }
    if a == b {
        assert(natural::same_list(a, b));
    }
}

/// In the parser's vocabulary a word stands before another one if it has more bytes, or as many and
/// comes first character by character. In an alphabetic list the latter decides alone.
pub proof fn order_of_words(order: WordOrder, words: Seq<Seq<char>>, i: int, j: int)
    requires
        word_list::ascending(order, words),
        0 <= i < j < words.len(),
    ensures
        match order {
            WordOrder::Alphabetic => natural::list_precedes(words[i], words[j]),
            WordOrder::LongestFirst => {
                let m = vstd::utf8::encode_utf8(words[i]).len();
                let n = vstd::utf8::encode_utf8(words[j]).len();
                m > n || (m == n && natural::list_precedes(words[i], words[j]))
            },
        },
{
    let a = words[i];
    let b = words[j];
    assert(key::key_cmp(word_list::word_key(order, a), word_list::word_key(order, b))
        == Ordering::Less);
    lemma_texts_compare(a, b);
    stable_ord::lemma_pair(
        Key::Num(-word_list::byte_len(a)),
        Key::Num(-word_list::byte_len(b)),
        Key::List(stable_ord::char_keys(a)),
        Key::List(stable_ord::char_keys(b)),
    );
}

} // verus!
