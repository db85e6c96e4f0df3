//! What the lines of a card's text say.
use vstd::prelude::*;

use crate::parser::number_laws;
use crate::parser::number_laws::Written;
use crate::parser::oracle;
use crate::parser::oracle_gift;
use crate::parser::oracle_gift::GiftWords;
use crate::parser::primitives;
use crate::text;
use crate::types::mana::ManaColor;

verus! {

proof fn lemma_tag_gift(rest: Seq<char>)
    ensures
        primitives::stripped("gift "@ + rest, "gift "@) == Some(rest),
        primitives::strip_optional("gift "@ + rest, "gift "@) == rest,
{
    reveal_strlit("gift ");
    reveal_with_fuel(number_laws::folded, 6);
    number_laws::lemma_strip("gift "@, rest);
}

proof fn lemma_tag_card(rest: Seq<char>)
    ensures
        primitives::stripped("a card"@ + rest, "a card"@) == Some(rest),
        primitives::strip_optional("a card"@ + rest, "a card"@) == rest,
{
    reveal_strlit("a card");
    reveal_with_fuel(number_laws::folded, 7);
    number_laws::lemma_strip("a card"@, rest);
}

proof fn lemma_tag_treasure(rest: Seq<char>)
    ensures
        primitives::stripped("a treasure"@ + rest, "a treasure"@) == Some(rest),
        primitives::strip_optional("a treasure"@ + rest, "a treasure"@) == rest,
{
    reveal_strlit("a treasure");
    reveal_with_fuel(number_laws::folded, 11);
    number_laws::lemma_strip("a treasure"@, rest);
}

proof fn lemma_tag_food(rest: Seq<char>)
    ensures
        primitives::stripped("a food"@ + rest, "a food"@) == Some(rest),
        primitives::strip_optional("a food"@ + rest, "a food"@) == rest,
{
    reveal_strlit("a food");
    reveal_with_fuel(number_laws::folded, 7);
    number_laws::lemma_strip("a food"@, rest);
}

proof fn lemma_tag_fish(rest: Seq<char>)
    ensures
        primitives::stripped("a tapped fish"@ + rest, "a tapped fish"@) == Some(rest),
        primitives::strip_optional("a tapped fish"@ + rest, "a tapped fish"@) == rest,
{
    reveal_strlit("a tapped fish");
    reveal_with_fuel(number_laws::folded, 14);
    number_laws::lemma_strip("a tapped fish"@, rest);
}

proof fn lemma_tag_open(rest: Seq<char>)
    ensures
        primitives::stripped(" ("@ + rest, " ("@) == Some(rest),
        primitives::strip_optional(" ("@ + rest, " ("@) == rest,
{
    reveal_strlit(" (");
    reveal_with_fuel(number_laws::folded, 3);
    number_laws::lemma_strip(" ("@, rest);
}

proof fn lemma_tag_a(rest: Seq<char>)
    ensures
        primitives::stripped("a"@ + rest, "a"@) == Some(rest),
        primitives::strip_optional("a"@ + rest, "a"@) == rest,
{
    reveal_strlit("a");
    reveal_with_fuel(number_laws::folded, 2);
    number_laws::lemma_strip("a"@, rest);
}

proof fn lemma_tag_n(rest: Seq<char>)
    ensures
        primitives::stripped("n"@ + rest, "n"@) == Some(rest),
        primitives::strip_optional("n"@ + rest, "n"@) == rest,
{
    reveal_strlit("n");
    reveal_with_fuel(number_laws::folded, 2);
    number_laws::lemma_strip("n"@, rest);
}

proof fn lemma_tag_space(rest: Seq<char>)
    ensures
        primitives::stripped(" "@ + rest, " "@) == Some(rest),
        primitives::strip_optional(" "@ + rest, " "@) == rest,
{
    reveal_strlit(" ");
    reveal_with_fuel(number_laws::folded, 2);
    number_laws::lemma_strip(" "@, rest);
}

proof fn lemma_tag_promise(rest: Seq<char>)
    ensures
        primitives::stripped(" (you may promise an opponent a gift as you cast this spell. if you do, when it enters, they create a"@ + rest, " (you may promise an opponent a gift as you cast this spell. if you do, when it enters, they create a"@) == Some(rest),
        primitives::strip_optional(" (you may promise an opponent a gift as you cast this spell. if you do, when it enters, they create a"@ + rest, " (you may promise an opponent a gift as you cast this spell. if you do, when it enters, they create a"@) == rest,
{
    reveal_strlit(" (you may promise an opponent a gift as you cast this spell. if you do, when it enters, they create a");
    reveal_with_fuel(number_laws::folded, 61);
    assert(number_laws::folded(" (you may promise an opponent a gift as you cast this spell. if you do, when it enters, they create a"@, 50));
    assert(number_laws::folded(" (you may promise an opponent a gift as you cast this spell. if you do, when it enters, they create a"@, 100));
    number_laws::lemma_strip(" (you may promise an opponent a gift as you cast this spell. if you do, when it enters, they create a"@, rest);
}

proof fn lemma_tag_slash(rest: Seq<char>)
    ensures
        primitives::stripped("/"@ + rest, "/"@) == Some(rest),
        primitives::strip_optional("/"@ + rest, "/"@) == rest,
{
    reveal_strlit("/");
    reveal_with_fuel(number_laws::folded, 2);
    number_laws::lemma_strip("/"@, rest);
}

proof fn lemma_tag_end(rest: Seq<char>)
    ensures
        primitives::stripped(" creature token.)"@ + rest, " creature token.)"@) == Some(rest),
        primitives::strip_optional(" creature token.)"@ + rest, " creature token.)"@) == rest,
{
    reveal_strlit(" creature token.)");
    reveal_with_fuel(number_laws::folded, 18);
    number_laws::lemma_strip(" creature token.)"@, rest);
}

proof fn lemma_tag_white(rest: Seq<char>)
    ensures
        primitives::stripped("white"@ + rest, "white"@) == Some(rest),
        primitives::strip_optional("white"@ + rest, "white"@) == rest,
{
    reveal_strlit("white");
    reveal_with_fuel(number_laws::folded, 6);
    number_laws::lemma_strip("white"@, rest);
}

proof fn lemma_tag_blue(rest: Seq<char>)
    ensures
        primitives::stripped("blue"@ + rest, "blue"@) == Some(rest),
        primitives::strip_optional("blue"@ + rest, "blue"@) == rest,
{
    reveal_strlit("blue");
    reveal_with_fuel(number_laws::folded, 5);
    number_laws::lemma_strip("blue"@, rest);
}

proof fn lemma_tag_black(rest: Seq<char>)
    ensures
        primitives::stripped("black"@ + rest, "black"@) == Some(rest),
        primitives::strip_optional("black"@ + rest, "black"@) == rest,
{
    reveal_strlit("black");
    reveal_with_fuel(number_laws::folded, 6);
    number_laws::lemma_strip("black"@, rest);
}

proof fn lemma_tag_red(rest: Seq<char>)
    ensures
        primitives::stripped("red"@ + rest, "red"@) == Some(rest),
        primitives::strip_optional("red"@ + rest, "red"@) == rest,
{
    reveal_strlit("red");
    reveal_with_fuel(number_laws::folded, 4);
    number_laws::lemma_strip("red"@, rest);
}

proof fn lemma_tag_green(rest: Seq<char>)
    ensures
        primitives::stripped("green"@ + rest, "green"@) == Some(rest),
        primitives::strip_optional("green"@ + rest, "green"@) == rest,
{
    reveal_strlit("green");
    reveal_with_fuel(number_laws::folded, 6);
    number_laws::lemma_strip("green"@, rest);
}

proof fn lemma_tag_doubler(rest: Seq<char>)
    ensures
        primitives::stripped("if one or more tokens would be created under your control, twice that many tokens are created instead"@ + rest, "if one or more tokens would be created under your control, twice that many tokens are created instead"@) == Some(rest),
        primitives::strip_optional("if one or more tokens would be created under your control, twice that many tokens are created instead"@ + rest, "if one or more tokens would be created under your control, twice that many tokens are created instead"@) == rest,
{
    reveal_strlit("if one or more tokens would be created under your control, twice that many tokens are created instead");
    reveal_with_fuel(number_laws::folded, 61);
    assert(number_laws::folded("if one or more tokens would be created under your control, twice that many tokens are created instead"@, 50));
    assert(number_laws::folded("if one or more tokens would be created under your control, twice that many tokens are created instead"@, 100));
    number_laws::lemma_strip("if one or more tokens would be created under your control, twice that many tokens are created instead"@, rest);
}

proof fn lemma_tag_must(rest: Seq<char>)
    ensures
        primitives::stripped("creatures your opponents control attack each combat if able"@ + rest, "creatures your opponents control attack each combat if able"@) == Some(rest),
        primitives::strip_optional("creatures your opponents control attack each combat if able"@ + rest, "creatures your opponents control attack each combat if able"@) == rest,
{
    reveal_strlit("creatures your opponents control attack each combat if able");
    reveal_with_fuel(number_laws::folded, 60);
    assert(number_laws::folded("creatures your opponents control attack each combat if able"@, 50));
    number_laws::lemma_strip("creatures your opponents control attack each combat if able"@, rest);
}

/// The text is over, or reminder text follows.
pub open spec fn reminded(rest: Seq<char>) -> bool {
    rest.len() == 0 || (rest.len() >= 2 && rest[0] == ' ' && rest[1] == '(')
}

proof fn lemma_reminded(rest: Seq<char>)
    requires
        reminded(rest),
    ensures
        rest.len() == 0 || primitives::stripped(rest, " ("@) is Some,
{
    reveal_strlit(" (");
    if rest.len() > 0 {
        assert(rest =~= " ("@ + rest.skip(2));
        lemma_tag_open(rest.skip(2));
    }
}

/// The gifts with a name of their own are read by it, whatever reminder text follows.
pub proof fn named_gifts_are_read(rest: Seq<char>)
    requires
        reminded(rest),
    ensures
        oracle_gift::gift_line("gift "@ + ("a card"@ + rest)) == Some(GiftWords::Card),
        oracle_gift::gift_line("gift "@ + ("a treasure"@ + rest)) == Some(GiftWords::Treasure),
        oracle_gift::gift_line("gift "@ + ("a food"@ + rest)) == Some(GiftWords::Food),
        oracle_gift::gift_line("gift "@ + ("a tapped fish"@ + rest)) == Some(GiftWords::TappedFish),
{
    reveal_strlit("a card");
    reveal_strlit("a treasure");
    reveal_strlit("a food");
    reveal_strlit("a tapped fish");
    lemma_reminded(rest);
    lemma_tag_gift("a card"@ + rest);
    lemma_tag_gift("a treasure"@ + rest);
    lemma_tag_gift("a food"@ + rest);
    lemma_tag_gift("a tapped fish"@ + rest);
    lemma_tag_card(rest);
    lemma_tag_treasure(rest);
    lemma_tag_food(rest);
    lemma_tag_fish(rest);
    let t = "a treasure"@ + rest;
    assert(t[2] == 't');
    number_laws::lemma_no_strip(t, "a card"@, 2);
    let f = "a food"@ + rest;
    assert(f[2] == 'f');
    number_laws::lemma_no_strip(f, "a card"@, 2);
    number_laws::lemma_no_strip(f, "a treasure"@, 2);
    let h = "a tapped fish"@ + rest;
    assert(h[2] == 't' && h[3] == 'a');
    number_laws::lemma_no_strip(h, "a card"@, 2);
    number_laws::lemma_no_strip(h, "a treasure"@, 3);
    number_laws::lemma_no_strip(h, "a food"@, 2);
}

/// The word for a color.
pub open spec fn color_name(c: ManaColor) -> Seq<char> {
    match c {
        ManaColor::White => "white"@,
        ManaColor::Blue => "blue"@,
        ManaColor::Black => "black"@,
        ManaColor::Red => "red"@,
        ManaColor::Green => "green"@,
    }
}

/// A color word is read as its color.
pub proof fn colors_are_read(c: ManaColor, rest: Seq<char>)
    ensures
        oracle_gift::color_word(color_name(c) + rest) == Some((rest, c)),
{
    reveal_strlit("white");
    reveal_strlit("blue");
    reveal_strlit("black");
    reveal_strlit("red");
    reveal_strlit("green");
    let t = color_name(c) + rest;
    assert(t[0] == color_name(c)[0] && t[2] == color_name(c)[2]);
    match c {
        ManaColor::White => {
            lemma_tag_white(rest);
        },
        ManaColor::Blue => {
            number_laws::lemma_no_strip(t, "white"@, 0);
            lemma_tag_blue(rest);
        },
        ManaColor::Black => {
            number_laws::lemma_no_strip(t, "white"@, 0);
            number_laws::lemma_no_strip(t, "blue"@, 2);
            lemma_tag_black(rest);
        },
        ManaColor::Red => {
            number_laws::lemma_no_strip(t, "white"@, 0);
            number_laws::lemma_no_strip(t, "blue"@, 0);
            number_laws::lemma_no_strip(t, "black"@, 0);
            lemma_tag_red(rest);
        },
        ManaColor::Green => {
            number_laws::lemma_no_strip(t, "white"@, 0);
            number_laws::lemma_no_strip(t, "blue"@, 0);
            number_laws::lemma_no_strip(t, "black"@, 0);
            number_laws::lemma_no_strip(t, "red"@, 0);
            lemma_tag_green(rest);
        },
    }
}

/// A word: characters without a space among them.
pub open spec fn is_word(w: Seq<char>) -> bool {
    forall|i: int| 0 <= i < w.len() ==> #[trigger] w[i] != ' '
}

proof fn lemma_word(w: Seq<char>, rest: Seq<char>)
    requires
        is_word(w),
        rest.len() > 0,
        rest[0] == ' ',
    ensures
        oracle_gift::word_len(w + rest) == w.len(),
        (w + rest).skip(w.len() as int) == rest,
        (w + rest).take(w.len() as int) == w,
    decreases w.len(),
{
    let t = w + rest;
    assert(t.skip(w.len() as int) =~= rest);
    assert(t.take(w.len() as int) =~= w);
    if w.len() == 0 {
        assert(t =~= rest);
    } else {
        let w1 = w.drop_first();
        assert(w[0] != ' ');
        assert(t.drop_first() =~= w1 + rest);
        assert forall|i: int| 0 <= i < w1.len() implies #[trigger] w1[i] != ' ' by {
            assert(w[i + 1] != ' ');
        }
        lemma_word(w1, rest);
    }
}

/// "a" or "an", a space, and what follows.
pub open spec fn article(an: bool, rest: Seq<char>) -> Seq<char> {
    "a"@ + after_a(an, rest)
}

/// What follows the "a" of an article.
pub open spec fn after_a(an: bool, rest: Seq<char>) -> Seq<char> {
    if an {
        "n"@ + (" "@ + rest)
    } else {
        " "@ + rest
    }
}

proof fn lemma_article(an: bool, rest: Seq<char>)
    ensures
        primitives::stripped(article(an, rest), "a"@) == Some(after_a(an, rest)),
        primitives::stripped(primitives::strip_optional(after_a(an, rest), "n"@), " "@) == Some(
            rest,
        ),
{
    lemma_tag_a(after_a(an, rest));
    lemma_tag_space(rest);
    if an {
        lemma_tag_n(" "@ + rest);
    } else {
        reveal_strlit(" ");
        reveal_strlit("n");
        let t = " "@ + rest;
        assert(t[0] == ' ');
        number_laws::lemma_no_strip(t, "n"@, 0);
    }
}

/// What a gift line says that promises a creature token: the word by which the gift goes, and in the
/// reminder text the token with its power, toughness, color and name.
pub open spec fn creature_gift_text(
    an: bool,
    word: Seq<char>,
    token_an: bool,
    power: Written,
    toughness: Written,
    color: ManaColor,
    name: Seq<char>,
) -> Seq<char> {
    "gift "@ + article(
        an,
        word + (" (you may promise an opponent a gift as you cast this spell. if you do, when it enters, they create a"@
            + after_a(
            token_an,
            power.text() + ("/"@ + (toughness.text() + (" "@ + (color_name(color) + (" "@ + (name
                + " creature token.)"@)))))),
        )),
    )
}

/// A gift of a creature token is read as its reminder text describes the token. With "a" the word
/// must not begin like one of the gifts with a name of their own.
pub proof fn creature_gifts_are_read(
    an: bool,
    word: Seq<char>,
    token_an: bool,
    power: Written,
    toughness: Written,
    color: ManaColor,
    name: Seq<char>,
)
    requires
        is_word(word),
        is_word(name),
        power.valid(),
        toughness.valid(),
        an || (word.len() > 0 && text::lower_char(word[0]) != 'c' && text::lower_char(word[0])
            != 't' && text::lower_char(word[0]) != 'f'),
    ensures
        oracle_gift::gift_line(
            creature_gift_text(an, word, token_an, power, toughness, color, name),
        ) == Some(
            GiftWords::Creature {
                power: power.value(),
                toughness: toughness.value(),
                color,
                name,
            },
        ),
{
    let last = " creature token.)"@;
    let g = name + last;
    let f = " "@ + g;
    let e = color_name(color) + f;
    let d = " "@ + e;
    let c = toughness.text() + d;
    let b = "/"@ + c;
    let a = power.text() + b;
    let said = after_a(token_an, a);
    let promise = " (you may promise an opponent a gift as you cast this spell. if you do, when it enters, they create a"@ + said;
    let body = word + promise;
    let t = article(an, body);
    reveal_strlit(" creature token.)");
    reveal_strlit("/");
    reveal_strlit(" ");
    reveal_strlit("a");
    reveal_strlit("n");
    reveal_strlit("a card");
    reveal_strlit("a treasure");
    reveal_strlit("a food");
    reveal_strlit("a tapped fish");
    reveal_strlit(" (you may promise an opponent a gift as you cast this spell. if you do, when it enters, they create a");
    assert(last[0] == ' ' && b[0] == '/' && d[0] == ' ' && promise[0] == ' ');
    lemma_tag_gift(t);
    lemma_article(an, body);
    if an {
        assert(t[1] == 'n');
        number_laws::lemma_no_strip(t, "a card"@, 1);
        number_laws::lemma_no_strip(t, "a treasure"@, 1);
        number_laws::lemma_no_strip(t, "a food"@, 1);
        number_laws::lemma_no_strip(t, "a tapped fish"@, 1);
    } else {
        assert(t[2] == word[0]);
        number_laws::lemma_no_strip(t, "a card"@, 2);
        number_laws::lemma_no_strip(t, "a treasure"@, 2);
        number_laws::lemma_no_strip(t, "a food"@, 2);
        number_laws::lemma_no_strip(t, "a tapped fish"@, 2);
    }
    lemma_word(word, promise);
    lemma_tag_promise(said);
    lemma_article(token_an, a);
    number_laws::written_numbers_are_read(power, b);
    lemma_tag_slash(c);
    number_laws::written_numbers_are_read(toughness, d);
    lemma_tag_space(e);
    colors_are_read(color, f);
    lemma_tag_space(g);
    lemma_word(name, last);
    let empty = Seq::<char>::empty();
    assert(last + empty =~= last);
    lemma_tag_end(empty);
}

/// No line break in the text.
pub open spec fn one_line(s: Seq<char>) -> bool {
    forall|i: int| 0 <= i < s.len() ==> #[trigger] s[i] != '\n'
}

proof fn lemma_line_len(line: Seq<char>, rest: Seq<char>)
    requires
        one_line(line),
        rest.len() > 0 ==> rest[0] == '\n',
    ensures
        oracle::line_len(line + rest) == line.len(),
    decreases line.len(),
{
    let t = line + rest;
    if line.len() == 0 {
        assert(t =~= rest);
    } else {
        let l1 = line.drop_first();
        assert(line[0] != '\n');
        assert(t.drop_first() =~= l1 + rest);
        assert forall|i: int| 0 <= i < l1.len() implies #[trigger] l1[i] != '\n' by {
            assert(line[i + 1] != '\n');
        }
        lemma_line_len(l1, rest);
    }
}

/// A text says what its first line says and then what its other lines say: the gifts, the payments
/// and the counts of both.
pub proof fn lines_are_read_in_order(line: Seq<char>, later: Seq<char>, short: Seq<char>)
    requires
        one_line(line),
    ensures
        ({
            let all = oracle::oracle_meaning(line + (seq!['\n'] + later), short);
            let first = oracle::line_meaning(line, later, short);
            let rest = oracle::oracle_meaning(later, short);
            &&& all.gifts == first.gifts + rest.gifts
            &&& all.doublers == first.doublers + rest.doublers
            &&& all.must_attack == first.must_attack + rest.must_attack
            &&& all.payments == first.payments + rest.payments
        }),
{
    let tail = seq!['\n'] + later;
    let t = line + tail;
    lemma_line_len(line, tail);
    assert(t.take(line.len() as int) =~= line);
    assert(t.skip(line.len() as int + 1) =~= later);
}

/// The last line of a text.
pub proof fn last_lines_are_read(line: Seq<char>, short: Seq<char>)
    requires
        one_line(line),
        line.len() > 0,
    ensures
        oracle::oracle_meaning(line, short).gifts == oracle::line_meaning(
            line,
            Seq::empty(),
            short,
        ).gifts,
        oracle::oracle_meaning(line, short).doublers == oracle::line_meaning(
            line,
            Seq::empty(),
            short,
        ).doublers,
        oracle::oracle_meaning(line, short).must_attack == oracle::line_meaning(
            line,
            Seq::empty(),
            short,
        ).must_attack,
{
    let empty = Seq::<char>::empty();
    lemma_line_len(line, empty);
    assert(line + empty =~= line);
    assert(line.take(line.len() as int) =~= line);
    reveal_with_fuel(oracle::oracle_meaning, 2);
    let first = oracle::line_meaning(line, empty, short);
    assert(oracle::later_lines(line) == empty);
    assert(first.gifts + empty_gifts() =~= first.gifts);
}

spec fn empty_gifts() -> Seq<GiftWords> {
    Seq::empty()
}

/// A period, or nothing.
pub open spec fn period(dot: bool) -> Seq<char> {
    if dot {
        "."@
    } else {
        Seq::empty()
    }
}

/// The line that doubles tokens, and the one that makes the creatures of opponents attack, are read
/// as that, once each.
pub proof fn fixed_lines_are_read(dot: bool, later: Seq<char>, short: Seq<char>)
    ensures
        ({
            let m = oracle::line_meaning("if one or more tokens would be created under your control, twice that many tokens are created instead"@ + period(dot), later, short);
            m.doublers == 1 && m.must_attack == 0 && m.gifts.len() == 0 && m.payments.len() == 0
        }),
        ({
            let m = oracle::line_meaning("creatures your opponents control attack each combat if able"@ + period(dot), later, short);
            m.doublers == 0 && m.must_attack == 1 && m.gifts.len() == 0 && m.payments.len() == 0
        }),
{
    let end = period(dot);
    reveal_strlit(".");
    reveal_strlit("gift ");
    reveal_strlit("if one or more tokens would be created under your control, twice that many tokens are created instead");
    reveal_strlit("creatures your opponents control attack each combat if able");
    let a = "if one or more tokens would be created under your control, twice that many tokens are created instead"@ + end;
    let b = "creatures your opponents control attack each combat if able"@ + end;
    assert(a[0] == 'i' && b[0] == 'c');
    number_laws::lemma_no_strip(a, "gift "@, 0);
    number_laws::lemma_no_strip(b, "gift "@, 0);
    lemma_tag_doubler(end);
    lemma_tag_must(end);
    number_laws::lemma_no_strip(b, "if one or more tokens would be created under your control, twice that many tokens are created instead"@, 0);
}

} // verus!
