//! What lines with a trigger and a repeated payment say, and those of its modes.
use vstd::prelude::*;

use crate::parser::block_laws;
use crate::parser::number_laws;
use crate::parser::number_laws::Written;
use crate::parser::oracle_trigger;
use crate::parser::primitives;
use crate::types::ability::{AbilityKind, Effect};
use crate::types::mana_cost::ManaCost;
use crate::types::quantity::QuantityExpr;
use crate::types::target_filter::TargetFilter;
use crate::types::triggers::TriggerMode;

verus! {

proof fn lemma_tag_when(rest: Seq<char>)
    ensures
        primitives::stripped("when"@ + rest, "when"@) == Some(rest),
        primitives::strip_optional("when"@ + rest, "when"@) == rest,
{
    reveal_strlit("when");
    reveal_with_fuel(number_laws::folded, 5);
    number_laws::lemma_strip("when"@, rest);
}

proof fn lemma_tag_ever(rest: Seq<char>)
    ensures
        primitives::stripped("ever"@ + rest, "ever"@) == Some(rest),
        primitives::strip_optional("ever"@ + rest, "ever"@) == rest,
{
    reveal_strlit("ever");
    reveal_with_fuel(number_laws::folded, 5);
    number_laws::lemma_strip("ever"@, rest);
}

proof fn lemma_tag_space(rest: Seq<char>)
    ensures
        primitives::stripped(" "@ + rest, " "@) == Some(rest),
        primitives::strip_optional(" "@ + rest, " "@) == rest,
{
    reveal_strlit(" ");
    reveal_with_fuel(number_laws::folded, 2);
    number_laws::lemma_strip(" "@, rest);
}

proof fn lemma_tag_this(rest: Seq<char>)
    ensures
        primitives::stripped("this creature"@ + rest, "this creature"@) == Some(rest),
        primitives::strip_optional("this creature"@ + rest, "this creature"@) == rest,
{
    reveal_strlit("this creature");
    reveal_with_fuel(number_laws::folded, 14);
    number_laws::lemma_strip("this creature"@, rest);
}

proof fn lemma_tag_taps(rest: Seq<char>)
    ensures
        primitives::stripped(" becomes tapped, "@ + rest, " becomes tapped, "@) == Some(rest),
        primitives::strip_optional(" becomes tapped, "@ + rest, " becomes tapped, "@) == rest,
{
    reveal_strlit(" becomes tapped, ");
    reveal_with_fuel(number_laws::folded, 18);
    number_laws::lemma_strip(" becomes tapped, "@, rest);
}

proof fn lemma_tag_enters(rest: Seq<char>)
    ensures
        primitives::stripped(" enters, "@ + rest, " enters, "@) == Some(rest),
        primitives::strip_optional(" enters, "@ + rest, " enters, "@) == rest,
{
    reveal_strlit(" enters, ");
    reveal_with_fuel(number_laws::folded, 10);
    number_laws::lemma_strip(" enters, "@, rest);
}

proof fn lemma_tag_may(rest: Seq<char>)
    ensures
        primitives::stripped("you may pay "@ + rest, "you may pay "@) == Some(rest),
        primitives::strip_optional("you may pay "@ + rest, "you may pay "@) == rest,
{
    reveal_strlit("you may pay ");
    reveal_with_fuel(number_laws::folded, 13);
    number_laws::lemma_strip("you may pay "@, rest);
}

proof fn lemma_tag_brace(rest: Seq<char>)
    ensures
        primitives::stripped("{"@ + rest, "{"@) == Some(rest),
        primitives::strip_optional("{"@ + rest, "{"@) == rest,
{
    reveal_strlit("{");
    reveal_with_fuel(number_laws::folded, 2);
    number_laws::lemma_strip("{"@, rest);
}

proof fn lemma_tag_close(rest: Seq<char>)
    ensures
        primitives::stripped("}"@ + rest, "}"@) == Some(rest),
        primitives::strip_optional("}"@ + rest, "}"@) == rest,
{
    reveal_strlit("}");
    reveal_with_fuel(number_laws::folded, 2);
    number_laws::lemma_strip("}"@, rest);
}

proof fn lemma_tag_up(rest: Seq<char>)
    ensures
        primitives::stripped(" up to "@ + rest, " up to "@) == Some(rest),
        primitives::strip_optional(" up to "@ + rest, " up to "@) == rest,
{
    reveal_strlit(" up to ");
    reveal_with_fuel(number_laws::folded, 8);
    number_laws::lemma_strip(" up to "@, rest);
}

proof fn lemma_tag_times(rest: Seq<char>)
    ensures
        primitives::stripped(" times. "@ + rest, " times. "@) == Some(rest),
        primitives::strip_optional(" times. "@ + rest, " times. "@) == rest,
{
    reveal_strlit(" times. ");
    reveal_with_fuel(number_laws::folded, 9);
    number_laws::lemma_strip(" times. "@, rest);
}

proof fn lemma_tag_do(rest: Seq<char>)
    ensures
        primitives::stripped("when you do, "@ + rest, "when you do, "@) == Some(rest),
        primitives::strip_optional("when you do, "@ + rest, "when you do, "@) == rest,
{
    reveal_strlit("when you do, ");
    reveal_with_fuel(number_laws::folded, 14);
    number_laws::lemma_strip("when you do, "@, rest);
}

proof fn lemma_tag_paid(rest: Seq<char>)
    ensures
        primitives::stripped("when you pay this cost one or more times, "@ + rest, "when you pay this cost one or more times, "@) == Some(rest),
        primitives::strip_optional("when you pay this cost one or more times, "@ + rest, "when you pay this cost one or more times, "@) == rest,
{
    reveal_strlit("when you pay this cost one or more times, ");
    reveal_with_fuel(number_laws::folded, 43);
    number_laws::lemma_strip("when you pay this cost one or more times, "@, rest);
}

proof fn lemma_tag_choose(rest: Seq<char>)
    ensures
        primitives::stripped("choose up to that many"@ + rest, "choose up to that many"@) == Some(rest),
        primitives::strip_optional("choose up to that many"@ + rest, "choose up to that many"@) == rest,
{
    reveal_strlit("choose up to that many");
    reveal_with_fuel(number_laws::folded, 23);
    number_laws::lemma_strip("choose up to that many"@, rest);
}

proof fn lemma_tag_w(rest: Seq<char>)
    ensures
        primitives::stripped("w"@ + rest, "w"@) == Some(rest),
        primitives::strip_optional("w"@ + rest, "w"@) == rest,
{
    reveal_strlit("w");
    reveal_with_fuel(number_laws::folded, 2);
    number_laws::lemma_strip("w"@, rest);
}

proof fn lemma_tag_u(rest: Seq<char>)
    ensures
        primitives::stripped("u"@ + rest, "u"@) == Some(rest),
        primitives::strip_optional("u"@ + rest, "u"@) == rest,
{
    reveal_strlit("u");
    reveal_with_fuel(number_laws::folded, 2);
    number_laws::lemma_strip("u"@, rest);
}

proof fn lemma_tag_b(rest: Seq<char>)
    ensures
        primitives::stripped("b"@ + rest, "b"@) == Some(rest),
        primitives::strip_optional("b"@ + rest, "b"@) == rest,
{
    reveal_strlit("b");
    reveal_with_fuel(number_laws::folded, 2);
    number_laws::lemma_strip("b"@, rest);
}

proof fn lemma_tag_r(rest: Seq<char>)
    ensures
        primitives::stripped("r"@ + rest, "r"@) == Some(rest),
        primitives::strip_optional("r"@ + rest, "r"@) == rest,
{
    reveal_strlit("r");
    reveal_with_fuel(number_laws::folded, 2);
    number_laws::lemma_strip("r"@, rest);
}

proof fn lemma_tag_g(rest: Seq<char>)
    ensures
        primitives::stripped("g"@ + rest, "g"@) == Some(rest),
        primitives::strip_optional("g"@ + rest, "g"@) == rest,
{
    reveal_strlit("g");
    reveal_with_fuel(number_laws::folded, 2);
    number_laws::lemma_strip("g"@, rest);
}

proof fn lemma_tag_c(rest: Seq<char>)
    ensures
        primitives::stripped("c"@ + rest, "c"@) == Some(rest),
        primitives::strip_optional("c"@ + rest, "c"@) == rest,
{
    reveal_strlit("c");
    reveal_with_fuel(number_laws::folded, 2);
    number_laws::lemma_strip("c"@, rest);
}

proof fn lemma_tag_dash(rest: Seq<char>)
    ensures
        primitives::stripped(" — "@ + rest, " — "@) == Some(rest),
        primitives::strip_optional(" — "@ + rest, " — "@) == rest,
{
    reveal_strlit(" — ");
    reveal_with_fuel(number_laws::folded, 4);
    number_laws::lemma_strip(" — "@, rest);
}

proof fn lemma_tag_list(rest: Seq<char>)
    ensures
        primitives::stripped(" —"@ + rest, " —"@) == Some(rest),
        primitives::strip_optional(" —"@ + rest, " —"@) == rest,
{
    reveal_strlit(" —");
    reveal_with_fuel(number_laws::folded, 3);
    number_laws::lemma_strip(" —"@, rest);
}

proof fn lemma_tag_bullet(rest: Seq<char>)
    ensures
        primitives::stripped("• "@ + rest, "• "@) == Some(rest),
        primitives::strip_optional("• "@ + rest, "• "@) == rest,
{
    reveal_strlit("• ");
    reveal_with_fuel(number_laws::folded, 3);
    number_laws::lemma_strip("• "@, rest);
}

proof fn lemma_tag_deals(rest: Seq<char>)
    ensures
        primitives::stripped(" deals "@ + rest, " deals "@) == Some(rest),
        primitives::strip_optional(" deals "@ + rest, " deals "@) == rest,
{
    reveal_strlit(" deals ");
    reveal_with_fuel(number_laws::folded, 8);
    number_laws::lemma_strip(" deals "@, rest);
}

proof fn lemma_tag_damage(rest: Seq<char>)
    ensures
        primitives::stripped(" damage to target player"@ + rest, " damage to target player"@) == Some(rest),
        primitives::strip_optional(" damage to target player"@ + rest, " damage to target player"@) == rest,
{
    reveal_strlit(" damage to target player");
    reveal_with_fuel(number_laws::folded, 25);
    number_laws::lemma_strip(" damage to target player"@, rest);
}

proof fn lemma_no_word(t: Seq<char>, words: Seq<(Seq<char>, u32)>)
    requires
        forall|j: int|
            0 <= j < words.len() ==> primitives::stripped(t, #[trigger] words[j].0) is None,
    ensures
        primitives::word_number(t, words) is None,
    decreases words.len(),
{
    if words.len() > 0 {
        assert(primitives::stripped(t, words[0].0) is None);
        let rest = words.drop_first();
        assert forall|j: int| 0 <= j < rest.len() implies primitives::stripped(
            t,
            #[trigger] rest[j].0,
        ) is None by {
            assert(primitives::stripped(t, words[j + 1].0) is None);
        }
        lemma_no_word(t, rest);
    }
}

/// A letter of a colored or colorless mana symbol begins no number.
proof fn lemma_no_number(t: Seq<char>)
    requires
        t.len() > 0,
        t[0] == 'w' || t[0] == 'u' || t[0] == 'b' || t[0] == 'r' || t[0] == 'g' || t[0] == 'c',
    ensures
        primitives::number(t) is None,
{
    let words = primitives::number_words();
    reveal_strlit("seventeen");
    number_laws::lemma_no_strip(t, "seventeen"@, 0);
    reveal_strlit("fourteen");
    number_laws::lemma_no_strip(t, "fourteen"@, 0);
    reveal_strlit("thirteen");
    number_laws::lemma_no_strip(t, "thirteen"@, 0);
    reveal_strlit("eighteen");
    number_laws::lemma_no_strip(t, "eighteen"@, 0);
    reveal_strlit("nineteen");
    number_laws::lemma_no_strip(t, "nineteen"@, 0);
    reveal_strlit("sixteen");
    number_laws::lemma_no_strip(t, "sixteen"@, 0);
    reveal_strlit("fifteen");
    number_laws::lemma_no_strip(t, "fifteen"@, 0);
    reveal_strlit("twelve");
    number_laws::lemma_no_strip(t, "twelve"@, 0);
    reveal_strlit("eleven");
    number_laws::lemma_no_strip(t, "eleven"@, 0);
    reveal_strlit("twenty");
    number_laws::lemma_no_strip(t, "twenty"@, 0);
    reveal_strlit("three");
    number_laws::lemma_no_strip(t, "three"@, 0);
    reveal_strlit("seven");
    number_laws::lemma_no_strip(t, "seven"@, 0);
    reveal_strlit("eight");
    number_laws::lemma_no_strip(t, "eight"@, 0);
    reveal_strlit("four");
    number_laws::lemma_no_strip(t, "four"@, 0);
    reveal_strlit("five");
    number_laws::lemma_no_strip(t, "five"@, 0);
    reveal_strlit("nine");
    number_laws::lemma_no_strip(t, "nine"@, 0);
    reveal_strlit("zero");
    number_laws::lemma_no_strip(t, "zero"@, 0);
    reveal_strlit("one");
    number_laws::lemma_no_strip(t, "one"@, 0);
    reveal_strlit("two");
    number_laws::lemma_no_strip(t, "two"@, 0);
    reveal_strlit("six");
    number_laws::lemma_no_strip(t, "six"@, 0);
    reveal_strlit("ten");
    number_laws::lemma_no_strip(t, "ten"@, 0);
    lemma_no_word(t, words);
}

/// A mana symbol.
pub enum Symbol {
    Generic(Written),
    White,
    Blue,
    Black,
    Red,
    Green,
    Colorless,
}

impl Symbol {
    pub open spec fn valid(self) -> bool {
        match self {
            Symbol::Generic(n) => n.valid(),
            _ => true,
        }
    }

    /// What stands between the braces.
    pub open spec fn text(self) -> Seq<char> {
        match self {
            Symbol::Generic(n) => n.text(),
            Symbol::White => "w"@,
            Symbol::Blue => "u"@,
            Symbol::Black => "b"@,
            Symbol::Red => "r"@,
            Symbol::Green => "g"@,
            Symbol::Colorless => "c"@,
        }
    }

    /// The cost has this much mana of the symbol's kind and none of the others.
    pub open spec fn is_cost(self, cost: ManaCost) -> bool {
        &&& cost.generic == match self {
            Symbol::Generic(n) => n.value() as int,
            _ => 0,
        }
        &&& cost.white == if self is White {
            1int
        } else {
            0
        }
        &&& cost.blue == if self is Blue {
            1int
        } else {
            0
        }
        &&& cost.black == if self is Black {
            1int
        } else {
            0
        }
        &&& cost.red == if self is Red {
            1int
        } else {
            0
        }
        &&& cost.green == if self is Green {
            1int
        } else {
            0
        }
        &&& cost.colorless == if self is Colorless {
            1int
        } else {
            0
        }
    }
}

/// A mana symbol in braces is read as a cost of that mana.
pub proof fn symbols_are_read(symbol: Symbol, rest: Seq<char>)
    requires
        symbol.valid(),
    ensures
        oracle_trigger::mana_symbol("{"@ + (symbol.text() + ("}"@ + rest))) matches Some((end, cost))
            && end == rest && symbol.is_cost(cost),
{
    let tail = "}"@ + rest;
    let t = symbol.text() + tail;
    lemma_tag_brace(t);
    lemma_tag_close(rest);
    reveal_strlit("}");
    assert(tail[0] == '}');
    reveal_strlit("w");
    reveal_strlit("u");
    reveal_strlit("b");
    reveal_strlit("r");
    reveal_strlit("g");
    reveal_strlit("c");
    match symbol {
        Symbol::Generic(n) => {
            number_laws::written_numbers_are_read(n, tail);
        },
        Symbol::White => {
            assert(t[0] == 'w');
            lemma_no_number(t);
            lemma_tag_w(tail);
        },
        Symbol::Blue => {
            assert(t[0] == 'u');
            lemma_no_number(t);
            number_laws::lemma_no_strip(t, "w"@, 0);
            lemma_tag_u(tail);
        },
        Symbol::Black => {
            assert(t[0] == 'b');
            lemma_no_number(t);
            number_laws::lemma_no_strip(t, "w"@, 0);
            number_laws::lemma_no_strip(t, "u"@, 0);
            lemma_tag_b(tail);
        },
        Symbol::Red => {
            assert(t[0] == 'r');
            lemma_no_number(t);
            number_laws::lemma_no_strip(t, "w"@, 0);
            number_laws::lemma_no_strip(t, "u"@, 0);
            number_laws::lemma_no_strip(t, "b"@, 0);
            lemma_tag_r(tail);
        },
        Symbol::Green => {
            assert(t[0] == 'g');
            lemma_no_number(t);
            number_laws::lemma_no_strip(t, "w"@, 0);
            number_laws::lemma_no_strip(t, "u"@, 0);
            number_laws::lemma_no_strip(t, "b"@, 0);
            number_laws::lemma_no_strip(t, "r"@, 0);
            lemma_tag_g(tail);
        },
        Symbol::Colorless => {
            assert(t[0] == 'c');
            lemma_no_number(t);
            number_laws::lemma_no_strip(t, "w"@, 0);
            number_laws::lemma_no_strip(t, "u"@, 0);
            number_laws::lemma_no_strip(t, "b"@, 0);
            number_laws::lemma_no_strip(t, "r"@, 0);
            number_laws::lemma_no_strip(t, "g"@, 0);
            lemma_tag_c(tail);
        },
    }
}

/// No em dash in the text.
pub open spec fn no_dash(s: Seq<char>) -> bool {
    forall|i: int| 0 <= i < s.len() ==> #[trigger] s[i] != '—'
}

proof fn lemma_after_label(label: Seq<char>, rest: Seq<char>, whole: Seq<char>)
    requires
        no_dash(label),
    ensures
        oracle_trigger::after_dash(label + (" — "@ + rest), whole) == rest,
    decreases label.len(),
{
    let tail = " — "@ + rest;
    let t = label + tail;
    lemma_tag_dash(rest);
    reveal_strlit(" — ");
    if label.len() == 0 {
        assert(t =~= tail);
    } else {
        let l1 = label.drop_first();
        assert(t.drop_first() =~= l1 + tail);
        assert(t[1] == if label.len() > 1 {
            label[1]
        } else {
            ' '
        });
        number_laws::lemma_no_strip(t, " — "@, 1);
        assert forall|i: int| 0 <= i < l1.len() implies #[trigger] l1[i] != '—' by {
            assert(label[i + 1] != '—');
        }
        lemma_after_label(l1, rest, whole);
    }
}

proof fn lemma_without_dash(s: Seq<char>, whole: Seq<char>)
    requires
        no_dash(s),
    ensures
        oracle_trigger::after_dash(s, whole) == whole,
    decreases s.len(),
{
    if s.len() > 0 {
        reveal_strlit(" — ");
        if s.len() > 1 {
            assert(s[1] != '—');
        }
        number_laws::lemma_no_strip(s, " — "@, 1);
        let s1 = s.drop_first();
        assert forall|i: int| 0 <= i < s1.len() implies #[trigger] s1[i] != '—' by {
            assert(s[i + 1] != '—');
        }
        lemma_without_dash(s1, whole);
    }
}

/// The word before a dash is no part of what a line says; a line without a dash is read whole.
pub proof fn labels_are_passed_over(label: Seq<char>, line: Seq<char>)
    requires
        no_dash(label),
    ensures
        oracle_trigger::unlabelled(label + (" — "@ + line)) == line,
        oracle_trigger::unlabelled(label) == label,
{
    lemma_after_label(label, line, label + (" — "@ + line));
    lemma_without_dash(label, label);
}

/// "this creature", or what the card calls itself.
pub open spec fn subject_text(this: bool, short: Seq<char>) -> Seq<char> {
    if this {
        "this creature"@
    } else {
        short
    }
}

/// The short name is in lower case, and does not begin like "this creature".
pub open spec fn plain_name(short: Seq<char>) -> bool {
    short.len() > 0 && number_laws::folded(short, short.len()) && short[0] != 't'
}

proof fn lemma_subject(this: bool, short: Seq<char>, rest: Seq<char>)
    requires
        plain_name(short),
    ensures
        oracle_trigger::subject(subject_text(this, short) + rest, short) == Some(rest),
{
    if this {
        lemma_tag_this(rest);
    } else {
        reveal_strlit("this creature");
        let t = short + rest;
        number_laws::lemma_folded(short, short.len(), 0);
        assert(t[0] == short[0]);
        number_laws::lemma_no_strip(t, "this creature"@, 0);
        number_laws::lemma_strip(short, rest);
    }
}

/// "When" or "whenever", who, and what happens to them.
pub open spec fn event_text(
    ever: bool,
    this: bool,
    short: Seq<char>,
    taps: bool,
    rest: Seq<char>,
) -> Seq<char> {
    let happens = if taps {
        " becomes tapped, "@ + rest
    } else {
        " enters, "@ + rest
    };
    let said = " "@ + (subject_text(this, short) + happens);
    "when"@ + if ever {
        "ever"@ + said
    } else {
        said
    }
}

/// An event is read as what it says.
pub proof fn events_are_read(
    ever: bool,
    this: bool,
    short: Seq<char>,
    taps: bool,
    rest: Seq<char>,
)
    requires
        plain_name(short),
    ensures
        oracle_trigger::trigger_event(event_text(ever, this, short, taps, rest), short) == Some(
            (
                rest,
                if taps {
                    TriggerMode::Taps
                } else {
                    TriggerMode::Enters
                },
            ),
        ),
{
    let happens = if taps {
        " becomes tapped, "@ + rest
    } else {
        " enters, "@ + rest
    };
    let who = subject_text(this, short) + happens;
    let said = " "@ + who;
    lemma_tag_space(who);
    lemma_subject(this, short, happens);
    if ever {
        lemma_tag_when("ever"@ + said);
        lemma_tag_ever(said);
    } else {
        lemma_tag_when(said);
        reveal_strlit(" ");
        reveal_strlit("ever");
        assert(said[0] == ' ');
        number_laws::lemma_no_strip(said, "ever"@, 0);
    }
    if taps {
        lemma_tag_taps(rest);
    } else {
        reveal_strlit(" enters, ");
        reveal_strlit(" becomes tapped, ");
        assert(happens[1] == 'e');
        number_laws::lemma_no_strip(happens, " becomes tapped, "@, 1);
        lemma_tag_enters(rest);
    }
}

/// How a line with an offer ends: with nothing, a period, or the dash before a list.
pub enum Ending {
    Nothing,
    Period,
    Dash,
}

impl Ending {
    pub open spec fn text(self) -> Seq<char> {
        match self {
            Ending::Nothing => Seq::empty(),
            Ending::Period => "."@,
            Ending::Dash => " —"@,
        }
    }
}

/// "you may pay {1} up to three times. When you do, choose up to that many."
pub open spec fn offer_text(symbol: Symbol, times: Written, do_so: bool, end: Ending) -> Seq<char> {
    let choice = "choose up to that many"@ + end.text();
    "you may pay "@ + ("{"@ + (symbol.text() + ("}"@ + (" up to "@ + (times.text() + (" times. "@
        + if do_so {
        "when you do, "@ + choice
    } else {
        "when you pay this cost one or more times, "@ + choice
    }))))))
}

proof fn lemma_offer(symbol: Symbol, times: Written, do_so: bool, end: Ending)
    requires
        symbol.valid(),
        times.valid(),
    ensures
        oracle_trigger::payment_offer(offer_text(symbol, times, do_so, end)) matches Some(
            (cost, n),
        ) && symbol.is_cost(cost) && n == times.value(),
{
    let choice = "choose up to that many"@ + end.text();
    let when = if do_so {
        "when you do, "@ + choice
    } else {
        "when you pay this cost one or more times, "@ + choice
    };
    let d = " times. "@ + when;
    let c = times.text() + d;
    let b = " up to "@ + c;
    let a = "{"@ + (symbol.text() + ("}"@ + b));
    lemma_tag_may(a);
    symbols_are_read(symbol, b);
    lemma_tag_up(c);
    reveal_strlit(" times. ");
    assert(d[0] == ' ');
    number_laws::written_numbers_are_read(times, d);
    lemma_tag_times(when);
    if do_so {
        lemma_tag_do(choice);
    } else {
        reveal_strlit("when you do, ");
        reveal_strlit("when you pay this cost one or more times, ");
        assert(when[9] == 'p');
        number_laws::lemma_no_strip(when, "when you do, "@, 9);
        lemma_tag_paid(choice);
    }
    lemma_tag_choose(end.text());
    reveal_strlit(".");
    let empty = Seq::<char>::empty();
    lemma_tag_list(empty);
    assert(" —"@ + empty =~= " —"@);
}

/// A line with a trigger and a repeated payment: when it triggers, what one payment costs, and how
/// often it can be made.
pub proof fn payment_lines_are_read(
    label: Seq<char>,
    ever: bool,
    this: bool,
    short: Seq<char>,
    taps: bool,
    symbol: Symbol,
    times: Written,
    do_so: bool,
    end: Ending,
)
    requires
        no_dash(label),
        plain_name(short),
        symbol.valid(),
        times.valid(),
    ensures
        oracle_trigger::payment_line(
            label + (" — "@ + event_text(
                ever,
                this,
                short,
                taps,
                offer_text(symbol, times, do_so, end),
            )),
            short,
        ) matches Some((mode, cost, n)) && {
            &&& mode == if taps {
                TriggerMode::Taps
            } else {
                TriggerMode::Enters
            }
            &&& symbol.is_cost(cost)
            &&& n == times.value()
        },
{
    let offer = offer_text(symbol, times, do_so, end);
    let event = event_text(ever, this, short, taps, offer);
    labels_are_passed_over(label, event);
    events_are_read(ever, this, short, taps, offer);
    lemma_offer(symbol, times, do_so, end);
}

/// A mode that deals damage to the target player.
pub proof fn damage_modes_are_read(
    label: Seq<char>,
    this: bool,
    short: Seq<char>,
    n: Written,
    dot: bool,
)
    requires
        no_dash(label),
        plain_name(short),
        n.valid(),
    ensures
        oracle_trigger::mode_line(
            "• "@ + (label + (" — "@ + (subject_text(this, short) + (" deals "@ + (n.text() + (
            " damage to target player"@ + if dot {
                "."@
            } else {
                Seq::empty()
            })))))),
            short,
        ) == Some(
            block_laws::ability(
                AbilityKind::Triggered,
                Effect::DealDamage {
                    amount: QuantityExpr::Fixed { value: n.value() as i32 },
                    target: TargetFilter::Player,
                },
                None,
                None,
            ),
        ),
{
    let end = if dot {
        "."@
    } else {
        Seq::empty()
    };
    let d = " damage to target player"@ + end;
    let c = n.text() + d;
    let b = " deals "@ + c;
    let a = subject_text(this, short) + b;
    let line = label + (" — "@ + a);
    reveal_strlit(".");
    reveal_strlit(" damage to target player");
    assert(d[0] == ' ');
    lemma_tag_bullet(line);
    labels_are_passed_over(label, a);
    lemma_subject(this, short, b);
    lemma_tag_deals(c);
    number_laws::written_numbers_are_read(n, d);
    lemma_tag_damage(end);
}

} // verus!
