//! Oracle text of triggered abilities whose cost may be paid several times for as many modes
//! (CR 603.12a, CR 700.2d).
//!
//! "Whenever Hawkeye becomes tapped, you may pay {1} up to three times. When you do, choose up to
//! that many.", followed by one line for each mode.
use vstd::prelude::*;

use crate::parser::oracle_effect;
use crate::parser::primitives;
use crate::text;
use crate::types::ability::{AbilityDefinition, AbilityKind, Effect};
use crate::types::mana_cost::ManaCost;
use crate::types::quantity::QuantityExpr;
use crate::types::target_filter::TargetFilter;
use crate::types::triggers::TriggerMode;

verus! {

/// How many characters come before the first comma.
pub open spec fn comma_index(name: Seq<char>) -> nat
    decreases name.len(),
{
    if name.len() > 0 && name[0] != ',' {
        1 + comma_index(name.drop_first())
    } else {
        0
    }
}

/// What a card calls itself: its name up to a comma, in lower case.
pub open spec fn short_name(name: Seq<char>) -> Seq<char> {
    text::lowered(name.take(comma_index(name) as int))
}

/// "this creature", or the short name of the card.
pub open spec fn subject(rest: Seq<char>, short: Seq<char>) -> Option<Seq<char>> {
    match primitives::stripped(rest, "this creature"@) {
        Some(a) => Some(a),
        None => primitives::stripped(rest, short),
    }
}

/// What follows the first dash in `rest`, or `whole` without one.
pub open spec fn after_dash(rest: Seq<char>, whole: Seq<char>) -> Seq<char>
    decreases rest.len(),
{
    if rest.len() == 0 {
        whole
    } else {
        match primitives::stripped(rest, " — "@) {
            Some(a) => a,
            None => after_dash(rest.drop_first(), whole),
        }
    }
}

/// The text without the ability word or flavor word in front of it (CR 207.2c).
pub open spec fn unlabelled(line: Seq<char>) -> Seq<char> {
    after_dash(line, line)
}

/// "When this creature enters, " or "Whenever ... becomes tapped, ".
pub open spec fn trigger_event(
    rest: Seq<char>,
    short: Seq<char>,
) -> Option<(Seq<char>, TriggerMode)> {
    match primitives::stripped(rest, "when"@) {
        None => None,
        Some(a) => match primitives::stripped(primitives::strip_optional(a, "ever"@), " "@) {
            None => None,
            Some(b) => match subject(b, short) {
                None => None,
                Some(c) => match primitives::stripped(c, " becomes tapped, "@) {
                    Some(d) => Some((d, TriggerMode::Taps)),
                    None => match primitives::stripped(c, " enters, "@) {
                        Some(d) => Some((d, TriggerMode::Enters)),
                        None => None,
                    },
                },
            },
        },
    }
}

/// What stands between the braces of a mana symbol (CR 107.4).
pub open spec fn symbol_body(rest: Seq<char>) -> Option<(Seq<char>, ManaCost)> {
    let none = ManaCost::nothing();
    match primitives::number(rest) {
        Some((a, n)) => Some((a, ManaCost { generic: n, ..none })),
        None => match primitives::stripped(rest, "w"@) {
            Some(a) => Some((a, ManaCost { white: 1, ..none })),
            None => match primitives::stripped(rest, "u"@) {
                Some(a) => Some((a, ManaCost { blue: 1, ..none })),
                None => match primitives::stripped(rest, "b"@) {
                    Some(a) => Some((a, ManaCost { black: 1, ..none })),
                    None => match primitives::stripped(rest, "r"@) {
                        Some(a) => Some((a, ManaCost { red: 1, ..none })),
                        None => match primitives::stripped(rest, "g"@) {
                            Some(a) => Some((a, ManaCost { green: 1, ..none })),
                            None => match primitives::stripped(rest, "c"@) {
                                Some(a) => Some((a, ManaCost { colorless: 1, ..none })),
                                None => None,
                            },
                        },
                    },
                },
            },
        },
    }
}

/// A cost of one mana symbol.
pub open spec fn mana_symbol(rest: Seq<char>) -> Option<(Seq<char>, ManaCost)> {
    match primitives::stripped(rest, "{"@) {
        None => None,
        Some(a) => match symbol_body(a) {
            None => None,
            Some((b, cost)) => match primitives::stripped(b, "}"@) {
                None => None,
                Some(c) => Some((c, cost)),
            },
        },
    }
}

/// "When you do, " or "When you pay this cost one or more times, ".
pub open spec fn when_paid(rest: Seq<char>) -> Option<Seq<char>> {
    match primitives::stripped(rest, "when you do, "@) {
        Some(a) => Some(a),
        None => primitives::stripped(rest, "when you pay this cost one or more times, "@),
    }
}

/// The text is over, but for a period or the dash in front of a list.
pub open spec fn list_follows(rest: Seq<char>) -> bool {
    oracle_effect::ended(rest) || primitives::stripped(rest, " —"@) == Some(Seq::<char>::empty())
}

/// "you may pay {1} up to three times. When you do, choose up to that many."
pub open spec fn payment_offer(rest: Seq<char>) -> Option<(ManaCost, u32)> {
    match primitives::stripped(rest, "you may pay "@) {
        None => None,
        Some(a) => match mana_symbol(a) {
            None => None,
            Some((b, cost)) => match primitives::stripped(b, " up to "@) {
                None => None,
                Some(c) => match primitives::number(c) {
                    None => None,
                    Some((d, times)) => match primitives::stripped(d, " times. "@) {
                        None => None,
                        Some(e) => match when_paid(e) {
                            None => None,
                            Some(f) => match primitives::stripped(f, "choose up to that many"@) {
                                None => None,
                                Some(g) => if list_follows(g) {
                                    Some((cost, times))
                                } else {
                                    None
                                },
                            },
                        },
                    },
                },
            },
        },
    }
}

/// A line with a trigger and a repeated payment.
pub open spec fn payment_line(
    line: Seq<char>,
    short: Seq<char>,
) -> Option<(TriggerMode, ManaCost, u32)> {
    match trigger_event(unlabelled(line), short) {
        None => None,
        Some((rest, mode)) => match payment_offer(rest) {
            None => None,
            Some((cost, times)) => Some((mode, cost, times)),
        },
    }
}

/// "Hawkeye deals 2 damage to target player."
pub open spec fn damage_sentence(rest: Seq<char>, short: Seq<char>) -> Option<u32> {
    match subject(rest, short) {
        None => None,
        Some(a) => match primitives::stripped(a, " deals "@) {
            None => None,
            Some(b) => match primitives::number(b) {
                None => None,
                Some((c, n)) => match primitives::stripped(c, " damage to target player"@) {
                    None => None,
                    Some(d) => if oracle_effect::ended(d) {
                        Some(n)
                    } else {
                        None
                    },
                },
            },
        },
    }
}

/// The line of one mode.
pub open spec fn mode_line(line: Seq<char>, short: Seq<char>) -> Option<AbilityDefinition> {
    match primitives::stripped(line, "• "@) {
        None => None,
        Some(a) => {
            let body = unlabelled(a);
            match damage_sentence(body, short) {
                Some(n) => Some(
                    AbilityDefinition::plain(
                        AbilityKind::Triggered,
                        Effect::DealDamage {
                            amount: oracle_effect::fixed(n),
                            target: TargetFilter::Player,
                        },
                    ),
                ),
                None => Some(oracle_effect::effect_sentence(body, AbilityKind::Triggered)),
            }
        },
    }
}

/// The short name of a card.
pub fn shorten_name(name: &str) -> (r: Vec<char>)
    ensures
        r@ == short_name(name@),
{
    let chars = text::chars_of(name);
    let mut n: usize = 0;
    assert(chars@.skip(0) =~= chars@);
    while n < chars.len() && chars[n] != ','
        invariant
            n <= chars.len(),
            comma_index(chars@) == n + comma_index(chars@.skip(n as int)),
        decreases chars.len() - n,
    {
        assert(chars@.skip(n as int).drop_first() =~= chars@.skip(n + 1));
        n = n + 1;
    }
    let head = text::slice_chars(&chars, 0, n);
    assert(head@ =~= chars@.take(n as int));
    text::lower_chars(&head)
}

fn strip_subject(line: &Vec<char>, at: usize, short: &Vec<char>) -> (r: Option<usize>)
    requires
        at <= line.len(),
    ensures
        match r {
            Some(n) => at <= n <= line.len() && subject(line@.skip(at as int), short@) == Some(
                line@.skip(n as int),
            ),
            None => subject(line@.skip(at as int), short@) is None,
        },
{
    match primitives::strip(line, at, "this creature") {
        Some(n) => Some(n),
        None => primitives::strip_chars(line, at, short),
    }
}

fn skip_label(line: &Vec<char>, at: usize) -> (n: usize)
    requires
        at <= line.len(),
    ensures
        at <= n <= line.len(),
        line@.skip(n as int) == unlabelled(line@.skip(at as int)),
{
    let ghost whole = line@.skip(at as int);
    let mut i: usize = at;
    while i < line.len()
        invariant
            at <= i <= line.len(),
            whole == line@.skip(at as int),
            after_dash(line@.skip(i as int), whole) == unlabelled(whole),
        decreases line.len() - i,
    {
        if let Some(n) = primitives::strip(line, i, " — ") {
            return n;
        }
        assert(line@.skip(i as int).drop_first() =~= line@.skip(i + 1));
        i = i + 1;
    }
    at
}

fn parse_trigger_event(line: &Vec<char>, at: usize, short: &Vec<char>) -> (r: Option<
    (usize, TriggerMode),
>)
    requires
        at <= line.len(),
    ensures
        match r {
            Some((n, m)) => at <= n <= line.len() && trigger_event(
                line@.skip(at as int),
                short@,
            ) == Some((line@.skip(n as int), m)),
            None => trigger_event(line@.skip(at as int), short@) is None,
        },
{
    let a: usize = match primitives::strip(line, at, "when") {
        Some(n) => n,
        None => {
            return None;
        },
    };
    let b: usize = match primitives::strip(line, primitives::strip_opt(line, a, "ever"), " ") {
        Some(n) => n,
        None => {
            return None;
        },
    };
    let c: usize = match strip_subject(line, b, short) {
        Some(n) => n,
        None => {
            return None;
        },
    };
    if let Some(d) = primitives::strip(line, c, " becomes tapped, ") {
        return Some((d, TriggerMode::Taps));
    }
    match primitives::strip(line, c, " enters, ") {
        Some(d) => Some((d, TriggerMode::Enters)),
        None => None,
    }
}

fn parse_symbol_body(line: &Vec<char>, at: usize) -> (r: Option<(usize, ManaCost)>)
    requires
        at <= line.len(),
    ensures
        match r {
            Some((n, c)) => at <= n <= line.len() && symbol_body(line@.skip(at as int)) == Some(
                (line@.skip(n as int), c),
            ),
            None => symbol_body(line@.skip(at as int)) is None,
        },
{
    if let Some((n, amount)) = primitives::parse_number(line, at) {
        return Some((n, ManaCost::generic(amount)));
    }
    let none = ManaCost::zero();
    if let Some(n) = primitives::strip(line, at, "w") {
        return Some((n, ManaCost { white: 1, ..none }));
    }
    if let Some(n) = primitives::strip(line, at, "u") {
        return Some((n, ManaCost { blue: 1, ..none }));
    }
    if let Some(n) = primitives::strip(line, at, "b") {
        return Some((n, ManaCost { black: 1, ..none }));
    }
    if let Some(n) = primitives::strip(line, at, "r") {
        return Some((n, ManaCost { red: 1, ..none }));
    }
    if let Some(n) = primitives::strip(line, at, "g") {
        return Some((n, ManaCost { green: 1, ..none }));
    }
    match primitives::strip(line, at, "c") {
        Some(n) => Some((n, ManaCost { colorless: 1, ..none })),
        None => None,
    }
}

fn parse_mana_symbol(line: &Vec<char>, at: usize) -> (r: Option<(usize, ManaCost)>)
    requires
        at <= line.len(),
    ensures
        match r {
            Some((n, c)) => at <= n <= line.len() && mana_symbol(line@.skip(at as int)) == Some(
                (line@.skip(n as int), c),
            ),
            None => mana_symbol(line@.skip(at as int)) is None,
        },
{
    match primitives::strip(line, at, "{") {
        None => None,
        Some(a) => match parse_symbol_body(line, a) {
            None => None,
            Some((b, cost)) => match primitives::strip(line, b, "}") {
                None => None,
                Some(c) => Some((c, cost)),
            },
        },
    }
}

fn at_end(line: &Vec<char>, at: usize) -> (r: bool)
    requires
        at <= line.len(),
    ensures
        r == oracle_effect::ended(line@.skip(at as int)),
{
    at == line.len() || (at == line.len() - 1 && line[at] == '.')
}

fn at_list(line: &Vec<char>, at: usize) -> (r: bool)
    requires
        at <= line.len(),
    ensures
        r == list_follows(line@.skip(at as int)),
{
    if at_end(line, at) {
        return true;
    }
    match primitives::strip(line, at, " —") {
        None => false,
        Some(n) => {
            assert((n == line.len()) == (line@.skip(n as int) =~= Seq::<char>::empty())) by {
                assert(line@.skip(n as int).len() == line.len() - n);
            }
            n == line.len()
        },
    }
}

fn parse_payment_offer(line: &Vec<char>, at: usize) -> (r: Option<(ManaCost, u32)>)
    requires
        at <= line.len(),
    ensures
        r == payment_offer(line@.skip(at as int)),
{
    let a: usize = match primitives::strip(line, at, "you may pay ") {
        Some(n) => n,
        None => {
            return None;
        },
    };
    let (b, cost) = match parse_mana_symbol(line, a) {
        Some(found) => found,
        None => {
            return None;
        },
    };
    let c: usize = match primitives::strip(line, b, " up to ") {
        Some(n) => n,
        None => {
            return None;
        },
    };
    let (d, times): (usize, u32) = match primitives::parse_number(line, c) {
        Some(found) => found,
        None => {
            return None;
        },
    };
    let e: usize = match primitives::strip(line, d, " times. ") {
        Some(n) => n,
        None => {
            return None;
        },
    };
    let f: usize = match primitives::strip(line, e, "when you do, ") {
        Some(n) => n,
        None => match primitives::strip(line, e, "when you pay this cost one or more times, ") {
            Some(n) => n,
            None => {
                return None;
            },
        },
    };
    match primitives::strip(line, f, "choose up to that many") {
        None => None,
        Some(g) => if at_list(line, g) {
            Some((cost, times))
        } else {
            None
        },
    }
}

/// Reads a line with a trigger and a repeated payment.
pub fn parse_payment_line(line: &Vec<char>, short: &Vec<char>) -> (r: Option<
    (TriggerMode, ManaCost, u32),
>)
    ensures
        r == payment_line(line@, short@),
{
    assert(line@.skip(0) =~= line@);
    let start: usize = skip_label(line, 0);
    match parse_trigger_event(line, start, short) {
        None => None,
        Some((n, mode)) => match parse_payment_offer(line, n) {
            None => None,
            Some((cost, times)) => Some((mode, cost, times)),
        },
    }
}

fn parse_damage_sentence(line: &Vec<char>, at: usize, short: &Vec<char>) -> (r: Option<u32>)
    requires
        at <= line.len(),
    ensures
        r == damage_sentence(line@.skip(at as int), short@),
{
    let a: usize = match strip_subject(line, at, short) {
        Some(n) => n,
        None => {
            return None;
        },
    };
    let b: usize = match primitives::strip(line, a, " deals ") {
        Some(n) => n,
        None => {
            return None;
        },
    };
    let (c, amount): (usize, u32) = match primitives::parse_number(line, b) {
        Some(found) => found,
        None => {
            return None;
        },
    };
    match primitives::strip(line, c, " damage to target player") {
        None => None,
        Some(d) => if at_end(line, d) {
            Some(amount)
        } else {
            None
        },
    }
}

/// Reads the line of one mode.
pub fn parse_mode_line(line: &Vec<char>, short: &Vec<char>) -> (r: Option<AbilityDefinition>)
    ensures
        r == mode_line(line@, short@),
{
    assert(line@.skip(0) =~= line@);
    match primitives::strip(line, 0, "• ") {
        None => None,
        Some(a) => {
            let body: usize = skip_label(line, a);
            match parse_damage_sentence(line, body, short) {
                Some(n) => Some(
                    AbilityDefinition::new(
                        AbilityKind::Triggered,
                        Effect::DealDamage {
                            amount: QuantityExpr::Fixed { value: n as i32 },
                            target: TargetFilter::Player,
                        },
                    ),
                ),
                None => Some(
                    oracle_effect::parse_effect_chain_with_context(
                        line,
                        body,
                        AbilityKind::Triggered,
                    ),
                ),
            }
        },
    }
}

} // verus!
