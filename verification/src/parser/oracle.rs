//! The Oracle text of a card, line by line.
//!
//! The lines that are understood: a gift keyword, the doubling of tokens, attacks that opponents
//! are forced to make, and triggers with a repeated payment and its modes. Other lines are passed
//! over.
use std::sync::Arc;
use vstd::prelude::*;

use crate::parser::oracle_effect;
use crate::parser::oracle_gift;
use crate::parser::oracle_gift::GiftWords;
use crate::parser::oracle_trigger;
use crate::parser::primitives;
use crate::text;
use crate::types::ability::{
    AbilityCondition, AbilityDefinition, AbilityKind, Effect, ModalChoice, ModalModel,
};
use crate::types::keywords::Keyword;
use crate::types::mana_cost::ManaCost;
use crate::types::quantity::{QuantityExpr, QuantityRef};
use crate::types::replacements::{ReplacementDefinition, ReplacementEvent, ReplacementOutcome};
use crate::types::statics::{StaticDefinition, StaticMode};
use crate::types::target_filter::{ControllerRef, TargetFilter, TypeFilter, TypedFilter};
use crate::types::triggers::{TriggerDefinition, TriggerMode};

verus! {

/// The abilities that a text gives a card.
#[derive(Debug)]
pub struct ParsedAbilities {
    pub keywords: Vec<Arc<Keyword>>,
    pub replacements: Vec<ReplacementDefinition>,
    pub statics: Vec<Arc<StaticDefinition>>,
    pub triggers: Vec<Arc<TriggerDefinition>>,
}

/// A trigger with a repeated payment and the modes that it buys.
pub struct PaymentWords {
    pub mode: TriggerMode,
    pub cost: ManaCost,
    pub times: u32,
    pub modes: Seq<AbilityDefinition>,
}

/// What a text says.
#[verifier::ext_equal]
pub struct OracleModel {
    pub gifts: Seq<GiftWords>,
    pub doublers: nat,
    pub must_attack: nat,
    pub payments: Seq<PaymentWords>,
}

/// How many characters come before the first line break.
pub open spec fn line_len(rest: Seq<char>) -> nat
    decreases rest.len(),
{
    if rest.len() > 0 && rest[0] != '\n' {
        1 + line_len(rest.drop_first())
    } else {
        0
    }
}

pub open spec fn first_line(rest: Seq<char>) -> Seq<char> {
    rest.take(line_len(rest) as int)
}

/// What follows the first line.
pub open spec fn later_lines(rest: Seq<char>) -> Seq<char> {
    if line_len(rest) < rest.len() {
        rest.skip(line_len(rest) as int + 1)
    } else {
        Seq::empty()
    }
}

/// The modes in the lines that begin the text.
pub open spec fn modes_in(rest: Seq<char>, short: Seq<char>) -> Seq<AbilityDefinition>
    decreases rest.len(),
{
    if rest.len() == 0 {
        Seq::empty()
    } else {
        match oracle_trigger::mode_line(first_line(rest), short) {
            Some(mode) => seq![mode] + modes_in(later_lines(rest), short),
            None => Seq::empty(),
        }
    }
}

/// "If one or more tokens would be created under your control, twice that many tokens are created
/// instead."
pub open spec fn doubler_line(line: Seq<char>) -> bool {
    primitives::stripped(
        line,
        "if one or more tokens would be created under your control, twice that many tokens are created instead"@,
    ) matches Some(rest) && oracle_effect::ended(rest)
}

/// "Creatures your opponents control attack each combat if able."
pub open spec fn must_attack_line(line: Seq<char>) -> bool {
    primitives::stripped(
        line,
        "creatures your opponents control attack each combat if able"@,
    ) matches Some(rest) && oracle_effect::ended(rest)
}

pub open spec fn nothing_said() -> OracleModel {
    OracleModel { gifts: Seq::empty(), doublers: 0, must_attack: 0, payments: Seq::empty() }
}

/// What both texts say, one after the other.
pub open spec fn both(a: OracleModel, b: OracleModel) -> OracleModel {
    OracleModel {
        gifts: a.gifts + b.gifts,
        doublers: a.doublers + b.doublers,
        must_attack: a.must_attack + b.must_attack,
        payments: a.payments + b.payments,
    }
}

/// What one line says, with the lines that follow it.
pub open spec fn line_meaning(line: Seq<char>, later: Seq<char>, short: Seq<char>) -> OracleModel {
    match oracle_gift::gift_line(line) {
        Some(gift) => OracleModel { gifts: seq![gift], ..nothing_said() },
        None => if doubler_line(line) {
            OracleModel { doublers: 1, ..nothing_said() }
        } else if must_attack_line(line) {
            OracleModel { must_attack: 1, ..nothing_said() }
        } else {
            match oracle_trigger::payment_line(line, short) {
                Some((mode, cost, times)) => OracleModel {
                    payments: seq![
                        PaymentWords { mode, cost, times, modes: modes_in(later, short) },
                    ],
                    ..nothing_said()
                },
                None => nothing_said(),
            }
        },
    }
}

/// What a text says of a card with the given short name.
pub open spec fn oracle_meaning(rest: Seq<char>, short: Seq<char>) -> OracleModel
    decreases rest.len(),
{
    if rest.len() == 0 {
        nothing_said()
    } else {
        both(
            line_meaning(first_line(rest), later_lines(rest), short),
            oracle_meaning(later_lines(rest), short),
        )
    }
}

/// Twice as many tokens.
pub open spec fn token_doubler() -> ReplacementDefinition {
    ReplacementDefinition {
        event: ReplacementEvent::CreateToken,
        outcome: ReplacementOutcome::Double,
    }
}

/// The creatures of the controller's opponents attack each combat if able.
pub open spec fn opponents_must_attack(def: StaticDefinition) -> bool {
    &&& def.mode == StaticMode::MustAttack
    &&& def.active_zones@.len() == 0
    &&& def.affected matches Some(TargetFilter::Typed(typed)) && {
        &&& typed.type_filters@ == seq![TypeFilter::Creature]
        &&& typed.controller == Some(ControllerRef::Opponent)
        &&& typed.properties@.len() == 0
    }
}

/// The choice of up to as many of the modes as there were payments, under "when you do".
pub open spec fn mode_choice(a: AbilityDefinition, modes: Seq<AbilityDefinition>) -> bool {
    &&& a.kind == AbilityKind::Triggered
    &&& *a.effect == Effect::Unimplemented
    &&& a.sub_ability is None
    &&& a.condition == Some(AbilityCondition::WhenYouDo)
    &&& a.modal matches Some(modal) && modal@ == (ModalModel {
        min_choices: 0,
        max_choices: modes.len() as usize,
        mode_count: modes.len() as usize,
        dynamic_max_choices: Some(
            QuantityExpr::Ref { qty: QuantityRef::TimesCostPaidThisResolution },
        ),
        mode_costs: Seq::empty(),
    })
    &&& a.mode_abilities matches Some(list) && list@ == modes
    &&& !a.optional
    &&& a.repeat_for is None
}

/// The trigger is the one that the words describe.
pub open spec fn payment_trigger(t: TriggerDefinition, words: PaymentWords) -> bool {
    &&& t.mode == words.mode
    &&& t.execute matches Some(a) && {
        &&& a.kind == AbilityKind::Triggered
        &&& *a.effect == (Effect::PayCost { cost: words.cost })
        &&& a.sub_ability matches Some(sub) && mode_choice(*sub, words.modes)
        &&& a.condition is None
        &&& a.modal is None
        &&& a.mode_abilities is None
        &&& a.optional
        &&& a.repeat_for == Some(oracle_effect::fixed(words.times))
    }
}

/// The abilities are those that the text describes.
pub open spec fn describes(m: OracleModel, p: ParsedAbilities) -> bool {
    &&& p.keywords@.len() == m.gifts.len()
    &&& forall|i: int|
        0 <= i < m.gifts.len() ==> (*#[trigger] p.keywords@[i] matches Keyword::Gift(kind)
            && oracle_gift::gift_is(kind, m.gifts[i]))
    &&& p.replacements@ == Seq::new(m.doublers, |i: int| token_doubler())
    &&& p.statics@.len() == m.must_attack
    &&& forall|i: int|
        0 <= i < p.statics@.len() ==> opponents_must_attack(*#[trigger] p.statics@[i])
    &&& p.triggers@.len() == m.payments.len()
    &&& forall|i: int|
        0 <= i < m.payments.len() ==> payment_trigger(*#[trigger] p.triggers@[i], m.payments[i])
}

/// Where the line that begins at a position ends.
fn line_end(chars: &Vec<char>, at: usize) -> (n: usize)
    requires
        at <= chars.len(),
    ensures
        n == at + line_len(chars@.skip(at as int)),
        n <= chars.len(),
{
    let mut n: usize = at;
    while n < chars.len() && chars[n] != '\n'
        invariant
            at <= n <= chars.len(),
            line_len(chars@.skip(at as int)) == (n - at) + line_len(chars@.skip(n as int)),
        decreases chars.len() - n,
    {
        assert(chars@.skip(n as int).drop_first() =~= chars@.skip(n + 1));
        n = n + 1;
    }
    n
}

/// The line that begins at a position, and where the next one begins.
proof fn lemma_line(chars: Seq<char>, at: int, end: int)
    requires
        0 <= at <= chars.len(),
        end == at + line_len(chars.skip(at)),
        end <= chars.len(),
    ensures
        first_line(chars.skip(at)) == chars.subrange(at, end),
        end < chars.len() ==> later_lines(chars.skip(at)) == chars.skip(end + 1),
        end == chars.len() ==> later_lines(chars.skip(at)) == chars.skip(end),
{
    assert(first_line(chars.skip(at)) =~= chars.subrange(at, end));
    if end < chars.len() {
        assert(later_lines(chars.skip(at)) =~= chars.skip(end + 1));
    } else {
        assert(later_lines(chars.skip(at)) =~= chars.skip(end));
    }
}

fn parse_modes(chars: &Vec<char>, at: usize, short: &Vec<char>) -> (r: Vec<AbilityDefinition>)
    requires
        at <= chars.len(),
    ensures
        r@ == modes_in(chars@.skip(at as int), short@),
{
    let mut modes: Vec<AbilityDefinition> = Vec::new();
    let ghost all = modes_in(chars@.skip(at as int), short@);
    let mut pos: usize = at;
    while pos < chars.len()
        invariant
            pos <= chars.len(),
            all == modes_in(chars@.skip(at as int), short@),
            modes@ + modes_in(chars@.skip(pos as int), short@) == all,
        decreases chars.len() - pos,
    {
        let end: usize = line_end(chars, pos);
        proof {
            lemma_line(chars@, pos as int, end as int);
        }
        match oracle_trigger::parse_mode_line(&text::slice_chars(chars, pos, end), short) {
            None => {
                assert(modes@ =~= all);
                return modes;
            },
            Some(mode) => {
                let ghost before = modes@;
                let ghost later = modes_in(later_lines(chars@.skip(pos as int)), short@);
                modes.push(mode);
                pos = if end < chars.len() {
                    end + 1
                } else {
                    end
                };
                assert(before + (seq![mode] + later) =~= modes@ + later);
            },
        }
    }
    assert(modes@ =~= all);
    modes
}

fn says(line: &Vec<char>, tag: &str) -> (r: bool)
    ensures
        r == (primitives::stripped(line@, tag@) matches Some(rest) && oracle_effect::ended(rest)),
{
    assert(line@.skip(0) =~= line@);
    match primitives::strip(line, 0, tag) {
        None => false,
        Some(n) => n == line.len() || (n == line.len() - 1 && line[n] == '.'),
    }
}

fn must_attack_static() -> (r: StaticDefinition)
    ensures
        opponents_must_attack(r),
{
    StaticDefinition::new(StaticMode::MustAttack).affected(
        TargetFilter::from(TypedFilter::creature().controller(ControllerRef::Opponent)),
    )
}

fn build_payment_trigger(
    mode: TriggerMode,
    cost: ManaCost,
    times: u32,
    modes: Vec<AbilityDefinition>,
) -> (r: TriggerDefinition)
    ensures
        payment_trigger(r, PaymentWords { mode, cost, times, modes: modes@ }),
{
    let count: usize = modes.len();
    let choice = AbilityDefinition::new(AbilityKind::Triggered, Effect::Unimplemented).condition(
        AbilityCondition::WhenYouDo,
    ).modal(
        ModalChoice {
            min_choices: 0,
            max_choices: count,
            mode_count: count,
            dynamic_max_choices: Some(
                QuantityExpr::Ref { qty: QuantityRef::TimesCostPaidThisResolution },
            ),
            mode_costs: Vec::new(),
        },
        modes,
    );
    let execute = AbilityDefinition::new(
        AbilityKind::Triggered,
        Effect::PayCost { cost },
    ).optional().repeat_for(QuantityExpr::Fixed { value: times as i32 }).sub_ability(choice);
    TriggerDefinition { mode, execute: Some(Box::new(execute)) }
}

/// Reads the text of a card with the given name.
pub fn parse_oracle_text(text: &str, card_name: &str) -> (r: ParsedAbilities)
    ensures
        describes(oracle_meaning(text@, oracle_trigger::short_name(card_name@)), r),
{
    let short = oracle_trigger::shorten_name(card_name);
    let chars = text::chars_of(text);
    let mut parsed = ParsedAbilities {
        keywords: Vec::new(),
        replacements: Vec::new(),
        statics: Vec::new(),
        triggers: Vec::new(),
    };
    let ghost whole = oracle_meaning(chars@, short@);
    let ghost mut said = nothing_said();
    let mut pos: usize = 0;
    assert(chars@.skip(0) =~= chars@);
    assert(parsed.replacements@ =~= Seq::new(0, |i: int| token_doubler()));
    assert(both(said, whole) =~= whole);
    while pos < chars.len()
        invariant
            pos <= chars.len(),
            chars@ == text@,
            whole == oracle_meaning(chars@, short@),
            describes(said, parsed),
            both(said, oracle_meaning(chars@.skip(pos as int), short@)) == whole,
        decreases chars.len() - pos,
    {
        let end: usize = line_end(&chars, pos);
        proof {
            lemma_line(chars@, pos as int, end as int);
        }
        let next: usize = if end < chars.len() {
            end + 1
        } else {
            end
        };
        let line = text::slice_chars(&chars, pos, end);
        let ghost rest = chars@.skip(pos as int);
        let ghost meaning = line_meaning(line@, later_lines(rest), short@);
        let ghost before = said;
        if let Some(kind) = oracle_gift::parse_gift_line(text.substring_char(pos, end)) {
            parsed.keywords.push(Arc::new(Keyword::Gift(kind)));
        } else if says(
            &line,
            "if one or more tokens would be created under your control, twice that many tokens are created instead",
        ) {
            parsed.replacements.push(
                ReplacementDefinition {
                    event: ReplacementEvent::CreateToken,
                    outcome: ReplacementOutcome::Double,
                },
            );
        } else if says(&line, "creatures your opponents control attack each combat if able") {
            parsed.statics.push(Arc::new(must_attack_static()));
        } else if let Some((mode, cost, times)) = oracle_trigger::parse_payment_line(
            &line,
            &short,
        ) {
            let modes = parse_modes(&chars, next, &short);
            parsed.triggers.push(Arc::new(build_payment_trigger(mode, cost, times, modes)));
        }
        proof {
            said = both(before, meaning);
            let later = oracle_meaning(later_lines(rest), short@);
            assert(both(before, both(meaning, later)) =~= both(said, later));
            assert(parsed.replacements@ =~= Seq::new(said.doublers, |i: int| token_doubler()));
        }
        pos = next;
    }
    assert(both(said, nothing_said()) =~= said);
    parsed
}

} // verus!
