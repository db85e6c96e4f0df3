//! What mana pays for.
use vstd::prelude::*;

use crate::game::mana_payment;
use crate::types::mana::ManaType;
use crate::types::mana_cost::{ManaCost, ManaUnit};

verus! {

/// How much mana of a type the pool holds.
pub open spec fn held(pool: Seq<ManaUnit>, kind: ManaType) -> nat {
    pool.filter(|u: ManaUnit| u.color == kind).len()
}

proof fn lemma_amount_adds(a: Seq<ManaUnit>, b: Seq<ManaUnit>, kind: ManaType)
    ensures
        mana_payment::amount_of(a + b, kind) == mana_payment::amount_of(a, kind)
            + mana_payment::amount_of(b, kind),
    decreases a.len(),
{
    if a.len() == 0 {
        assert(a + b =~= b);
    } else {
        assert((a + b).drop_first() =~= a.drop_first() + b);
        lemma_amount_adds(a.drop_first(), b, kind);
    }
}

proof fn lemma_held(pool: Seq<ManaUnit>, kind: ManaType)
    ensures
        mana_payment::amount_of(pool, kind) == held(pool, kind),
    decreases pool.len(),
{
    reveal(Seq::filter);
    if pool.len() > 0 {
        let front = pool.drop_last();
        let last = seq![pool.last()];
        lemma_held(front, kind);
        assert(pool =~= front + last);
        lemma_amount_adds(front, last, kind);
        assert(last.drop_first() =~= Seq::empty());
        assert(mana_payment::amount_of(Seq::empty(), kind) == 0);
    }
}

/// A pool can pay a cost so many times exactly if it holds enough mana of each type for the symbols
/// of that type, and enough in all.
pub proof fn what_a_pool_can_pay(pool: Seq<ManaUnit>, cost: ManaCost, times: nat)
    ensures
        mana_payment::payable(pool, cost, times) <==> {
            &&& times * cost.white <= held(pool, ManaType::White)
            &&& times * cost.blue <= held(pool, ManaType::Blue)
            &&& times * cost.black <= held(pool, ManaType::Black)
            &&& times * cost.red <= held(pool, ManaType::Red)
            &&& times * cost.green <= held(pool, ManaType::Green)
            &&& times * cost.colorless <= held(pool, ManaType::Colorless)
            &&& times * (cost.white + cost.blue + cost.black + cost.red + cost.green
                + cost.colorless + cost.generic) <= pool.len()
        },
{
    lemma_held(pool, ManaType::White);
    lemma_held(pool, ManaType::Blue);
    lemma_held(pool, ManaType::Black);
    lemma_held(pool, ManaType::Red);
    lemma_held(pool, ManaType::Green);
    lemma_held(pool, ManaType::Colorless);
}

/// Mana that is taken from a pool was in it, and what is left keeps its order.
pub open spec fn is_left_of(rest: Seq<ManaUnit>, pool: Seq<ManaUnit>) -> bool
    decreases pool.len(),
{
    if pool.len() == 0 {
        rest.len() == 0
    } else {
        ||| is_left_of(rest, pool.drop_first())
        ||| rest.len() > 0 && rest[0] == pool[0] && is_left_of(rest.drop_first(), pool.drop_first())
    }
}

proof fn lemma_all_left(pool: Seq<ManaUnit>)
    ensures
        is_left_of(pool, pool),
    decreases pool.len(),
{
    if pool.len() > 0 {
        lemma_all_left(pool.drop_first());
    }
}

proof fn lemma_left_trans(a: Seq<ManaUnit>, b: Seq<ManaUnit>, c: Seq<ManaUnit>)
    requires
        is_left_of(a, b),
        is_left_of(b, c),
    ensures
        is_left_of(a, c),
    decreases c.len(),
{
    if c.len() == 0 {
    } else if is_left_of(b, c.drop_first()) {
        lemma_left_trans(a, b, c.drop_first());
    } else {
        if is_left_of(a, b.drop_first()) {
            lemma_left_trans(a, b.drop_first(), c.drop_first());
        } else {
            lemma_left_trans(a.drop_first(), b.drop_first(), c.drop_first());
        }
    }
}

proof fn lemma_without(pool: Seq<ManaUnit>, kind: ManaType, n: nat)
    ensures
        is_left_of(mana_payment::without_first(pool, kind, n), pool),
    decreases pool.len(),
{
    if pool.len() > 0 {
        let rest = pool.drop_first();
        if pool[0].color == kind && n > 0 {
            lemma_without(rest, kind, (n - 1) as nat);
        } else {
            lemma_without(rest, kind, n);
            let r = mana_payment::without_first(pool, kind, n);
            assert(r.drop_first() =~= mana_payment::without_first(rest, kind, n));
        }
    }
}

proof fn lemma_skip(pool: Seq<ManaUnit>, n: int)
    requires
        0 <= n <= pool.len(),
    ensures
        is_left_of(pool.skip(n), pool),
    decreases n,
{
    if n == 0 {
        assert(pool.skip(0) =~= pool);
        lemma_all_left(pool);
    } else {
        assert(pool.skip(n) =~= pool.drop_first().skip(n - 1));
        lemma_skip(pool.drop_first(), n - 1);
    }
}

/// A payment only takes mana out of the pool.
pub proof fn payments_only_take(pool: Seq<ManaUnit>, cost: ManaCost, times: nat)
    requires
        mana_payment::payable(pool, cost, times),
    ensures
        is_left_of(mana_payment::paid(pool, cost, times), pool),
        mana_payment::paid(pool, cost, times).len() + times * (cost.white + cost.blue + cost.black
            + cost.red + cost.green + cost.colorless + cost.generic) == pool.len(),
{
    let a = mana_payment::without_first(pool, ManaType::White, times * cost.symbols(ManaType::White));
    let b = mana_payment::without_first(a, ManaType::Blue, times * cost.symbols(ManaType::Blue));
    let c = mana_payment::without_first(b, ManaType::Black, times * cost.symbols(ManaType::Black));
    let d = mana_payment::without_first(c, ManaType::Red, times * cost.symbols(ManaType::Red));
    let e = mana_payment::without_first(d, ManaType::Green, times * cost.symbols(ManaType::Green));
    let f = mana_payment::without_first(
        e,
        ManaType::Colorless,
        times * cost.symbols(ManaType::Colorless),
    );
    lemma_without(pool, ManaType::White, times * cost.symbols(ManaType::White));
    lemma_without(a, ManaType::Blue, times * cost.symbols(ManaType::Blue));
    lemma_without(b, ManaType::Black, times * cost.symbols(ManaType::Black));
    lemma_without(c, ManaType::Red, times * cost.symbols(ManaType::Red));
    lemma_without(d, ManaType::Green, times * cost.symbols(ManaType::Green));
    lemma_without(e, ManaType::Colorless, times * cost.symbols(ManaType::Colorless));
    lemma_left_trans(b, a, pool);
    lemma_left_trans(c, b, pool);
    lemma_left_trans(d, c, pool);
    lemma_left_trans(e, d, pool);
    lemma_left_trans(f, e, pool);
    mana_payment::payment_spends_the_cost(pool, cost, times);
    let generic = times * (cost.generic as nat);
    if generic <= f.len() {
        lemma_skip(f, generic as int);
        lemma_left_trans(f.skip(generic as int), f, pool);
    } else {
        lemma_skip(pool, pool.len() as int);
        assert(pool.skip(pool.len() as int) =~= Seq::empty());
    }
}

/// The mana of a type in the pool, the oldest first.
pub open spec fn of_kind(pool: Seq<ManaUnit>, kind: ManaType) -> Seq<ManaUnit>
    decreases pool.len(),
{
    if pool.len() == 0 {
        Seq::empty()
    } else if pool[0].color == kind {
        seq![pool[0]] + of_kind(pool.drop_first(), kind)
    } else {
        of_kind(pool.drop_first(), kind)
    }
}

proof fn lemma_of_kind_len(pool: Seq<ManaUnit>, kind: ManaType)
    ensures
        of_kind(pool, kind).len() == mana_payment::amount_of(pool, kind),
    decreases pool.len(),
{
    if pool.len() > 0 {
        lemma_of_kind_len(pool.drop_first(), kind);
    }
}

proof fn lemma_kind_left(pool: Seq<ManaUnit>, taken: ManaType, n: nat, kind: ManaType)
    requires
        n <= of_kind(pool, taken).len(),
    ensures
        of_kind(mana_payment::without_first(pool, taken, n), kind) == if kind == taken {
            of_kind(pool, kind).skip(n as int)
        } else {
            of_kind(pool, kind)
        },
    decreases pool.len(),
{
    if pool.len() > 0 {
        let rest = pool.drop_first();
        let r = mana_payment::without_first(pool, taken, n);
        if pool[0].color == taken && n > 0 {
            lemma_kind_left(rest, taken, (n - 1) as nat, kind);
            if kind == taken {
                assert(of_kind(pool, kind).skip(n as int) =~= of_kind(rest, kind).skip(n - 1));
            }
        } else {
            lemma_kind_left(rest, taken, n, kind);
            assert(r.drop_first() =~= mana_payment::without_first(rest, taken, n));
            if kind == taken {
                assert(of_kind(pool, kind).skip(n as int) =~= of_kind(r, kind));
            }
        }
    } else if kind == taken {
        assert(of_kind(pool, kind).skip(n as int) =~= of_kind(pool, kind));
    }
}

/// The symbols of a type are paid with the oldest mana of that type, and with no other mana.
pub proof fn symbols_are_paid_with_the_oldest_mana(
    pool: Seq<ManaUnit>,
    cost: ManaCost,
    times: nat,
    kind: ManaType,
)
    requires
        mana_payment::payable(pool, cost, times),
        cost.generic == 0,
    ensures
        of_kind(mana_payment::paid(pool, cost, times), kind) == of_kind(pool, kind).skip(
            (times * match kind {
                ManaType::White => cost.white,
                ManaType::Blue => cost.blue,
                ManaType::Black => cost.black,
                ManaType::Red => cost.red,
                ManaType::Green => cost.green,
                ManaType::Colorless => cost.colorless,
            }) as int,
        ),
{
    let kw = ManaType::White;
    let ku = ManaType::Blue;
    let kb = ManaType::Black;
    let kr = ManaType::Red;
    let kg = ManaType::Green;
    let kc = ManaType::Colorless;
    lemma_of_kind_len(pool, kw);
    lemma_of_kind_len(pool, ku);
    lemma_of_kind_len(pool, kb);
    lemma_of_kind_len(pool, kr);
    lemma_of_kind_len(pool, kg);
    lemma_of_kind_len(pool, kc);
    let a = mana_payment::without_first(pool, kw, times * cost.symbols(kw));
    lemma_kind_left(pool, kw, times * cost.symbols(kw), kind);
    lemma_kind_left(pool, kw, times * cost.symbols(kw), ku);
    lemma_kind_left(pool, kw, times * cost.symbols(kw), kb);
    lemma_kind_left(pool, kw, times * cost.symbols(kw), kr);
    lemma_kind_left(pool, kw, times * cost.symbols(kw), kg);
    lemma_kind_left(pool, kw, times * cost.symbols(kw), kc);
    let b = mana_payment::without_first(a, ku, times * cost.symbols(ku));
    lemma_kind_left(a, ku, times * cost.symbols(ku), kind);
    lemma_kind_left(a, ku, times * cost.symbols(ku), kb);
    lemma_kind_left(a, ku, times * cost.symbols(ku), kr);
    lemma_kind_left(a, ku, times * cost.symbols(ku), kg);
    lemma_kind_left(a, ku, times * cost.symbols(ku), kc);
    let c = mana_payment::without_first(b, kb, times * cost.symbols(kb));
    lemma_kind_left(b, kb, times * cost.symbols(kb), kind);
    lemma_kind_left(b, kb, times * cost.symbols(kb), kr);
    lemma_kind_left(b, kb, times * cost.symbols(kb), kg);
    lemma_kind_left(b, kb, times * cost.symbols(kb), kc);
    let d = mana_payment::without_first(c, kr, times * cost.symbols(kr));
    lemma_kind_left(c, kr, times * cost.symbols(kr), kind);
    lemma_kind_left(c, kr, times * cost.symbols(kr), kg);
    lemma_kind_left(c, kr, times * cost.symbols(kr), kc);
    let e = mana_payment::without_first(d, kg, times * cost.symbols(kg));
    lemma_kind_left(d, kg, times * cost.symbols(kg), kind);
    lemma_kind_left(d, kg, times * cost.symbols(kg), kc);
    let f = mana_payment::without_first(e, kc, times * cost.symbols(kc));
    lemma_kind_left(e, kc, times * cost.symbols(kc), kind);
    assert(times * (cost.generic as nat) == 0) by (nonlinear_arith)
        requires
            cost.generic == 0,
    ;
    assert(f.skip(0) =~= f);
}

proof fn lemma_nothing_taken(pool: Seq<ManaUnit>, kind: ManaType)
    ensures
        mana_payment::without_first(pool, kind, 0) == pool,
    decreases pool.len(),
{
    if pool.len() > 0 {
        lemma_nothing_taken(pool.drop_first(), kind);
        assert(seq![pool[0]] + pool.drop_first() =~= pool);
    }
}

/// A cost of generic mana only is paid with the oldest mana, of whatever type.
pub proof fn generic_costs_are_paid_with_the_oldest_mana(
    pool: Seq<ManaUnit>,
    amount: u32,
    times: nat,
)
    requires
        times * amount <= pool.len(),
    ensures
        mana_payment::paid(
            pool,
            ManaCost {
                white: 0,
                blue: 0,
                black: 0,
                red: 0,
                green: 0,
                colorless: 0,
                generic: amount,
            },
            times,
        ) == pool.skip(times * amount),
{
    assert(times * 0nat == 0) by (nonlinear_arith);
    lemma_nothing_taken(pool, ManaType::White);
    lemma_nothing_taken(pool, ManaType::Blue);
    lemma_nothing_taken(pool, ManaType::Black);
    lemma_nothing_taken(pool, ManaType::Red);
    lemma_nothing_taken(pool, ManaType::Green);
    lemma_nothing_taken(pool, ManaType::Colorless);
}

} // verus!
