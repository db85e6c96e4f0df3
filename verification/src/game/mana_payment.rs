//! Paying mana costs from a pool (CR 118).
use vstd::prelude::*;

use crate::types::mana::ManaType;
use crate::types::mana_cost::{ManaCost, ManaUnit};

verus! {

/// How much mana of one type a pool holds.
pub open spec fn amount_of(pool: Seq<ManaUnit>, kind: ManaType) -> nat
    decreases pool.len(),
{
    if pool.len() == 0 {
        0
    } else {
        amount_of(pool.drop_first(), kind) + (if pool[0].color == kind {
            1nat
        } else {
            0
        })
    }
}

/// The pool holds the symbols of one type that `times` payments of the cost need.
pub open spec fn covers(pool: Seq<ManaUnit>, cost: ManaCost, times: nat, kind: ManaType) -> bool {
    times * cost.symbols(kind) <= amount_of(pool, kind)
}

/// The pool can pay the cost `times` times over.
pub open spec fn payable(pool: Seq<ManaUnit>, cost: ManaCost, times: nat) -> bool {
    &&& covers(pool, cost, times, ManaType::White)
    &&& covers(pool, cost, times, ManaType::Blue)
    &&& covers(pool, cost, times, ManaType::Black)
    &&& covers(pool, cost, times, ManaType::Red)
    &&& covers(pool, cost, times, ManaType::Green)
    &&& covers(pool, cost, times, ManaType::Colorless)
    &&& times * cost.total() <= pool.len()
}

/// The pool without its first `n` mana of one type.
pub open spec fn without_first(pool: Seq<ManaUnit>, kind: ManaType, n: nat) -> Seq<ManaUnit>
    decreases pool.len(),
{
    if pool.len() == 0 {
        pool
    } else if pool[0].color == kind && n > 0 {
        without_first(pool.drop_first(), kind, (n - 1) as nat)
    } else {
        seq![pool[0]] + without_first(pool.drop_first(), kind, n)
    }
}

/// What is left of a pool after `times` payments of a cost: the oldest mana of each colored symbol
/// goes first, then the oldest of the rest for generic mana.
pub open spec fn paid(pool: Seq<ManaUnit>, cost: ManaCost, times: nat) -> Seq<ManaUnit> {
    let a = without_first(pool, ManaType::White, times * cost.symbols(ManaType::White));
    let b = without_first(a, ManaType::Blue, times * cost.symbols(ManaType::Blue));
    let c = without_first(b, ManaType::Black, times * cost.symbols(ManaType::Black));
    let d = without_first(c, ManaType::Red, times * cost.symbols(ManaType::Red));
    let e = without_first(d, ManaType::Green, times * cost.symbols(ManaType::Green));
    let f = without_first(e, ManaType::Colorless, times * cost.symbols(ManaType::Colorless));
    let generic = times * (cost.generic as nat);
    if generic <= f.len() {
        f.skip(generic as int)
    } else {
        Seq::empty()
    }
}

/// The most payments, up to `limit`, that a pool can make.
pub open spec fn affordable(pool: Seq<ManaUnit>, cost: ManaCost, limit: nat) -> nat
    decreases limit,
{
    if limit == 0 || payable(pool, cost, limit) {
        limit
    } else {
        affordable(pool, cost, (limit - 1) as nat)
    }
}

fn count_of(pool: &Vec<ManaUnit>, kind: ManaType) -> (r: usize)
    ensures
        r == amount_of(pool@, kind),
{
    let mut r: usize = 0;
    let mut i: usize = 0;
    assert(pool@.skip(0) =~= pool@);
    while i < pool.len()
        invariant
            i <= pool.len(),
            r <= i,
            r + amount_of(pool@.skip(i as int), kind) == amount_of(pool@, kind),
        decreases pool.len() - i,
    {
        assert(pool@.skip(i as int).drop_first() =~= pool@.skip(i + 1));
        if pool[i].color == kind {
            r = r + 1;
        }
        i = i + 1;
    }
    r
}

fn covers_type(pool: &Vec<ManaUnit>, cost: &ManaCost, times: u32, kind: ManaType) -> (r: bool)
    ensures
        r == covers(pool@, *cost, times as nat, kind),
{
    let symbols: u32 = cost.symbols_of(kind);
    assert(0 <= times * symbols <= 0xffff_ffff_ffff_ffff) by (nonlinear_arith)
        requires
            0 <= times <= 0xffff_ffff,
            0 <= symbols <= 0xffff_ffff,
    ;
    let need: u128 = times as u128 * symbols as u128;
    need <= count_of(pool, kind) as u128
}

/// Whether a pool can pay a cost `times` times over.
pub fn can_pay(pool: &Vec<ManaUnit>, cost: &ManaCost, times: u32) -> (r: bool)
    ensures
        r == payable(pool@, *cost, times as nat),
{
    let total: u64 = cost.white as u64 + cost.blue as u64 + cost.black as u64 + cost.red as u64
        + cost.green as u64 + cost.colorless as u64 + cost.generic as u64;
    assert(0 <= times * total <= 0xffff_ffff_ffff_ffff_ffff) by (nonlinear_arith)
        requires
            0 <= times <= 0xffff_ffff,
            0 <= total <= 0xffff_ffff_ffff,
    ;
    let all: u128 = times as u128 * total as u128;
    covers_type(pool, cost, times, ManaType::White) && covers_type(
        pool,
        cost,
        times,
        ManaType::Blue,
    ) && covers_type(pool, cost, times, ManaType::Black) && covers_type(
        pool,
        cost,
        times,
        ManaType::Red,
    ) && covers_type(pool, cost, times, ManaType::Green) && covers_type(
        pool,
        cost,
        times,
        ManaType::Colorless,
    ) && all <= pool.len() as u128
}

/// The most payments, up to `limit`, that a pool can make.
pub fn affordable_times(pool: &Vec<ManaUnit>, cost: &ManaCost, limit: u32) -> (r: u32)
    ensures
        r == affordable(pool@, *cost, limit as nat),
        r <= limit,
{
    let mut r: u32 = limit;
    while r > 0 && !can_pay(pool, cost, r)
        invariant
            r <= limit,
            affordable(pool@, *cost, r as nat) == affordable(pool@, *cost, limit as nat),
        decreases r,
    {
        r = r - 1;
    }
    r
}

fn remove_first(pool: &Vec<ManaUnit>, kind: ManaType, n: u64) -> (r: Vec<ManaUnit>)
    ensures
        r@ == without_first(pool@, kind, n as nat),
{
    let mut r: Vec<ManaUnit> = Vec::new();
    let mut left: u64 = n;
    let mut i: usize = 0;
    assert(pool@.skip(0) =~= pool@);
    assert(without_first(pool@, kind, n as nat) =~= r@ + without_first(
        pool@.skip(0),
        kind,
        left as nat,
    ));
    while i < pool.len()
        invariant
            i <= pool.len(),
            without_first(pool@, kind, n as nat) == r@ + without_first(
                pool@.skip(i as int),
                kind,
                left as nat,
            ),
        decreases pool.len() - i,
    {
        let ghost rest = pool@.skip(i as int);
        assert(rest.drop_first() =~= pool@.skip(i + 1));
        let u = pool[i];
        if u.color == kind && left > 0 {
            left = left - 1;
        } else {
            let ghost before = r@;
            r.push(u);
            assert(before + (seq![rest[0]] + without_first(rest.drop_first(), kind, left as nat))
                =~= r@ + without_first(rest.drop_first(), kind, left as nat));
        }
        i = i + 1;
    }
    assert(r@ + without_first(pool@.skip(i as int), kind, left as nat) =~= r@);
    r
}

fn symbols_times(cost: &ManaCost, times: u32, kind: ManaType) -> (r: u64)
    ensures
        r == times as nat * cost.symbols(kind),
{
    let symbols: u32 = cost.symbols_of(kind);
    assert(0 <= times * symbols <= 0xffff_ffff_ffff_ffff) by (nonlinear_arith)
        requires
            0 <= times <= 0xffff_ffff,
            0 <= symbols <= 0xffff_ffff,
    ;
    times as u64 * symbols as u64
}

/// Pays a cost `times` times over and hands back what is left of the pool.
pub fn pay(pool: &Vec<ManaUnit>, cost: &ManaCost, times: u32) -> (r: Vec<ManaUnit>)
    ensures
        r@ == paid(pool@, *cost, times as nat),
{
    let a = remove_first(pool, ManaType::White, symbols_times(cost, times, ManaType::White));
    let b = remove_first(&a, ManaType::Blue, symbols_times(cost, times, ManaType::Blue));
    let c = remove_first(&b, ManaType::Black, symbols_times(cost, times, ManaType::Black));
    let d = remove_first(&c, ManaType::Red, symbols_times(cost, times, ManaType::Red));
    let e = remove_first(&d, ManaType::Green, symbols_times(cost, times, ManaType::Green));
    let f = remove_first(&e, ManaType::Colorless, symbols_times(cost, times, ManaType::Colorless));
    assert(0 <= times * cost.generic <= 0xffff_ffff_ffff_ffff) by (nonlinear_arith)
        requires
            0 <= times <= 0xffff_ffff,
            0 <= cost.generic <= 0xffff_ffff,
    ;
    let generic: u64 = times as u64 * cost.generic as u64;
    let mut r: Vec<ManaUnit> = Vec::new();
    if generic <= f.len() as u64 {
        let mut i: usize = generic as usize;
        while i < f.len()
            invariant
                generic <= i <= f.len(),
                r@ == f@.subrange(generic as int, i as int),
            decreases f.len() - i,
        {
            r.push(f[i]);
            i = i + 1;
            assert(f@.subrange(generic as int, i as int) =~= f@.subrange(
                generic as int,
                i - 1,
            ).push(f@[i - 1]));
        }
        assert(f@.subrange(generic as int, i as int) =~= f@.skip(generic as int));
    }
    r
}

proof fn lemma_without_first(pool: Seq<ManaUnit>, kind: ManaType, n: nat)
    requires
        n <= amount_of(pool, kind),
    ensures
        without_first(pool, kind, n).len() + n == pool.len(),
        forall|other: ManaType|
            other != kind ==> #[trigger] amount_of(without_first(pool, kind, n), other)
                == amount_of(pool, other),
    decreases pool.len(),
{
    if pool.len() > 0 {
        let rest = pool.drop_first();
        if pool[0].color == kind && n > 0 {
            lemma_without_first(rest, kind, (n - 1) as nat);
        } else {
            lemma_without_first(rest, kind, n);
            let w = without_first(rest, kind, n);
            assert((seq![pool[0]] + w).drop_first() =~= w);
            assert forall|other: ManaType| other != kind implies #[trigger] amount_of(
                without_first(pool, kind, n),
                other,
            ) == amount_of(pool, other) by {
                assert(amount_of(w, other) == amount_of(rest, other));
            }
        }
    }
}

/// A payment spends exactly the mana of its cost, as often as it is paid.
pub proof fn payment_spends_the_cost(pool: Seq<ManaUnit>, cost: ManaCost, times: nat)
    requires
        payable(pool, cost, times),
    ensures
        paid(pool, cost, times).len() + times * cost.total() == pool.len(),
{
    let a = without_first(pool, ManaType::White, times * cost.symbols(ManaType::White));
    let b = without_first(a, ManaType::Blue, times * cost.symbols(ManaType::Blue));
    let c = without_first(b, ManaType::Black, times * cost.symbols(ManaType::Black));
    let d = without_first(c, ManaType::Red, times * cost.symbols(ManaType::Red));
    let e = without_first(d, ManaType::Green, times * cost.symbols(ManaType::Green));
    lemma_without_first(pool, ManaType::White, times * cost.symbols(ManaType::White));
    lemma_without_first(a, ManaType::Blue, times * cost.symbols(ManaType::Blue));
    lemma_without_first(b, ManaType::Black, times * cost.symbols(ManaType::Black));
    lemma_without_first(c, ManaType::Red, times * cost.symbols(ManaType::Red));
    lemma_without_first(d, ManaType::Green, times * cost.symbols(ManaType::Green));
    lemma_without_first(e, ManaType::Colorless, times * cost.symbols(ManaType::Colorless));
    let (w, u, k, r, g, z, n) = (
        cost.white as nat,
        cost.blue as nat,
        cost.black as nat,
        cost.red as nat,
        cost.green as nat,
        cost.colorless as nat,
        cost.generic as nat,
    );
    assert(times * (w + u + k + r + g + z + n) == times * w + times * u + times * k + times * r
        + times * g + times * z + times * n) by (nonlinear_arith);
}

/// What can be paid some number of times can be paid any smaller number of times.
pub proof fn fewer_payments_are_payable(pool: Seq<ManaUnit>, cost: ManaCost, fewer: nat, times: nat)
    requires
        payable(pool, cost, times),
        fewer <= times,
    ensures
        payable(pool, cost, fewer),
{
    assert forall|c: nat| fewer * c <= #[trigger] (times * c) by {
        assert(fewer * c <= times * c) by (nonlinear_arith)
            requires
                fewer <= times,
        ;
    }
    assert(fewer * cost.symbols(ManaType::White) <= times * cost.symbols(ManaType::White));
    assert(fewer * cost.symbols(ManaType::Blue) <= times * cost.symbols(ManaType::Blue));
    assert(fewer * cost.symbols(ManaType::Black) <= times * cost.symbols(ManaType::Black));
    assert(fewer * cost.symbols(ManaType::Red) <= times * cost.symbols(ManaType::Red));
    assert(fewer * cost.symbols(ManaType::Green) <= times * cost.symbols(ManaType::Green));
    assert(fewer * cost.symbols(ManaType::Colorless) <= times * cost.symbols(ManaType::Colorless));
    assert(fewer * cost.total() <= times * cost.total());
}

/// Within the limit, a cost can be paid some number of times exactly if that number is no larger
/// than the affordable one.
pub proof fn affordable_is_the_most(pool: Seq<ManaUnit>, cost: ManaCost, limit: nat, times: nat)
    requires
        times <= limit,
    ensures
        payable(pool, cost, times) == (times <= affordable(pool, cost, limit)),
    decreases limit,
{
    if limit == 0 {
        assert forall|c: nat| #[trigger] (0nat * c) == 0 by {
            assert(0nat * c == 0) by (nonlinear_arith);
        }
        assert(payable(pool, cost, 0));
    } else if payable(pool, cost, limit) {
        fewer_payments_are_payable(pool, cost, times, limit);
    } else if times < limit {
        affordable_is_the_most(pool, cost, (limit - 1) as nat, times);
    } else {
        lemma_affordable_bound(pool, cost, (limit - 1) as nat);
    }
}

pub proof fn lemma_affordable_bound(pool: Seq<ManaUnit>, cost: ManaCost, limit: nat)
    ensures
        affordable(pool, cost, limit) <= limit,
    decreases limit,
{
    if limit > 0 && !payable(pool, cost, limit) {
        lemma_affordable_bound(pool, cost, (limit - 1) as nat);
    }
}

} // verus!
