//! Sort keys: the mathematical model of the stable action order.
//!
//! A key is a number or a list of keys. Keys are compared the way derived
//! orders compare structured values: numbers by size, lists lexicographically,
//! a proper prefix before the longer list.
use std::cmp::Ordering;
use vstd::prelude::*;

verus! {

pub enum Key {
    Num(int),
    List(Seq<Key>),
}

pub open spec fn number_cmp(a: int, b: int) -> Ordering {
    if a < b {
        Ordering::Less
    } else if a == b {
        Ordering::Equal
    } else {
        Ordering::Greater
    }
}

#[verifier::opaque]
pub open spec fn key_cmp(a: Key, b: Key) -> Ordering
    decreases a,
{
    match (a, b) {
        (Key::Num(x), Key::Num(y)) => number_cmp(x, y),
        (Key::Num(_), Key::List(_)) => Ordering::Less,
        (Key::List(_), Key::Num(_)) => Ordering::Greater,
        (Key::List(s), Key::List(t)) => list_cmp(s, t),
    }
}

#[verifier::opaque]
pub open spec fn list_cmp(s: Seq<Key>, t: Seq<Key>) -> Ordering
    decreases s,
{
    if s.len() == 0 {
        if t.len() == 0 {
            Ordering::Equal
        } else {
            Ordering::Less
        }
    } else if t.len() == 0 {
        Ordering::Greater
    } else {
        match key_cmp(s[0], t[0]) {
            Ordering::Equal => list_cmp(s.drop_first(), t.drop_first()),
            o => o,
        }
    }
}

pub open spec fn reverse_cmp(o: Ordering) -> Ordering {
    match o {
        Ordering::Less => Ordering::Greater,
        Ordering::Equal => Ordering::Equal,
        Ordering::Greater => Ordering::Less,
    }
}

/// Numbers compare by size.
pub broadcast proof fn key_cmp_numbers(x: int, y: int)
    ensures
        #[trigger] key_cmp(Key::Num(x), Key::Num(y)) == number_cmp(x, y),
{
    reveal(key_cmp);
    reveal(list_cmp);
}

/// Lists compare lexicographically.
pub broadcast proof fn key_cmp_lists(s: Seq<Key>, t: Seq<Key>)
    ensures
        #[trigger] key_cmp(Key::List(s), Key::List(t)) == list_cmp(s, t),
{
    reveal(key_cmp);
    reveal(list_cmp);
}

/// The empty list is equal to itself and before every other list.
pub proof fn list_cmp_empty(s: Seq<Key>, t: Seq<Key>)
    requires
        s.len() == 0 || t.len() == 0,
    ensures
        list_cmp(s, t) == (if s.len() == t.len() {
            Ordering::Equal
        } else if s.len() == 0 {
            Ordering::Less
        } else {
            Ordering::Greater
        }),
{
    reveal(key_cmp);
    reveal(list_cmp);
}

/// Two non-empty lists compare by their heads, then by their tails.
pub proof fn list_cmp_step(s: Seq<Key>, t: Seq<Key>)
    requires
        s.len() > 0,
        t.len() > 0,
    ensures
        list_cmp(s, t) == (match key_cmp(s[0], t[0]) {
            Ordering::Equal => list_cmp(s.drop_first(), t.drop_first()),
            o => o,
        }),
{
    reveal(key_cmp);
    reveal(list_cmp);
}

/// Every key equals itself in the order.
pub proof fn key_cmp_reflexive(a: Key)
    ensures
        key_cmp(a, a) == Ordering::Equal,
    decreases a,
{
    reveal(key_cmp);
    reveal(list_cmp);
    if let Key::List(s) = a {
        list_cmp_reflexive(s);
    }
}

pub proof fn list_cmp_reflexive(s: Seq<Key>)
    ensures
        list_cmp(s, s) == Ordering::Equal,
    decreases s,
{
    reveal(key_cmp);
    reveal(list_cmp);
    if s.len() > 0 {
        key_cmp_reflexive(s[0]);
        list_cmp_reflexive(s.drop_first());
    }
}

/// Swapping the operands reverses the verdict.
pub proof fn key_cmp_antisymmetric(a: Key, b: Key)
    ensures
        key_cmp(b, a) == reverse_cmp(key_cmp(a, b)),
    decreases a,
{
    reveal(key_cmp);
    reveal(list_cmp);
    if let (Key::List(s), Key::List(t)) = (a, b) {
        list_cmp_antisymmetric(s, t);
    }
}

pub proof fn list_cmp_antisymmetric(s: Seq<Key>, t: Seq<Key>)
    ensures
        list_cmp(t, s) == reverse_cmp(list_cmp(s, t)),
    decreases s,
{
    reveal(key_cmp);
    reveal(list_cmp);
    if s.len() > 0 && t.len() > 0 {
        key_cmp_antisymmetric(s[0], t[0]);
        list_cmp_antisymmetric(s.drop_first(), t.drop_first());
    }
}

/// Only identical keys compare equal.
pub proof fn key_cmp_equal(a: Key, b: Key)
    ensures
        key_cmp(a, b) == Ordering::Equal <==> a == b,
    decreases a,
{
    reveal(key_cmp);
    reveal(list_cmp);
    key_cmp_reflexive(a);
    if let (Key::List(s), Key::List(t)) = (a, b) {
        list_cmp_equal(s, t);
    }
}

pub proof fn list_cmp_equal(s: Seq<Key>, t: Seq<Key>)
    ensures
        list_cmp(s, t) == Ordering::Equal <==> s == t,
    decreases s,
{
    reveal(key_cmp);
    reveal(list_cmp);
    list_cmp_reflexive(s);
    if s.len() > 0 && t.len() > 0 {
        key_cmp_equal(s[0], t[0]);
        list_cmp_equal(s.drop_first(), t.drop_first());
        if list_cmp(s, t) == Ordering::Equal {
            assert(s =~= seq![s[0]] + s.drop_first());
            assert(t =~= seq![t[0]] + t.drop_first());
        }
    } else if s.len() == 0 && t.len() == 0 {
        assert(s =~= t);
    }
}

/// `Less` is transitive.
pub proof fn key_cmp_transitive(a: Key, b: Key, c: Key)
    requires
        key_cmp(a, b) == Ordering::Less,
        key_cmp(b, c) == Ordering::Less,
    ensures
        key_cmp(a, c) == Ordering::Less,
    decreases a,
{
    reveal(key_cmp);
    reveal(list_cmp);
    if let (Key::List(s), Key::List(t), Key::List(u)) = (a, b, c) {
        list_cmp_transitive(s, t, u);
    }
}

pub proof fn list_cmp_transitive(s: Seq<Key>, t: Seq<Key>, u: Seq<Key>)
    requires
        list_cmp(s, t) == Ordering::Less,
        list_cmp(t, u) == Ordering::Less,
    ensures
        list_cmp(s, u) == Ordering::Less,
    decreases s,
{
    reveal(key_cmp);
    reveal(list_cmp);
    if s.len() > 0 && t.len() > 0 && u.len() > 0 {
        key_cmp_equal(s[0], t[0]);
        key_cmp_equal(t[0], u[0]);
        if key_cmp(s[0], t[0]) == Ordering::Less && key_cmp(t[0], u[0]) == Ordering::Less {
            key_cmp_transitive(s[0], t[0], u[0]);
        } else if key_cmp(s[0], t[0]) == Ordering::Equal && key_cmp(t[0], u[0])
            == Ordering::Equal {
            list_cmp_transitive(s.drop_first(), t.drop_first(), u.drop_first());
        }
    }
}

} // verus!
