//! Values with a sort key, and comparisons that decide by it.
use std::cmp::Ordering;
use vstd::prelude::*;

use crate::order::key;
use crate::order::key::Key;

verus! {

broadcast use {key::key_cmp_numbers, key::key_cmp_lists};

/// A value whose place in the stable order is given by its sort key.
pub trait StableOrd {
    spec fn key(&self) -> Key;

    fn stable_cmp(&self, other: &Self) -> (o: Ordering)
        ensures
            o == key::key_cmp(self.key(), other.key()),
    ;
}

/// The keys of a sequence of values, in the same positions.
#[verifier::opaque]
pub open spec fn keys_of<T: StableOrd>(s: Seq<T>) -> Seq<Key> {
    Seq::new(s.len(), |i: int| s[i].key())
}

#[verifier::opaque]
pub open spec fn char_keys(s: Seq<char>) -> Seq<Key> {
    Seq::new(s.len(), |i: int| Key::Num(s[i] as int))
}

/// An index as a mathematical integer.
pub open spec fn pos(i: usize) -> int {
    i as int
}

pub open spec fn flag_key(b: bool) -> Key {
    Key::Num(if b { 1 } else { 0 })
}

impl StableOrd for bool {
    open spec fn key(&self) -> Key {
        flag_key(*self)
    }

    fn stable_cmp(&self, other: &Self) -> (o: Ordering) {
        if *self == *other {
            Ordering::Equal
        } else if *other {
            Ordering::Less
        } else {
            Ordering::Greater
        }
    }
}

impl StableOrd for u8 {
    open spec fn key(&self) -> Key {
        Key::Num(*self as int)
    }

    fn stable_cmp(&self, other: &Self) -> (o: Ordering) {
        if *self < *other {
            Ordering::Less
        } else if *self == *other {
            Ordering::Equal
        } else {
            Ordering::Greater
        }
    }
}

impl StableOrd for u16 {
    open spec fn key(&self) -> Key {
        Key::Num(*self as int)
    }

    fn stable_cmp(&self, other: &Self) -> (o: Ordering) {
        if *self < *other {
            Ordering::Less
        } else if *self == *other {
            Ordering::Equal
        } else {
            Ordering::Greater
        }
    }
}

impl StableOrd for u32 {
    open spec fn key(&self) -> Key {
        Key::Num(*self as int)
    }

    fn stable_cmp(&self, other: &Self) -> (o: Ordering) {
        if *self < *other {
            Ordering::Less
        } else if *self == *other {
            Ordering::Equal
        } else {
            Ordering::Greater
        }
    }
}

impl StableOrd for u64 {
    open spec fn key(&self) -> Key {
        Key::Num(*self as int)
    }

    fn stable_cmp(&self, other: &Self) -> (o: Ordering) {
        if *self < *other {
            Ordering::Less
        } else if *self == *other {
            Ordering::Equal
        } else {
            Ordering::Greater
        }
    }
}

impl StableOrd for usize {
    open spec fn key(&self) -> Key {
        Key::Num(*self as int)
    }

    fn stable_cmp(&self, other: &Self) -> (o: Ordering) {
        if *self < *other {
            Ordering::Less
        } else if *self == *other {
            Ordering::Equal
        } else {
            Ordering::Greater
        }
    }
}

impl StableOrd for i32 {
    open spec fn key(&self) -> Key {
        Key::Num(*self as int)
    }

    fn stable_cmp(&self, other: &Self) -> (o: Ordering) {
        if *self < *other {
            Ordering::Less
        } else if *self == *other {
            Ordering::Equal
        } else {
            Ordering::Greater
        }
    }
}

impl StableOrd for char {
    open spec fn key(&self) -> Key {
        Key::Num(*self as int)
    }

    fn stable_cmp(&self, other: &Self) -> (o: Ordering) {
        if *self < *other {
            Ordering::Less
        } else if *self == *other {
            Ordering::Equal
        } else {
            Ordering::Greater
        }
    }
}

/// Strings compare character by character, a proper prefix first.
impl StableOrd for String {
    open spec fn key(&self) -> Key {
        Key::List(char_keys(self@))
    }

    fn stable_cmp(&self, other: &Self) -> (o: Ordering) {
        let a = self.as_str();
        let b = other.as_str();
        let n: usize = a.unicode_len();
        let m: usize = b.unicode_len();
        let mut i: usize = 0;
        proof {
            reveal(char_keys);
        }
        assert(char_keys(a@).skip(0) =~= char_keys(a@));
        assert(char_keys(b@).skip(0) =~= char_keys(b@));
        while i < n && i < m
            invariant
                n == a@.len(),
                m == b@.len(),
                i <= n,
                i <= m,
                self@ == a@,
                other@ == b@,
                key::list_cmp(char_keys(a@), char_keys(b@)) == key::list_cmp(
                    char_keys(a@).skip(pos(i)),
                    char_keys(b@).skip(pos(i)),
                ),
            decreases n - i,
        {
            let ca = a.get_char(i);
            let cb = b.get_char(i);
            proof {
                reveal(char_keys);
            }
            let ghost s = char_keys(a@).skip(pos(i));
            let ghost t = char_keys(b@).skip(pos(i));
            proof {
                assert(s[0] == ca.key() && t[0] == cb.key());
                assert(s.drop_first() =~= char_keys(a@).skip(i + 1));
                assert(t.drop_first() =~= char_keys(b@).skip(i + 1));
            }
            proof {
                key::list_cmp_step(s, t);
            }
            match ca.stable_cmp(&cb) {
                Ordering::Equal => {},
                verdict => {
                    return verdict;
                },
            }
            i = i + 1;
        }
        proof {
            key::list_cmp_empty(char_keys(a@).skip(pos(i)), char_keys(b@).skip(pos(i)));
        }
        n.stable_cmp(&m)
    }
}

/// The key of an enum value: its rank among the variants, then its fields.
#[verifier::opaque]
pub open spec fn tagged(rank: int, fields: Seq<Key>) -> Key {
    Key::List(seq![Key::Num(rank)] + fields)
}

/// Enum values compare by rank, then field by field.
pub proof fn lemma_tagged(p: int, s: Seq<Key>, q: int, t: Seq<Key>)
    ensures
        key::key_cmp(tagged(p, s), tagged(q, t)) == (match key::key_cmp(Key::Num(p), Key::Num(q)) {
            Ordering::Equal => key::list_cmp(s, t),
            o => o,
        }),
        key::key_cmp(Key::Num(p), Key::Num(q)) == Ordering::Equal <==> p == q,
        s.len() == 0 && t.len() == 0 ==> key::list_cmp(s, t) == Ordering::Equal,
{
    if s.len() == 0 && t.len() == 0 {
        key::list_cmp_empty(s, t);
    }
    reveal(tagged);
    lemma_cons(Key::Num(p), Key::Num(q), s, t);
}

impl<T: StableOrd> StableOrd for Option<T> {
    open spec fn key(&self) -> Key {
        match self {
            None => tagged(0, seq![]),
            Some(x) => tagged(1, seq![x.key()]),
        }
    }

    fn stable_cmp(&self, other: &Self) -> (o: Ordering) {
        match (self, other) {
            (None, None) => {
                proof {
                    lemma_tagged(0, seq![], 0, seq![]);
                }
                Ordering::Equal
            },
            (None, Some(b)) => {
                proof {
                    lemma_tagged(0, seq![], 1, seq![b.key()]);
                }
                Ordering::Less
            },
            (Some(a), None) => {
                proof {
                    lemma_tagged(1, seq![a.key()], 0, seq![]);
                }
                Ordering::Greater
            },
            (Some(a), Some(b)) => {
                proof {
                    lemma_tagged(1, seq![a.key()], 1, seq![b.key()]);
                }
                cmp_val1(a, b)
            },
        }
    }
}

/// Two-element lists compare by the first elements, then by the second.
pub proof fn lemma_pair(a0: Key, b0: Key, a1: Key, b1: Key)
    ensures
        key::list_cmp(seq![a0, a1], seq![b0, b1]) == (match key::key_cmp(a0, b0) {
            Ordering::Equal => key::key_cmp(a1, b1),
            o => o,
        }),
{
    lemma_cons(a0, b0, seq![a1], seq![b1]);
    lemma_cons(a1, b1, Seq::empty(), Seq::empty());
    key::list_cmp_empty(Seq::empty(), Seq::empty());
    assert(seq![a0] + seq![a1] =~= seq![a0, a1]);
    assert(seq![b0] + seq![b1] =~= seq![b0, b1]);
    assert(seq![a1] + Seq::<Key>::empty() =~= seq![a1]);
    assert(seq![b1] + Seq::<Key>::empty() =~= seq![b1]);
}

/// Lists that start with the given elements compare by those, then by the rest.
pub proof fn lemma_cons(a0: Key, b0: Key, s: Seq<Key>, t: Seq<Key>)
    ensures
        key::list_cmp(seq![a0] + s, seq![b0] + t) == (match key::key_cmp(a0, b0) {
            Ordering::Equal => key::list_cmp(s, t),
            o => o,
        }),
{
    key::list_cmp_step(seq![a0] + s, seq![b0] + t);
    assert((seq![a0] + s).drop_first() =~= s);
    assert((seq![b0] + t).drop_first() =~= t);
}

impl<T: StableOrd> StableOrd for Vec<T> {
    open spec fn key(&self) -> Key {
        Key::List(keys_of(self@))
    }

    fn stable_cmp(&self, other: &Self) -> (o: Ordering) {
        let n: usize = self.len();
        let m: usize = other.len();
        let mut i: usize = 0;
        proof {
            reveal(keys_of);
        }
        assert(keys_of(self@).skip(0) =~= keys_of(self@));
        assert(keys_of(other@).skip(0) =~= keys_of(other@));
        while i < n && i < m
            invariant
                n == self@.len(),
                m == other@.len(),
                i <= n,
                i <= m,
                key::list_cmp(keys_of(self@), keys_of(other@)) == key::list_cmp(
                    keys_of(self@).skip(pos(i)),
                    keys_of(other@).skip(pos(i)),
                ),
            decreases n - i,
        {
            proof {
                reveal(keys_of);
            }
            let ghost s = keys_of(self@).skip(pos(i));
            let ghost t = keys_of(other@).skip(pos(i));
            proof {
                assert(s[0] == self@[pos(i)].key() && t[0] == other@[pos(i)].key());
                assert(s.drop_first() =~= keys_of(self@).skip(i + 1));
                assert(t.drop_first() =~= keys_of(other@).skip(i + 1));
            }
            proof {
                key::list_cmp_step(s, t);
            }
            match self[i].stable_cmp(&other[i]) {
                Ordering::Equal => {},
                verdict => {
                    return verdict;
                },
            }
            i = i + 1;
        }
        proof {
            key::list_cmp_empty(keys_of(self@).skip(pos(i)), keys_of(other@).skip(pos(i)));
        }
        n.stable_cmp(&m)
    }
}

impl<A: StableOrd, B: StableOrd> StableOrd for (A, B) {
    open spec fn key(&self) -> Key {
        Key::List(seq![self.0.key(), self.1.key()])
    }

    fn stable_cmp(&self, other: &Self) -> (o: Ordering) {
        cmp_val2(&self.0, &other.0, &self.1, &other.1)
    }
}

/// Compares two values of one field.
pub fn cmp_val<T: StableOrd>(a: &T, b: &T) -> (o: Ordering)
    ensures
        o == key::key_cmp(a.key(), b.key()),
{
    a.stable_cmp(b)
}

pub fn cmp_val1<A: StableOrd>(a0: &A, b0: &A) -> (o: Ordering)
    ensures
        o == key::list_cmp(seq![a0.key()], seq![b0.key()]),
{
    proof {
        lemma_cons(a0.key(), b0.key(), Seq::empty(), Seq::empty());
        key::list_cmp_empty(Seq::empty(), Seq::empty());
        assert(seq![a0.key()] + Seq::<Key>::empty() =~= seq![a0.key()]);
        assert(seq![b0.key()] + Seq::<Key>::empty() =~= seq![b0.key()]);
    }
    cmp_val(a0, b0)
}

/// Compares two fields in turn.
pub fn cmp_val2<A: StableOrd, B: StableOrd>(a0: &A, b0: &A, a1: &B, b1: &B) -> (o: Ordering)
    ensures
        o == key::list_cmp(seq![a0.key(), a1.key()], seq![b0.key(), b1.key()]),
{
    proof {
        lemma_pair(a0.key(), b0.key(), a1.key(), b1.key());
    }
    match cmp_val(a0, b0) {
        Ordering::Equal => cmp_val(a1, b1),
        verdict => verdict,
    }
}

/// Compares three fields in turn.
pub fn cmp_val3<A: StableOrd, B: StableOrd, C: StableOrd>(
    a0: &A,
    b0: &A,
    a1: &B,
    b1: &B,
    a2: &C,
    b2: &C,
) -> (o: Ordering)
    ensures
        o == key::list_cmp(
            seq![a0.key(), a1.key(), a2.key()],
            seq![b0.key(), b1.key(), b2.key()],
        ),
{
    proof {
        lemma_cons(
            a0.key(),
            b0.key(),
            seq![a1.key(), a2.key()],
            seq![b1.key(), b2.key()],
        );
        assert(seq![a0.key()] + seq![a1.key(), a2.key()] =~= seq![a0.key(), a1.key(), a2.key()]);
        assert(seq![b0.key()] + seq![b1.key(), b2.key()] =~= seq![b0.key(), b1.key(), b2.key()]);
    }
    match cmp_val(a0, b0) {
        Ordering::Equal => cmp_val2(a1, b1, a2, b2),
        verdict => verdict,
    }
}

/// Compares four fields in turn.
pub fn cmp_val4<A: StableOrd, B: StableOrd, C: StableOrd, D: StableOrd>(
    a0: &A,
    b0: &A,
    a1: &B,
    b1: &B,
    a2: &C,
    b2: &C,
    a3: &D,
    b3: &D,
) -> (o: Ordering)
    ensures
        o == key::list_cmp(
            seq![a0.key(), a1.key(), a2.key(), a3.key()],
            seq![b0.key(), b1.key(), b2.key(), b3.key()],
        ),
{
    proof {
        lemma_cons(
            a0.key(),
            b0.key(),
            seq![a1.key(), a2.key(), a3.key()],
            seq![b1.key(), b2.key(), b3.key()],
        );
        assert(seq![a0.key()] + seq![a1.key(), a2.key(), a3.key()] =~= seq![a0.key(), a1.key(), a2.key(), a3.key()]);
        assert(seq![b0.key()] + seq![b1.key(), b2.key(), b3.key()] =~= seq![b0.key(), b1.key(), b2.key(), b3.key()]);
    }
    match cmp_val(a0, b0) {
        Ordering::Equal => cmp_val3(a1, b1, a2, b2, a3, b3),
        verdict => verdict,
    }
}

/// Compares five fields in turn.
pub fn cmp_val5<A: StableOrd, B: StableOrd, C: StableOrd, D: StableOrd, E: StableOrd>(
    a0: &A,
    b0: &A,
    a1: &B,
    b1: &B,
    a2: &C,
    b2: &C,
    a3: &D,
    b3: &D,
    a4: &E,
    b4: &E,
) -> (o: Ordering)
    ensures
        o == key::list_cmp(
            seq![a0.key(), a1.key(), a2.key(), a3.key(), a4.key()],
            seq![b0.key(), b1.key(), b2.key(), b3.key(), b4.key()],
        ),
{
    proof {
        lemma_cons(
            a0.key(),
            b0.key(),
            seq![a1.key(), a2.key(), a3.key(), a4.key()],
            seq![b1.key(), b2.key(), b3.key(), b4.key()],
        );
        assert(seq![a0.key()] + seq![a1.key(), a2.key(), a3.key(), a4.key()] =~= seq![a0.key(), a1.key(), a2.key(), a3.key(), a4.key()]);
        assert(seq![b0.key()] + seq![b1.key(), b2.key(), b3.key(), b4.key()] =~= seq![b0.key(), b1.key(), b2.key(), b3.key(), b4.key()]);
    }
    match cmp_val(a0, b0) {
        Ordering::Equal => cmp_val4(a1, b1, a2, b2, a3, b3, a4, b4),
        verdict => verdict,
    }
}

} // verus!
