//! The natural order of values, and that the stable order follows it.
//!
//! What it means that two values are the same, and that one comes before the other, is said here of
//! the values themselves: numbers by size, texts and lists lexicographically by their elements,
//! `None` before `Some`, pairs and fields one after the other.
use std::cmp::Ordering;
use vstd::prelude::*;

use crate::order::key;
use crate::order::key::Key;
use crate::order::stable_ord;
use crate::order::stable_ord::StableOrd;

verus! {

broadcast use {key::key_cmp_numbers, key::key_cmp_lists};

/// The verdict on two values of which it is known whether they are the same and whether the first
/// comes before the second.
pub open spec fn verdict(same: bool, precedes: bool) -> Ordering {
    if same {
        Ordering::Equal
    } else if precedes {
        Ordering::Less
    } else {
        Ordering::Greater
    }
}

/// A value that the stable order puts where its contents put it.
pub trait Natural: StableOrd + Sized {
    /// The contents are equal.
    spec fn same(&self, other: &Self) -> bool;

    /// The contents come before those of the other value.
    spec fn precedes(&self, other: &Self) -> bool;

    /// The stable order decides by the contents.
    proof fn stable_order_is_natural(&self, other: &Self)
        ensures
            key::key_cmp(self.key(), other.key()) == verdict(
                self.same(other),
                self.precedes(other),
            ),
            !(self.same(other) && self.precedes(other)),
    ;
}

/// The first `k` elements of two lists are the same.
pub open spec fn agree<T: Natural>(s: Seq<T>, t: Seq<T>, k: int) -> bool {
    &&& 0 <= k <= s.len()
    &&& k <= t.len()
    &&& forall|i: int| 0 <= i < k ==> #[trigger] s[i].same(&t[i])
}

/// The lists have the same elements in the same places.
pub open spec fn same_list<T: Natural>(s: Seq<T>, t: Seq<T>) -> bool {
    s.len() == t.len() && agree(s, t, s.len() as int)
}

/// At the first place where they differ, the first list has ended or has the smaller element.
pub open spec fn list_precedes<T: Natural>(s: Seq<T>, t: Seq<T>) -> bool {
    exists|k: int| #[trigger]
        agree(s, t, k) && k < t.len() && (k == s.len() || s[k].precedes(&t[k]))
}

proof fn lemma_agree_tails<T: Natural>(s: Seq<T>, t: Seq<T>, k: int)
    requires
        s.len() > 0,
        t.len() > 0,
        s[0].same(&t[0]),
        k >= 1,
    ensures
        agree(s, t, k) == agree(s.drop_first(), t.drop_first(), k - 1),
{
    let s1 = s.drop_first();
    let t1 = t.drop_first();
    if agree(s, t, k) {
        assert forall|i: int| 0 <= i < k - 1 implies #[trigger] s1[i].same(&t1[i]) by {
            assert(s[i + 1].same(&t[i + 1]));
        }
    }
    if agree(s1, t1, k - 1) {
        assert forall|i: int| 0 <= i < k implies #[trigger] s[i].same(&t[i]) by {
            if i > 0 {
                assert(s1[i - 1].same(&t1[i - 1]));
            }
        }
    }
}

proof fn lemma_same_tails<T: Natural>(s: Seq<T>, t: Seq<T>)
    requires
        s.len() > 0,
        t.len() > 0,
        s[0].same(&t[0]),
    ensures
        same_list(s, t) == same_list(s.drop_first(), t.drop_first()),
{
    lemma_agree_tails(s, t, s.len() as int);
}

/// Lists of keys compare as the lists of values do.
pub proof fn lemma_lists<T: Natural>(s: Seq<T>, t: Seq<T>)
    ensures
        key::list_cmp(stable_ord::keys_of(s), stable_ord::keys_of(t)) == verdict(
            same_list(s, t),
            list_precedes(s, t),
        ),
        !(same_list(s, t) && list_precedes(s, t)),
    decreases s.len(),
{
    reveal(stable_ord::keys_of);
    let ks = stable_ord::keys_of(s);
    let kt = stable_ord::keys_of(t);
    if s.len() == 0 || t.len() == 0 {
        key::list_cmp_empty(ks, kt);
        assert(agree(s, t, 0));
    } else {
        let s1 = s.drop_first();
        let t1 = t.drop_first();
        key::list_cmp_step(ks, kt);
        assert(ks.drop_first() =~= stable_ord::keys_of(s1));
        assert(kt.drop_first() =~= stable_ord::keys_of(t1));
        s[0].stable_order_is_natural(&t[0]);
        lemma_lists(s1, t1);
        assert(agree(s, t, 0));
        if s[0].same(&t[0]) {
            lemma_same_tails(s, t);
            if list_precedes(s, t) {
                let k = choose|k: int| #[trigger]
                    agree(s, t, k) && k < t.len() && (k == s.len() || s[k].precedes(&t[k]));
                lemma_agree_tails(s, t, k);
                assert(agree(s1, t1, k - 1));
            }
            if list_precedes(s1, t1) {
                let k = choose|k: int| #[trigger]
                    agree(s1, t1, k) && k < t1.len() && (k == s1.len() || s1[k].precedes(&t1[k]));
                lemma_agree_tails(s, t, k + 1);
                assert(agree(s, t, k + 1));
            }
        } else {
            assert forall|k: int| #[trigger] agree(s, t, k) implies k == 0 by {
                if k > 0 {
                    assert(s[0].same(&t[0]));
                }
            }
        }
    }
}

impl<T: Natural> Natural for Vec<T> {
    open spec fn same(&self, other: &Self) -> bool {
        same_list(self@, other@)
    }

    open spec fn precedes(&self, other: &Self) -> bool {
        list_precedes(self@, other@)
    }

    proof fn stable_order_is_natural(&self, other: &Self) {
        lemma_lists(self@, other@);
    }
}

impl Natural for String {
    open spec fn same(&self, other: &Self) -> bool {
        self@ == other@
    }

    open spec fn precedes(&self, other: &Self) -> bool {
        list_precedes(self@, other@)
    }

    proof fn stable_order_is_natural(&self, other: &Self) {
        reveal(stable_ord::char_keys);
        reveal(stable_ord::keys_of);
        assert(stable_ord::char_keys(self@) =~= stable_ord::keys_of(self@));
        assert(stable_ord::char_keys(other@) =~= stable_ord::keys_of(other@));
        lemma_lists(self@, other@);
        if same_list(self@, other@) {
            assert forall|i: int| 0 <= i < self@.len() implies self@[i] == other@[i] by {
                assert(self@[i].same(&other@[i]));
            }
            assert(self@ =~= other@);
        }
        if self@ == other@ {
            assert(same_list(self@, other@));
        }
    }
}

impl<T: Natural> Natural for Option<T> {
    open spec fn same(&self, other: &Self) -> bool {
        match (self, other) {
            (None, None) => true,
            (Some(a), Some(b)) => a.same(b),
            _ => false,
        }
    }

    open spec fn precedes(&self, other: &Self) -> bool {
        match (self, other) {
            (None, Some(_)) => true,
            (Some(a), Some(b)) => a.precedes(b),
            _ => false,
        }
    }

    proof fn stable_order_is_natural(&self, other: &Self) {
        match (self, other) {
            (None, None) => {
                stable_ord::lemma_tagged(0, seq![], 0, seq![]);
            },
            (None, Some(b)) => {
                stable_ord::lemma_tagged(0, seq![], 1, seq![b.key()]);
            },
            (Some(a), None) => {
                stable_ord::lemma_tagged(1, seq![a.key()], 0, seq![]);
            },
            (Some(a), Some(b)) => {
                stable_ord::lemma_tagged(1, seq![a.key()], 1, seq![b.key()]);
                lemma_fields1(*a, *b);
            },
        }
    }
}

impl<A: Natural, B: Natural> Natural for (A, B) {
    open spec fn same(&self, other: &Self) -> bool {
        self.0.same(&other.0) && self.1.same(&other.1)
    }

    open spec fn precedes(&self, other: &Self) -> bool {
        self.0.precedes(&other.0) || (self.0.same(&other.0) && self.1.precedes(&other.1))
    }

    proof fn stable_order_is_natural(&self, other: &Self) {
        lemma_fields2(self.0, other.0, self.1, other.1);
    }
}

/// The fields after the first one decide where the first ones are the same.
pub proof fn lemma_first_field<A: Natural>(
    a0: A,
    b0: A,
    s: Seq<Key>,
    t: Seq<Key>,
    same: bool,
    precedes: bool,
)
    requires
        key::list_cmp(s, t) == verdict(same, precedes),
        !(same && precedes),
    ensures
        key::list_cmp(seq![a0.key()] + s, seq![b0.key()] + t) == verdict(
            a0.same(&b0) && same,
            a0.precedes(&b0) || (a0.same(&b0) && precedes),
        ),
        !((a0.same(&b0) && same) && (a0.precedes(&b0) || (a0.same(&b0) && precedes))),
{
    a0.stable_order_is_natural(&b0);
    stable_ord::lemma_cons(a0.key(), b0.key(), s, t);
}

/// One field decides alone.
pub proof fn lemma_fields1<A: Natural>(a0: A, b0: A)
    ensures
        key::list_cmp(seq![a0.key()], seq![b0.key()]) == verdict(a0.same(&b0), a0.precedes(&b0)),
        !(a0.same(&b0) && a0.precedes(&b0)),
{
    key::list_cmp_empty(Seq::empty(), Seq::empty());
    lemma_first_field(a0, b0, Seq::empty(), Seq::empty(), true, false);
    assert(seq![a0.key()] + Seq::<Key>::empty() =~= seq![a0.key()]);
    assert(seq![b0.key()] + Seq::<Key>::empty() =~= seq![b0.key()]);
}

/// Two fields decide one after the other.
pub proof fn lemma_fields2<A: Natural, B: Natural>(
    a0: A,
    b0: A,
    a1: B,
    b1: B,
)
    ensures
        key::list_cmp(seq![a0.key(), a1.key()], seq![b0.key(), b1.key()]) == verdict(
            a0.same(&b0) && a1.same(&b1),
            a0.precedes(&b0) || (a0.same(&b0) && (a1.precedes(&b1))),
        ),
        !((a0.same(&b0) && a1.same(&b1)) && (a0.precedes(&b0) || (a0.same(&b0) && (a1.precedes(&b1))))),
{
    lemma_fields1(a1, b1);
    let s = seq![a1.key()];
    let t = seq![b1.key()];
    lemma_first_field(a0, b0, s, t, a1.same(&b1), a1.precedes(&b1));
    assert(seq![a0.key()] + s =~= seq![a0.key(), a1.key()]);
    assert(seq![b0.key()] + t =~= seq![b0.key(), b1.key()]);
}

/// Three fields decide one after the other.
pub proof fn lemma_fields3<A: Natural, B: Natural, C: Natural>(
    a0: A,
    b0: A,
    a1: B,
    b1: B,
    a2: C,
    b2: C,
)
    ensures
        key::list_cmp(seq![a0.key(), a1.key(), a2.key()], seq![b0.key(), b1.key(), b2.key()]) == verdict(
            a0.same(&b0) && a1.same(&b1) && a2.same(&b2),
            a0.precedes(&b0) || (a0.same(&b0) && (a1.precedes(&b1) || (a1.same(&b1)
                && (a2.precedes(&b2))))),
        ),
        !((a0.same(&b0) && a1.same(&b1) && a2.same(&b2)) && (a0.precedes(&b0) || (a0.same(&b0)
            && (a1.precedes(&b1) || (a1.same(&b1) && (a2.precedes(&b2))))))),
{
    lemma_fields2(a1, b1, a2, b2);
    let s = seq![a1.key(), a2.key()];
    let t = seq![b1.key(), b2.key()];
    lemma_first_field(a0, b0, s, t, a1.same(&b1) && a2.same(&b2), a1.precedes(&b1) || (a1.same(&b1)
        && (a2.precedes(&b2))));
    assert(seq![a0.key()] + s =~= seq![a0.key(), a1.key(), a2.key()]);
    assert(seq![b0.key()] + t =~= seq![b0.key(), b1.key(), b2.key()]);
}

/// Four fields decide one after the other.
pub proof fn lemma_fields4<A: Natural, B: Natural, C: Natural, D: Natural>(
    a0: A,
    b0: A,
    a1: B,
    b1: B,
    a2: C,
    b2: C,
    a3: D,
    b3: D,
)
    ensures
        key::list_cmp(seq![a0.key(), a1.key(), a2.key(), a3.key()], seq![b0.key(), b1.key(), b2.key(), b3.key()]) == verdict(
            a0.same(&b0) && a1.same(&b1) && a2.same(&b2) && a3.same(&b3),
            a0.precedes(&b0) || (a0.same(&b0) && (a1.precedes(&b1) || (a1.same(&b1)
                && (a2.precedes(&b2) || (a2.same(&b2) && (a3.precedes(&b3))))))),
        ),
        !((a0.same(&b0) && a1.same(&b1) && a2.same(&b2) && a3.same(&b3)) && (a0.precedes(&b0)
            || (a0.same(&b0) && (a1.precedes(&b1) || (a1.same(&b1) && (a2.precedes(&b2)
            || (a2.same(&b2) && (a3.precedes(&b3))))))))),
{
    lemma_fields3(a1, b1, a2, b2, a3, b3);
    let s = seq![a1.key(), a2.key(), a3.key()];
    let t = seq![b1.key(), b2.key(), b3.key()];
    lemma_first_field(a0, b0, s, t, a1.same(&b1) && a2.same(&b2) && a3.same(&b3), a1.precedes(&b1)
        || (a1.same(&b1) && (a2.precedes(&b2) || (a2.same(&b2) && (a3.precedes(&b3))))));
    assert(seq![a0.key()] + s =~= seq![a0.key(), a1.key(), a2.key(), a3.key()]);
    assert(seq![b0.key()] + t =~= seq![b0.key(), b1.key(), b2.key(), b3.key()]);
}

/// Five fields decide one after the other.
pub proof fn lemma_fields5<A: Natural, B: Natural, C: Natural, D: Natural, E: Natural>(
    a0: A,
    b0: A,
    a1: B,
    b1: B,
    a2: C,
    b2: C,
    a3: D,
    b3: D,
    a4: E,
    b4: E,
)
    ensures
        key::list_cmp(seq![a0.key(), a1.key(), a2.key(), a3.key(), a4.key()], seq![b0.key(), b1.key(), b2.key(), b3.key(), b4.key()]) == verdict(
            a0.same(&b0) && a1.same(&b1) && a2.same(&b2) && a3.same(&b3) && a4.same(&b4),
            a0.precedes(&b0) || (a0.same(&b0) && (a1.precedes(&b1) || (a1.same(&b1)
                && (a2.precedes(&b2) || (a2.same(&b2) && (a3.precedes(&b3) || (a3.same(&b3)
                && (a4.precedes(&b4))))))))),
        ),
        !((a0.same(&b0) && a1.same(&b1) && a2.same(&b2) && a3.same(&b3) && a4.same(&b4))
            && (a0.precedes(&b0) || (a0.same(&b0) && (a1.precedes(&b1) || (a1.same(&b1)
            && (a2.precedes(&b2) || (a2.same(&b2) && (a3.precedes(&b3) || (a3.same(&b3) && (a4.precedes(&b4))))))))))),
{
    lemma_fields4(a1, b1, a2, b2, a3, b3, a4, b4);
    let s = seq![a1.key(), a2.key(), a3.key(), a4.key()];
    let t = seq![b1.key(), b2.key(), b3.key(), b4.key()];
    lemma_first_field(a0, b0, s, t, a1.same(&b1) && a2.same(&b2) && a3.same(&b3)
        && a4.same(&b4), a1.precedes(&b1) || (a1.same(&b1) && (a2.precedes(&b2) || (a2.same(&b2)
        && (a3.precedes(&b3) || (a3.same(&b3) && (a4.precedes(&b4))))))));
    assert(seq![a0.key()] + s =~= seq![a0.key(), a1.key(), a2.key(), a3.key(), a4.key()]);
    assert(seq![b0.key()] + t =~= seq![b0.key(), b1.key(), b2.key(), b3.key(), b4.key()]);
}

impl Natural for u8 {
    open spec fn same(&self, other: &Self) -> bool {
        *self == *other
    }

    open spec fn precedes(&self, other: &Self) -> bool {
        *self < *other
    }

    proof fn stable_order_is_natural(&self, other: &Self) {
    }
}

impl Natural for u16 {
    open spec fn same(&self, other: &Self) -> bool {
        *self == *other
    }

    open spec fn precedes(&self, other: &Self) -> bool {
        *self < *other
    }

    proof fn stable_order_is_natural(&self, other: &Self) {
    }
}

impl Natural for u32 {
    open spec fn same(&self, other: &Self) -> bool {
        *self == *other
    }

    open spec fn precedes(&self, other: &Self) -> bool {
        *self < *other
    }

    proof fn stable_order_is_natural(&self, other: &Self) {
    }
}

impl Natural for u64 {
    open spec fn same(&self, other: &Self) -> bool {
        *self == *other
    }

    open spec fn precedes(&self, other: &Self) -> bool {
        *self < *other
    }

    proof fn stable_order_is_natural(&self, other: &Self) {
    }
}

impl Natural for usize {
    open spec fn same(&self, other: &Self) -> bool {
        *self == *other
    }

    open spec fn precedes(&self, other: &Self) -> bool {
        *self < *other
    }

    proof fn stable_order_is_natural(&self, other: &Self) {
    }
}

impl Natural for i32 {
    open spec fn same(&self, other: &Self) -> bool {
        *self == *other
    }

    open spec fn precedes(&self, other: &Self) -> bool {
        *self < *other
    }

    proof fn stable_order_is_natural(&self, other: &Self) {
    }
}

impl Natural for char {
    open spec fn same(&self, other: &Self) -> bool {
        *self == *other
    }

    open spec fn precedes(&self, other: &Self) -> bool {
        *self < *other
    }

    proof fn stable_order_is_natural(&self, other: &Self) {
    }
}

impl Natural for bool {
    open spec fn same(&self, other: &Self) -> bool {
        *self == *other
    }

    open spec fn precedes(&self, other: &Self) -> bool {
        !*self && *other
    }

    proof fn stable_order_is_natural(&self, other: &Self) {
    }
}

} // verus!
