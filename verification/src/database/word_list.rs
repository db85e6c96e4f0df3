//! Lists of distinct words that are kept in order.
use std::cmp::Ordering;
use vstd::prelude::*;

use crate::order::key;
use crate::order::key::Key;
use crate::order::stable_ord;
use crate::order::stable_ord::StableOrd;
use crate::text;

verus! {

broadcast use {key::key_cmp_numbers, key::key_cmp_lists};

/// How the words of a list follow one another.
#[derive(Clone, Copy, Debug, PartialEq, Eq, Structural)]
pub enum WordOrder {
    /// By their characters.
    Alphabetic,
    /// Longer encodings first, equally long ones by their characters.
    LongestFirst,
}

/// Length of a text in bytes.
pub open spec fn byte_len(s: Seq<char>) -> int {
    vstd::utf8::encode_utf8(s).len() as int
}

/// Where a word belongs: lists are sorted by ascending keys.
pub open spec fn word_key(order: WordOrder, s: Seq<char>) -> Key {
    match order {
        WordOrder::Alphabetic => Key::List(stable_ord::char_keys(s)),
        WordOrder::LongestFirst => Key::List(
            seq![Key::Num(-byte_len(s)), Key::List(stable_ord::char_keys(s))],
        ),
    }
}

/// The texts of a list of strings.
pub open spec fn texts(v: Seq<String>) -> Seq<Seq<char>> {
    Seq::new(v.len(), |i: int| v[i]@)
}

/// Each word stands before the next one in the given order, so none occurs twice.
pub open spec fn ascending(order: WordOrder, words: Seq<Seq<char>>) -> bool {
    forall|i: int, j: int|
        0 <= i < j < words.len() ==> #[trigger] key::key_cmp(
            word_key(order, words[i]),
            word_key(order, words[j]),
        ) == Ordering::Less
}

proof fn lemma_char_keys_injective(s: Seq<char>, t: Seq<char>)
    requires
        stable_ord::char_keys(s) == stable_ord::char_keys(t),
    ensures
        s == t,
{
    reveal(stable_ord::char_keys);
    let a = stable_ord::char_keys(s);
    let b = stable_ord::char_keys(t);
    assert(a.len() == s.len() && b.len() == t.len());
    assert forall|i: int| 0 <= i < s.len() implies s[i] == t[i] by {
        assert(a[i] == b[i]);
    }
    assert(s =~= t);
}

/// Words with the same key are the same word.
pub proof fn word_keys_differ(order: WordOrder, s: Seq<char>, t: Seq<char>)
    requires
        word_key(order, s) == word_key(order, t),
    ensures
        s == t,
{
    match order {
        WordOrder::Alphabetic => {
            lemma_char_keys_injective(s, t);
        },
        WordOrder::LongestFirst => {
            let a = seq![Key::Num(-byte_len(s)), Key::List(stable_ord::char_keys(s))];
            let b = seq![Key::Num(-byte_len(t)), Key::List(stable_ord::char_keys(t))];
            assert(a[1] == b[1]);
            lemma_char_keys_injective(s, t);
        },
    }
}

proof fn lemma_longest_first_step(s: Seq<char>, t: Seq<char>)
    ensures
        key::key_cmp(
            word_key(WordOrder::LongestFirst, s),
            word_key(WordOrder::LongestFirst, t),
        ) == if byte_len(s) != byte_len(t) {
            key::number_cmp(-byte_len(s), -byte_len(t))
        } else {
            key::list_cmp(stable_ord::char_keys(s), stable_ord::char_keys(t))
        },
{
    let a = seq![Key::Num(-byte_len(s)), Key::List(stable_ord::char_keys(s))];
    let b = seq![Key::Num(-byte_len(t)), Key::List(stable_ord::char_keys(t))];
    key::list_cmp_step(a, b);
    key::list_cmp_step(a.drop_first(), b.drop_first());
    key::list_cmp_empty(a.drop_first().drop_first(), b.drop_first().drop_first());
    assert(a.drop_first()[0] == a[1] && b.drop_first()[0] == b[1]);
}

/// Where `a` stands to `b` in the given order.
fn compare_words(order: WordOrder, a: &String, b: &String) -> (o: Ordering)
    ensures
        o == key::key_cmp(word_key(order, a@), word_key(order, b@)),
{
    match order {
        WordOrder::Alphabetic => a.stable_cmp(b),
        WordOrder::LongestFirst => {
            let la: usize = a.as_str().as_bytes().len();
            let lb: usize = b.as_str().as_bytes().len();
            proof {
                lemma_longest_first_step(a@, b@);
            }
            if la > lb {
                Ordering::Less
            } else if la < lb {
                Ordering::Greater
            } else {
                a.stable_cmp(b)
            }
        },
    }
}

/// Whether the words before `at` stand before `w` and the others do not.
spec fn splits(order: WordOrder, words: Seq<Seq<char>>, w: Seq<char>, at: int) -> bool {
    &&& 0 <= at <= words.len()
    &&& forall|i: int|
        0 <= i < at ==> #[trigger] key::key_cmp(word_key(order, words[i]), word_key(order, w))
            == Ordering::Less
    &&& at < words.len() ==> key::key_cmp(word_key(order, words[at]), word_key(order, w))
        == Ordering::Greater
}

/// An ascending list stays ascending when a word comes in at its place.
proof fn lemma_insert_ascending(order: WordOrder, words: Seq<Seq<char>>, w: Seq<char>, at: int)
    requires
        ascending(order, words),
        splits(order, words, w, at),
    ensures
        ascending(order, words.insert(at, w)),
{
    let r = words.insert(at, w);
    assert forall|i: int, j: int| 0 <= i < j < r.len() implies #[trigger] key::key_cmp(
        word_key(order, r[i]),
        word_key(order, r[j]),
    ) == Ordering::Less by {
        let a = word_key(order, r[i]);
        let b = word_key(order, r[j]);
        if j < at {
            assert(key::key_cmp(word_key(order, words[i]), word_key(order, words[j]))
                == Ordering::Less);
        } else if j == at {
            assert(key::key_cmp(word_key(order, words[i]), word_key(order, w)) == Ordering::Less);
        } else if i > at {
            assert(key::key_cmp(word_key(order, words[i - 1]), word_key(order, words[j - 1]))
                == Ordering::Less);
        } else {
            let next = word_key(order, words[at]);
            let own = word_key(order, w);
            key::key_cmp_antisymmetric(next, own);
            if j - 1 > at {
                assert(key::key_cmp(word_key(order, words[at]), word_key(order, words[j - 1]))
                    == Ordering::Less);
                key::key_cmp_transitive(own, next, b);
            }
            if i < at {
                assert(key::key_cmp(word_key(order, words[i]), word_key(order, w))
                    == Ordering::Less);
                key::key_cmp_transitive(a, own, b);
            }
        }
    }
}

/// Puts a word into an ascending list, unless the list holds it already.
pub fn insert_word(order: WordOrder, list: &mut Vec<String>, word: String)
    requires
        ascending(order, texts(old(list)@)),
    ensures
        ascending(order, texts(final(list)@)),
        texts(final(list)@).to_set() == texts(old(list)@).to_set().insert(word@),
{
    let mut at: usize = 0;
    while at < list.len()
        invariant
            at <= list.len(),
            list@ == old(list)@,
            ascending(order, texts(old(list)@)),
            forall|i: int|
                0 <= i < at ==> #[trigger] key::key_cmp(
                    word_key(order, texts(list@)[i]),
                    word_key(order, word@),
                ) == Ordering::Less,
        ensures
            at <= list.len(),
            list@ == old(list)@,
            splits(order, texts(list@), word@, stable_ord::pos(at)),
        decreases list.len() - at,
    {
        match compare_words(order, &list[at], &word) {
            Ordering::Less => {
                at = at + 1;
            },
            Ordering::Equal => {
                proof {
                    key::key_cmp_equal(
                        word_key(order, list@[stable_ord::pos(at)]@),
                        word_key(order, word@),
                    );
                    word_keys_differ(order, list@[stable_ord::pos(at)]@, word@);
                    assert(texts(list@)[stable_ord::pos(at)] == word@);
                    assert(texts(list@).to_set().insert(word@) =~= texts(list@).to_set());
                }
                return ;
            },
            Ordering::Greater => {
                break ;
            },
        }
    }
    proof {
        lemma_insert_ascending(order, texts(list@), word@, stable_ord::pos(at));
    }
    let ghost before = texts(list@);
    let ghost w = word@;
    list.insert(at, word);
    proof {
        let i = stable_ord::pos(at);
        assert(texts(list@) =~= before.insert(i, w));
        lemma_insert_members(before, i, w);
    }
}

proof fn lemma_insert_members(words: Seq<Seq<char>>, at: int, w: Seq<char>)
    requires
        0 <= at <= words.len(),
    ensures
        words.insert(at, w).to_set() == words.to_set().insert(w),
{
    let r = words.insert(at, w);
    assert forall|c: Seq<char>| r.to_set().contains(c) == words.to_set().insert(w).contains(c) by {
        if words.contains(c) {
            let k = choose|k: int| 0 <= k < words.len() && words[k] == c;
            if k < at {
                assert(r[k] == c);
            } else {
                assert(r[k + 1] == c);
            }
        }
        if c == w {
            assert(r[at] == c);
        }
        if r.contains(c) {
            let k = choose|k: int| 0 <= k < r.len() && r[k] == c;
            if k < at {
                assert(words[k] == c);
            } else if k > at {
                assert(words[k - 1] == c);
            }
        }
    }
    assert(r.to_set() =~= words.to_set().insert(w));
}

/// Whether a list holds a word.
pub fn holds_word(list: &Vec<String>, word: &str) -> (r: bool)
    ensures
        r == texts(list@).to_set().contains(word@),
{
    let mut i: usize = 0;
    while i < list.len()
        invariant
            i <= list.len(),
            forall|j: int| 0 <= j < i ==> texts(list@)[j] != word@,
        decreases list.len() - i,
    {
        if text::is_word(&text::chars_of(list[i].as_str()), word) {
            assert(texts(list@)[i as int] == word@);
            return true;
        }
        i = i + 1;
    }
    false
}

proof fn lemma_longer_text_has_more_bytes(s: Seq<char>, t: Seq<char>)
    requires
        s.is_prefix_of(t),
        s.len() < t.len(),
    ensures
        byte_len(s) < byte_len(t),
    decreases s.len(),
{
    if s.len() > 0 {
        assert(s.drop_first().is_prefix_of(t.drop_first()));
        assert(s[0] == t[0]);
        lemma_longer_text_has_more_bytes(s.drop_first(), t.drop_first());
    }
}

/// In a list with the longest words first, a word stands after all the words that begin with it.
pub proof fn longest_match_comes_first(words: Seq<Seq<char>>, i: int, j: int)
    requires
        ascending(WordOrder::LongestFirst, words),
        0 <= i < words.len(),
        0 <= j < words.len(),
        words[i].is_prefix_of(words[j]),
    ensures
        j <= i,
{
    if i < j {
        let a = words[i];
        let b = words[j];
        assert(key::key_cmp(
            word_key(WordOrder::LongestFirst, words[i]),
            word_key(WordOrder::LongestFirst, words[j]),
        ) == Ordering::Less);
        if a.len() == b.len() {
            assert(a =~= b);
            key::key_cmp_reflexive(word_key(WordOrder::LongestFirst, a));
        } else {
            lemma_longer_text_has_more_bytes(a, b);
            lemma_longest_first_step(a, b);
        }
    }
}

/// A set of words, walked in alphabetic order.
#[derive(Clone, Debug)]
pub struct WordSet {
    pub words: Vec<String>,
}

impl View for WordSet {
    type V = Set<Seq<char>>;

    open spec fn view(&self) -> Set<Seq<char>> {
        texts(self.words@).to_set()
    }
}

impl WordSet {
    /// The words are in alphabetic order and none occurs twice.
    pub open spec fn wf(&self) -> bool {
        ascending(WordOrder::Alphabetic, texts(self.words@))
    }

    pub fn new() -> (r: Self)
        ensures
            r.wf(),
            r@ == Set::<Seq<char>>::empty(),
    {
        let r = WordSet { words: Vec::new() };
        assert(r@ =~= Set::<Seq<char>>::empty());
        r
    }

    pub fn insert(&mut self, word: String)
        requires
            old(self).wf(),
        ensures
            final(self).wf(),
            final(self)@ == old(self)@.insert(word@),
    {
        insert_word(WordOrder::Alphabetic, &mut self.words, word);
    }

    pub fn contains(&self, word: &str) -> (r: bool)
        ensures
            r == self@.contains(word@),
    {
        holds_word(&self.words, word)
    }
}

} // verus!
