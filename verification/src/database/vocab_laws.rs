//! What holds of the subtype vocabulary as a whole.
use std::cmp::Ordering;
use vstd::prelude::*;

use crate::database::mtgjson::AtomicCard;
use crate::database::noncreature_subtypes;
use crate::database::subtype_vocab;
use crate::database::word_list;
use crate::database::word_list::WordOrder;
use crate::order::key;
use crate::text;

verus! {

/// No word occurs twice in an ordered list.
pub proof fn words_occur_once(order: WordOrder, words: Seq<Seq<char>>, i: int, j: int)
    requires
        word_list::ascending(order, words),
        0 <= i < words.len(),
        0 <= j < words.len(),
        words[i] == words[j],
    ensures
        i == j,
{
    key::key_cmp_reflexive(word_list::word_key(order, words[i]));
    if i < j {
        assert(key::key_cmp(
            word_list::word_key(order, words[i]),
            word_list::word_key(order, words[j]),
        ) == Ordering::Less);
    }
    if j < i {
        assert(key::key_cmp(
            word_list::word_key(order, words[j]),
            word_list::word_key(order, words[i]),
        ) == Ordering::Less);
    }
}

/// The parser knows every canonical creature subtype, whether or not a card is printed with it.
pub proof fn canonical_subtypes_are_known(creature_subtypes: Seq<Seq<char>>, word: Seq<char>)
    requires
        creature_subtypes.contains(word),
        subtype_vocab::valid_spelling(word),
    ensures
        subtype_vocab::vocabulary(creature_subtypes).contains(word),
{
    assert(creature_subtypes.to_set().contains(word));
}

/// A word of the vocabulary comes from the noncreature tables or is a valid spelling from the list.
pub proof fn known_words_are_subtypes(creature_subtypes: Seq<Seq<char>>, word: Seq<char>)
    requires
        subtype_vocab::vocabulary(creature_subtypes).contains(word),
    ensures
        noncreature_subtypes::noncreature_subtypes().contains(word) || (creature_subtypes.contains(
            word,
        ) && subtype_vocab::valid_spelling(word)),
{
}

/// The face's own type line confirms the word, which is among the face's subtypes.
pub open spec fn confirms(face: AtomicCard, word: Seq<char>) -> bool {
    &&& word_list::texts(face.subtypes@).contains(word)
    &&& face.type_line matches Some(line) && subtype_vocab::corroborated(line@, word)
}

proof fn lemma_face_confirms(faces: Seq<AtomicCard>, word: Seq<char>) -> (i: int)
    requires
        subtype_vocab::faces_subtypes(faces).contains(word),
    ensures
        0 <= i < faces.len(),
        confirms(faces[i], word),
        subtype_vocab::valid_spelling(word),
    decreases faces.len(),
{
    if subtype_vocab::faces_subtypes(faces.drop_last()).contains(word) {
        lemma_face_confirms(faces.drop_last(), word)
    } else {
        faces.len() - 1
    }
}

/// Whatever is harvested is a valid spelling that the type line of some face confirms.
pub proof fn harvested_words_are_confirmed(cards: Seq<(String, Vec<AtomicCard>)>, word: Seq<char>)
    requires
        subtype_vocab::cards_subtypes(cards).contains(word),
    ensures
        subtype_vocab::valid_spelling(word),
        exists|i: int, j: int|
            0 <= i < cards.len() && 0 <= j < cards[i].1@.len() && confirms(
                #[trigger] cards[i].1@[j],
                word,
            ),
    decreases cards.len(),
{
    let front = cards.drop_last();
    if subtype_vocab::cards_subtypes(front).contains(word) {
        harvested_words_are_confirmed(front, word);
        let (i, j) = choose|i: int, j: int|
            0 <= i < front.len() && 0 <= j < front[i].1@.len() && confirms(
                #[trigger] front[i].1@[j],
                word,
            );
        assert(cards[i].1@[j] == front[i].1@[j]);
    } else {
        let j = lemma_face_confirms(cards.last().1@, word);
        assert(confirms(cards[cards.len() - 1].1@[j], word));
    }
}

proof fn lemma_lowered_twice(s: Seq<char>)
    ensures
        text::lowered(text::lowered(s)) == text::lowered(s),
{
    assert(text::lowered(text::lowered(s)) =~= text::lowered(s));
}

proof fn lemma_lowered_start(s: Seq<char>)
    ensures
        text::trimmed_start(text::lowered(s)) == text::lowered(text::trimmed_start(s)),
    decreases s.len(),
{
    if s.len() > 0 {
        assert(text::lowered(s).drop_first() =~= text::lowered(s.drop_first()));
        lemma_lowered_start(s.drop_first());
    }
}

proof fn lemma_lowered_end(s: Seq<char>)
    ensures
        text::trimmed_end(text::lowered(s)) == text::lowered(text::trimmed_end(s)),
    decreases s.len(),
{
    if s.len() > 0 {
        assert(text::lowered(s).drop_last() =~= text::lowered(s.drop_last()));
        lemma_lowered_end(s.drop_last());
    }
}

proof fn lemma_lowered_dash(s: Seq<char>, from: int)
    requires
        0 <= from,
    ensures
        subtype_vocab::next_index(text::lowered(s), '—', from) == subtype_vocab::next_index(
            s,
            '—',
            from,
        ),
        from <= s.len() ==> from <= subtype_vocab::next_index(s, '—', from) <= s.len(),
    decreases s.len() - from,
{
    if from < s.len() {
        lemma_lowered_dash(s, from + 1);
    }
}

/// Folding the case of a type line and of a subtype does not change whether one confirms the other.
proof fn lemma_lowered_line(line: Seq<char>, subtype: Seq<char>)
    ensures
        subtype_vocab::corroborated(text::lowered(line), text::lowered(subtype))
            == subtype_vocab::corroborated(line, subtype),
{
    let dash = subtype_vocab::next_index(line, '—', 0);
    lemma_lowered_dash(line, 0);
    lemma_lowered_dash(line, dash + 1);
    lemma_lowered_twice(subtype);
    if dash < line.len() {
        let end = subtype_vocab::next_index(line, '—', dash + 1);
        let part = line.subrange(dash + 1, end);
        assert(text::lowered(line).subrange(dash + 1, end) =~= text::lowered(part));
        lemma_lowered_start(part);
        lemma_lowered_end(text::trimmed_start(part));
        lemma_lowered_twice(text::trimmed(part));
    }
}

/// Whether a type line confirms a subtype does not depend on the ASCII case of either.
pub proof fn confirmation_ignores_case(
    line: Seq<char>,
    other_line: Seq<char>,
    subtype: Seq<char>,
    other_subtype: Seq<char>,
)
    requires
        text::lowered(line) == text::lowered(other_line),
        text::lowered(subtype) == text::lowered(other_subtype),
    ensures
        subtype_vocab::corroborated(line, subtype) == subtype_vocab::corroborated(
            other_line,
            other_subtype,
        ),
{
    lemma_lowered_line(line, subtype);
    lemma_lowered_line(other_line, other_subtype);
}

} // verus!
