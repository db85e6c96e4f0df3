//! Validated subtype vocabulary for Oracle text (CR 205.3).
//!
//! Creature subtypes come from `CardTypes.json`, noncreature subtypes from fixed tables. The
//! faces in `AtomicCards.json` serve for cross-checks only.
use vstd::prelude::*;

use crate::database::mtgjson::{AtomicCard, AtomicCardsFile, CardTypesFile};
use crate::database::noncreature_subtypes;
use crate::database::word_list;
use crate::database::word_list::{WordOrder, WordSet};
use crate::text;

verus! {

/// Function words and garbage tokens that are no subtypes.
pub open spec fn known_garbage(s: Seq<char>) -> bool {
    ||| s == "The"@
    ||| s == "You"@
    ||| s == "and"@
    ||| s == "or"@
    ||| s == "and/or"@
    ||| s == "of"@
    ||| s == "Baddest,"@
    ||| s == "Elemental?"@
}

/// A character that may follow the first one of a subtype.
pub open spec fn subtype_char(c: char) -> bool {
    text::ascii_letter(c) || c == ' ' || c == '-' || c == '\''
}

/// A text that, apart from surrounding white space, can be the name of a subtype.
pub open spec fn valid_spelling(candidate: Seq<char>) -> bool {
    let s = text::trimmed(candidate);
    &&& 0 < s.len() <= 48
    &&& text::ascii_upper(s[0])
    &&& forall|i: int| 1 <= i < s.len() ==> subtype_char(#[trigger] s[i])
    &&& !known_garbage(s)
}

/// Lexical guard for subtype spellings (CR 205.3).
pub fn is_valid_subtype_spelling(candidate: &str) -> (r: bool)
    ensures
        r == valid_spelling(candidate@),
{
    let all = text::chars_of(candidate);
    let (from, to): (usize, usize) = text::trim_bounds(&all, 0, all.len());
    assert(all@.subrange(0, all.len() as int) =~= candidate@);
    let s = text::slice_chars(&all, from, to);
    if s.len() == 0 || s.len() > 48 {
        return false;
    }
    let first = s[0];
    if !('A' <= first && first <= 'Z') {
        return false;
    }
    let mut i: usize = 1;
    while i < s.len()
        invariant
            1 <= i <= s.len(),
            s@ == text::trimmed(candidate@),
            forall|j: int| 1 <= j < i ==> subtype_char(#[trigger] s@[j]),
        decreases s.len() - i,
    {
        let c = s[i];
        if !(('a' <= c && c <= 'z') || ('A' <= c && c <= 'Z') || c == ' ' || c == '-' || c == '\'') {
            return false;
        }
        i = i + 1;
    }
    !(text::is_word(&s, "The") || text::is_word(&s, "You") || text::is_word(&s, "and")
        || text::is_word(&s, "or") || text::is_word(&s, "and/or") || text::is_word(&s, "of")
        || text::is_word(&s, "Baddest,") || text::is_word(&s, "Elemental?"))
}

/// Position of the first `c` at or after `from`, the length of the text if there is none.
pub open spec fn next_index(s: Seq<char>, c: char, from: int) -> int
    decreases s.len() - from,
{
    if from >= s.len() {
        s.len() as int
    } else if s[from] == c {
        from
    } else {
        next_index(s, c, from + 1)
    }
}

fn find_char(s: &Vec<char>, c: char, from: usize) -> (r: usize)
    requires
        from <= s.len(),
    ensures
        r == next_index(s@, c, from as int),
        from <= r <= s.len(),
        r < s.len() ==> s@[r as int] == c,
{
    let mut i: usize = from;
    while i < s.len() && s[i] != c
        invariant
            from <= i <= s.len(),
            next_index(s@, c, i as int) == next_index(s@, c, from as int),
        decreases s.len() - i,
    {
        i = i + 1;
    }
    i
}

/// What stands between the first and the second em dash of a type line, without surrounding
/// white space; `None` without an em dash or where nothing is left.
pub open spec fn subtype_section(type_line: Seq<char>) -> Option<Seq<char>> {
    let dash = next_index(type_line, '—', 0);
    let end = next_index(type_line, '—', dash + 1);
    let section = text::trimmed(type_line.subrange(dash + 1, end));
    if dash < type_line.len() && section.len() > 0 {
        Some(section)
    } else {
        None
    }
}

/// The subtype section of a printed type line.
pub fn subtype_section_from_type_line(type_line: &str) -> (r: Option<&str>)
    ensures
        match r {
            Some(section) => subtype_section(type_line@) == Some(section@),
            None => subtype_section(type_line@) is None,
        },
{
    let line = text::chars_of(type_line);
    let dash: usize = find_char(&line, '—', 0);
    if dash == line.len() {
        return None;
    }
    let end: usize = find_char(&line, '—', dash + 1);
    let (a, b): (usize, usize) = text::trim_bounds(&line, dash + 1, end);
    if a == b {
        return None;
    }
    Some(type_line.substring_char(a, b))
}

/// The subtype appears in the subtype section of the type line, ASCII case ignored.
pub open spec fn corroborated(type_line: Seq<char>, subtype: Seq<char>) -> bool {
    match subtype_section(type_line) {
        Some(section) => text::has_substring(text::lowered(section), text::lowered(subtype)),
        None => false,
    }
}

/// Whether the printed type line confirms a subtype (CR 205.3m).
pub fn type_line_corroborates_subtype(type_line: &str, subtype: &str) -> (r: bool)
    ensures
        r == corroborated(type_line@, subtype@),
{
    match subtype_section_from_type_line(type_line) {
        None => false,
        Some(section) => {
            let hay = text::lower_chars(&text::chars_of(section));
            let needle = text::lower_chars(&text::chars_of(subtype));
            text::contains_chars(&hay, &needle)
        },
    }
}

/// The words of a list that can be names of subtypes.
pub open spec fn valid_words(words: Seq<Seq<char>>) -> Set<Seq<char>> {
    words.to_set().filter(|w: Seq<char>| valid_spelling(w))
}

proof fn lemma_valid_words_push(words: Seq<Seq<char>>, w: Seq<char>)
    ensures
        valid_words(words.push(w)) == if valid_spelling(w) {
            valid_words(words).insert(w)
        } else {
            valid_words(words)
        },
{
    lemma_push_members(words, w);
    let r = if valid_spelling(w) {
        valid_words(words).insert(w)
    } else {
        valid_words(words)
    };
    assert(valid_words(words.push(w)) =~= r);
}

proof fn lemma_push_members(words: Seq<Seq<char>>, w: Seq<char>)
    ensures
        words.push(w).to_set() == words.to_set().insert(w),
{
    let r = words.push(w);
    assert forall|c: Seq<char>| r.to_set().contains(c) == words.to_set().insert(w).contains(c) by {
        if words.contains(c) {
            let k = choose|k: int| 0 <= k < words.len() && words[k] == c;
            assert(r[k] == c);
        }
        if c == w {
            assert(r[words.len() as int] == c);
        }
    }
    assert(r.to_set() =~= words.to_set().insert(w));
}

/// Canonical creature subtypes (CR 205.3m), token-only types among them.
pub fn canonical_creature_subtypes_from_card_types(card_types: &CardTypesFile) -> (r: WordSet)
    ensures
        r.wf(),
        r@ == valid_words(word_list::texts(card_types.data.creature.sub_types@)),
{
    let subtypes = &card_types.data.creature.sub_types;
    let mut r = WordSet::new();
    let mut i: usize = 0;
    let ghost all = word_list::texts(subtypes@);
    assert(valid_words(all.take(0)) =~= r@);
    while i < subtypes.len()
        invariant
            i <= subtypes.len(),
            all == word_list::texts(subtypes@),
            r.wf(),
            r@ == valid_words(all.take(i as int)),
        decreases subtypes.len() - i,
    {
        proof {
            lemma_valid_words_push(all.take(i as int), all[i as int]);
            assert(all.take(i + 1) =~= all.take(i as int).push(all[i as int]));
        }
        if is_valid_subtype_spelling(subtypes[i].as_str()) {
            r.insert(subtypes[i].clone());
        }
        i = i + 1;
    }
    assert(all.take(i as int) =~= all);
    r
}

/// The subtypes of a face that its own type line confirms.
pub open spec fn face_subtypes(face: AtomicCard) -> Set<Seq<char>> {
    match face.type_line {
        Some(line) => valid_words(word_list::texts(face.subtypes@)).filter(
            |w: Seq<char>| corroborated(line@, w),
        ),
        None => Set::empty(),
    }
}

pub open spec fn faces_subtypes(faces: Seq<AtomicCard>) -> Set<Seq<char>>
    decreases faces.len(),
{
    if faces.len() == 0 {
        Set::empty()
    } else {
        faces_subtypes(faces.drop_last()).union(face_subtypes(faces.last()))
    }
}

/// The confirmed subtypes of all faces of all cards.
pub open spec fn cards_subtypes(cards: Seq<(String, Vec<AtomicCard>)>) -> Set<Seq<char>>
    decreases cards.len(),
{
    if cards.len() == 0 {
        Set::empty()
    } else {
        cards_subtypes(cards.drop_last()).union(faces_subtypes(cards.last().1@))
    }
}

fn harvest_face(face: &AtomicCard, r: &mut WordSet)
    requires
        old(r).wf(),
    ensures
        final(r).wf(),
        final(r)@ == old(r)@.union(face_subtypes(*face)),
{
    match &face.type_line {
        None => {
            assert(r@ =~= r@.union(face_subtypes(*face)));
        },
        Some(line) => {
            let ghost all = word_list::texts(face.subtypes@);
            let ghost keep = |w: Seq<char>| corroborated(line@, w);
            let mut i: usize = 0;
            assert(r@ =~= old(r)@.union(valid_words(all.take(0)).filter(keep)));
            while i < face.subtypes.len()
                invariant
                    i <= face.subtypes.len(),
                    all == word_list::texts(face.subtypes@),
                    keep == (|w: Seq<char>| corroborated(line@, w)),
                    r.wf(),
                    r@ == old(r)@.union(valid_words(all.take(i as int)).filter(keep)),
                decreases face.subtypes.len() - i,
            {
                let subtype = &face.subtypes[i];
                let ghost before = r@;
                if is_valid_subtype_spelling(subtype.as_str()) {
                    if type_line_corroborates_subtype(line.as_str(), subtype.as_str()) {
                        r.insert(subtype.clone());
                    }
                }
                proof {
                    lemma_valid_words_push(all.take(i as int), all[i as int]);
                    assert(all.take(i + 1) =~= all.take(i as int).push(all[i as int]));
                    assert(r@ =~= old(r)@.union(valid_words(all.take(i + 1)).filter(keep)));
                }
                i = i + 1;
            }
            assert(all.take(i as int) =~= all);
        },
    }
}

/// Creature subtypes of the card faces, each confirmed by its type line.
pub fn harvest_creature_subtypes_from_atomic(atomic: &AtomicCardsFile) -> (r: WordSet)
    ensures
        r.wf(),
        r@ == cards_subtypes(atomic.data@),
{
    let mut r = WordSet::new();
    let mut i: usize = 0;
    while i < atomic.data.len()
        invariant
            i <= atomic.data.len(),
            r.wf(),
            r@ == cards_subtypes(atomic.data@.take(i as int)),
        decreases atomic.data.len() - i,
    {
        let faces = &atomic.data[i].1;
        let ghost before = r@;
        let mut j: usize = 0;
        assert(before =~= before.union(faces_subtypes(faces@.take(0))));
        while j < faces.len()
            invariant
                j <= faces.len(),
                r.wf(),
                r@ == before.union(faces_subtypes(faces@.take(j as int))),
            decreases faces.len() - j,
        {
            let ghost inner = r@;
            harvest_face(&faces[j], &mut r);
            proof {
                assert(faces@.take(j + 1).drop_last() =~= faces@.take(j as int));
                assert(r@ =~= before.union(faces_subtypes(faces@.take(j + 1))));
            }
            j = j + 1;
        }
        proof {
            assert(faces@.take(j as int) =~= faces@);
            assert(atomic.data@.take(i + 1).drop_last() =~= atomic.data@.take(i as int));
        }
        i = i + 1;
    }
    assert(atomic.data@.take(i as int) =~= atomic.data@);
    r
}

/// The words of the parser vocabulary.
pub open spec fn vocabulary(creature_subtypes: Seq<Seq<char>>) -> Set<Seq<char>> {
    noncreature_subtypes::noncreature_subtypes().to_set().union(valid_words(creature_subtypes))
}

/// The noncreature tables and the valid creature subtypes, longest spelling first.
pub fn build_parser_subtype_vocabulary(creature_subtypes: &[String]) -> (r: Vec<String>)
    ensures
        word_list::ascending(WordOrder::LongestFirst, word_list::texts(r@)),
        word_list::texts(r@).to_set() == vocabulary(word_list::texts(creature_subtypes@)),
{
    let fixed = noncreature_subtypes::fixed_noncreature_subtypes();
    let ghost table = noncreature_subtypes::noncreature_subtypes();
    let ghost all = word_list::texts(creature_subtypes@);
    let mut r: Vec<String> = Vec::new();
    let mut i: usize = 0;
    assert(word_list::texts(r@) =~= table.take(0));
    while i < fixed.len()
        invariant
            i <= fixed.len(),
            table == noncreature_subtypes::words_view(fixed@),
            word_list::ascending(WordOrder::LongestFirst, word_list::texts(r@)),
            word_list::texts(r@).to_set() == table.take(i as int).to_set(),
        decreases fixed.len() - i,
    {
        let word = String::from_str(fixed[i]);
        proof {
            lemma_push_members(table.take(i as int), table[i as int]);
            assert(table.take(i + 1) =~= table.take(i as int).push(table[i as int]));
        }
        word_list::insert_word(WordOrder::LongestFirst, &mut r, word);
        i = i + 1;
    }
    assert(table.take(i as int) =~= table);
    let mut j: usize = 0;
    assert(table.to_set() =~= table.to_set().union(valid_words(all.take(0))));
    while j < creature_subtypes.len()
        invariant
            j <= creature_subtypes.len(),
            all == word_list::texts(creature_subtypes@),
            word_list::ascending(WordOrder::LongestFirst, word_list::texts(r@)),
            word_list::texts(r@).to_set() == table.to_set().union(valid_words(all.take(j as int))),
        decreases creature_subtypes.len() - j,
    {
        let ghost before = word_list::texts(r@).to_set();
        let subtype = &creature_subtypes[j];
        if is_valid_subtype_spelling(subtype.as_str()) {
            word_list::insert_word(WordOrder::LongestFirst, &mut r, subtype.clone());
        }
        proof {
            lemma_valid_words_push(all.take(j as int), all[j as int]);
            assert(all.take(j + 1) =~= all.take(j as int).push(all[j as int]));
            assert(word_list::texts(r@).to_set() =~= table.to_set().union(
                valid_words(all.take(j + 1)),
            ));
        }
        j = j + 1;
    }
    assert(all.take(j as int) =~= all);
    r
}

} // verus!
