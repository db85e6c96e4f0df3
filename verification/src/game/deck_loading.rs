//! Bringing decks into a game.
use vstd::prelude::*;

use crate::game::printed_cards;
use crate::game::vanguard;
use crate::game::zones;
use crate::types::card::CardFace;
use crate::types::format::GameFormat;
use crate::types::game_state::{GameModel, GameState};
use crate::types::identifiers::{CardId, ObjectId, PlayerId};
use crate::types::zones::Zone;

verus! {

/// Some copies of one card.
#[derive(Debug)]
pub struct DeckEntry {
    pub card: CardFace,
    pub count: u32,
}

/// What one player brings.
#[derive(Debug)]
pub struct PlayerDeckPayload {
    pub main_deck: Vec<DeckEntry>,
    pub vanguard: Vec<DeckEntry>,
}

impl Default for PlayerDeckPayload {
    fn default() -> (r: Self)
        ensures
            r.main_deck@.len() == 0,
            r.vanguard@.len() == 0,
    {
        PlayerDeckPayload { main_deck: Vec::new(), vanguard: Vec::new() }
    }
}

/// What both players of a game bring.
#[derive(Debug)]
pub struct DeckPayload {
    pub player: PlayerDeckPayload,
    pub opponent: PlayerDeckPayload,
}

impl Default for DeckPayload {
    fn default() -> (r: Self)
        ensures
            r.player.main_deck@.len() == 0,
            r.player.vanguard@.len() == 0,
            r.opponent.main_deck@.len() == 0,
            r.opponent.vanguard@.len() == 0,
    {
        DeckPayload {
            player: PlayerDeckPayload::default(),
            opponent: PlayerDeckPayload::default(),
        }
    }
}

/// How many cards the entries stand for.
pub open spec fn entry_count(entries: Seq<DeckEntry>) -> nat
    decreases entries.len(),
{
    if entries.len() == 0 {
        0
    } else {
        entry_count(entries.drop_last()) + entries.last().count as nat
    }
}

pub open spec fn player_count(deck: PlayerDeckPayload) -> nat {
    entry_count(deck.main_deck@) + entry_count(deck.vanguard@)
}

pub open spec fn payload_count(payload: DeckPayload) -> nat {
    player_count(payload.player) + player_count(payload.opponent)
}

/// One card comes into its owner's library, at the bottom.
pub open spec fn card_loaded(s: GameModel, face: CardFace, owner: PlayerId) -> GameModel {
    let id = ObjectId(s.next_object_id);
    let s1 = zones::created(s, CardId(s.next_object_id), owner, face.name@, Zone::Library);
    GameModel {
        objects: s1.objects.insert(id, printed_cards::face_applied(s1.objects[id], face)),
        ..s1
    }
}

/// Copies of one card come into the library, or into the command zone as vanguard cards.
pub open spec fn copies_loaded(
    s: GameModel,
    face: CardFace,
    owner: PlayerId,
    is_vanguard: bool,
    n: nat,
) -> GameModel
    decreases n,
{
    if n == 0 {
        s
    } else {
        let before = copies_loaded(s, face, owner, is_vanguard, (n - 1) as nat);
        if is_vanguard {
            vanguard::vanguard_created(before, face, owner)
        } else {
            card_loaded(before, face, owner)
        }
    }
}

/// The entries of a list are loaded in order.
pub open spec fn entries_loaded(
    s: GameModel,
    entries: Seq<DeckEntry>,
    owner: PlayerId,
    is_vanguard: bool,
) -> GameModel
    decreases entries.len(),
{
    if entries.len() == 0 {
        s
    } else {
        copies_loaded(
            entries_loaded(s, entries.drop_last(), owner, is_vanguard),
            entries.last().card,
            owner,
            is_vanguard,
            entries.last().count as nat,
        )
    }
}

pub open spec fn player_loaded(
    s: GameModel,
    deck: PlayerDeckPayload,
    owner: PlayerId,
) -> GameModel {
    entries_loaded(entries_loaded(s, deck.main_deck@, owner, false), deck.vanguard@, owner, true)
}

/// The cards of both players are in the game.
pub open spec fn cards_loaded(s: GameModel, payload: DeckPayload) -> GameModel {
    player_loaded(player_loaded(s, payload.player, PlayerId(0)), payload.opponent, PlayerId(1))
}

fn load_card(state: &mut GameState, face: &CardFace, owner: PlayerId)
    requires
        old(state).next_object_id < u64::MAX,
    ensures
        final(state)@ == card_loaded(old(state)@, *face, owner),
        final(state).next_object_id == old(state).next_object_id + 1,
{
    let card_id = CardId(state.next_object_id);
    let id = zones::create_object(state, card_id, owner, face.name.clone(), Zone::Library);
    if let Some(obj) = state.objects.get_mut(&id) {
        printed_cards::apply_card_face_to_object(obj, face);
    }
}

fn load_entries(state: &mut GameState, entries: &Vec<DeckEntry>, owner: PlayerId, is_vanguard: bool)
    requires
        old(state).next_object_id + entry_count(entries@) <= u64::MAX,
    ensures
        final(state)@ == entries_loaded(old(state)@, entries@, owner, is_vanguard),
        final(state).next_object_id == old(state).next_object_id + entry_count(entries@),
{
    let mut i: usize = 0;
    while i < entries.len()
        invariant
            i <= entries.len(),
            old(state).next_object_id + entry_count(entries@) <= u64::MAX,
            state@ == entries_loaded(old(state)@, entries@.take(i as int), owner, is_vanguard),
            state.next_object_id == old(state).next_object_id + entry_count(
                entries@.take(i as int),
            ),
        decreases entries.len() - i,
    {
        assert(entries@.take(i + 1).drop_last() =~= entries@.take(i as int));
        let ghost before = *state;
        proof {
            lemma_entry_count_prefix(entries@, i + 1);
        }
        let entry = &entries[i];
        let mut k: u32 = 0;
        while k < entry.count
            invariant
                k <= entry.count,
                before.next_object_id + entry.count <= u64::MAX,
                state.next_object_id == before.next_object_id + k,
                state@ == copies_loaded(before@, entry.card, owner, is_vanguard, k as nat),
            decreases entry.count - k,
        {
            if is_vanguard {
                let _ = vanguard::create_vanguard_from_card_face(state, &entry.card, owner);
            } else {
                load_card(state, &entry.card, owner);
            }
            k = k + 1;
        }
        i = i + 1;
    }
    assert(entries@.take(i as int) =~= entries@);
}

proof fn lemma_entry_count_prefix(entries: Seq<DeckEntry>, n: int)
    requires
        0 <= n <= entries.len(),
    ensures
        entry_count(entries.take(n)) <= entry_count(entries),
    decreases entries.len() - n,
{
    if n < entries.len() {
        lemma_entry_count_prefix(entries, n + 1);
        assert(entries.take(n + 1).drop_last() =~= entries.take(n));
    } else {
        assert(entries.take(n) =~= entries);
    }
}

/// The whole load can be done: there are identifiers for all cards, and the starting life totals
/// stay in range.
pub open spec fn loadable(s: GameModel, payload: DeckPayload) -> bool {
    &&& s.next_object_id + payload_count(payload) <= u64::MAX
    &&& ({
        let after = cards_loaded(s, payload);
        after.format_config.format == GameFormat::Vanguard ==> vanguard::modifiers_fit(
            after,
            after.seat_order,
        )
    })
}

/// Loads both decks: libraries in the listed order, vanguard cards into the command zone, and then
/// the starting life totals.
pub fn load_deck_into_state(state: &mut GameState, payload: &DeckPayload)
    requires
        loadable(old(state)@, *payload),
    ensures
        final(state)@ == vanguard::starting_life(cards_loaded(old(state)@, *payload)),
{
    load_entries(state, &payload.player.main_deck, PlayerId(0), false);
    load_entries(state, &payload.player.vanguard, PlayerId(0), true);
    load_entries(state, &payload.opponent.main_deck, PlayerId(1), false);
    load_entries(state, &payload.opponent.vanguard, PlayerId(1), true);
    vanguard::apply_vanguard_starting_life_modifiers(state);
}

} // verus!
