//! How games begin, and what is written about them.
use vstd::prelude::*;

use crate::game::deck_loading;
use crate::game::deck_loading::{DeckEntry, DeckPayload};
use crate::game::effects::round_laws;
use crate::game::zone_laws;
use crate::types::events::GameEvent;
use crate::types::format::FormatConfig;
use crate::types::game_state::{GameModel, GameState};
use crate::types::identifiers::{ObjectId, PlayerId};
use crate::types::log;
use crate::types::phase::Phase;
use crate::types::prompts::PromptModel;

verus! {

/// A new game has as many players as asked for, each with the starting life of the format and without
/// cards. They sit in the order of their numbers, and the first one has the first main phase.
pub proof fn how_games_begin(format: FormatConfig, count: u8, seed: u64, i: int)
    ensures
        ({
            let s = GameState::initial(format, count, seed);
            &&& s.players.len() == count
            &&& s.seat_order.len() == count
            &&& 0 <= i < count ==> {
                &&& s.players[i].id.0 == i
                &&& s.seat_order[i].0 == i
                &&& s.players[i].life == format.starting_life
                &&& s.players[i].library.len() == 0
                &&& s.players[i].hand.len() == 0
                &&& s.players[i].graveyard.len() == 0
                &&& s.players[i].mana.len() == 0
                &&& s.players[i].cards_drawn_this_turn == 0
                &&& !s.players[i].is_eliminated
            }
            &&& s.format_config == format
            &&& s.rng_seed == seed
            &&& s.turn_number == 1
            &&& s.active_player.0 == 0
            &&& s.priority_player.0 == 0
            &&& s.consecutive_passes == 0
            &&& s.phase == Phase::PreCombatMain
            &&& s.waiting_for == (PromptModel::Priority { player: PlayerId(0) })
            &&& s.objects.dom() == Set::<ObjectId>::empty()
            &&& s.battlefield.len() == 0
            &&& s.command_zone.len() == 0
            &&& s.exile.len() == 0
            &&& s.stack.len() == 0
            &&& s.planar_deck.len() == 0
            &&& s.eliminated_players.len() == 0
            &&& s.pending_cast is None
            &&& s.pending_trigger is None
            &&& s.pending_replacement is None
            &&& s.pending_continuation is None
            &&& s.repeated_payment is None
            &&& s.last_life_auction is None
        }),
{
}

/// How many cards a list of entries stands for.
pub open spec fn listed_cards(entries: Seq<DeckEntry>) -> nat
    decreases entries.len(),
{
    if entries.len() == 0 {
        0
    } else {
        entries[0].count as nat + listed_cards(entries.drop_first())
    }
}

proof fn lemma_listed_cards(entries: Seq<DeckEntry>)
    requires
        entries.len() > 0,
    ensures
        listed_cards(entries) == listed_cards(entries.drop_last()) + entries.last().count,
    decreases entries.len(),
{
    if entries.len() > 1 {
        lemma_listed_cards(entries.drop_first());
        assert(entries.drop_first().drop_last() =~= entries.drop_last().drop_first());
        assert(entries.drop_last()[0] == entries[0]);
        assert(entries.drop_first().last() == entries.last());
    } else {
        assert(listed_cards(entries.drop_first()) == 0);
        assert(listed_cards(entries.drop_last()) == 0);
    }
}

/// Every entry of a list brings as many cards as it says: into the library, or into the command zone.
pub proof fn entries_are_loaded_whole(
    s: GameModel,
    entries: Seq<DeckEntry>,
    owner: PlayerId,
    is_vanguard: bool,
    i: int,
)
    requires
        round_laws::listed_at(s, owner, i),
        s.next_object_id + listed_cards(entries) <= u64::MAX,
    ensures
        ({
            let t = deck_loading::entries_loaded(s, entries, owner, is_vanguard);
            let n = listed_cards(entries);
            &&& zone_laws::same_people(s, t)
            &&& t.next_object_id == s.next_object_id + n
            &&& t.players[i].library.len() == s.players[i].library.len() + if is_vanguard {
                0
            } else {
                n
            }
            &&& t.command_zone.len() == s.command_zone.len() + if is_vanguard {
                n
            } else {
                0
            }
        }),
    decreases entries.len(),
{
    if entries.len() > 0 {
        let front = entries.drop_last();
        lemma_listed_cards(entries);
        entries_are_loaded_whole(s, front, owner, is_vanguard, i);
        let m = deck_loading::entries_loaded(s, front, owner, is_vanguard);
        zone_laws::lemma_still_listed(s, m, owner, i);
        zone_laws::copies_are_counted(
            m,
            entries.last().card,
            owner,
            is_vanguard,
            entries.last().count as nat,
            i,
        );
        let t = deck_loading::entries_loaded(s, entries, owner, is_vanguard);
        assert(zone_laws::same_people(s, t)) by {
            assert forall|j: int| 0 <= j < s.players.len() implies (#[trigger] t.players[j]).id
                == s.players[j].id && t.players[j].life == s.players[j].life by {
                assert(m.players[j].id == s.players[j].id);
            }
        }
    }
}

/// The first player brings the first deck and the second player the other one: the main deck into the
/// library, then the vanguard cards into the command zone.
pub proof fn decks_go_to_their_players(s: GameModel, payload: DeckPayload)
    ensures
        ({
            let a = deck_loading::entries_loaded(s, payload.player.main_deck@, PlayerId(0), false);
            let b = deck_loading::entries_loaded(a, payload.player.vanguard@, PlayerId(0), true);
            let c = deck_loading::entries_loaded(
                b,
                payload.opponent.main_deck@,
                PlayerId(1),
                false,
            );
            deck_loading::cards_loaded(s, payload) == deck_loading::entries_loaded(
                c,
                payload.opponent.vanguard@,
                PlayerId(1),
                true,
            )
        }),
{
}

/// The line about an event says when it happened, and there is one for each event, in order.
pub proof fn every_event_is_written_down(s: GameModel, events: Seq<GameEvent>, i: int)
    ensures
        log::entries_of(s, events).len() == events.len(),
        0 <= i < events.len() ==> {
            let line = log::entries_of(s, events)[i];
            line.event == events[i] && line.turn == s.turn_number && line.phase == s.phase
        },
{
}

} // verus!
