//! Choosing cards: scry and discard.
use vstd::prelude::*;

use crate::game::effects::basic;
use crate::game::engine::reply;
use crate::game::engine::reply::{EngineError, ErrorModel, Reply};
use crate::game::engine::resume;
use crate::game::outcome;
use crate::game::players;
use crate::shared;
use crate::types::events::GameEvent;
use crate::types::game_state::{GameModel, GameState};
use crate::types::identifiers::ObjectId;
use crate::types::player::PlayerModel;
use crate::types::prompts::{PromptModel, WaitingFor};

verus! {

/// The cards of a list that are not among the chosen ones, in order.
pub open spec fn not_chosen(list: Seq<ObjectId>, chosen: Seq<ObjectId>) -> Seq<ObjectId>
    decreases list.len(),
{
    if list.len() == 0 {
        Seq::empty()
    } else {
        let front = not_chosen(list.drop_last(), chosen);
        if chosen.contains(list.last()) {
            front
        } else {
            front.push(list.last())
        }
    }
}

/// The chosen cards are among the offered ones, and none is chosen twice.
pub open spec fn valid_choice(offered: Seq<ObjectId>, chosen: Seq<ObjectId>) -> bool {
    &&& chosen.no_duplicates()
    &&& forall|i: int| 0 <= i < chosen.len() ==> offered.contains(#[trigger] chosen[i])
}

fn contains_id(list: &Vec<ObjectId>, id: ObjectId, upto: usize) -> (r: bool)
    requires
        upto <= list.len(),
    ensures
        r == list@.take(upto as int).contains(id),
{
    let mut i: usize = 0;
    while i < upto
        invariant
            i <= upto <= list.len(),
            forall|j: int| 0 <= j < i ==> list@[j] != id,
        decreases upto - i,
    {
        if list[i] == id {
            assert(list@.take(upto as int)[i as int] == id);
            return true;
        }
        i = i + 1;
    }
    false
}

fn is_valid_choice(offered: &Vec<ObjectId>, chosen: &Vec<ObjectId>) -> (r: bool)
    ensures
        r == valid_choice(offered@, chosen@),
{
    let mut i: usize = 0;
    assert(offered@.take(offered@.len() as int) =~= offered@);
    while i < chosen.len()
        invariant
            i <= chosen.len(),
            offered@.take(offered@.len() as int) == offered@,
            forall|j: int, k: int| 0 <= j < k < i ==> chosen@[j] != chosen@[k],
            forall|j: int| 0 <= j < i ==> offered@.contains(#[trigger] chosen@[j]),
        decreases chosen.len() - i,
    {
        if contains_id(chosen, chosen[i], i) {
            proof {
                let j = choose|j: int|
                    0 <= j < i && chosen@.take(i as int)[j] == chosen@[i as int];
                assert(chosen@[j] == chosen@[i as int]);
            }
            return false;
        }
        assert forall|j: int| 0 <= j < i implies chosen@[j] != chosen@[i as int] by {
            assert(chosen@.take(i as int)[j] == chosen@[j]);
        }
        if !contains_id(offered, chosen[i], offered.len()) {
            return false;
        }
        i = i + 1;
    }
    true
}

/// A library after scry: the kept cards on top in the chosen order, the others at the bottom.
pub open spec fn scried(library: Seq<ObjectId>, looked: Seq<ObjectId>, kept: Seq<ObjectId>) -> Seq<
    ObjectId,
> {
    kept + library.skip(looked.len() as int) + not_chosen(looked, kept)
}

/// The player's library after scry.
pub open spec fn with_scried(
    s: GameModel,
    i: int,
    looked: Seq<ObjectId>,
    kept: Seq<ObjectId>,
) -> GameModel {
    players::with_player(
        s,
        i,
        PlayerModel { library: scried(s.players[i].library, looked, kept), ..s.players[i] },
    )
}

/// The answer to a scry or discard prompt.
#[verifier::opaque]
pub open spec fn select_reply(s: GameModel, chosen: Seq<ObjectId>) -> Reply {
    match s.waiting_for {
        PromptModel::ScryChoice { player, cards } => {
            let i = players::seat(s, player);
            if i < s.players.len() && cards.is_prefix_of(s.players[i].library) && valid_choice(
                cards,
                chosen,
            ) {
                reply::resolved(
                    resume::resumed(
                        outcome::at(with_scried(s, i, cards, chosen), Seq::empty()),
                    ),
                )
            } else {
                reply::refused(s, ErrorModel::IllegalChoice)
            }
        },
        PromptModel::DiscardChoice { player, count } => {
            let i = players::seat(s, player);
            if i < s.players.len() && chosen.len() == count && valid_choice(
                s.players[i].hand,
                chosen,
            ) {
                reply::resolved(
                    resume::resumed(outcome::at(basic::all_discarded(s, chosen), Seq::empty())),
                )
            } else {
                reply::refused(s, ErrorModel::IllegalChoice)
            }
        },
        _ => reply::refused(s, ErrorModel::WrongPrompt),
    }
}

fn is_prefix(a: &Vec<ObjectId>, b: &Vec<ObjectId>) -> (r: bool)
    ensures
        r == a@.is_prefix_of(b@),
{
    if a.len() > b.len() {
        return false;
    }
    let mut i: usize = 0;
    while i < a.len()
        invariant
            i <= a.len() <= b.len(),
            forall|j: int| 0 <= j < i ==> a@[j] == b@[j],
        decreases a.len() - i,
    {
        if a[i] != b[i] {
            assert(b@.subrange(0, a@.len() as int)[i as int] == b@[i as int]);
            return false;
        }
        i = i + 1;
    }
    assert(a@ =~= b@.subrange(0, a@.len() as int));
    true
}

fn scry_library(
    library: &Vec<ObjectId>,
    looked: &Vec<ObjectId>,
    kept: &Vec<ObjectId>,
) -> (r: Vec<ObjectId>)
    requires
        looked@.is_prefix_of(library@),
    ensures
        r@ == scried(library@, looked@, kept@),
{
    let mut r: Vec<ObjectId> = shared::copy_all(kept);
    let mut i: usize = looked.len();
    while i < library.len()
        invariant
            looked.len() <= i <= library.len(),
            r@ == kept@ + library@.subrange(looked@.len() as int, i as int),
        decreases library.len() - i,
    {
        r.push(library[i]);
        i = i + 1;
        assert(library@.subrange(looked@.len() as int, i as int) =~= library@.subrange(
            looked@.len() as int,
            i - 1,
        ).push(library@[i - 1]));
        assert(r@ =~= kept@ + library@.subrange(looked@.len() as int, i as int));
    }
    let ghost front = r@;
    assert(library@.subrange(looked@.len() as int, i as int) =~= library@.skip(
        looked@.len() as int,
    ));
    let mut k: usize = 0;
    assert(kept@.take(kept@.len() as int) =~= kept@);
    assert(front + not_chosen(looked@.take(0), kept@) =~= front);
    while k < looked.len()
        invariant
            k <= looked.len(),
            kept@.take(kept@.len() as int) == kept@,
            r@ == front + not_chosen(looked@.take(k as int), kept@),
        decreases looked.len() - k,
    {
        assert(looked@.take(k + 1).drop_last() =~= looked@.take(k as int));
        if !contains_id(kept, looked[k], kept.len()) {
            r.push(looked[k]);
        }
        k = k + 1;
        assert(r@ =~= front + not_chosen(looked@.take(k as int), kept@));
    }
    assert(looked@.take(k as int) =~= looked@);
    r
}

pub fn select(
    state: &mut GameState,
    chosen: Vec<ObjectId>,
) -> (r: Result<Vec<GameEvent>, EngineError>)
    ensures
        reply::agrees(r, final(state)@, select_reply(old(state)@, chosen@)),
{
    proof {
        reveal(select_reply);
    }
    let mut events: Vec<GameEvent> = Vec::new();
    match &state.waiting_for {
        WaitingFor::ScryChoice { player, cards } => {
            let i: usize = players::find_player(state, *player);
            if i < state.players.len() && is_prefix(cards, &state.players[i].library)
                && is_valid_choice(cards, &chosen) {
                let library = scry_library(&state.players[i].library, cards, &chosen);
                state.players[i].library = library;
                proof {
                    let cards = old(state)@.waiting_for->ScryChoice_cards;
                    players::lemma_player_update(
                        old(state).players@,
                        i as int,
                        state.players@[i as int],
                    );
                    assert(state@ =~= with_scried(old(state)@, i as int, cards, chosen@));
                }
                let r = resume::resume(state, &mut events);
                reply::conclude(r, events)
            } else {
                Err(EngineError::IllegalChoice)
            }
        },
        WaitingFor::DiscardChoice { player, count } => {
            let i: usize = players::find_player(state, *player);
            if i < state.players.len() && chosen.len() == *count && is_valid_choice(
                &state.players[i].hand,
                &chosen,
            ) {
                basic::discard_cards(state, &chosen);
                let r = resume::resume(state, &mut events);
                reply::conclude(r, events)
            } else {
                Err(EngineError::IllegalChoice)
            }
        },
        _ => Err(EngineError::WrongPrompt),
    }
}

} // verus!
