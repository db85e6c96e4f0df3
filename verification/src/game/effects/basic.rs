//! Instructions that act at once or ask for one decision.
use vstd::prelude::*;

use crate::game::filter;
use crate::game::game_object::ObjectModel;
use crate::game::outcome;
use crate::game::outcome::Outcome;
use crate::game::players;
use crate::game::zones;
use crate::types::ability::{AbilityModel, ResolvedAbility};
use crate::types::events::GameEvent;
use crate::types::game_state;
use crate::types::game_state::{GameModel, GameState, StackModel};
use crate::types::identifiers::{ObjectId, PlayerId};
use crate::types::prompts::{PromptModel, WaitingFor};
use crate::types::target_filter::TargetFilter;
use crate::types::zones::Zone;

verus! {

/// The player an instruction applies to.
pub open spec fn player_of(s: GameModel, a: AbilityModel, f: TargetFilter) -> Option<PlayerId> {
    match f {
        TargetFilter::Controller => Some(a.controller),
        TargetFilter::Player | TargetFilter::ParentTarget => filter::first_player(a.targets),
        TargetFilter::WinningBidder => match s.last_life_auction {
            Some(auction) => Some(auction.0),
            None => None,
        },
        TargetFilter::SelfRef | TargetFilter::Typed(_) => None,
    }
}

/// The object an instruction applies to.
pub open spec fn object_of(a: AbilityModel, f: TargetFilter) -> Option<ObjectId> {
    match f {
        TargetFilter::SelfRef => Some(a.source_id),
        TargetFilter::ParentTarget | TargetFilter::Typed(_) => filter::first_object(a.targets),
        _ => None,
    }
}

pub fn resolve_player(
    state: &GameState,
    a: &ResolvedAbility,
    f: &TargetFilter,
) -> (r: Option<PlayerId>)
    ensures
        r == player_of(state@, a@, *f),
{
    match f {
        TargetFilter::Controller => Some(a.controller),
        TargetFilter::Player => filter::target_player(&a.targets),
        TargetFilter::ParentTarget => filter::target_player(&a.targets),
        TargetFilter::WinningBidder => match state.last_life_auction {
            Some(auction) => Some(auction.0),
            None => None,
        },
        TargetFilter::SelfRef => None,
        TargetFilter::Typed(_) => None,
    }
}

pub fn resolve_object(a: &ResolvedAbility, f: &TargetFilter) -> (r: Option<ObjectId>)
    ensures
        r == object_of(a@, *f),
{
    match f {
        TargetFilter::SelfRef => Some(a.source_id),
        TargetFilter::ParentTarget => filter::target_object(&a.targets),
        TargetFilter::Typed(_) => filter::target_object(&a.targets),
        _ => None,
    }
}

/// An amount as a number of times or cards: none if it is negative.
pub open spec fn count_of(n: int) -> int {
    if n < 0 {
        0
    } else {
        n
    }
}

/// An object comes under a player's control.
pub open spec fn control_given(o: Outcome, id: ObjectId, player: PlayerId) -> Outcome {
    let s = o.state;
    if s.objects.contains_key(id) {
        Outcome {
            state: GameModel {
                objects: s.objects.insert(
                    id,
                    ObjectModel { controller: player, ..s.objects[id] },
                ),
                ..s
            },
            events: o.events.push(GameEvent::ControllerChanged {
                object_id: id,
                controller: player,
            }),
        }
    } else {
        o
    }
}

pub fn give_control(
    state: &mut GameState,
    id: ObjectId,
    player: PlayerId,
    events: &mut Vec<GameEvent>,
)
    ensures
        outcome::at(final(state)@, final(events)@) == control_given(
            outcome::at(old(state)@, old(events)@),
            id,
            player,
        ),
{
    if let Some(obj) = state.objects.get_mut(&id) {
        obj.controller = player;
        events.push(GameEvent::ControllerChanged { object_id: id, controller: player });
    }
}

/// A player looks at the top cards of their library (CR 701.22); without cards nothing happens.
pub open spec fn scry_started(s: GameModel, player: PlayerId, count: int) -> GameModel {
    let i = players::seat(s, player);
    if i < s.players.len() && count > 0 && s.players[i].library.len() > 0 {
        let library = s.players[i].library;
        let n = if count < library.len() {
            count
        } else {
            library.len() as int
        };
        GameModel {
            waiting_for: PromptModel::ScryChoice { player, cards: library.take(n) },
            ..s
        }
    } else {
        s
    }
}

pub fn start_scry(state: &mut GameState, player: PlayerId, count: u32)
    ensures
        final(state)@ == scry_started(old(state)@, player, count as int),
{
    let i: usize = players::find_player(state, player);
    if i < state.players.len() && count > 0 && state.players[i].library.len() > 0 {
        let library = &state.players[i].library;
        let mut cards: Vec<ObjectId> = Vec::new();
        let mut k: usize = 0;
        while k < library.len() && (k as u64) < count as u64
            invariant
                k <= library.len(),
                k <= count,
                cards@ == library@.take(k as int),
            decreases library.len() - k,
        {
            cards.push(library[k]);
            k = k + 1;
            assert(library@.take(k as int) =~= library@.take(k - 1).push(library@[k - 1]));
        }
        state.waiting_for = WaitingFor::ScryChoice { player, cards };
    }
}

/// The cards of a list go to the graveyard, first to last.
pub open spec fn all_discarded(s: GameModel, cards: Seq<ObjectId>) -> GameModel
    decreases cards.len(),
{
    if cards.len() == 0 {
        s
    } else {
        zones::moved(all_discarded(s, cards.drop_last()), cards.last(), Zone::Graveyard)
    }
}

/// A player discards cards (CR 701.9): all of their hand if it is not larger, else the game asks
/// which.
pub open spec fn discard_started(s: GameModel, player: PlayerId, count: int) -> GameModel {
    let i = players::seat(s, player);
    if i < s.players.len() && count > 0 {
        if s.players[i].hand.len() <= count {
            all_discarded(s, s.players[i].hand)
        } else {
            GameModel {
                waiting_for: PromptModel::DiscardChoice { player, count: count as usize },
                ..s
            }
        }
    } else {
        s
    }
}

pub fn discard_cards(state: &mut GameState, cards: &Vec<ObjectId>)
    ensures
        final(state)@ == all_discarded(old(state)@, cards@),
{
    let mut i: usize = 0;
    while i < cards.len()
        invariant
            i <= cards.len(),
            state@ == all_discarded(old(state)@, cards@.take(i as int)),
        decreases cards.len() - i,
    {
        assert(cards@.take(i + 1).drop_last() =~= cards@.take(i as int));
        zones::move_object(state, cards[i], Zone::Graveyard);
        i = i + 1;
    }
    assert(cards@.take(i as int) =~= cards@);
}

pub fn start_discard(state: &mut GameState, player: PlayerId, count: u32)
    ensures
        final(state)@ == discard_started(old(state)@, player, count as int),
{
    let i: usize = players::find_player(state, player);
    if i < state.players.len() && count > 0 {
        if state.players[i].hand.len() <= count as usize {
            let cards = crate::shared::copy_all(&state.players[i].hand);
            discard_cards(state, &cards);
        } else {
            state.waiting_for = WaitingFor::DiscardChoice { player, count: count as usize };
        }
    }
}

/// Position of the spell `id` on the stack, the height of the stack if it is not there.
pub open spec fn spell_index(stack: Seq<StackModel>, id: ObjectId, from: int) -> int
    decreases stack.len() - from,
{
    if from >= stack.len() {
        stack.len() as int
    } else if stack[from].is_spell && stack[from].source_id == id {
        from
    } else {
        spell_index(stack, id, from + 1)
    }
}

/// A spell is countered (CR 701.6): it leaves the stack and goes to the graveyard.
pub open spec fn countered(o: Outcome, id: ObjectId) -> Outcome {
    let s = o.state;
    let i = spell_index(s.stack, id, 0);
    if i < s.stack.len() {
        Outcome {
            state: zones::moved(
                GameModel { stack: s.stack.remove(i), ..s },
                id,
                Zone::Graveyard,
            ),
            events: o.events.push(GameEvent::SpellCountered { object_id: id }),
        }
    } else {
        o
    }
}

pub fn counter_spell(state: &mut GameState, id: ObjectId, events: &mut Vec<GameEvent>)
    ensures
        outcome::at(final(state)@, final(events)@) == countered(
            outcome::at(old(state)@, old(events)@),
            id,
        ),
{
    let mut i: usize = 0;
    while i < state.stack.len() && !(state.stack[i].is_spell && state.stack[i].source_id == id)
        invariant
            i <= state.stack.len(),
            spell_index(state@.stack, id, i as int) == spell_index(state@.stack, id, 0),
            state@.stack.len() == state.stack.len(),
        decreases state.stack.len() - i,
    {
        i = i + 1;
    }
    if i < state.stack.len() {
        let ghost before = state@;
        let _ = state.stack.remove(i);
        assert(game_state::stack_models(state.stack@) =~= before.stack.remove(i as int));
        assert(state@ =~= GameModel { stack: before.stack.remove(i as int), ..before });
        zones::move_object(state, id, Zone::Graveyard);
        events.push(GameEvent::SpellCountered { object_id: id });
    }
}

} // verus!
