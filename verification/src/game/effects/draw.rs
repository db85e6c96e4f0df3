//! Drawing cards (CR 121).
use std::sync::Arc;
use vstd::prelude::*;

use crate::game::game_object::{GameObject, ObjectModel};
use crate::game::outcome;
use crate::game::outcome::Outcome;
use crate::game::players;
use crate::game::replacement;
use crate::game::replacement::{ReplacementModel, ReplacementResult};
use crate::types::events::GameEvent;
use crate::types::game_state::{GameModel, GameState};
use crate::types::identifiers::{ObjectId, PlayerId};
use crate::types::player::{Player, PlayerModel};
use crate::types::proposed_event::{ProposedEvent, ProposedModel};
use crate::types::replacements::AppliedReplacements;
use crate::types::statics::{StaticDefinition, StaticMode};
use crate::types::target_filter::{ControllerRef, TargetFilter};
use crate::types::zones::Zone;

verus! {

/// The static ability of a permanent of `controller` applies to the player.
pub open spec fn affects_player(
    def: StaticDefinition,
    controller: PlayerId,
    player: PlayerId,
) -> bool {
    match def.affected {
        None => true,
        Some(TargetFilter::Controller) => player == controller,
        Some(TargetFilter::Typed(typed)) => match typed.controller {
            None => true,
            Some(ControllerRef::You) => player == controller,
            Some(ControllerRef::Opponent) => player != controller,
            Some(_) => false,
        },
        Some(_) => false,
    }
}

fn static_affects_player(
    def: &StaticDefinition,
    controller: PlayerId,
    player: PlayerId,
) -> (r: bool)
    ensures
        r == affects_player(*def, controller, player),
{
    match &def.affected {
        None => true,
        Some(TargetFilter::Controller) => player == controller,
        Some(TargetFilter::Typed(typed)) => match typed.controller {
            None => true,
            Some(ControllerRef::You) => player == controller,
            Some(ControllerRef::Opponent) => player != controller,
            Some(_) => false,
        },
        Some(_) => false,
    }
}

/// How many of `n` draws a static ability leaves to a player who drew `drawn` cards this turn.
pub open spec fn left_by_static(mode: StaticMode, drawn: int, n: int) -> int {
    match mode {
        StaticMode::CantDraw => 0,
        StaticMode::PerTurnDrawLimit { max } => {
            let left = if drawn < max {
                max - drawn
            } else {
                0
            };
            if left < n {
                left
            } else {
                n
            }
        },
        StaticMode::MaximumHandSize { .. } | StaticMode::MustAttack => n,
    }
}

/// How many of `n` draws the static abilities of one permanent leave.
pub open spec fn left_by_statics(
    defs: Seq<Arc<StaticDefinition>>,
    controller: PlayerId,
    player: PlayerId,
    drawn: int,
    n: int,
) -> int
    decreases defs.len(),
{
    if defs.len() == 0 {
        n
    } else {
        let m = left_by_statics(defs.drop_last(), controller, player, drawn, n);
        if affects_player(*defs.last(), controller, player) {
            left_by_static(defs.last().mode, drawn, m)
        } else {
            m
        }
    }
}

/// How many of `n` draws the permanents of a list leave.
pub open spec fn left_by_permanents(
    s: GameModel,
    ids: Seq<ObjectId>,
    player: PlayerId,
    drawn: int,
    n: int,
) -> int
    decreases ids.len(),
{
    if ids.len() == 0 {
        n
    } else {
        let m = left_by_permanents(s, ids.drop_last(), player, drawn, n);
        if s.objects.contains_key(ids.last()) {
            let o = s.objects[ids.last()];
            left_by_statics(o.static_definitions, o.controller, player, drawn, m)
        } else {
            m
        }
    }
}

/// How many of `requested` cards a player may draw (CR 121.1).
pub open spec fn allowed_draws(s: GameModel, player: PlayerId, requested: int) -> int {
    let i = players::seat(s, player);
    if i < s.players.len() {
        left_by_permanents(
            s,
            s.battlefield,
            player,
            s.players[i].cards_drawn_this_turn as int,
            requested,
        )
    } else {
        0
    }
}

fn count_left_by_statics(obj: &GameObject, player: PlayerId, drawn: u32, n: u32) -> (r: u32)
    ensures
        r == left_by_statics(
            obj@.static_definitions,
            obj@.controller,
            player,
            drawn as int,
            n as int,
        ),
        r <= n,
{
    let defs = &obj.static_definitions;
    let mut m: u32 = n;
    let mut i: usize = 0;
    while i < defs.len()
        invariant
            i <= defs.len(),
            *defs == obj.static_definitions,
            m == left_by_statics(
                defs@.take(i as int),
                obj@.controller,
                player,
                drawn as int,
                n as int,
            ),
            m <= n,
        decreases defs.len() - i,
    {
        assert(defs@.take(i + 1).drop_last() =~= defs@.take(i as int));
        if static_affects_player(&defs[i], obj.controller, player) {
            match defs[i].mode {
                StaticMode::CantDraw => {
                    m = 0;
                },
                StaticMode::PerTurnDrawLimit { max } => {
                    let left: u32 = if drawn < max {
                        max - drawn
                    } else {
                        0
                    };
                    if left < m {
                        m = left;
                    }
                },
                StaticMode::MaximumHandSize { .. } | StaticMode::MustAttack => {},
            }
        }
        i = i + 1;
    }
    assert(defs@.take(i as int) =~= defs@);
    m
}

/// How many of the requested cards a player may draw.
pub fn allowed_draw_count(state: &GameState, player: PlayerId, requested: u32) -> (r: u32)
    ensures
        r == allowed_draws(state@, player, requested as int),
        r <= requested,
{
    let p: usize = players::find_player(state, player);
    if p >= state.players.len() {
        return 0;
    }
    let drawn: u32 = state.players[p].cards_drawn_this_turn;
    let mut m: u32 = requested;
    let mut i: usize = 0;
    while i < state.battlefield.len()
        invariant
            i <= state.battlefield.len(),
            m == left_by_permanents(
                state@,
                state.battlefield@.take(i as int),
                player,
                drawn as int,
                requested as int,
            ),
            m <= requested,
        decreases state.battlefield.len() - i,
    {
        assert(state.battlefield@.take(i + 1).drop_last() =~= state.battlefield@.take(i as int));
        if let Some(obj) = state.objects.get(&state.battlefield[i]) {
            m = count_left_by_statics(obj, player, drawn, m);
        }
        i = i + 1;
    }
    assert(state.battlefield@.take(i as int) =~= state.battlefield@);
    m
}

/// A player whose top card came into their hand.
pub open spec fn top_taken(p: PlayerModel) -> PlayerModel {
    PlayerModel {
        library: p.library.drop_first(),
        hand: p.hand.push(p.library[0]),
        cards_drawn_this_turn: if p.cards_drawn_this_turn < u32::MAX {
            (p.cards_drawn_this_turn + 1) as u32
        } else {
            p.cards_drawn_this_turn
        },
        ..p
    }
}

/// The objects after a card came into a hand.
pub open spec fn now_in_hand(objects: Map<ObjectId, ObjectModel>, card: ObjectId) -> Map<
    ObjectId,
    ObjectModel,
> {
    if objects.contains_key(card) {
        objects.insert(card, ObjectModel { zone: Zone::Hand, ..objects[card] })
    } else {
        objects
    }
}

/// The player's top card goes to their hand; nothing happens with an empty library.
pub open spec fn one_drawn(o: Outcome, player: PlayerId) -> Outcome {
    let s = o.state;
    let i = players::seat(s, player);
    if i < s.players.len() && s.players[i].library.len() > 0 {
        let card = s.players[i].library[0];
        Outcome {
            state: GameModel {
                players: s.players.update(i, top_taken(s.players[i])),
                objects: now_in_hand(s.objects, card),
                ..s
            },
            events: o.events.push(GameEvent::CardDrawn { player_id: player, object_id: card }),
        }
    } else {
        o
    }
}

/// The player draws `n` cards, one after the other (CR 121.2).
pub open spec fn cards_drawn(o: Outcome, player: PlayerId, n: nat) -> Outcome
    decreases n,
{
    if n == 0 {
        o
    } else {
        one_drawn(cards_drawn(o, player, (n - 1) as nat), player)
    }
}

fn take_top(p: &mut Player) -> (card: ObjectId)
    requires
        old(p).library@.len() > 0,
    ensures
        card == old(p).library@[0],
        final(p)@ == top_taken(old(p)@),
{
    let card = p.library.remove(0);
    assert(old(p).library@.remove(0) =~= old(p).library@.drop_first());
    p.hand.push(card);
    if p.cards_drawn_this_turn < u32::MAX {
        p.cards_drawn_this_turn = p.cards_drawn_this_turn + 1;
    }
    card
}

fn draw_one(state: &mut GameState, player: PlayerId, events: &mut Vec<GameEvent>)
    ensures
        outcome::at(final(state)@, final(events)@) == one_drawn(
            outcome::at(old(state)@, old(events)@),
            player,
        ),
{
    let i: usize = players::find_player(state, player);
    if i < state.players.len() && state.players[i].library.len() > 0 {
        let card = take_top(&mut state.players[i]);
        proof {
            players::lemma_player_update(old(state).players@, i as int, state.players@[i as int]);
        }
        if let Some(obj) = state.objects.get_mut(&card) {
            obj.zone = Zone::Hand;
        }
        events.push(GameEvent::CardDrawn { player_id: player, object_id: card });
    }
}

/// Of `count` cards the player draws as many as they may (CR 121.1).
pub open spec fn drawn_within_limits(o: Outcome, player: PlayerId, count: int) -> Outcome {
    cards_drawn(o, player, allowed_draws(o.state, player, count) as nat)
}

/// Draws cards for a player, as many of them as the limits leave.
pub fn draw_within_limits(
    state: &mut GameState,
    player: PlayerId,
    count: u32,
    events: &mut Vec<GameEvent>,
)
    ensures
        outcome::at(final(state)@, final(events)@) == drawn_within_limits(
            outcome::at(old(state)@, old(events)@),
            player,
            count as int,
        ),
{
    let n: u32 = allowed_draw_count(state, player, count);
    let ghost before = outcome::at(state@, events@);
    let mut i: u32 = 0;
    while i < n
        invariant
            i <= n,
            outcome::at(state@, events@) == cards_drawn(before, player, i as nat),
        decreases n - i,
    {
        draw_one(state, player, events);
        i = i + 1;
    }
}

/// The player would draw cards.
pub open spec fn proposed_draw(player: PlayerId, count: u32) -> ProposedModel {
    ProposedModel::Draw { player, count, applied: Seq::empty() }
}

/// The player is to draw `count` cards, as many of them as they may. The draw goes through the
/// replacement effects for draws (CR 121.6, CR 614.11). It may wait for a choice among them; then no
/// card has been drawn yet.
pub open spec fn draw_sequence(o: Outcome, player: PlayerId, count: int) -> Outcome {
    let n = allowed_draws(o.state, player, count);
    if n == 0 {
        o
    } else {
        let e = proposed_draw(player, n as u32);
        match replacement::replaced(o.state, e) {
            ReplacementModel::Execute(ProposedModel::Draw { player, count, .. }) =>
                drawn_within_limits(o, player, count as int),
            ReplacementModel::Execute(_) => o,
            ReplacementModel::Prevented => o,
            ReplacementModel::NeedsChoice(chooser) => Outcome {
                state: replacement::awaiting_choice(replacement::held(o.state, e), chooser),
                ..o
            },
        }
    }
}

/// Lets a player draw up to `count` cards, within the limits and replacement effects that apply to
/// them. A prompt for a choice of replacement effects stands in `waiting_for`.
pub fn start_draw_sequence(
    state: &mut GameState,
    player: PlayerId,
    count: u32,
    events: &mut Vec<GameEvent>,
)
    ensures
        outcome::at(final(state)@, final(events)@) == draw_sequence(
            outcome::at(old(state)@, old(events)@),
            player,
            count as int,
        ),
{
    let n: u32 = allowed_draw_count(state, player, count);
    if n == 0 {
        return ;
    }
    let proposed = ProposedEvent::Draw { player, count: n, applied: AppliedReplacements::none() };
    assert(proposed@ == proposed_draw(player, n));
    match replacement::replace_event(state, proposed) {
        ReplacementResult::Execute(ProposedEvent::Draw { player, count, .. }) => {
            draw_within_limits(state, player, count, events);
        },
        ReplacementResult::Execute(_) => {},
        ReplacementResult::Prevented => {},
        ReplacementResult::NeedsChoice(chooser) => {
            let prompt = replacement::replacement_choice_waiting_for(chooser, state);
            state.waiting_for = prompt;
        },
    }
}

} // verus!
