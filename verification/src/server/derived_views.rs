//! What clients would otherwise work out from their view of a game.
use vstd::prelude::*;

use crate::server::client_view::{ClientPlayer, ClientState};
use crate::types::identifiers::PlayerId;

verus! {

/// Facts about a view for whoever looks at it.
#[derive(Clone, Debug, PartialEq, Eq)]
pub struct DerivedViews {
    /// It is the viewer's turn.
    pub has_turn: bool,
    /// The viewer has priority.
    pub has_priority: bool,
    /// The other players who are still in the game, in seat order.
    pub opponents: Vec<PlayerId>,
}

/// Those of the players who are in the game and not the viewer, in order.
pub open spec fn rivals(players: Seq<ClientPlayer>, viewer: Option<PlayerId>) -> Seq<PlayerId>
    decreases players.len(),
{
    if players.len() == 0 {
        Seq::empty()
    } else {
        let front = rivals(players.drop_last(), viewer);
        let p = players.last();
        if p.is_eliminated || viewer == Some(p.id) {
            front
        } else {
            front.push(p.id)
        }
    }
}

/// The facts are those of the view.
pub open spec fn derived(d: DerivedViews, view: ClientState, viewer: Option<PlayerId>) -> bool {
    &&& d.has_turn == (viewer == Some(view.active_player))
    &&& d.has_priority == (viewer == Some(view.priority_player))
    &&& d.opponents@ == rivals(view.players@, viewer)
}

fn is_viewer(viewer: Option<PlayerId>, player: PlayerId) -> (r: bool)
    ensures
        r == (viewer == Some(player)),
{
    match viewer {
        Some(v) => v == player,
        None => false,
    }
}

/// The facts about a view; a spectator is nobody's viewer.
pub fn derive_views(view: &ClientState, viewer: Option<PlayerId>) -> (r: DerivedViews)
    ensures
        derived(r, *view, viewer),
{
    let players = &view.players;
    let mut opponents: Vec<PlayerId> = Vec::new();
    let mut i: usize = 0;
    while i < players.len()
        invariant
            i <= players.len(),
            opponents@ == rivals(players@.take(i as int), viewer),
        decreases players.len() - i,
    {
        assert(players@.take(i + 1).drop_last() =~= players@.take(i as int));
        if !players[i].is_eliminated && !is_viewer(viewer, players[i].id) {
            opponents.push(players[i].id);
        }
        i = i + 1;
    }
    assert(players@.take(i as int) =~= players@);
    DerivedViews {
        has_turn: is_viewer(viewer, view.active_player),
        has_priority: is_viewer(viewer, view.priority_player),
        opponents,
    }
}

} // verus!
