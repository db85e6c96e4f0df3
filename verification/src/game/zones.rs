//! Objects in zones (CR 400).
use vstd::prelude::*;

use crate::game::game_object::{GameObject, ObjectModel};
use crate::game::players;
use crate::types::game_state::{GameModel, GameState};
use crate::types::identifiers::{CardId, ObjectId, PlayerId};
use crate::types::player::PlayerModel;
use crate::types::zones::Zone;

verus! {

/// The list without an identifier.
pub open spec fn without(list: Seq<ObjectId>, id: ObjectId) -> Seq<ObjectId>
    decreases list.len(),
{
    if list.len() == 0 {
        Seq::empty()
    } else if list.last() == id {
        without(list.drop_last(), id)
    } else {
        without(list.drop_last(), id).push(list.last())
    }
}

fn remove_id(list: &mut Vec<ObjectId>, id: ObjectId)
    ensures
        final(list)@ == without(old(list)@, id),
{
    let mut r: Vec<ObjectId> = Vec::new();
    let mut i: usize = 0;
    while i < list.len()
        invariant
            i <= list.len(),
            list@ == old(list)@,
            r@ == without(list@.take(i as int), id),
        decreases list.len() - i,
    {
        assert(list@.take(i + 1).drop_last() =~= list@.take(i as int));
        let x = list[i];
        if x != id {
            r.push(x);
        }
        i = i + 1;
    }
    assert(list@.take(i as int) =~= list@);
    *list = r;
}

/// The player with one more object in one of their zones.
pub open spec fn gains(p: PlayerModel, id: ObjectId, zone: Zone) -> PlayerModel {
    match zone {
        Zone::Library => PlayerModel { library: p.library.push(id), ..p },
        Zone::Hand => PlayerModel { hand: p.hand.push(id), ..p },
        Zone::Graveyard => PlayerModel { graveyard: p.graveyard.push(id), ..p },
        _ => p,
    }
}

/// The player without an object in one of their zones.
pub open spec fn gives_up(p: PlayerModel, id: ObjectId, zone: Zone) -> PlayerModel {
    match zone {
        Zone::Library => PlayerModel { library: without(p.library, id), ..p },
        Zone::Hand => PlayerModel { hand: without(p.hand, id), ..p },
        Zone::Graveyard => PlayerModel { graveyard: without(p.graveyard, id), ..p },
        _ => p,
    }
}

/// The game with an object listed last in a zone. Spells are listed by their stack entries.
pub open spec fn placed(s: GameModel, owner: PlayerId, id: ObjectId, zone: Zone) -> GameModel {
    let i = players::seat(s, owner);
    match zone {
        Zone::Battlefield => GameModel { battlefield: s.battlefield.push(id), ..s },
        Zone::Exile => GameModel { exile: s.exile.push(id), ..s },
        Zone::Command => GameModel { command_zone: s.command_zone.push(id), ..s },
        Zone::Stack => s,
        _ => if i < s.players.len() {
            players::with_player(s, i, gains(s.players[i], id, zone))
        } else {
            s
        },
    }
}

/// The game with an object no longer listed in a zone.
pub open spec fn taken(s: GameModel, owner: PlayerId, id: ObjectId, zone: Zone) -> GameModel {
    let i = players::seat(s, owner);
    match zone {
        Zone::Battlefield => GameModel { battlefield: without(s.battlefield, id), ..s },
        Zone::Exile => GameModel { exile: without(s.exile, id), ..s },
        Zone::Command => GameModel { command_zone: without(s.command_zone, id), ..s },
        Zone::Stack => s,
        _ => if i < s.players.len() {
            players::with_player(s, i, gives_up(s.players[i], id, zone))
        } else {
            s
        },
    }
}

pub fn place(state: &mut GameState, owner: PlayerId, id: ObjectId, zone: Zone)
    ensures
        final(state)@ == placed(old(state)@, owner, id, zone),
{
    match zone {
        Zone::Battlefield => state.battlefield.push(id),
        Zone::Exile => state.exile.push(id),
        Zone::Command => state.command_zone.push(id),
        Zone::Stack => {},
        Zone::Library | Zone::Hand | Zone::Graveyard => {
            let i: usize = players::find_player(state, owner);
            if i < state.players.len() {
                match zone {
                    Zone::Library => state.players[i].library.push(id),
                    Zone::Hand => state.players[i].hand.push(id),
                    _ => state.players[i].graveyard.push(id),
                }
                proof {
                    players::lemma_player_update(
                        old(state).players@,
                        i as int,
                        state.players@[i as int],
                    );
                }
            }
        },
    }
    assert(state@ =~= placed(old(state)@, owner, id, zone));
}

pub fn take(state: &mut GameState, owner: PlayerId, id: ObjectId, zone: Zone)
    ensures
        final(state)@ == taken(old(state)@, owner, id, zone),
{
    match zone {
        Zone::Battlefield => remove_id(&mut state.battlefield, id),
        Zone::Exile => remove_id(&mut state.exile, id),
        Zone::Command => remove_id(&mut state.command_zone, id),
        Zone::Stack => {},
        Zone::Library | Zone::Hand | Zone::Graveyard => {
            let i: usize = players::find_player(state, owner);
            if i < state.players.len() {
                match zone {
                    Zone::Library => remove_id(&mut state.players[i].library, id),
                    Zone::Hand => remove_id(&mut state.players[i].hand, id),
                    _ => remove_id(&mut state.players[i].graveyard, id),
                }
                proof {
                    players::lemma_player_update(
                        old(state).players@,
                        i as int,
                        state.players@[i as int],
                    );
                }
            }
        },
    }
    assert(state@ =~= taken(old(state)@, owner, id, zone));
}

/// The game with a new object, which is listed last in its zone.
pub open spec fn created(
    s: GameModel,
    card_id: CardId,
    owner: PlayerId,
    name: Seq<char>,
    zone: Zone,
) -> GameModel {
    let id = ObjectId(s.next_object_id);
    let s1 = GameModel {
        next_object_id: (s.next_object_id + 1) as u64,
        objects: s.objects.insert(id, GameObject::blank(id, card_id, owner, name, zone)),
        ..s
    };
    placed(s1, owner, id, zone)
}

/// Makes a new object in a zone.
pub fn create_object(
    state: &mut GameState,
    card_id: CardId,
    owner: PlayerId,
    name: String,
    zone: Zone,
) -> (id: ObjectId)
    requires
        old(state).next_object_id < u64::MAX,
    ensures
        id == ObjectId(old(state).next_object_id),
        final(state)@ == created(old(state)@, card_id, owner, name@, zone),
{
    let id = ObjectId(state.next_object_id);
    state.next_object_id = state.next_object_id + 1;
    state.objects.insert(id, GameObject::new(id, card_id, owner, name, zone));
    place(state, owner, id, zone);
    id
}

/// The object after it came into a zone. It keeps its controller on the stack and the
/// battlefield; elsewhere it has none but its owner (CR 108.4).
pub open spec fn arrived(o: ObjectModel, to: Zone) -> ObjectModel {
    match to {
        Zone::Stack | Zone::Battlefield => ObjectModel { zone: to, ..o },
        _ => ObjectModel { zone: to, controller: o.owner, tapped: false, attached_to: None, ..o },
    }
}

/// The game after an object moved to another zone (CR 400.3).
pub open spec fn moved(s: GameModel, id: ObjectId, to: Zone) -> GameModel {
    if s.objects.contains_key(id) {
        let o = s.objects[id];
        let s1 = taken(s, o.owner, id, o.zone);
        let s2 = GameModel { objects: s1.objects.insert(id, arrived(o, to)), ..s1 };
        placed(s2, o.owner, id, to)
    } else {
        s
    }
}

proof fn lemma_taken_keeps_objects(s: GameModel, owner: PlayerId, id: ObjectId, zone: Zone)
    ensures
        taken(s, owner, id, zone).objects == s.objects,
{
}

/// Changes an object that comes into a zone.
fn arrive(state: &mut GameState, id: ObjectId, to: Zone)
    requires
        old(state)@.objects.contains_key(id),
    ensures
        final(state)@ == (GameModel {
            objects: old(state)@.objects.insert(id, arrived(old(state)@.objects[id], to)),
            ..old(state)@
        }),
{
    if let Some(obj) = state.objects.get_mut(&id) {
        obj.zone = to;
        match to {
            Zone::Stack | Zone::Battlefield => {},
            _ => {
                obj.controller = obj.owner;
                obj.tapped = false;
                obj.attached_to = None;
            },
        }
    }
}

/// Moves an object to another zone.
pub fn move_object(state: &mut GameState, id: ObjectId, to: Zone)
    ensures
        final(state)@ == moved(old(state)@, id, to),
{
    let found = match state.objects.get(&id) {
        Some(obj) => Some((obj.owner, obj.zone)),
        None => None,
    };
    if let Some((owner, from)) = found {
        proof {
            lemma_taken_keeps_objects(state@, owner, id, from);
        }
        take(state, owner, id, from);
        arrive(state, id, to);
        place(state, owner, id, to);
    }
}

} // verus!
