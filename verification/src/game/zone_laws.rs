//! What moving objects between zones and loading decks does.
use vstd::prelude::*;

use crate::game::deck_loading;
use crate::game::effects::round_laws;
use crate::game::game_object::{GameObject, ObjectModel};
use crate::game::players;
use crate::game::zones;
use crate::types::card::CardFace;
use crate::types::game_state::GameModel;
use crate::types::identifiers::{CardId, ObjectId, PlayerId};
use crate::types::zones::Zone;

verus! {

/// What is listed in a zone; of the zones of players, in that of the one in a place.
pub open spec fn zone_list(s: GameModel, i: int, zone: Zone) -> Seq<ObjectId> {
    match zone {
        Zone::Library => s.players[i].library,
        Zone::Hand => s.players[i].hand,
        Zone::Graveyard => s.players[i].graveyard,
        Zone::Battlefield => s.battlefield,
        Zone::Exile => s.exile,
        Zone::Command => s.command_zone,
        Zone::Stack => Seq::empty(),
    }
}

/// Taking an identifier out of a list leaves all others and no other place for it.
pub proof fn lemma_without(list: Seq<ObjectId>, id: ObjectId, x: ObjectId)
    ensures
        zones::without(list, id).contains(x) <==> list.contains(x) && x != id,
    decreases list.len(),
{
    if list.len() > 0 {
        let front = list.drop_last();
        let last = list.last();
        lemma_without(front, id, x);
        let before = zones::without(front, id);
        let r = zones::without(list, id);
        assert(list.contains(x) <==> front.contains(x) || x == last) by {
            if front.contains(x) {
                let k = choose|k: int| 0 <= k < front.len() && front[k] == x;
                assert(list[k] == x);
            }
            if x == last {
                assert(list[list.len() - 1] == x);
            }
            if list.contains(x) {
                let k = choose|k: int| 0 <= k < list.len() && list[k] == x;
                if k < front.len() {
                    assert(front[k] == x);
                }
            }
        }
        if last != id {
            assert(r == before.push(last));
            if before.contains(x) {
                let k = choose|k: int| 0 <= k < before.len() && before[k] == x;
                assert(r[k] == x);
            }
            if x == last {
                assert(r[before.len() as int] == x);
            }
            if r.contains(x) && x != last {
                let k = choose|k: int| 0 <= k < r.len() && r[k] == x;
                assert(before[k] == x);
            }
        }
    }
}

/// An object that moves from one zone to another is listed last in the new one, and no longer in the
/// old one; everything else stays where it is. In the hand, library, graveyard, exile or command zone
/// it is its owner's, untapped and attached to nothing; on the battlefield and the stack it keeps its
/// controller.
pub proof fn what_moving_does(
    s: GameModel,
    id: ObjectId,
    from: Zone,
    to: Zone,
    i: int,
    z: Zone,
    x: ObjectId,
)
    requires
        s.objects.contains_key(id),
        s.objects[id].zone == from,
        from != to,
        round_laws::listed_at(s, s.objects[id].owner, i),
    ensures
        ({
            let t = zones::moved(s, id, to);
            let o = s.objects[id];
            &&& to != Zone::Stack ==> zone_list(t, i, to) == zone_list(s, i, to).push(id)
            &&& zone_list(t, i, from).contains(x) <==> zone_list(s, i, from).contains(x) && x != id
            &&& z != from && z != to ==> zone_list(t, i, z) == zone_list(s, i, z)
            &&& t.objects.dom() == s.objects.dom()
            &&& t.objects[id].zone == to
            &&& t.objects[id].owner == o.owner
            &&& if to == Zone::Battlefield || to == Zone::Stack {
                t.objects[id] == (ObjectModel { zone: to, ..o })
            } else {
                t.objects[id] == (ObjectModel {
                    zone: to,
                    controller: o.owner,
                    tapped: false,
                    attached_to: None,
                    ..o
                })
            }
            &&& x != id && s.objects.contains_key(x) ==> t.objects[x] == s.objects[x]
            &&& t.players.len() == s.players.len()
            &&& forall|j: int|
                0 <= j < s.players.len() && j != i ==> #[trigger] t.players[j] == s.players[j]
            &&& t.players[i].life == s.players[i].life
            &&& t.players[i].id == s.players[i].id
            &&& t.players[i].mana == s.players[i].mana
        }),
{
    let o = s.objects[id];
    round_laws::lemma_listed_at(s, o.owner, i);
    let s1 = zones::taken(s, o.owner, id, from);
    assert(s1.players.len() == s.players.len());
    assert forall|j: int| 0 <= j < s.players.len() implies (#[trigger] s1.players[j]).id
        == s.players[j].id by {
    }
    assert(round_laws::listed_at(s1, o.owner, i)) by {
        assert forall|j: int| 0 <= j < i implies (#[trigger] s1.players[j]).id != o.owner by {
            assert(s.players[j].id != o.owner);
        }
    }
    let s2 = GameModel { objects: s1.objects.insert(id, zones::arrived(o, to)), ..s1 };
    assert(round_laws::listed_at(s2, o.owner, i)) by {
        assert forall|j: int| 0 <= j < i implies (#[trigger] s2.players[j]).id != o.owner by {
            assert(s1.players[j].id != o.owner);
        }
    }
    round_laws::lemma_listed_at(s2, o.owner, i);
    lemma_without(zone_list(s, i, from), id, x);
    assert(zones::moved(s, id, to).objects.dom() =~= s.objects.dom());
}

/// A card that is loaded comes to the bottom of its owner's library, face as printed, and is its
/// owner's.
pub proof fn loaded_cards_are_as_printed(s: GameModel, face: CardFace, owner: PlayerId, i: int)
    requires
        round_laws::listed_at(s, owner, i),
        s.next_object_id < u64::MAX,
    ensures
        ({
            let t = deck_loading::card_loaded(s, face, owner);
            let id = ObjectId(s.next_object_id);
            let o = t.objects[id];
            &&& t.next_object_id == s.next_object_id + 1
            &&& t.players[i].library == s.players[i].library.push(id)
            &&& t.players[i].hand == s.players[i].hand
            &&& t.command_zone == s.command_zone
            &&& t.battlefield == s.battlefield
            &&& t.objects.dom() == s.objects.dom().insert(id)
            &&& forall|other: ObjectId|
                other != id && s.objects.contains_key(other) ==> #[trigger] t.objects[other]
                    == s.objects[other]
            &&& o.zone == Zone::Library
            &&& o.owner == owner
            &&& o.controller == owner
            &&& !o.is_vanguard
            &&& !o.is_token
            &&& o.name == face.name@
            &&& o.mana_cost == face.mana_cost
            &&& o.power == face.power
            &&& o.toughness == face.toughness
            &&& o.core_types == face.card_type.core_types@
            &&& o.subtypes == face.card_type.subtypes@
            &&& o.supertypes == face.card_type.supertypes@
            &&& o.color == face.colors@
            &&& o.keywords == face.keywords@
            &&& o.additional_cost == face.additional_cost
            &&& o.static_definitions == face.static_abilities@
            &&& o.base_trigger_definitions == face.triggers@
        }),
{
    round_laws::lemma_listed_at(s, owner, i);
    let id = ObjectId(s.next_object_id);
    let s1 = GameModel {
        next_object_id: (s.next_object_id + 1) as u64,
        objects: s.objects.insert(
            id,
            GameObject::blank(
                id,
                CardId(s.next_object_id),
                owner,
                face.name@,
                Zone::Library,
            ),
        ),
        ..s
    };
    assert(round_laws::listed_at(s1, owner, i));
    round_laws::lemma_listed_at(s1, owner, i);
    let t = deck_loading::card_loaded(s, face, owner);
    assert(t.objects.dom() =~= s.objects.dom().insert(id));
}

/// The life totals and names of the players are the same, in the same places.
pub open spec fn same_people(s: GameModel, t: GameModel) -> bool {
    &&& s.players.len() == t.players.len()
    &&& forall|i: int|
        0 <= i < s.players.len() ==> (#[trigger] t.players[i]).id == s.players[i].id
            && t.players[i].life == s.players[i].life
}

pub proof fn lemma_still_listed(s: GameModel, t: GameModel, owner: PlayerId, i: int)
    requires
        same_people(s, t),
        round_laws::listed_at(s, owner, i),
    ensures
        round_laws::listed_at(t, owner, i),
{
    assert forall|j: int| 0 <= j < i implies (#[trigger] t.players[j]).id != owner by {
        assert(s.players[j].id != owner);
    }
}

/// So many copies of a card make the owner's library, or the command zone, as many cards longer, and
/// the other one not.
pub proof fn copies_are_counted(
    s: GameModel,
    face: CardFace,
    owner: PlayerId,
    is_vanguard: bool,
    n: nat,
    i: int,
)
    requires
        round_laws::listed_at(s, owner, i),
        s.next_object_id + n <= u64::MAX,
    ensures
        ({
            let t = deck_loading::copies_loaded(s, face, owner, is_vanguard, n);
            &&& same_people(s, t)
            &&& t.next_object_id == s.next_object_id + n
            &&& t.players[i].library.len() == s.players[i].library.len() + if is_vanguard {
                0
            } else {
                n
            }
            &&& t.command_zone.len() == s.command_zone.len() + if is_vanguard {
                n
            } else {
                0
            }
        }),
    decreases n,
{
    if n > 0 {
        let before = deck_loading::copies_loaded(s, face, owner, is_vanguard, (n - 1) as nat);
        copies_are_counted(s, face, owner, is_vanguard, (n - 1) as nat, i);
        lemma_still_listed(s, before, owner, i);
        let t = deck_loading::copies_loaded(s, face, owner, is_vanguard, n);
        if !is_vanguard {
            loaded_cards_are_as_printed(before, face, owner, i);
            lemma_loading_keeps_people(before, face, owner);
        }
        assert(same_people(s, t)) by {
            assert forall|j: int| 0 <= j < s.players.len() implies (#[trigger] t.players[j]).id
                == s.players[j].id && t.players[j].life == s.players[j].life by {
                assert(before.players[j].id == s.players[j].id);
            }
        }
    }
}

proof fn lemma_loading_keeps_people(s: GameModel, face: CardFace, owner: PlayerId)
    ensures
        same_people(s, deck_loading::card_loaded(s, face, owner)),
{
    players::lemma_player_index(s.players, owner, 0);
}

} // verus!
