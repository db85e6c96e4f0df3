//! What holds of the Vanguard variant as a whole.
use std::sync::Arc;
use vstd::prelude::*;

use crate::game::effects::round_laws;
use crate::game::game_object::ObjectModel;
use crate::game::players;
use crate::game::vanguard;
use crate::types::card::CardFace;
use crate::types::format::GameFormat;
use crate::types::game_state::GameModel;
use crate::types::identifiers::{ObjectId, PlayerId};
use crate::types::player::PlayerModel;
use crate::types::statics::StaticDefinition;
use crate::types::zones::Zone;

verus! {

/// The player at a position, with another life total.
pub open spec fn same_but_life(a: PlayerModel, b: PlayerModel) -> bool {
    b == PlayerModel { life: b.life, ..a }
}

/// Applying life modifiers changes life totals and nothing else.
pub proof fn modifiers_change_life_only(s: GameModel, order: Seq<PlayerId>)
    ensures
        ({
            let t = vanguard::modifiers_applied(s, order);
            &&& t == (GameModel { players: t.players, ..s })
            &&& t.players.len() == s.players.len()
            &&& forall|i: int|
                0 <= i < s.players.len() ==> same_but_life(s.players[i], #[trigger] t.players[i])
        }),
    decreases order.len(),
{
    if order.len() > 0 {
        modifiers_change_life_only(s, order.drop_last());
        let u = vanguard::modifiers_applied(s, order.drop_last());
        let t = vanguard::modifiers_applied(s, order);
        players::lemma_player_index(u.players, order.last(), 0);
        assert forall|i: int| 0 <= i < s.players.len() implies same_but_life(
            s.players[i],
            #[trigger] t.players[i],
        ) by {
            assert(same_but_life(s.players[i], u.players[i]));
        }
    }
}

proof fn lemma_seat_by_ids(a: Seq<PlayerModel>, b: Seq<PlayerModel>, id: PlayerId, from: int)
    requires
        0 <= from,
        a.len() == b.len(),
        forall|i: int| 0 <= i < a.len() ==> a[i].id == b[i].id,
    ensures
        players::player_index(a, id, from) == players::player_index(b, id, from),
    decreases a.len() - from,
{
    if from < a.len() && a[from].id != id {
        lemma_seat_by_ids(a, b, id, from + 1);
    }
}

proof fn lemma_vanguard_unchanged(s: GameModel, t: GameModel, ids: Seq<ObjectId>, player: PlayerId)
    requires
        s.objects == t.objects,
    ensures
        vanguard::vanguard_among(s, ids, player) == vanguard::vanguard_among(t, ids, player),
    decreases ids.len(),
{
    if ids.len() > 0 {
        lemma_vanguard_unchanged(s, t, ids.drop_first(), player);
    }
}

/// With every seat listed once, a seated player starts with the life modifier of their vanguard
/// card, and a player without a seat keeps their life total.
pub proof fn each_player_gets_their_modifier(s: GameModel, order: Seq<PlayerId>, player: PlayerId)
    requires
        order.no_duplicates(),
        vanguard::modifiers_fit(s, order),
        players::known(s, player),
    ensures
        ({
            let t = vanguard::modifiers_applied(s, order);
            let i = players::seat(s, player);
            t.players[i].life == s.players[i].life + if order.contains(player) {
                vanguard::life_modifier(s, player)
            } else {
                0
            }
        }),
    decreases order.len(),
{
    players::lemma_player_index(s.players, player, 0);
    if order.len() > 0 {
        let front = order.drop_last();
        let last = order.last();
        assert forall|k: int| 0 <= k < front.len() implies vanguard::modifier_fits(
            #[trigger] vanguard::modifiers_applied(s, front.take(k)),
            front[k],
        ) by {
            assert(front.take(k) =~= order.take(k));
            assert(vanguard::modifier_fits(
                vanguard::modifiers_applied(s, order.take(k)),
                order[k],
            ));
        }
        each_player_gets_their_modifier(s, front, player);
        modifiers_change_life_only(s, front);
        let t = vanguard::modifiers_applied(s, front);
        lemma_seat_by_ids(s.players, t.players, player, 0);
        lemma_seat_by_ids(s.players, t.players, last, 0);
        lemma_vanguard_unchanged(s, t, s.command_zone, last);
        players::lemma_player_index(t.players, last, 0);
        assert(order.take(order.len() - 1) =~= front);
        assert(vanguard::modifier_fits(
            vanguard::modifiers_applied(s, order.take(order.len() - 1)),
            order[order.len() - 1],
        ));
        assert(order =~= front.push(last));
        if player == last {
            assert(order[order.len() - 1] == player);
            if front.contains(player) {
                let k = choose|k: int| 0 <= k < front.len() && front[k] == player;
                assert(order[k] == order[order.len() - 1]);
            }
        } else {
            assert(order.contains(player) == front.contains(player)) by {
                if front.contains(player) {
                    let k = choose|k: int| 0 <= k < front.len() && front[k] == player;
                    assert(order[k] == player);
                }
                if order.contains(player) {
                    let k = choose|k: int| 0 <= k < order.len() && order[k] == player;
                    assert(front[k] == player);
                }
            }
        }
    }
}

/// Outside the variant, starting life totals and opening hands are not changed.
pub proof fn other_formats_are_unchanged(s: GameModel, player: PlayerId)
    requires
        s.format_config.format != GameFormat::Vanguard,
    ensures
        vanguard::starting_life(s) == s,
        vanguard::opening_hand(s, player) == 7,
{
}

/// A vanguard card that was just made is its owner's vanguard card, if they had none.
pub proof fn created_vanguard_is_found(s: GameModel, face: CardFace, owner: PlayerId)
    requires
        vanguard::vanguard_of(s, owner) is None,
        !s.command_zone.contains(ObjectId(s.next_object_id)),
    ensures
        vanguard::vanguard_of(vanguard::vanguard_created(s, face, owner), owner) == Some(
            ObjectId(s.next_object_id),
        ),
{
    let id = ObjectId(s.next_object_id);
    let t = vanguard::vanguard_created(s, face, owner);
    lemma_found_last(s, t, s.command_zone, id, owner);
}

proof fn lemma_found_last(
    s: GameModel,
    t: GameModel,
    ids: Seq<ObjectId>,
    id: ObjectId,
    owner: PlayerId,
)
    requires
        vanguard::vanguard_among(s, ids, owner) is None,
        !ids.contains(id),
        vanguard::vanguard_object(t, id),
        t.objects[id].controller == owner,
        forall|k: ObjectId| k != id ==> s.objects.contains_key(k) == t.objects.contains_key(k),
        forall|k: ObjectId| k != id && s.objects.contains_key(k) ==> s.objects[k] == t.objects[k],
    ensures
        vanguard::vanguard_among(t, ids.push(id), owner) == Some(id),
    decreases ids.len(),
{
    let all = ids.push(id);
    if ids.len() > 0 {
        assert(all[0] == ids[0]);
        assert(ids[0] != id) by {
            assert(ids.contains(ids[0]));
        }
        assert(all.drop_first() =~= ids.drop_first().push(id));
        assert forall|x: ObjectId| ids.drop_first().contains(x) implies ids.contains(x) by {
            let k = choose|k: int| 0 <= k < ids.drop_first().len() && ids.drop_first()[k] == x;
            assert(ids[k + 1] == x);
        }
        lemma_found_last(s, t, ids.drop_first(), id, owner);
    } else {
        assert(all[0] == id);
    }
}

proof fn lemma_statics_do_not_hide(
    s: GameModel,
    t: GameModel,
    id: ObjectId,
    ids: Seq<ObjectId>,
    player: PlayerId,
)
    requires
        s.objects.contains_key(id),
        t.objects == s.objects.insert(
            id,
            ObjectModel {
                static_definitions: t.objects[id].static_definitions,
                ..s.objects[id]
            },
        ),
    ensures
        vanguard::vanguard_among(t, ids, player) == vanguard::vanguard_among(s, ids, player),
    decreases ids.len(),
{
    if ids.len() > 0 {
        lemma_statics_do_not_hide(s, t, id, ids.drop_first(), player);
    }
}

/// Static abilities, those that change the maximum hand size among them, do not change how many
/// cards an opening hand has (CR 902.5).
pub proof fn opening_hand_ignores_static_abilities(
    s: GameModel,
    id: ObjectId,
    defs: Seq<Arc<StaticDefinition>>,
    player: PlayerId,
)
    requires
        s.objects.contains_key(id),
    ensures
        vanguard::opening_hand(
            GameModel {
                objects: s.objects.insert(
                    id,
                    ObjectModel { static_definitions: defs, ..s.objects[id] },
                ),
                ..s
            },
            player,
        ) == vanguard::opening_hand(s, player),
{
    let t = GameModel {
        objects: s.objects.insert(id, ObjectModel { static_definitions: defs, ..s.objects[id] }),
        ..s
    };
    lemma_statics_do_not_hide(s, t, id, s.command_zone, player);
}

/// The card in a place of the command zone is a vanguard card that the player controls.
pub open spec fn vanguard_at(s: GameModel, player: PlayerId, k: int) -> bool {
    &&& 0 <= k < s.command_zone.len()
    &&& s.objects.contains_key(s.command_zone[k])
    &&& s.objects[s.command_zone[k]].is_vanguard
    &&& s.objects[s.command_zone[k]].controller == player
}

/// The player's vanguard card stands in a place of the command zone, and no other one before it.
pub open spec fn first_vanguard_at(s: GameModel, player: PlayerId, k: int) -> bool {
    vanguard_at(s, player, k) && forall|j: int| 0 <= j < k ==> !#[trigger] vanguard_at(s, player, j)
}

proof fn lemma_first_vanguard(s: GameModel, player: PlayerId, from: int) -> (k: int)
    requires
        0 <= from <= s.command_zone.len(),
    ensures
        from <= k <= s.command_zone.len(),
        forall|j: int| from <= j < k ==> !#[trigger] vanguard_at(s, player, j),
        k < s.command_zone.len() ==> vanguard_at(s, player, k) && vanguard::vanguard_among(
            s,
            s.command_zone.skip(from),
            player,
        ) == Some(s.command_zone[k]),
        k == s.command_zone.len() ==> vanguard::vanguard_among(
            s,
            s.command_zone.skip(from),
            player,
        ) is None,
    decreases s.command_zone.len() - from,
{
    let rest = s.command_zone.skip(from);
    if from == s.command_zone.len() {
        from
    } else {
        assert(rest[0] == s.command_zone[from]);
        assert(rest.drop_first() =~= s.command_zone.skip(from + 1));
        if vanguard_at(s, player, from) {
            from
        } else {
            lemma_first_vanguard(s, player, from + 1)
        }
    }
}

/// A player's vanguard card is the first one in the command zone that they control; without such a
/// card they have none.
pub proof fn the_vanguard_is_the_first_in_the_command_zone(s: GameModel, player: PlayerId)
    ensures
        match vanguard::vanguard_of(s, player) {
            Some(id) => exists|k: int| #[trigger]
                first_vanguard_at(s, player, k) && s.command_zone[k] == id,
            None => forall|k: int| !#[trigger] vanguard_at(s, player, k),
        },
{
    assert(s.command_zone.skip(0) =~= s.command_zone);
    let k = lemma_first_vanguard(s, player, 0);
    if k < s.command_zone.len() {
        assert(first_vanguard_at(s, player, k));
    }
}

proof fn lemma_its_vanguard(s: GameModel, player: PlayerId, k: int)
    requires
        first_vanguard_at(s, player, k),
    ensures
        vanguard::vanguard_of(s, player) == Some(s.command_zone[k]),
{
    assert(s.command_zone.skip(0) =~= s.command_zone);
    let j = lemma_first_vanguard(s, player, 0);
    if j < k {
        assert(!vanguard_at(s, player, j));
    }
}

/// A vanguard card that is made stands face up and last in the command zone, with what is printed on
/// its face, owned and controlled by its owner. Nothing else changes.
pub proof fn the_vanguard_is_as_printed(s: GameModel, face: CardFace, owner: PlayerId)
    requires
        s.next_object_id < u64::MAX,
    ensures
        ({
            let t = vanguard::vanguard_created(s, face, owner);
            let id = ObjectId(s.next_object_id);
            let o = t.objects[id];
            &&& t == (GameModel {
                next_object_id: t.next_object_id,
                objects: t.objects,
                command_zone: t.command_zone,
                ..s
            })
            &&& t.next_object_id == s.next_object_id + 1
            &&& t.command_zone.len() == s.command_zone.len() + 1
            &&& t.command_zone.drop_last() == s.command_zone
            &&& t.command_zone.last() == id
            &&& t.objects.dom() == s.objects.dom().insert(id)
            &&& forall|other: ObjectId|
                other != id && s.objects.contains_key(other) ==> #[trigger] t.objects[other]
                    == s.objects[other]
            &&& o.id == id
            &&& o.card_id.0 == id.0
            &&& o.is_vanguard
            &&& !o.face_down
            &&& !o.tapped
            &&& !o.is_token
            &&& !o.attacking
            &&& o.zone == Zone::Command
            &&& o.owner == owner
            &&& o.controller == owner
            &&& o.name == face.name@
            &&& o.mana_cost == face.mana_cost
            &&& o.power == face.power
            &&& o.toughness == face.toughness
            &&& o.core_types == face.card_type.core_types@
            &&& o.subtypes == face.card_type.subtypes@
            &&& o.supertypes == face.card_type.supertypes@
            &&& o.color == face.colors@
            &&& o.keywords == face.keywords@
            &&& o.hand_modifier == face.hand_modifier
            &&& o.life_modifier == face.life_modifier
            &&& o.additional_cost == face.additional_cost
            &&& o.static_definitions == face.static_abilities@
            &&& o.base_trigger_definitions == face.triggers@
            &&& o.spell_ability is None
            &&& o.counters.len() == 0
            &&& o.replacement_definitions.len() == 0
        }),
{
    let t = vanguard::vanguard_created(s, face, owner);
    assert(t.command_zone.drop_last() =~= s.command_zone);
    assert(t.objects.dom() =~= s.objects.dom().insert(ObjectId(s.next_object_id)));
}

/// In the variant, a seated player starts with the life total of the format and the number printed
/// on their vanguard card, which is the first one of theirs in the command zone.
pub proof fn life_starts_with_the_printed_modifier(s: GameModel, player: PlayerId, i: int, k: int)
    requires
        s.format_config.format == GameFormat::Vanguard,
        s.seat_order.no_duplicates(),
        s.seat_order.contains(player),
        round_laws::listed_at(s, player, i),
        first_vanguard_at(s, player, k),
        vanguard::modifiers_fit(s, s.seat_order),
    ensures
        vanguard::starting_life(s).players[i].life == s.players[i].life
            + s.objects[s.command_zone[k]].life_modifier,
{
    round_laws::lemma_listed_at(s, player, i);
    lemma_its_vanguard(s, player, k);
    each_player_gets_their_modifier(s, s.seat_order, player);
}

/// A player without a vanguard card starts with the life total of the format.
pub proof fn life_starts_unchanged_without_vanguard(s: GameModel, player: PlayerId, i: int)
    requires
        s.format_config.format == GameFormat::Vanguard,
        s.seat_order.no_duplicates(),
        round_laws::listed_at(s, player, i),
        forall|k: int| !#[trigger] vanguard_at(s, player, k),
        vanguard::modifiers_fit(s, s.seat_order),
    ensures
        vanguard::starting_life(s).players[i].life == s.players[i].life,
{
    round_laws::lemma_listed_at(s, player, i);
    the_vanguard_is_the_first_in_the_command_zone(s, player);
    each_player_gets_their_modifier(s, s.seat_order, player);
}

/// In the variant, the opening hand has seven cards and as many more or fewer as are printed on the
/// player's vanguard card, but not fewer than none.
pub proof fn hands_start_with_the_printed_modifier(s: GameModel, player: PlayerId, k: int)
    requires
        s.format_config.format == GameFormat::Vanguard,
        first_vanguard_at(s, player, k),
    ensures
        ({
            let m = s.objects[s.command_zone[k]].hand_modifier;
            vanguard::opening_hand(s, player) == if 7 + m >= 0 {
                7 + m
            } else {
                0
            }
        }),
{
    lemma_its_vanguard(s, player, k);
}

/// Without a vanguard card the opening hand has seven cards.
pub proof fn hands_start_with_seven_cards(s: GameModel, player: PlayerId)
    requires
        forall|k: int| !#[trigger] vanguard_at(s, player, k),
    ensures
        vanguard::opening_hand(s, player) == 7,
{
    the_vanguard_is_the_first_in_the_command_zone(s, player);
}

} // verus!
