//! The Vanguard variant (CR 902).
//!
//! Each player has one face-up vanguard card in the command zone for the whole game. It changes the
//! player's starting life total and the number of cards in their opening hand.
use vstd::prelude::*;

use crate::game::game_object::ObjectModel;
use crate::game::players;
use crate::game::printed_cards;
use crate::game::zones;
use crate::types::card::CardFace;
use crate::types::format::GameFormat;
use crate::types::game_state::{GameModel, GameState};
use crate::types::identifiers::{CardId, ObjectId, PlayerId};
use crate::types::player::PlayerModel;
use crate::types::zones::Zone;

verus! {

/// The object is a vanguard card.
pub open spec fn vanguard_object(s: GameModel, id: ObjectId) -> bool {
    s.objects.contains_key(id) && s.objects[id].is_vanguard
}

/// The first vanguard card in a list that a player controls.
pub open spec fn vanguard_among(
    s: GameModel,
    ids: Seq<ObjectId>,
    player: PlayerId,
) -> Option<ObjectId>
    decreases ids.len(),
{
    if ids.len() == 0 {
        None
    } else if vanguard_object(s, ids[0]) && s.objects[ids[0]].controller == player {
        Some(ids[0])
    } else {
        vanguard_among(s, ids.drop_first(), player)
    }
}

/// The vanguard card of a player (CR 902.6).
pub open spec fn vanguard_of(s: GameModel, player: PlayerId) -> Option<ObjectId> {
    vanguard_among(s, s.command_zone, player)
}

/// Whether an object is a player's vanguard card.
pub fn is_vanguard_object(state: &GameState, id: ObjectId) -> (r: bool)
    ensures
        r == vanguard_object(state@, id),
{
    match state.objects.get(&id) {
        Some(obj) => obj.is_vanguard,
        None => false,
    }
}

/// The vanguard card that a player controls, if any.
pub fn vanguard_for_player(state: &GameState, player: PlayerId) -> (r: Option<ObjectId>)
    ensures
        r == vanguard_of(state@, player),
        r matches Some(id) ==> vanguard_object(state@, id) && state@.objects[id].controller
            == player,
{
    let mut i: usize = 0;
    assert(state.command_zone@.skip(0) =~= state.command_zone@);
    while i < state.command_zone.len()
        invariant
            i <= state.command_zone.len(),
            vanguard_among(state@, state.command_zone@.skip(i as int), player) == vanguard_of(
                state@,
                player,
            ),
        decreases state.command_zone.len() - i,
    {
        let id = state.command_zone[i];
        assert(state.command_zone@.skip(i as int).drop_first() =~= state.command_zone@.skip(i + 1));
        if let Some(obj) = state.objects.get(&id) {
            if obj.is_vanguard && obj.controller == player {
                return Some(id);
            }
        }
        i = i + 1;
    }
    None
}

/// A vanguard card with the characteristics of its face.
pub open spec fn vanguard_card(id: ObjectId, face: CardFace, owner: PlayerId) -> ObjectModel {
    ObjectModel {
        is_vanguard: true,
        face_down: false,
        ..printed_cards::face_applied(
            crate::game::game_object::GameObject::blank(
                id,
                CardId(id.0),
                owner,
                face.name@,
                Zone::Command,
            ),
            face,
        )
    }
}

/// The game with a new vanguard card, last in the command zone.
pub open spec fn vanguard_created(s: GameModel, face: CardFace, owner: PlayerId) -> GameModel {
    let id = ObjectId(s.next_object_id);
    GameModel {
        next_object_id: (s.next_object_id + 1) as u64,
        objects: s.objects.insert(id, vanguard_card(id, face, owner)),
        command_zone: s.command_zone.push(id),
        ..s
    }
}

/// Puts a vanguard card face up into the command zone (CR 902.6).
pub fn create_vanguard_from_card_face(
    state: &mut GameState,
    card_face: &CardFace,
    owner: PlayerId,
) -> (id: ObjectId)
    requires
        old(state).next_object_id < u64::MAX,
    ensures
        id == ObjectId(old(state).next_object_id),
        final(state)@ == vanguard_created(old(state)@, *card_face, owner),
{
    let card_id = CardId(state.next_object_id);
    let id = zones::create_object(state, card_id, owner, card_face.name.clone(), Zone::Command);
    if let Some(obj) = state.objects.get_mut(&id) {
        printed_cards::apply_card_face_to_object(obj, card_face);
        obj.is_vanguard = true;
        obj.face_down = false;
    }
    assert(state@ =~= vanguard_created(old(state)@, *card_face, owner));
    id
}

/// What a player's vanguard card adds to their starting life total.
pub open spec fn life_modifier(s: GameModel, player: PlayerId) -> int {
    match vanguard_of(s, player) {
        Some(id) => s.objects[id].life_modifier as int,
        None => 0,
    }
}

/// The game after one player's modifier was applied.
pub open spec fn modifier_applied(s: GameModel, player: PlayerId) -> GameModel {
    let i = players::seat(s, player);
    let m = life_modifier(s, player);
    if m == 0 || i >= s.players.len() {
        s
    } else {
        players::with_player(
            s,
            i,
            PlayerModel { life: (s.players[i].life + m) as i32, ..s.players[i] },
        )
    }
}

/// The game after the modifiers of a list of players were applied, first to last.
pub open spec fn modifiers_applied(s: GameModel, order: Seq<PlayerId>) -> GameModel
    decreases order.len(),
{
    if order.len() == 0 {
        s
    } else {
        modifier_applied(modifiers_applied(s, order.drop_last()), order.last())
    }
}

/// No life total leaves its range while one modifier is applied.
pub open spec fn modifier_fits(s: GameModel, player: PlayerId) -> bool {
    let i = players::seat(s, player);
    i < s.players.len() ==> i32::MIN <= s.players[i].life + life_modifier(s, player) <= i32::MAX
}

/// No life total leaves its range while the modifiers are applied.
pub open spec fn modifiers_fit(s: GameModel, order: Seq<PlayerId>) -> bool {
    forall|k: int|
        0 <= k < order.len() ==> modifier_fits(
            #[trigger] modifiers_applied(s, order.take(k)),
            order[k],
        )
}

/// The game with the starting life totals of the variant (CR 902.4).
pub open spec fn starting_life(s: GameModel) -> GameModel {
    if s.format_config.format == GameFormat::Vanguard {
        modifiers_applied(s, s.seat_order)
    } else {
        s
    }
}

/// Applies each player's vanguard life modifier.
pub fn apply_vanguard_starting_life_modifiers(state: &mut GameState)
    requires
        old(state)@.format_config.format == GameFormat::Vanguard ==> modifiers_fit(
            old(state)@,
            old(state)@.seat_order,
        ),
    ensures
        final(state)@ == starting_life(old(state)@),
{
    if state.format_config.format != GameFormat::Vanguard {
        return ;
    }
    let ghost order = state@.seat_order;
    let mut k: usize = 0;
    assert(order.take(0) =~= Seq::empty());
    while k < state.seat_order.len()
        invariant
            k <= state.seat_order.len(),
            order == old(state)@.seat_order,
            state.seat_order@ == order,
            modifiers_fit(old(state)@, order),
            state@ == modifiers_applied(old(state)@, order.take(k as int)),
        decreases state.seat_order.len() - k,
    {
        let player = state.seat_order[k];
        assert(order.take(k + 1).drop_last() =~= order.take(k as int));
        let ghost before = *state;
        assert(modifier_fits(modifiers_applied(old(state)@, order.take(k as int)), order[k as int]));
        let modifier: i32 = match vanguard_for_player(state, player) {
            Some(id) => match state.objects.get(&id) {
                Some(obj) => obj.life_modifier,
                None => 0,
            },
            None => 0,
        };
        if modifier != 0 {
            let i: usize = players::find_player(state, player);
            if i < state.players.len() {
                state.players[i].life = state.players[i].life + modifier;
                proof {
                    players::lemma_player_update(
                        before.players@,
                        i as int,
                        state.players@[i as int],
                    );
                    assert(state@ =~= modifier_applied(before@, player));
                }
            }
        }
        k = k + 1;
    }
    assert(order.take(k as int) =~= order);
}

/// The number of cards in an opening hand (CR 902.5): seven, changed by the vanguard card's hand
/// modifier and by nothing else.
pub open spec fn opening_hand(s: GameModel, player: PlayerId) -> int {
    if s.format_config.format != GameFormat::Vanguard {
        7
    } else {
        match vanguard_of(s, player) {
            Some(id) => if s.objects[id].hand_modifier < -7 {
                0
            } else {
                7 + s.objects[id].hand_modifier
            },
            None => 7,
        }
    }
}

/// The number of cards that a player draws for their opening hand.
pub fn opening_hand_size(state: &GameState, player: PlayerId) -> (r: usize)
    ensures
        r == opening_hand(state@, player),
{
    if state.format_config.format != GameFormat::Vanguard {
        return 7;
    }
    match vanguard_for_player(state, player) {
        Some(id) => match state.objects.get(&id) {
            Some(obj) => {
                let n: i64 = 7 + obj.hand_modifier as i64;
                if n < 0 {
                    0
                } else {
                    n as usize
                }
            },
            None => 7,
        },
        None => 7,
    }
}

} // verus!
