//! From printed cards to game objects.
use vstd::prelude::*;

use crate::game::game_object::{GameObject, ObjectModel};
use crate::shared;
use crate::types::card::{CardFace, CardTypes};

verus! {

/// The object with the characteristics of a card face (CR 109.3).
pub open spec fn face_applied(o: ObjectModel, face: CardFace) -> ObjectModel {
    ObjectModel {
        name: face.name@,
        mana_cost: face.mana_cost,
        power: face.power,
        toughness: face.toughness,
        core_types: face.card_type.core_types@,
        subtypes: face.card_type.subtypes@,
        supertypes: face.card_type.supertypes@,
        color: face.colors@,
        keywords: face.keywords@,
        hand_modifier: face.hand_modifier,
        life_modifier: face.life_modifier,
        additional_cost: face.additional_cost,
        static_definitions: face.static_abilities@,
        base_trigger_definitions: face.triggers@,
        ..o
    }
}

pub fn apply_card_face_to_object(obj: &mut GameObject, face: &CardFace)
    ensures
        final(obj)@ == face_applied(old(obj)@, *face),
{
    obj.name = face.name.clone();
    obj.mana_cost = face.mana_cost;
    obj.power = face.power;
    obj.toughness = face.toughness;
    obj.card_types = CardTypes {
        core_types: shared::copy_all(&face.card_type.core_types),
        subtypes: shared::copy_texts(&face.card_type.subtypes),
        supertypes: shared::copy_all(&face.card_type.supertypes),
    };
    obj.color = shared::copy_all(&face.colors);
    obj.keywords = shared::share_all(&face.keywords);
    obj.hand_modifier = face.hand_modifier;
    obj.life_modifier = face.life_modifier;
    obj.additional_cost = face.additional_cost;
    obj.static_definitions = shared::share_all(&face.static_abilities);
    obj.base_trigger_definitions = shared::share_all(&face.triggers);
}

} // verus!
