//! What the abilities that follow from a printed card are.
use std::sync::Arc;
use vstd::prelude::*;

use crate::database::synthesis;
use crate::types::ability::AbilityKind;
use crate::types::card::CardFace;
use crate::types::card_type::CoreType;
use crate::types::keywords::{GiftKind, Keyword};
use crate::types::statics::{HandSizeModification, StaticDefinition, StaticMode};
use crate::types::target_filter::{ControllerRef, TargetFilter};
use crate::types::triggers::{TriggerDefinition, TriggerMode};
use crate::types::zones::Zone;

verus! {

/// The ability that goes with a vanguard card's hand modifier changes the maximum hand size of its
/// controller by the modifier, and works from the command zone and nowhere else.
pub proof fn hand_modifiers_change_the_maximum_hand_size(def: StaticDefinition, modifier: i32)
    requires
        synthesis::hand_modifier_static(def, modifier),
    ensures
        def.mode matches StaticMode::MaximumHandSize { modification } && modification
            == HandSizeModification::AdjustedBy(modifier),
        def.active_zones@.len() == 1,
        def.active_zones@[0] == Zone::Command,
        def.affected matches Some(TargetFilter::Typed(typed)) && {
            &&& typed.controller == Some(ControllerRef::You)
            &&& typed.type_filters@.len() == 0
            &&& typed.properties@.len() == 0
        },
{
}

spec fn gives(keyword: Arc<Keyword>) -> bool {
    *keyword is Gift
}

/// A card promises the gift of the first gift keyword among its keywords; without one it promises
/// nothing.
pub proof fn the_first_gift_keyword_is_promised(keywords: Seq<Arc<Keyword>>)
    ensures
        match synthesis::promised_gift(keywords) {
            Some(gift) => exists|k: int|
                {
                    &&& 0 <= k < keywords.len()
                    &&& *#[trigger] keywords[k] == Keyword::Gift(gift)
                    &&& forall|j: int| 0 <= j < k ==> !(*#[trigger] keywords[j] is Gift)
                },
            None => forall|k: int| 0 <= k < keywords.len() ==> !(*#[trigger] keywords[k] is Gift),
        },
    decreases keywords.len(),
{
    if keywords.len() > 0 {
        let rest = keywords.drop_first();
        the_first_gift_keyword_is_promised(rest);
        let first = keywords[0];
        if gives(first) {
            let gift = synthesis::promised_gift(keywords)->Some_0;
            assert(*keywords[0] == Keyword::Gift(gift));
        } else {
            match synthesis::promised_gift(rest) {
                Some(gift) => {
                    let k = choose|k: int|
                        {
                            &&& 0 <= k < rest.len()
                            &&& *#[trigger] rest[k] == Keyword::Gift(gift)
                            &&& forall|j: int| 0 <= j < k ==> !(*#[trigger] rest[j] is Gift)
                        };
                    assert(*keywords[k + 1] == Keyword::Gift(gift));
                    assert forall|j: int| 0 <= j < k + 1 implies !(*#[trigger] keywords[j] is Gift) by {
                        if j > 0 {
                            assert(!(*rest[j - 1] is Gift));
                        }
                    }
                },
                None => {
                    assert forall|k: int| 0 <= k < keywords.len() implies !(
                    *#[trigger] keywords[k] is Gift) by {
                        if k > 0 {
                            assert(!(*rest[k - 1] is Gift));
                        }
                    }
                },
            }
        }
    }
}

/// A card is one for a permanent exactly if it is an artifact, battle, creature, enchantment, land or
/// planeswalker.
pub proof fn what_permanent_cards_are(face: CardFace)
    ensures
        synthesis::permanent_card(face) <==> exists|i: int|
            0 <= i < face.card_type.core_types@.len() && {
                let t = #[trigger] face.card_type.core_types@[i];
                ||| t == CoreType::Artifact
                ||| t == CoreType::Battle
                ||| t == CoreType::Creature
                ||| t == CoreType::Enchantment
                ||| t == CoreType::Land
                ||| t == CoreType::Planeswalker
            },
{
    let types = face.card_type.core_types@;
    if synthesis::permanent_card(face) {
        let wanted = if types.contains(CoreType::Artifact) {
            CoreType::Artifact
        } else if types.contains(CoreType::Battle) {
            CoreType::Battle
        } else if types.contains(CoreType::Creature) {
            CoreType::Creature
        } else if types.contains(CoreType::Enchantment) {
            CoreType::Enchantment
        } else if types.contains(CoreType::Land) {
            CoreType::Land
        } else {
            CoreType::Planeswalker
        };
        let i = choose|i: int| 0 <= i < types.len() && types[i] == wanted;
        assert(face.card_type.core_types@[i] == wanted);
    }
}

/// The trigger that delivers a gift triggers when its permanent enters, and does nothing but to
/// deliver the gift.
pub proof fn gift_triggers_deliver_the_gift(t: TriggerDefinition, gift: GiftKind)
    requires
        synthesis::gift_trigger(t, gift),
    ensures
        t.mode == TriggerMode::Enters,
        t.execute matches Some(a) && {
            &&& a.kind == AbilityKind::Triggered
            &&& *a.effect is GiftDelivery
            &&& a.sub_ability is None
            &&& a.condition is None
            &&& a.modal is None
            &&& a.mode_abilities is None
            &&& !a.optional
            &&& a.repeat_for is None
        },
{
}

} // verus!
