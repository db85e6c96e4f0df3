//! Abilities that follow from what is printed on a card.
use std::sync::Arc;
use vstd::prelude::*;

use crate::types::ability::{AbilityDefinition, AbilityKind, Effect};
use crate::types::card::{AdditionalCost, CardFace};
use crate::types::card_type::CoreType;
use crate::types::keywords::{GiftKind, Keyword};
use crate::types::statics::{HandSizeModification, StaticDefinition, StaticMode};
use crate::types::target_filter::{ControllerRef, TargetFilter, TypedFilter};
use crate::types::triggers::{TriggerDefinition, TriggerMode};
use crate::types::zones::Zone;

verus! {

/// "Your maximum hand size is increased or reduced by ...", from the command zone.
pub open spec fn hand_modifier_static(def: StaticDefinition, modifier: i32) -> bool {
    &&& def.mode == (StaticMode::MaximumHandSize {
        modification: HandSizeModification::AdjustedBy(modifier),
    })
    &&& def.active_zones@ == seq![Zone::Command]
    &&& def.affected matches Some(TargetFilter::Typed(typed)) && {
        &&& typed.type_filters@.len() == 0
        &&& typed.controller == Some(ControllerRef::You)
        &&& typed.properties@.len() == 0
    }
}

fn has_type(face: &CardFace, t: CoreType) -> (r: bool)
    ensures
        r == face.card_type.core_types@.contains(t),
{
    let types = &face.card_type.core_types;
    let mut i: usize = 0;
    while i < types.len()
        invariant
            i <= types.len(),
            types@ == face.card_type.core_types@,
            forall|j: int| 0 <= j < i ==> types@[j] != t,
        decreases types.len() - i,
    {
        if types[i] == t {
            return true;
        }
        i = i + 1;
    }
    false
}

/// Gives a vanguard card with a hand modifier the static ability that goes with it (CR 902.5).
pub fn synthesize_vanguard(face: &mut CardFace)
    ensures
        ({
            let adds = old(face).card_type.core_types@.contains(CoreType::Vanguard) && old(
                face,
            ).hand_modifier != 0;
            &&& *final(face) == (CardFace {
                static_abilities: final(face).static_abilities,
                ..*old(face)
            })
            &&& if adds {
                let n = old(face).static_abilities@.len();
                &&& final(face).static_abilities@.len() == n + 1
                &&& final(face).static_abilities@.take(n as int) == old(face).static_abilities@
                &&& hand_modifier_static(
                    *final(face).static_abilities@[n as int],
                    old(face).hand_modifier,
                )
            } else {
                final(face).static_abilities == old(face).static_abilities
            }
        }),
{
    if has_type(face, CoreType::Vanguard) && face.hand_modifier != 0 {
        let mut zones: Vec<Zone> = Vec::new();
        zones.push(Zone::Command);
        let def = StaticDefinition::new(
            StaticMode::MaximumHandSize {
                modification: HandSizeModification::AdjustedBy(face.hand_modifier),
            },
        ).affected(
            TargetFilter::from(TypedFilter::default().controller(ControllerRef::You)),
        ).active_zones(zones);
        face.static_abilities.push(Arc::new(def));
        assert(face.static_abilities@.take(old(face).static_abilities@.len() as int) =~= old(
            face,
        ).static_abilities@);
    }
}

/// What the first gift keyword among the keywords gives.
pub open spec fn promised_gift(keywords: Seq<Arc<Keyword>>) -> Option<GiftKind>
    decreases keywords.len(),
{
    if keywords.len() == 0 {
        None
    } else {
        match *keywords[0] {
            Keyword::Gift(kind) => Some(kind),
            _ => promised_gift(keywords.drop_first()),
        }
    }
}

/// The card has a permanent card type (CR 110.4).
pub open spec fn permanent_card(face: CardFace) -> bool {
    let types = face.card_type.core_types@;
    ||| types.contains(CoreType::Artifact)
    ||| types.contains(CoreType::Battle)
    ||| types.contains(CoreType::Creature)
    ||| types.contains(CoreType::Enchantment)
    ||| types.contains(CoreType::Land)
    ||| types.contains(CoreType::Planeswalker)
}

/// "When this permanent enters, if the gift was promised, ..." (CR 702.174b).
pub open spec fn gift_trigger(t: TriggerDefinition, gift: GiftKind) -> bool {
    &&& t.mode == TriggerMode::Enters
    &&& t.execute matches Some(a) && {
        &&& *a == AbilityDefinition::plain(AbilityKind::Triggered, *a.effect)
        &&& *a.effect matches Effect::GiftDelivery { kind } && kind.same_gift(gift)
    }
}

/// Gives a card with a gift keyword the optional cost that promises the gift, and a permanent card
/// the trigger that delivers it (CR 702.174a-b).
pub fn synthesize_gift(face: &mut CardFace)
    ensures
        match promised_gift(old(face).keywords@) {
            None => *final(face) == *old(face),
            Some(gift) => {
                let n = old(face).triggers@.len();
                &&& *final(face) == (CardFace {
                    additional_cost: Some(AdditionalCost::PromiseGift),
                    triggers: final(face).triggers,
                    ..*old(face)
                })
                &&& if permanent_card(*old(face)) {
                    &&& final(face).triggers@.len() == n + 1
                    &&& final(face).triggers@.take(n as int) == old(face).triggers@
                    &&& gift_trigger(*final(face).triggers@[n as int], gift)
                } else {
                    final(face).triggers == old(face).triggers
                }
            },
        },
{
    let mut i: usize = 0;
    let ghost keywords = face.keywords@;
    assert(keywords.skip(0) =~= keywords);
    while i < face.keywords.len()
        invariant
            i <= face.keywords.len(),
            *face == *old(face),
            keywords == face.keywords@,
            promised_gift(keywords) == promised_gift(keywords.skip(i as int)),
        decreases face.keywords.len() - i,
    {
        assert(keywords.skip(i as int).drop_first() =~= keywords.skip(i + 1));
        if let Keyword::Gift(kind) = &*face.keywords[i] {
            let gift = kind.copied();
            let permanent = has_type(face, CoreType::Artifact) || has_type(face, CoreType::Battle)
                || has_type(face, CoreType::Creature) || has_type(face, CoreType::Enchantment)
                || has_type(face, CoreType::Land) || has_type(face, CoreType::Planeswalker);
            face.additional_cost = Some(AdditionalCost::PromiseGift);
            if permanent {
                let delivery = AbilityDefinition::new(
                    AbilityKind::Triggered,
                    Effect::GiftDelivery { kind: gift },
                );
                face.triggers.push(
                    Arc::new(
                        TriggerDefinition {
                            mode: TriggerMode::Enters,
                            execute: Some(Box::new(delivery)),
                        },
                    ),
                );
                assert(face.triggers@.take(old(face).triggers@.len() as int) =~= old(
                    face,
                ).triggers@);
            }
            return;
        }
        i = i + 1;
    }
}

} // verus!
