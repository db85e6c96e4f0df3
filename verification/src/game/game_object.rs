//! Game objects (CR 109).
use std::sync::Arc;
use vstd::prelude::*;

use crate::types::ability::AbilityDefinition;
use crate::types::action_payloads::AttachTarget;
use crate::types::card::{AdditionalCost, CardTypes};
use crate::types::card_type::{CoreType, Supertype};
use crate::types::counters::CounterType;
use crate::types::identifiers::{CardId, ObjectId, PlayerId};
use crate::types::keywords::Keyword;
use crate::types::mana::ManaColor;
use crate::types::mana_cost::ManaCost;
use crate::types::phase::Phase;
use crate::types::replacements::ReplacementDefinition;
use crate::types::statics::StaticDefinition;
use crate::types::triggers::TriggerDefinition;
use crate::types::zones::Zone;

verus! {

#[derive(Debug, PartialEq, Eq)]
pub struct GameObject {
    pub id: ObjectId,
    pub card_id: CardId,
    pub owner: PlayerId,
    pub controller: PlayerId,
    pub name: String,
    pub zone: Zone,
    pub tapped: bool,
    pub face_down: bool,
    pub is_token: bool,
    pub is_vanguard: bool,
    pub mana_cost: ManaCost,
    pub power: Option<i32>,
    pub toughness: Option<i32>,
    pub card_types: CardTypes,
    pub color: Vec<ManaColor>,
    pub keywords: Vec<Arc<Keyword>>,
    pub hand_modifier: i32,
    pub life_modifier: i32,
    pub additional_cost: Option<AdditionalCost>,
    /// What an instant or sorcery does; permanent cards have none.
    pub spell_ability: Option<Arc<AbilityDefinition>>,
    pub attached_to: Option<AttachTarget>,
    pub counters: Vec<(CounterType, u32)>,
    pub attacking: bool,
    pub sacrifice_at: Option<Phase>,
    pub static_definitions: Vec<Arc<StaticDefinition>>,
    pub base_trigger_definitions: Vec<Arc<TriggerDefinition>>,
    pub replacement_definitions: Vec<ReplacementDefinition>,
}

/// The contents of a game object.
pub struct ObjectModel {
    pub id: ObjectId,
    pub card_id: CardId,
    pub owner: PlayerId,
    pub controller: PlayerId,
    pub name: Seq<char>,
    pub zone: Zone,
    pub tapped: bool,
    pub face_down: bool,
    pub is_token: bool,
    pub is_vanguard: bool,
    pub mana_cost: ManaCost,
    pub power: Option<i32>,
    pub toughness: Option<i32>,
    pub core_types: Seq<CoreType>,
    pub subtypes: Seq<String>,
    pub supertypes: Seq<Supertype>,
    pub color: Seq<ManaColor>,
    pub keywords: Seq<Arc<Keyword>>,
    pub hand_modifier: i32,
    pub life_modifier: i32,
    pub additional_cost: Option<AdditionalCost>,
    pub spell_ability: Option<Arc<AbilityDefinition>>,
    pub attached_to: Option<AttachTarget>,
    pub counters: Seq<(CounterType, u32)>,
    pub attacking: bool,
    pub sacrifice_at: Option<Phase>,
    pub static_definitions: Seq<Arc<StaticDefinition>>,
    pub base_trigger_definitions: Seq<Arc<TriggerDefinition>>,
    pub replacement_definitions: Seq<ReplacementDefinition>,
}

impl View for GameObject {
    type V = ObjectModel;

    open spec fn view(&self) -> ObjectModel {
        ObjectModel {
            id: self.id,
            card_id: self.card_id,
            owner: self.owner,
            controller: self.controller,
            name: self.name@,
            zone: self.zone,
            tapped: self.tapped,
            face_down: self.face_down,
            is_token: self.is_token,
            is_vanguard: self.is_vanguard,
            mana_cost: self.mana_cost,
            power: self.power,
            toughness: self.toughness,
            core_types: self.card_types.core_types@,
            subtypes: self.card_types.subtypes@,
            supertypes: self.card_types.supertypes@,
            color: self.color@,
            keywords: self.keywords@,
            hand_modifier: self.hand_modifier,
            life_modifier: self.life_modifier,
            additional_cost: self.additional_cost,
            spell_ability: self.spell_ability,
            attached_to: self.attached_to,
            counters: self.counters@,
            attacking: self.attacking,
            sacrifice_at: self.sacrifice_at,
            static_definitions: self.static_definitions@,
            base_trigger_definitions: self.base_trigger_definitions@,
            replacement_definitions: self.replacement_definitions@,
        }
    }
}

impl GameObject {
    /// An object without characteristics, controlled by its owner.
    pub open spec fn blank(
        id: ObjectId,
        card_id: CardId,
        owner: PlayerId,
        name: Seq<char>,
        zone: Zone,
    ) -> ObjectModel {
        ObjectModel {
            id,
            card_id,
            owner,
            controller: owner,
            name,
            zone,
            tapped: false,
            face_down: false,
            is_token: false,
            is_vanguard: false,
            mana_cost: ManaCost::nothing(),
            power: None,
            toughness: None,
            core_types: Seq::empty(),
            subtypes: Seq::empty(),
            supertypes: Seq::empty(),
            color: Seq::empty(),
            keywords: Seq::empty(),
            hand_modifier: 0,
            life_modifier: 0,
            additional_cost: None,
            spell_ability: None,
            attached_to: None,
            counters: Seq::empty(),
            attacking: false,
            sacrifice_at: None,
            static_definitions: Seq::empty(),
            base_trigger_definitions: Seq::empty(),
            replacement_definitions: Seq::empty(),
        }
    }

    pub fn new(
        id: ObjectId,
        card_id: CardId,
        owner: PlayerId,
        name: String,
        zone: Zone,
    ) -> (r: Self)
        ensures
            r@ == GameObject::blank(id, card_id, owner, name@, zone),
    {
        GameObject {
            id,
            card_id,
            owner,
            controller: owner,
            name,
            zone,
            tapped: false,
            face_down: false,
            is_token: false,
            is_vanguard: false,
            mana_cost: ManaCost::zero(),
            power: None,
            toughness: None,
            card_types: CardTypes::none(),
            color: Vec::new(),
            keywords: Vec::new(),
            hand_modifier: 0,
            life_modifier: 0,
            additional_cost: None,
            spell_ability: None,
            attached_to: None,
            counters: Vec::new(),
            attacking: false,
            sacrifice_at: None,
            static_definitions: Vec::new(),
            base_trigger_definitions: Vec::new(),
            replacement_definitions: Vec::new(),
        }
    }
}

} // verus!
