//! Printed cards.
use std::sync::Arc;
use vstd::prelude::*;

use crate::types::card_type::{CoreType, Supertype};
use crate::types::keywords::Keyword;
use crate::types::mana::ManaColor;
use crate::types::mana_cost::ManaCost;
use crate::types::statics::StaticDefinition;
use crate::types::triggers::TriggerDefinition;

verus! {

/// A type line (CR 205).
#[derive(Clone, Debug, PartialEq, Eq)]
pub struct CardTypes {
    pub core_types: Vec<CoreType>,
    pub subtypes: Vec<String>,
    pub supertypes: Vec<Supertype>,
}

impl CardTypes {
    pub fn none() -> (r: Self)
        ensures
            r.core_types@ == Seq::<CoreType>::empty(),
            r.subtypes@ == Seq::<String>::empty(),
            r.supertypes@ == Seq::<Supertype>::empty(),
    {
        CardTypes { core_types: Vec::new(), subtypes: Vec::new(), supertypes: Vec::new() }
    }
}

/// An optional additional cost of a spell (CR 601.2b).
#[derive(Clone, Copy, Debug, PartialEq, Eq, Structural, Hash)]
pub enum AdditionalCost {
    /// Promise an opponent a gift (CR 702.174a).
    PromiseGift,
}

/// One face of a printed card.
#[derive(Debug, PartialEq, Eq)]
pub struct CardFace {
    pub name: String,
    pub card_type: CardTypes,
    pub mana_cost: ManaCost,
    pub power: Option<i32>,
    pub toughness: Option<i32>,
    pub colors: Vec<ManaColor>,
    pub keywords: Vec<Arc<Keyword>>,
    /// Change to the starting hand size, on a vanguard card (CR 210).
    pub hand_modifier: i32,
    /// Change to the starting life total, on a vanguard card (CR 211).
    pub life_modifier: i32,
    pub additional_cost: Option<AdditionalCost>,
    pub static_abilities: Vec<Arc<StaticDefinition>>,
    pub triggers: Vec<Arc<TriggerDefinition>>,
}

impl Default for CardFace {
    /// A face with nothing printed on it.
    fn default() -> (r: Self)
        ensures
            r.name@ == Seq::<char>::empty(),
            r.card_type.core_types@.len() == 0,
            r.card_type.subtypes@.len() == 0,
            r.card_type.supertypes@.len() == 0,
            r.mana_cost == ManaCost::nothing(),
            r.power is None,
            r.toughness is None,
            r.colors@.len() == 0,
            r.keywords@.len() == 0,
            r.hand_modifier == 0,
            r.life_modifier == 0,
            r.additional_cost is None,
            r.static_abilities@.len() == 0,
            r.triggers@.len() == 0,
    {
        CardFace {
            name: String::new(),
            card_type: CardTypes::none(),
            mana_cost: ManaCost::zero(),
            power: None,
            toughness: None,
            colors: Vec::new(),
            keywords: Vec::new(),
            hand_modifier: 0,
            life_modifier: 0,
            additional_cost: None,
            static_abilities: Vec::new(),
            triggers: Vec::new(),
        }
    }
}

} // verus!
