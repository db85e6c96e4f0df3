//! Characteristics of tokens to be created (CR 111).
use vstd::prelude::*;

use crate::types::card_type::{CoreType, Supertype};
use crate::types::keywords::Keyword;
use crate::types::mana::ManaColor;

verus! {

#[derive(Clone, Debug, PartialEq, Eq, Hash)]
pub struct TokenCharacteristics {
    pub display_name: String,
    pub power: Option<i32>,
    pub toughness: Option<i32>,
    pub core_types: Vec<CoreType>,
    pub subtypes: Vec<String>,
    pub supertypes: Vec<Supertype>,
    pub colors: Vec<ManaColor>,
    pub keywords: Vec<Keyword>,
}

} // verus!
