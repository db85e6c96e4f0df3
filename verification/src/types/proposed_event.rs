//! Events that have not happened yet and may still be replaced (CR 614).
use std::sync::Arc;
use vstd::prelude::*;

use crate::types::action_payloads::AttachTarget;
use crate::types::card_type::{CoreType, Supertype};
use crate::types::counters::CounterType;
use crate::types::events::PlaneswalkCause;
use crate::types::identifiers::{ObjectId, PlayerId};
use crate::types::keywords::Keyword;
use crate::types::mana::ManaColor;
use crate::types::phase::Phase;
use crate::types::replacements::{AppliedReplacements, ReplacementId};
use crate::types::statics::StaticDefinition;
use crate::types::tokens::TokenCharacteristics;
use crate::types::zones::EtbTapState;

verus! {

/// A token to be created (CR 111.1).
#[derive(Debug, PartialEq, Eq)]
pub struct TokenSpec {
    pub characteristics: TokenCharacteristics,
    pub script_name: String,
    pub static_abilities: Vec<Arc<StaticDefinition>>,
    pub enter_with_counters: Vec<(CounterType, u32)>,
    pub tapped: bool,
    pub enters_attacking: bool,
    pub sacrifice_at: Option<Phase>,
    pub source_id: ObjectId,
    pub controller: PlayerId,
    pub attach_to: Option<AttachTarget>,
}

/// The contents of a token to be created.
pub struct TokenModel {
    pub display_name: Seq<char>,
    pub power: Option<i32>,
    pub toughness: Option<i32>,
    pub core_types: Seq<CoreType>,
    pub subtypes: Seq<String>,
    pub supertypes: Seq<Supertype>,
    pub colors: Seq<ManaColor>,
    pub keywords: Seq<Keyword>,
    pub script_name: Seq<char>,
    pub static_abilities: Seq<Arc<StaticDefinition>>,
    pub enter_with_counters: Seq<(CounterType, u32)>,
    pub tapped: bool,
    pub enters_attacking: bool,
    pub sacrifice_at: Option<Phase>,
    pub source_id: ObjectId,
    pub controller: PlayerId,
    pub attach_to: Option<AttachTarget>,
}

impl View for TokenSpec {
    type V = TokenModel;

    open spec fn view(&self) -> TokenModel {
        TokenModel {
            display_name: self.characteristics.display_name@,
            power: self.characteristics.power,
            toughness: self.characteristics.toughness,
            core_types: self.characteristics.core_types@,
            subtypes: self.characteristics.subtypes@,
            supertypes: self.characteristics.supertypes@,
            colors: self.characteristics.colors@,
            keywords: self.characteristics.keywords@,
            script_name: self.script_name@,
            static_abilities: self.static_abilities@,
            enter_with_counters: self.enter_with_counters@,
            tapped: self.tapped,
            enters_attacking: self.enters_attacking,
            sacrifice_at: self.sacrifice_at,
            source_id: self.source_id,
            controller: self.controller,
            attach_to: self.attach_to,
        }
    }
}

#[allow(inconsistent_fields)]
#[derive(Debug, PartialEq, Eq)]
pub enum ProposedEvent {
    CreateToken {
        owner: PlayerId,
        spec: Box<TokenSpec>,
        enter_tapped: EtbTapState,
        count: u32,
        applied: AppliedReplacements,
    },
    Planeswalk {
        player: PlayerId,
        cause: PlaneswalkCause,
        count: u32,
        applied: AppliedReplacements,
    },
    Draw { player: PlayerId, count: u32, applied: AppliedReplacements },
}

/// The contents of a proposed event.
#[allow(inconsistent_fields)]
pub enum ProposedModel {
    CreateToken {
        owner: PlayerId,
        spec: TokenModel,
        enter_tapped: EtbTapState,
        count: u32,
        applied: Seq<ReplacementId>,
    },
    Planeswalk {
        player: PlayerId,
        cause: PlaneswalkCause,
        count: u32,
        applied: Seq<ReplacementId>,
    },
    Draw { player: PlayerId, count: u32, applied: Seq<ReplacementId> },
}

impl View for ProposedEvent {
    type V = ProposedModel;

    open spec fn view(&self) -> ProposedModel {
        match *self {
            ProposedEvent::CreateToken { owner, spec, enter_tapped, count, applied } =>
                ProposedModel::CreateToken {
                    owner,
                    spec: spec@,
                    enter_tapped,
                    count,
                    applied: applied@,
                },
            ProposedEvent::Planeswalk { player, cause, count, applied } =>
                ProposedModel::Planeswalk { player, cause, count, applied: applied@ },
            ProposedEvent::Draw { player, count, applied } => ProposedModel::Draw {
                player,
                count,
                applied: applied@,
            },
        }
    }
}

} // verus!
