//! What the game waits for.
use vstd::prelude::*;

use crate::types::ability::{ModalChoice, ModalModel};
use crate::types::identifiers::{ObjectId, PlayerId};

verus! {

/// What an announced amount is paid in.
#[derive(Clone, Copy, Debug, PartialEq, Eq, Structural, Hash)]
pub enum PayableResource {
    Life,
    Energy,
}

/// The decision that the game needs next.
#[allow(inconsistent_fields)]
#[derive(Debug, PartialEq, Eq)]
pub enum WaitingFor {
    Priority { player: PlayerId },
    GameOver { winner: Option<PlayerId> },
    /// Several players decide at the same time.
    MulliganDecision { pending: Vec<PlayerId> },
    PayAmountChoice {
        player: PlayerId,
        resource: PayableResource,
        min: u32,
        max: u32,
        accumulated: u32,
        source_id: ObjectId,
        pending_mana_ability: Option<ObjectId>,
    },
    LifeAuctionBid {
        player: PlayerId,
        participants: Vec<PlayerId>,
        round_index: usize,
        high_bid: u32,
        high_bidder: PlayerId,
        passes_since_raise: u32,
        controller: PlayerId,
        source_id: ObjectId,
    },
    ScryChoice { player: PlayerId, cards: Vec<ObjectId> },
    DiscardChoice { player: PlayerId, count: usize },
    /// Several replacement effects apply; the player picks one (CR 616.1).
    ReplacementChoice { player: PlayerId, candidate_count: usize },
    OptionalCostChoice { player: PlayerId, object_id: ObjectId },
    GiftChooseOpponent { player: PlayerId, object_id: ObjectId, opponents: Vec<PlayerId> },
    ManaPayment { player: PlayerId },
    OrderTriggers { player: PlayerId, count: usize },
    AbilityModeChoice { player: PlayerId, modal: ModalChoice, source_id: ObjectId },
    TriggerTargetSelection { player: PlayerId, source_id: ObjectId, slot: usize },
}

/// The contents of a prompt.
#[allow(inconsistent_fields)]
pub enum PromptModel {
    Priority { player: PlayerId },
    GameOver { winner: Option<PlayerId> },
    MulliganDecision { pending: Seq<PlayerId> },
    PayAmountChoice {
        player: PlayerId,
        resource: PayableResource,
        min: u32,
        max: u32,
        accumulated: u32,
        source_id: ObjectId,
        pending_mana_ability: Option<ObjectId>,
    },
    LifeAuctionBid {
        player: PlayerId,
        participants: Seq<PlayerId>,
        round_index: usize,
        high_bid: u32,
        high_bidder: PlayerId,
        passes_since_raise: u32,
        controller: PlayerId,
        source_id: ObjectId,
    },
    ScryChoice { player: PlayerId, cards: Seq<ObjectId> },
    DiscardChoice { player: PlayerId, count: usize },
    ReplacementChoice { player: PlayerId, candidate_count: usize },
    OptionalCostChoice { player: PlayerId, object_id: ObjectId },
    GiftChooseOpponent { player: PlayerId, object_id: ObjectId, opponents: Seq<PlayerId> },
    ManaPayment { player: PlayerId },
    OrderTriggers { player: PlayerId, count: usize },
    AbilityModeChoice { player: PlayerId, modal: ModalModel, source_id: ObjectId },
    TriggerTargetSelection { player: PlayerId, source_id: ObjectId, slot: usize },
}

impl View for WaitingFor {
    type V = PromptModel;

    open spec fn view(&self) -> PromptModel {
        match *self {
            WaitingFor::Priority { player } => PromptModel::Priority { player },
            WaitingFor::GameOver { winner } => PromptModel::GameOver { winner },
            WaitingFor::MulliganDecision { pending } => PromptModel::MulliganDecision {
                pending: pending@,
            },
            WaitingFor::PayAmountChoice {
                player,
                resource,
                min,
                max,
                accumulated,
                source_id,
                pending_mana_ability,
            } => PromptModel::PayAmountChoice {
                player,
                resource,
                min,
                max,
                accumulated,
                source_id,
                pending_mana_ability,
            },
            WaitingFor::LifeAuctionBid {
                player,
                participants,
                round_index,
                high_bid,
                high_bidder,
                passes_since_raise,
                controller,
                source_id,
            } => PromptModel::LifeAuctionBid {
                player,
                participants: participants@,
                round_index,
                high_bid,
                high_bidder,
                passes_since_raise,
                controller,
                source_id,
            },
            WaitingFor::ScryChoice { player, cards } => PromptModel::ScryChoice {
                player,
                cards: cards@,
            },
            WaitingFor::DiscardChoice { player, count } => PromptModel::DiscardChoice {
                player,
                count,
            },
            WaitingFor::ReplacementChoice { player, candidate_count } =>
                PromptModel::ReplacementChoice { player, candidate_count },
            WaitingFor::OptionalCostChoice { player, object_id } =>
                PromptModel::OptionalCostChoice { player, object_id },
            WaitingFor::GiftChooseOpponent { player, object_id, opponents } =>
                PromptModel::GiftChooseOpponent { player, object_id, opponents: opponents@ },
            WaitingFor::ManaPayment { player } => PromptModel::ManaPayment { player },
            WaitingFor::OrderTriggers { player, count } => PromptModel::OrderTriggers {
                player,
                count,
            },
            WaitingFor::AbilityModeChoice { player, modal, source_id } =>
                PromptModel::AbilityModeChoice { player, modal: modal@, source_id },
            WaitingFor::TriggerTargetSelection { player, source_id, slot } =>
                PromptModel::TriggerTargetSelection { player, source_id, slot },
        }
    }
}

impl PromptModel {
    /// Who may answer the prompt.
    pub open spec fn actors(self) -> Seq<PlayerId> {
        match self {
            PromptModel::GameOver { .. } => Seq::empty(),
            PromptModel::MulliganDecision { pending } => pending,
            PromptModel::Priority { player } => seq![player],
            PromptModel::PayAmountChoice { player, .. } => seq![player],
            PromptModel::LifeAuctionBid { player, .. } => seq![player],
            PromptModel::ScryChoice { player, .. } => seq![player],
            PromptModel::DiscardChoice { player, .. } => seq![player],
            PromptModel::ReplacementChoice { player, .. } => seq![player],
            PromptModel::OptionalCostChoice { player, .. } => seq![player],
            PromptModel::GiftChooseOpponent { player, .. } => seq![player],
            PromptModel::ManaPayment { player } => seq![player],
            PromptModel::OrderTriggers { player, .. } => seq![player],
            PromptModel::AbilityModeChoice { player, .. } => seq![player],
            PromptModel::TriggerTargetSelection { player, .. } => seq![player],
        }
    }
}

fn only(player: PlayerId) -> (r: Vec<PlayerId>)
    ensures
        r@ == seq![player],
{
    let mut r: Vec<PlayerId> = Vec::new();
    r.push(player);
    r
}

impl WaitingFor {
    /// The players who may answer the prompt.
    pub fn acting_players(&self) -> (r: Vec<PlayerId>)
        ensures
            r@ == self@.actors(),
    {
        match self {
            WaitingFor::GameOver { .. } => Vec::new(),
            WaitingFor::MulliganDecision { pending } => crate::shared::copy_all(pending),
            WaitingFor::Priority { player } => only(*player),
            WaitingFor::PayAmountChoice { player, .. } => only(*player),
            WaitingFor::LifeAuctionBid { player, .. } => only(*player),
            WaitingFor::ScryChoice { player, .. } => only(*player),
            WaitingFor::DiscardChoice { player, .. } => only(*player),
            WaitingFor::ReplacementChoice { player, .. } => only(*player),
            WaitingFor::OptionalCostChoice { player, .. } => only(*player),
            WaitingFor::GiftChooseOpponent { player, .. } => only(*player),
            WaitingFor::ManaPayment { player } => only(*player),
            WaitingFor::OrderTriggers { player, .. } => only(*player),
            WaitingFor::AbilityModeChoice { player, .. } => only(*player),
            WaitingFor::TriggerTargetSelection { player, .. } => only(*player),
        }
    }
}

} // verus!
