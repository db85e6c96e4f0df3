//! Stable order over player actions.
//!
//! Legal-action lists and AI candidate lists are sorted by this order, so it is
//! total and depends on nothing but the actions themselves. Payload fields are
//! compared one by one; nothing is formatted or allocated. Debug actions carry
//! data without an order of its own (keyword parameters, token characteristics,
//! library depths); such data is left out of the comparison.
use std::cmp::Ordering;
use vstd::prelude::*;

use crate::order::key;
use crate::order::key::Key;
use crate::order::stable_ord;
use crate::order::stable_ord::{cmp_val1, cmp_val2, cmp_val3, cmp_val4, cmp_val5, StableOrd};
use crate::types::actions;
use crate::types::actions::{DebugAction, DebugTokenRequest, GameAction, LibraryPosition};

verus! {

/// Compared fields of the actions for casting a spell or playing a land.
#[verifier::opaque]
pub open spec fn casting_fields(a: GameAction) -> Seq<Key> {
    match a {
        GameAction::PlayLand { object_id, card_id } => seq![object_id.key(), card_id.key()],
        GameAction::CastSpell { object_id, card_id, targets, payment_mode } => seq![
            object_id.key(), card_id.key(), targets.key(), payment_mode.key(),
        ],
        GameAction::Foretell { object_id, card_id } => seq![object_id.key(), card_id.key()],
        GameAction::PlayFaceDown { object_id, card_id } => seq![object_id.key(), card_id.key()],
        GameAction::CastSpellAsSneak { hand_object, card_id, creature_to_return, payment_mode } => seq![
            hand_object.key(), card_id.key(), creature_to_return.key(), payment_mode.key(),
        ],
        GameAction::CastSpellAsWebSlinging { hand_object, card_id, creature_to_return, payment_mode } => seq![
            hand_object.key(), card_id.key(), creature_to_return.key(), payment_mode.key(),
        ],
        GameAction::CastSpellForFree { object_id, card_id, source_id, payment_mode } => seq![
            object_id.key(), card_id.key(), source_id.key(), payment_mode.key(),
        ],
        GameAction::CastSpellAsMiracle { object_id, card_id, payment_mode } => seq![
            object_id.key(), card_id.key(), payment_mode.key(),
        ],
        GameAction::CastSpellAsMadness { object_id, card_id, payment_mode } => seq![
            object_id.key(), card_id.key(), payment_mode.key(),
        ],
        GameAction::CastPreparedCopy { source } => seq![source.key()],
        GameAction::CastParadigmCopy { source } => seq![source.key()],
        GameAction::ChooseAlternativeCast { choice } => seq![choice.key()],
        GameAction::ChooseCastingVariant { index } => seq![index.key()],
        _ => seq![],
    }
}

/// Compared fields of the actions for choosing a face or answering an offer.
#[verifier::opaque]
pub open spec fn face_and_offer_fields(a: GameAction) -> Seq<Key> {
    match a {
        GameAction::ChooseAdventureFace { creature } => seq![creature.key()],
        GameAction::ChooseModalFace { back_face } => seq![back_face.key()],
        GameAction::RespondToSpliceOffer { card } => seq![card.key()],
        GameAction::DiscoverChoice { choice } => seq![choice.key()],
        GameAction::GraveyardPaidCastChoice { choice } => seq![choice.key()],
        GameAction::CascadeChoice { choice } => seq![choice.key()],
        GameAction::RippleChoice { choice } => seq![choice.key()],
        GameAction::FreeCastWindowChoice { selection } => seq![selection.key()],
        GameAction::ChooseX { value } => seq![value.key()],
        GameAction::ChooseSpecializeColor { color } => seq![color.key()],
        GameAction::CipherEncode { creature } => seq![creature.key()],
        GameAction::ChooseMutateMergeSide { side } => seq![side.key()],
        _ => seq![],
    }
}

/// Compared fields of the actions for paying costs.
#[verifier::opaque]
pub open spec fn mana_fields(a: GameAction) -> Seq<Key> {
    match a {
        GameAction::TapLandForMana { object_id } => seq![object_id.key()],
        GameAction::UntapLandForMana { object_id } => seq![object_id.key()],
        GameAction::SpendPoolMana { pip_id } => seq![pip_id.key()],
        GameAction::UnspendPoolMana { pip_id } => seq![pip_id.key()],
        GameAction::CommitAssistPayment { generic } => seq![generic.key()],
        GameAction::TapForConvoke { object_id, mana_type } => seq![
            object_id.key(), mana_type.key(),
        ],
        GameAction::HarmonizeTap { creature_id } => seq![creature_id.key()],
        GameAction::SubmitPhyrexianChoices { choices } => seq![choices.key()],
        GameAction::ChooseManaColor { choice, count } => seq![choice.key(), count.key()],
        GameAction::PayManaAbilityMana { payment } => seq![payment.key()],
        GameAction::SubmitPayAmount { amount } => seq![amount.key()],
        GameAction::ChooseAssistPlayer { player } => seq![player.key()],
        _ => seq![],
    }
}

/// Compared fields of the actions for combat.
#[verifier::opaque]
pub open spec fn combat_fields(a: GameAction) -> Seq<Key> {
    match a {
        GameAction::DeclareAttackers { attacks, bands } => seq![attacks.key(), bands.key()],
        GameAction::DeclareBlockers { assignments } => seq![assignments.key()],
        GameAction::ChooseExert { exert } => seq![exert.key()],
        GameAction::ChooseEnlist { target } => seq![target.key()],
        GameAction::PayCombatTax { accept } => seq![accept.key()],
        GameAction::AssignCombatDamage { mode, assignments, trample_damage, controller_damage } => seq![
            mode.key(), assignments.key(), trample_damage.key(), controller_damage.key(),
        ],
        GameAction::AssignBlockerDamage { assignments } => seq![assignments.key()],
        GameAction::ActivateNinjutsu { ninjutsu_object_id, creature_to_return } => seq![
            ninjutsu_object_id.key(), creature_to_return.key(),
        ],
        GameAction::ChooseBattleProtector { protector } => seq![protector.key()],
        GameAction::ChooseUntap { object_id, untap } => seq![object_id.key(), untap.key()],
        _ => seq![],
    }
}

/// Compared fields of the actions for activating or changing a permanent.
#[verifier::opaque]
pub open spec fn permanent_fields(a: GameAction) -> Seq<Key> {
    match a {
        GameAction::ActivateAbility { source_id, ability_index } => seq![
            source_id.key(), ability_index.key(),
        ],
        GameAction::Equip { equipment_id, target_id } => seq![equipment_id.key(), target_id.key()],
        GameAction::CrewVehicle { vehicle_id, creature_ids } => seq![
            vehicle_id.key(), creature_ids.key(),
        ],
        GameAction::ActivateStation { spacecraft_id, creature_id } => seq![
            spacecraft_id.key(), creature_id.key(),
        ],
        GameAction::SaddleMount { mount_id, creature_ids } => seq![
            mount_id.key(), creature_ids.key(),
        ],
        GameAction::Transform { object_id } => seq![object_id.key()],
        GameAction::TurnFaceUp { object_id } => seq![object_id.key()],
        GameAction::UnlockRoomDoor { object_id, door } => seq![object_id.key(), door.key()],
        GameAction::ChooseRoomDoor { object_id, op, door } => seq![
            object_id.key(), op.key(), door.key(),
        ],
        GameAction::ChooseRingBearer { target } => seq![target.key()],
        GameAction::ChoosePair { partner } => seq![partner.key()],
        GameAction::ChooseLegend { keep } => seq![keep.key()],
        GameAction::ChooseDungeon { dungeon } => seq![dungeon.key()],
        GameAction::ChooseDungeonRoom { room_index } => seq![room_index.key()],
        _ => seq![],
    }
}

/// Compared fields of the actions for selecting objects, targets or modes.
#[verifier::opaque]
pub open spec fn selection_fields(a: GameAction) -> Seq<Key> {
    match a {
        GameAction::ReorderHand { order } => seq![order.key()],
        GameAction::SelectCards { cards } => seq![cards.key()],
        GameAction::SelectCoinFlips { keep_indices } => seq![keep_indices.key()],
        GameAction::ChooseOutsideGameCards { selections } => seq![selections.key()],
        GameAction::SelectTargets { targets } => seq![targets.key()],
        GameAction::ChooseTarget { target } => seq![target.key()],
        GameAction::RetargetSpell { new_targets } => seq![new_targets.key()],
        GameAction::SubmitPilePartition { pile_a } => seq![pile_a.key()],
        GameAction::SelectCategoryPermanents { choices } => seq![choices.key()],
        GameAction::ChooseKeptCreatures { kept } => seq![kept.key()],
        GameAction::SelectModes { indices } => seq![indices.key()],
        GameAction::OrderTriggers { order } => seq![order.key()],
        _ => seq![],
    }
}

/// Compared fields of the actions for distributing counters or damage and picking a branch.
#[verifier::opaque]
pub open spec fn distribution_fields(a: GameAction) -> Seq<Key> {
    match a {
        GameAction::ChooseRemoveCounterCostDistribution { distribution } => seq![
            distribution.key(),
        ],
        GameAction::DistributeAmong { distribution } => seq![distribution.key()],
        GameAction::ChooseCounterMoveDistribution { selections } => seq![selections.key()],
        GameAction::ChooseCountersToRemove { selections } => seq![selections.key()],
        GameAction::ChooseDamageSource { source } => seq![source.key()],
        GameAction::ChoosePermanentTypeSlot { slot } => seq![slot.key()],
        GameAction::ChooseReplacement { index } => seq![index.key()],
        GameAction::ChooseBranch { index } => seq![index.key()],
        GameAction::ChooseActivationCostBranch { index } => seq![index.key()],
        GameAction::ChooseUnlessCostBranch { choice } => seq![choice.key()],
        _ => seq![],
    }
}

/// Compared fields of the actions for answering a question.
#[verifier::opaque]
pub open spec fn decision_fields(a: GameAction) -> Seq<Key> {
    match a {
        GameAction::DecideOptionalCost { pay } => seq![pay.key()],
        GameAction::DecideOptionalEffect { accept } => seq![accept.key()],
        GameAction::DecideOptionalEffectAndRemember { choice } => seq![choice.key()],
        GameAction::PayUnlessCost { pay } => seq![pay.key()],
        GameAction::ChooseTopOrBottom { top } => seq![top.key()],
        GameAction::ChooseOption { choice } => seq![choice.key()],
        GameAction::ChoosePile { pile } => seq![pile.key()],
        GameAction::SubmitVoteCandidate { candidate_index } => seq![candidate_index.key()],
        GameAction::SubmitSpellbookDraft { card } => seq![card.key()],
        GameAction::LearnDecision { choice } => seq![choice.key()],
        GameAction::ChooseClashOpponent { opponent } => seq![opponent.key()],
        GameAction::SubmitLifeAuctionBid { amount } => seq![amount.key()],
        GameAction::ChooseGiftRecipient { opponent } => seq![opponent.key()],
        _ => seq![],
    }
}

/// Compared fields of the actions for the match, automatic passing and debugging.
#[verifier::opaque]
pub open spec fn match_setup_fields(a: GameAction) -> Seq<Key> {
    match a {
        GameAction::MulliganDecision { choice } => seq![choice.key()],
        GameAction::SubmitSideboard { main, sideboard } => seq![main.key(), sideboard.key()],
        GameAction::ChoosePlayDraw { play_first } => seq![play_first.key()],
        GameAction::DeclareCompanion { card_index } => seq![card_index.key()],
        GameAction::SetAutoPass { mode } => seq![mode.key()],
        GameAction::SetPhaseStops { stops } => seq![stops.key()],
        GameAction::SetPriorityYield { op } => seq![op.key()],
        GameAction::Debug(action) => seq![action.key()],
        GameAction::GrantDebugPermission { player_id } => seq![player_id.key()],
        GameAction::RevokeDebugPermission { player_id } => seq![player_id.key()],
        GameAction::Concede { player_id } => seq![player_id.key()],
        _ => seq![],
    }
}

/// The fields that break ties between two actions of one kind, in order.
#[verifier::opaque]
pub open spec fn action_fields(a: GameAction) -> Seq<Key> {
    match a {
        GameAction::PlayLand { .. }
        | GameAction::CastSpell { .. }
        | GameAction::Foretell { .. }
        | GameAction::PlayFaceDown { .. }
        | GameAction::CastSpellAsSneak { .. }
        | GameAction::CastSpellAsWebSlinging { .. }
        | GameAction::CastSpellForFree { .. }
        | GameAction::CastSpellAsMiracle { .. }
        | GameAction::CastSpellAsMadness { .. }
        | GameAction::CastPreparedCopy { .. }
        | GameAction::CastParadigmCopy { .. }
        | GameAction::ChooseAlternativeCast { .. }
        | GameAction::ChooseCastingVariant { .. } => casting_fields(a),
        GameAction::ChooseAdventureFace { .. }
        | GameAction::ChooseModalFace { .. }
        | GameAction::RespondToSpliceOffer { .. }
        | GameAction::DiscoverChoice { .. }
        | GameAction::GraveyardPaidCastChoice { .. }
        | GameAction::CascadeChoice { .. }
        | GameAction::RippleChoice { .. }
        | GameAction::FreeCastWindowChoice { .. }
        | GameAction::ChooseX { .. }
        | GameAction::ChooseSpecializeColor { .. }
        | GameAction::CipherEncode { .. }
        | GameAction::ChooseMutateMergeSide { .. } => face_and_offer_fields(a),
        GameAction::TapLandForMana { .. }
        | GameAction::UntapLandForMana { .. }
        | GameAction::SpendPoolMana { .. }
        | GameAction::UnspendPoolMana { .. }
        | GameAction::CommitAssistPayment { .. }
        | GameAction::TapForConvoke { .. }
        | GameAction::HarmonizeTap { .. }
        | GameAction::SubmitPhyrexianChoices { .. }
        | GameAction::ChooseManaColor { .. }
        | GameAction::PayManaAbilityMana { .. }
        | GameAction::SubmitPayAmount { .. }
        | GameAction::ChooseAssistPlayer { .. } => mana_fields(a),
        GameAction::DeclareAttackers { .. }
        | GameAction::DeclareBlockers { .. }
        | GameAction::ChooseExert { .. }
        | GameAction::ChooseEnlist { .. }
        | GameAction::PayCombatTax { .. }
        | GameAction::AssignCombatDamage { .. }
        | GameAction::AssignBlockerDamage { .. }
        | GameAction::ActivateNinjutsu { .. }
        | GameAction::ChooseBattleProtector { .. }
        | GameAction::ChooseUntap { .. } => combat_fields(a),
        GameAction::ActivateAbility { .. }
        | GameAction::Equip { .. }
        | GameAction::CrewVehicle { .. }
        | GameAction::ActivateStation { .. }
        | GameAction::SaddleMount { .. }
        | GameAction::Transform { .. }
        | GameAction::TurnFaceUp { .. }
        | GameAction::UnlockRoomDoor { .. }
        | GameAction::ChooseRoomDoor { .. }
        | GameAction::ChooseRingBearer { .. }
        | GameAction::ChoosePair { .. }
        | GameAction::ChooseLegend { .. }
        | GameAction::ChooseDungeon { .. }
        | GameAction::ChooseDungeonRoom { .. } => permanent_fields(a),
        GameAction::ReorderHand { .. }
        | GameAction::SelectCards { .. }
        | GameAction::SelectCoinFlips { .. }
        | GameAction::ChooseOutsideGameCards { .. }
        | GameAction::SelectTargets { .. }
        | GameAction::ChooseTarget { .. }
        | GameAction::RetargetSpell { .. }
        | GameAction::SubmitPilePartition { .. }
        | GameAction::SelectCategoryPermanents { .. }
        | GameAction::ChooseKeptCreatures { .. }
        | GameAction::SelectModes { .. }
        | GameAction::OrderTriggers { .. } => selection_fields(a),
        GameAction::ChooseRemoveCounterCostDistribution { .. }
        | GameAction::DistributeAmong { .. }
        | GameAction::ChooseCounterMoveDistribution { .. }
        | GameAction::ChooseCountersToRemove { .. }
        | GameAction::ChooseDamageSource { .. }
        | GameAction::ChoosePermanentTypeSlot { .. }
        | GameAction::ChooseReplacement { .. }
        | GameAction::ChooseBranch { .. }
        | GameAction::ChooseActivationCostBranch { .. }
        | GameAction::ChooseUnlessCostBranch { .. } => distribution_fields(a),
        GameAction::DecideOptionalCost { .. }
        | GameAction::DecideOptionalEffect { .. }
        | GameAction::DecideOptionalEffectAndRemember { .. }
        | GameAction::PayUnlessCost { .. }
        | GameAction::ChooseTopOrBottom { .. }
        | GameAction::ChooseOption { .. }
        | GameAction::ChoosePile { .. }
        | GameAction::SubmitVoteCandidate { .. }
        | GameAction::SubmitSpellbookDraft { .. }
        | GameAction::LearnDecision { .. }
        | GameAction::ChooseClashOpponent { .. }
        | GameAction::SubmitLifeAuctionBid { .. }
        | GameAction::ChooseGiftRecipient { .. } => decision_fields(a),
        GameAction::MulliganDecision { .. }
        | GameAction::SubmitSideboard { .. }
        | GameAction::ChoosePlayDraw { .. }
        | GameAction::DeclareCompanion { .. }
        | GameAction::SetAutoPass { .. }
        | GameAction::SetPhaseStops { .. }
        | GameAction::SetPriorityYield { .. }
        | GameAction::Debug(_)
        | GameAction::GrantDebugPermission { .. }
        | GameAction::RevokeDebugPermission { .. }
        | GameAction::Concede { .. } => match_setup_fields(a),
        GameAction::PassPriority
        | GameAction::CancelCast
        | GameAction::KeepAllCopyTargets
        | GameAction::RollPlanarDie
        | GameAction::CompanionToHand
        | GameAction::CancelAutoPass
        | GameAction::PassParadigmOffer
        | GameAction::PassLifeAuction => seq![],
    }
}

/// The sort key of an action: its kind, then its fields.
pub open spec fn action_key(a: GameAction) -> Key {
    stable_ord::tagged(a.kind_of().rank(), action_fields(a))
}

/// Total order over actions: the kind first (declaration order), then the
/// fields of the payload.
pub fn cmp_game_actions(a: &GameAction, b: &GameAction) -> (o: Ordering)
    ensures
        o == key::key_cmp(action_key(*a), action_key(*b)),
{
    proof {
        stable_ord::lemma_tagged(
            a.kind_of().rank(),
            action_fields(*a),
            b.kind_of().rank(),
            action_fields(*b),
        );
    }
    proof {
        if a.kind_of().rank() == b.kind_of().rank() {
            actions::kind_rank_injective(a.kind_of(), b.kind_of());
        }
    }
    match a.kind().stable_cmp(&b.kind()) {
        Ordering::Equal => cmp_payload(a, b),
        verdict => verdict,
    }
}

impl StableOrd for GameAction {
    open spec fn key(&self) -> Key {
        action_key(*self)
    }

    fn stable_cmp(&self, other: &Self) -> (o: Ordering) {
        cmp_game_actions(self, other)
    }
}

/// Compares the payloads of two actions of one kind.
fn cmp_payload(a: &GameAction, b: &GameAction) -> (o: Ordering)
    requires
        a.kind_of() == b.kind_of(),
    ensures
        o == key::list_cmp(action_fields(*a), action_fields(*b)),
{
    proof {
        reveal(action_fields);
        key::list_cmp_empty(seq![], seq![]);
    }
    match a {
        GameAction::PlayLand { .. }
        | GameAction::CastSpell { .. }
        | GameAction::Foretell { .. }
        | GameAction::PlayFaceDown { .. }
        | GameAction::CastSpellAsSneak { .. }
        | GameAction::CastSpellAsWebSlinging { .. }
        | GameAction::CastSpellForFree { .. }
        | GameAction::CastSpellAsMiracle { .. }
        | GameAction::CastSpellAsMadness { .. }
        | GameAction::CastPreparedCopy { .. }
        | GameAction::CastParadigmCopy { .. }
        | GameAction::ChooseAlternativeCast { .. }
        | GameAction::ChooseCastingVariant { .. } => cmp_casting_payload(a, b),
        GameAction::ChooseAdventureFace { .. }
        | GameAction::ChooseModalFace { .. }
        | GameAction::RespondToSpliceOffer { .. }
        | GameAction::DiscoverChoice { .. }
        | GameAction::GraveyardPaidCastChoice { .. }
        | GameAction::CascadeChoice { .. }
        | GameAction::RippleChoice { .. }
        | GameAction::FreeCastWindowChoice { .. }
        | GameAction::ChooseX { .. }
        | GameAction::ChooseSpecializeColor { .. }
        | GameAction::CipherEncode { .. }
        | GameAction::ChooseMutateMergeSide { .. } => cmp_face_and_offer_payload(a, b),
        GameAction::TapLandForMana { .. }
        | GameAction::UntapLandForMana { .. }
        | GameAction::SpendPoolMana { .. }
        | GameAction::UnspendPoolMana { .. }
        | GameAction::CommitAssistPayment { .. }
        | GameAction::TapForConvoke { .. }
        | GameAction::HarmonizeTap { .. }
        | GameAction::SubmitPhyrexianChoices { .. }
        | GameAction::ChooseManaColor { .. }
        | GameAction::PayManaAbilityMana { .. }
        | GameAction::SubmitPayAmount { .. }
        | GameAction::ChooseAssistPlayer { .. } => cmp_mana_payload(a, b),
        GameAction::DeclareAttackers { .. }
        | GameAction::DeclareBlockers { .. }
        | GameAction::ChooseExert { .. }
        | GameAction::ChooseEnlist { .. }
        | GameAction::PayCombatTax { .. }
        | GameAction::AssignCombatDamage { .. }
        | GameAction::AssignBlockerDamage { .. }
        | GameAction::ActivateNinjutsu { .. }
        | GameAction::ChooseBattleProtector { .. }
        | GameAction::ChooseUntap { .. } => cmp_combat_payload(a, b),
        GameAction::ActivateAbility { .. }
        | GameAction::Equip { .. }
        | GameAction::CrewVehicle { .. }
        | GameAction::ActivateStation { .. }
        | GameAction::SaddleMount { .. }
        | GameAction::Transform { .. }
        | GameAction::TurnFaceUp { .. }
        | GameAction::UnlockRoomDoor { .. }
        | GameAction::ChooseRoomDoor { .. }
        | GameAction::ChooseRingBearer { .. }
        | GameAction::ChoosePair { .. }
        | GameAction::ChooseLegend { .. }
        | GameAction::ChooseDungeon { .. }
        | GameAction::ChooseDungeonRoom { .. } => cmp_permanent_payload(a, b),
        GameAction::ReorderHand { .. }
        | GameAction::SelectCards { .. }
        | GameAction::SelectCoinFlips { .. }
        | GameAction::ChooseOutsideGameCards { .. }
        | GameAction::SelectTargets { .. }
        | GameAction::ChooseTarget { .. }
        | GameAction::RetargetSpell { .. }
        | GameAction::SubmitPilePartition { .. }
        | GameAction::SelectCategoryPermanents { .. }
        | GameAction::ChooseKeptCreatures { .. }
        | GameAction::SelectModes { .. }
        | GameAction::OrderTriggers { .. } => cmp_selection_payload(a, b),
        GameAction::ChooseRemoveCounterCostDistribution { .. }
        | GameAction::DistributeAmong { .. }
        | GameAction::ChooseCounterMoveDistribution { .. }
        | GameAction::ChooseCountersToRemove { .. }
        | GameAction::ChooseDamageSource { .. }
        | GameAction::ChoosePermanentTypeSlot { .. }
        | GameAction::ChooseReplacement { .. }
        | GameAction::ChooseBranch { .. }
        | GameAction::ChooseActivationCostBranch { .. }
        | GameAction::ChooseUnlessCostBranch { .. } => cmp_distribution_payload(a, b),
        GameAction::DecideOptionalCost { .. }
        | GameAction::DecideOptionalEffect { .. }
        | GameAction::DecideOptionalEffectAndRemember { .. }
        | GameAction::PayUnlessCost { .. }
        | GameAction::ChooseTopOrBottom { .. }
        | GameAction::ChooseOption { .. }
        | GameAction::ChoosePile { .. }
        | GameAction::SubmitVoteCandidate { .. }
        | GameAction::SubmitSpellbookDraft { .. }
        | GameAction::LearnDecision { .. }
        | GameAction::ChooseClashOpponent { .. }
        | GameAction::SubmitLifeAuctionBid { .. }
        | GameAction::ChooseGiftRecipient { .. } => cmp_decision_payload(a, b),
        GameAction::MulliganDecision { .. }
        | GameAction::SubmitSideboard { .. }
        | GameAction::ChoosePlayDraw { .. }
        | GameAction::DeclareCompanion { .. }
        | GameAction::SetAutoPass { .. }
        | GameAction::SetPhaseStops { .. }
        | GameAction::SetPriorityYield { .. }
        | GameAction::Debug(_)
        | GameAction::GrantDebugPermission { .. }
        | GameAction::RevokeDebugPermission { .. }
        | GameAction::Concede { .. } => cmp_match_setup_payload(a, b),
        GameAction::PassPriority
        | GameAction::CancelCast
        | GameAction::KeepAllCopyTargets
        | GameAction::RollPlanarDie
        | GameAction::CompanionToHand
        | GameAction::CancelAutoPass
        | GameAction::PassParadigmOffer
        | GameAction::PassLifeAuction => Ordering::Equal,
    }
}

fn cmp_casting_payload(a: &GameAction, b: &GameAction) -> (o: Ordering)
    requires
        a.kind_of() == b.kind_of(),
    ensures
        o == key::list_cmp(casting_fields(*a), casting_fields(*b)),
{
    proof {
        reveal(casting_fields);
        key::list_cmp_empty(seq![], seq![]);
    }
    match a {
        GameAction::PlayLand { object_id: a0, card_id: a1 } => match b {
            GameAction::PlayLand { object_id: b0, card_id: b1 } => cmp_val2(a0, b0, a1, b1),
            _ => Ordering::Equal,
        },
        GameAction::CastSpell {
            object_id: a0,
            card_id: a1,
            targets: a2,
            payment_mode: a3,
        } => match b {
            GameAction::CastSpell { object_id: b0, card_id: b1, targets: b2, payment_mode: b3 } => {
                cmp_val4(a0, b0, a1, b1, a2, b2, a3, b3)
            },
            _ => Ordering::Equal,
        },
        GameAction::Foretell { object_id: a0, card_id: a1 } => match b {
            GameAction::Foretell { object_id: b0, card_id: b1 } => cmp_val2(a0, b0, a1, b1),
            _ => Ordering::Equal,
        },
        GameAction::PlayFaceDown { object_id: a0, card_id: a1 } => match b {
            GameAction::PlayFaceDown { object_id: b0, card_id: b1 } => cmp_val2(a0, b0, a1, b1),
            _ => Ordering::Equal,
        },
        GameAction::CastSpellAsSneak {
            hand_object: a0,
            card_id: a1,
            creature_to_return: a2,
            payment_mode: a3,
        } => match b {
            GameAction::CastSpellAsSneak {
                hand_object: b0,
                card_id: b1,
                creature_to_return: b2,
                payment_mode: b3,
            } => {
                cmp_val4(a0, b0, a1, b1, a2, b2, a3, b3)
            },
            _ => Ordering::Equal,
        },
        GameAction::CastSpellAsWebSlinging {
            hand_object: a0,
            card_id: a1,
            creature_to_return: a2,
            payment_mode: a3,
        } => match b {
            GameAction::CastSpellAsWebSlinging {
                hand_object: b0,
                card_id: b1,
                creature_to_return: b2,
                payment_mode: b3,
            } => {
                cmp_val4(a0, b0, a1, b1, a2, b2, a3, b3)
            },
            _ => Ordering::Equal,
        },
        GameAction::CastSpellForFree {
            object_id: a0,
            card_id: a1,
            source_id: a2,
            payment_mode: a3,
        } => match b {
            GameAction::CastSpellForFree {
                object_id: b0,
                card_id: b1,
                source_id: b2,
                payment_mode: b3,
            } => {
                cmp_val4(a0, b0, a1, b1, a2, b2, a3, b3)
            },
            _ => Ordering::Equal,
        },
        GameAction::CastSpellAsMiracle { object_id: a0, card_id: a1, payment_mode: a2 } => match b {
            GameAction::CastSpellAsMiracle { object_id: b0, card_id: b1, payment_mode: b2 } => {
                cmp_val3(a0, b0, a1, b1, a2, b2)
            },
            _ => Ordering::Equal,
        },
        GameAction::CastSpellAsMadness { object_id: a0, card_id: a1, payment_mode: a2 } => match b {
            GameAction::CastSpellAsMadness { object_id: b0, card_id: b1, payment_mode: b2 } => {
                cmp_val3(a0, b0, a1, b1, a2, b2)
            },
            _ => Ordering::Equal,
        },
        GameAction::CastPreparedCopy { source: a0 } => match b {
            GameAction::CastPreparedCopy { source: b0 } => cmp_val1(a0, b0),
            _ => Ordering::Equal,
        },
        GameAction::CastParadigmCopy { source: a0 } => match b {
            GameAction::CastParadigmCopy { source: b0 } => cmp_val1(a0, b0),
            _ => Ordering::Equal,
        },
        GameAction::ChooseAlternativeCast { choice: a0 } => match b {
            GameAction::ChooseAlternativeCast { choice: b0 } => cmp_val1(a0, b0),
            _ => Ordering::Equal,
        },
        GameAction::ChooseCastingVariant { index: a0 } => match b {
            GameAction::ChooseCastingVariant { index: b0 } => cmp_val1(a0, b0),
            _ => Ordering::Equal,
        },
        _ => Ordering::Equal,
    }
}

fn cmp_face_and_offer_payload(a: &GameAction, b: &GameAction) -> (o: Ordering)
    requires
        a.kind_of() == b.kind_of(),
    ensures
        o == key::list_cmp(face_and_offer_fields(*a), face_and_offer_fields(*b)),
{
    proof {
        reveal(face_and_offer_fields);
        key::list_cmp_empty(seq![], seq![]);
    }
    match a {
        GameAction::ChooseAdventureFace { creature: a0 } => match b {
            GameAction::ChooseAdventureFace { creature: b0 } => cmp_val1(a0, b0),
            _ => Ordering::Equal,
        },
        GameAction::ChooseModalFace { back_face: a0 } => match b {
            GameAction::ChooseModalFace { back_face: b0 } => cmp_val1(a0, b0),
            _ => Ordering::Equal,
        },
        GameAction::RespondToSpliceOffer { card: a0 } => match b {
            GameAction::RespondToSpliceOffer { card: b0 } => cmp_val1(a0, b0),
            _ => Ordering::Equal,
        },
        GameAction::DiscoverChoice { choice: a0 } => match b {
            GameAction::DiscoverChoice { choice: b0 } => cmp_val1(a0, b0),
            _ => Ordering::Equal,
        },
        GameAction::GraveyardPaidCastChoice { choice: a0 } => match b {
            GameAction::GraveyardPaidCastChoice { choice: b0 } => cmp_val1(a0, b0),
            _ => Ordering::Equal,
        },
        GameAction::CascadeChoice { choice: a0 } => match b {
            GameAction::CascadeChoice { choice: b0 } => cmp_val1(a0, b0),
            _ => Ordering::Equal,
        },
        GameAction::RippleChoice { choice: a0 } => match b {
            GameAction::RippleChoice { choice: b0 } => cmp_val1(a0, b0),
            _ => Ordering::Equal,
        },
        GameAction::FreeCastWindowChoice { selection: a0 } => match b {
            GameAction::FreeCastWindowChoice { selection: b0 } => cmp_val1(a0, b0),
            _ => Ordering::Equal,
        },
        GameAction::ChooseX { value: a0 } => match b {
            GameAction::ChooseX { value: b0 } => cmp_val1(a0, b0),
            _ => Ordering::Equal,
        },
        GameAction::ChooseSpecializeColor { color: a0 } => match b {
            GameAction::ChooseSpecializeColor { color: b0 } => cmp_val1(a0, b0),
            _ => Ordering::Equal,
        },
        GameAction::CipherEncode { creature: a0 } => match b {
            GameAction::CipherEncode { creature: b0 } => cmp_val1(a0, b0),
            _ => Ordering::Equal,
        },
        GameAction::ChooseMutateMergeSide { side: a0 } => match b {
            GameAction::ChooseMutateMergeSide { side: b0 } => cmp_val1(a0, b0),
            _ => Ordering::Equal,
        },
        _ => Ordering::Equal,
    }
}

fn cmp_mana_payload(a: &GameAction, b: &GameAction) -> (o: Ordering)
    requires
        a.kind_of() == b.kind_of(),
    ensures
        o == key::list_cmp(mana_fields(*a), mana_fields(*b)),
{
    proof {
        reveal(mana_fields);
        key::list_cmp_empty(seq![], seq![]);
    }
    match a {
        GameAction::TapLandForMana { object_id: a0 } => match b {
            GameAction::TapLandForMana { object_id: b0 } => cmp_val1(a0, b0),
            _ => Ordering::Equal,
        },
        GameAction::UntapLandForMana { object_id: a0 } => match b {
            GameAction::UntapLandForMana { object_id: b0 } => cmp_val1(a0, b0),
            _ => Ordering::Equal,
        },
        GameAction::SpendPoolMana { pip_id: a0 } => match b {
            GameAction::SpendPoolMana { pip_id: b0 } => cmp_val1(a0, b0),
            _ => Ordering::Equal,
        },
        GameAction::UnspendPoolMana { pip_id: a0 } => match b {
            GameAction::UnspendPoolMana { pip_id: b0 } => cmp_val1(a0, b0),
            _ => Ordering::Equal,
        },
        GameAction::CommitAssistPayment { generic: a0 } => match b {
            GameAction::CommitAssistPayment { generic: b0 } => cmp_val1(a0, b0),
            _ => Ordering::Equal,
        },
        GameAction::TapForConvoke { object_id: a0, mana_type: a1 } => match b {
            GameAction::TapForConvoke { object_id: b0, mana_type: b1 } => cmp_val2(a0, b0, a1, b1),
            _ => Ordering::Equal,
        },
        GameAction::HarmonizeTap { creature_id: a0 } => match b {
            GameAction::HarmonizeTap { creature_id: b0 } => cmp_val1(a0, b0),
            _ => Ordering::Equal,
        },
        GameAction::SubmitPhyrexianChoices { choices: a0 } => match b {
            GameAction::SubmitPhyrexianChoices { choices: b0 } => cmp_val1(a0, b0),
            _ => Ordering::Equal,
        },
        GameAction::ChooseManaColor { choice: a0, count: a1 } => match b {
            GameAction::ChooseManaColor { choice: b0, count: b1 } => cmp_val2(a0, b0, a1, b1),
            _ => Ordering::Equal,
        },
        GameAction::PayManaAbilityMana { payment: a0 } => match b {
            GameAction::PayManaAbilityMana { payment: b0 } => cmp_val1(a0, b0),
            _ => Ordering::Equal,
        },
        GameAction::SubmitPayAmount { amount: a0 } => match b {
            GameAction::SubmitPayAmount { amount: b0 } => cmp_val1(a0, b0),
            _ => Ordering::Equal,
        },
        GameAction::ChooseAssistPlayer { player: a0 } => match b {
            GameAction::ChooseAssistPlayer { player: b0 } => cmp_val1(a0, b0),
            _ => Ordering::Equal,
        },
        _ => Ordering::Equal,
    }
}

fn cmp_combat_payload(a: &GameAction, b: &GameAction) -> (o: Ordering)
    requires
        a.kind_of() == b.kind_of(),
    ensures
        o == key::list_cmp(combat_fields(*a), combat_fields(*b)),
{
    proof {
        reveal(combat_fields);
        key::list_cmp_empty(seq![], seq![]);
    }
    match a {
        GameAction::DeclareAttackers { attacks: a0, bands: a1 } => match b {
            GameAction::DeclareAttackers { attacks: b0, bands: b1 } => cmp_val2(a0, b0, a1, b1),
            _ => Ordering::Equal,
        },
        GameAction::DeclareBlockers { assignments: a0 } => match b {
            GameAction::DeclareBlockers { assignments: b0 } => cmp_val1(a0, b0),
            _ => Ordering::Equal,
        },
        GameAction::ChooseExert { exert: a0 } => match b {
            GameAction::ChooseExert { exert: b0 } => cmp_val1(a0, b0),
            _ => Ordering::Equal,
        },
        GameAction::ChooseEnlist { target: a0 } => match b {
            GameAction::ChooseEnlist { target: b0 } => cmp_val1(a0, b0),
            _ => Ordering::Equal,
        },
        GameAction::PayCombatTax { accept: a0 } => match b {
            GameAction::PayCombatTax { accept: b0 } => cmp_val1(a0, b0),
            _ => Ordering::Equal,
        },
        GameAction::AssignCombatDamage {
            mode: a0,
            assignments: a1,
            trample_damage: a2,
            controller_damage: a3,
        } => match b {
            GameAction::AssignCombatDamage {
                mode: b0,
                assignments: b1,
                trample_damage: b2,
                controller_damage: b3,
            } => {
                cmp_val4(a0, b0, a1, b1, a2, b2, a3, b3)
            },
            _ => Ordering::Equal,
        },
        GameAction::AssignBlockerDamage { assignments: a0 } => match b {
            GameAction::AssignBlockerDamage { assignments: b0 } => cmp_val1(a0, b0),
            _ => Ordering::Equal,
        },
        GameAction::ActivateNinjutsu { ninjutsu_object_id: a0, creature_to_return: a1 } => match b {
            GameAction::ActivateNinjutsu { ninjutsu_object_id: b0, creature_to_return: b1 } => {
                cmp_val2(a0, b0, a1, b1)
            },
            _ => Ordering::Equal,
        },
        GameAction::ChooseBattleProtector { protector: a0 } => match b {
            GameAction::ChooseBattleProtector { protector: b0 } => cmp_val1(a0, b0),
            _ => Ordering::Equal,
        },
        GameAction::ChooseUntap { object_id: a0, untap: a1 } => match b {
            GameAction::ChooseUntap { object_id: b0, untap: b1 } => cmp_val2(a0, b0, a1, b1),
            _ => Ordering::Equal,
        },
        _ => Ordering::Equal,
    }
}

fn cmp_permanent_payload(a: &GameAction, b: &GameAction) -> (o: Ordering)
    requires
        a.kind_of() == b.kind_of(),
    ensures
        o == key::list_cmp(permanent_fields(*a), permanent_fields(*b)),
{
    proof {
        reveal(permanent_fields);
        key::list_cmp_empty(seq![], seq![]);
    }
    match a {
        GameAction::ActivateAbility { source_id: a0, ability_index: a1 } => match b {
            GameAction::ActivateAbility { source_id: b0, ability_index: b1 } => {
                cmp_val2(a0, b0, a1, b1)
            },
            _ => Ordering::Equal,
        },
        GameAction::Equip { equipment_id: a0, target_id: a1 } => match b {
            GameAction::Equip { equipment_id: b0, target_id: b1 } => cmp_val2(a0, b0, a1, b1),
            _ => Ordering::Equal,
        },
        GameAction::CrewVehicle { vehicle_id: a0, creature_ids: a1 } => match b {
            GameAction::CrewVehicle { vehicle_id: b0, creature_ids: b1 } => {
                cmp_val2(a0, b0, a1, b1)
            },
            _ => Ordering::Equal,
        },
        GameAction::ActivateStation { spacecraft_id: a0, creature_id: a1 } => match b {
            GameAction::ActivateStation { spacecraft_id: b0, creature_id: b1 } => {
                cmp_val2(a0, b0, a1, b1)
            },
            _ => Ordering::Equal,
        },
        GameAction::SaddleMount { mount_id: a0, creature_ids: a1 } => match b {
            GameAction::SaddleMount { mount_id: b0, creature_ids: b1 } => cmp_val2(a0, b0, a1, b1),
            _ => Ordering::Equal,
        },
        GameAction::Transform { object_id: a0 } => match b {
            GameAction::Transform { object_id: b0 } => cmp_val1(a0, b0),
            _ => Ordering::Equal,
        },
        GameAction::TurnFaceUp { object_id: a0 } => match b {
            GameAction::TurnFaceUp { object_id: b0 } => cmp_val1(a0, b0),
            _ => Ordering::Equal,
        },
        GameAction::UnlockRoomDoor { object_id: a0, door: a1 } => match b {
            GameAction::UnlockRoomDoor { object_id: b0, door: b1 } => cmp_val2(a0, b0, a1, b1),
            _ => Ordering::Equal,
        },
        GameAction::ChooseRoomDoor { object_id: a0, op: a1, door: a2 } => match b {
            GameAction::ChooseRoomDoor { object_id: b0, op: b1, door: b2 } => {
                cmp_val3(a0, b0, a1, b1, a2, b2)
            },
            _ => Ordering::Equal,
        },
        GameAction::ChooseRingBearer { target: a0 } => match b {
            GameAction::ChooseRingBearer { target: b0 } => cmp_val1(a0, b0),
            _ => Ordering::Equal,
        },
        GameAction::ChoosePair { partner: a0 } => match b {
            GameAction::ChoosePair { partner: b0 } => cmp_val1(a0, b0),
            _ => Ordering::Equal,
        },
        GameAction::ChooseLegend { keep: a0 } => match b {
            GameAction::ChooseLegend { keep: b0 } => cmp_val1(a0, b0),
            _ => Ordering::Equal,
        },
        GameAction::ChooseDungeon { dungeon: a0 } => match b {
            GameAction::ChooseDungeon { dungeon: b0 } => cmp_val1(a0, b0),
            _ => Ordering::Equal,
        },
        GameAction::ChooseDungeonRoom { room_index: a0 } => match b {
            GameAction::ChooseDungeonRoom { room_index: b0 } => cmp_val1(a0, b0),
            _ => Ordering::Equal,
        },
        _ => Ordering::Equal,
    }
}

fn cmp_selection_payload(a: &GameAction, b: &GameAction) -> (o: Ordering)
    requires
        a.kind_of() == b.kind_of(),
    ensures
        o == key::list_cmp(selection_fields(*a), selection_fields(*b)),
{
    proof {
        reveal(selection_fields);
        key::list_cmp_empty(seq![], seq![]);
    }
    match a {
        GameAction::ReorderHand { order: a0 } => match b {
            GameAction::ReorderHand { order: b0 } => cmp_val1(a0, b0),
            _ => Ordering::Equal,
        },
        GameAction::SelectCards { cards: a0 } => match b {
            GameAction::SelectCards { cards: b0 } => cmp_val1(a0, b0),
            _ => Ordering::Equal,
        },
        GameAction::SelectCoinFlips { keep_indices: a0 } => match b {
            GameAction::SelectCoinFlips { keep_indices: b0 } => cmp_val1(a0, b0),
            _ => Ordering::Equal,
        },
        GameAction::ChooseOutsideGameCards { selections: a0 } => match b {
            GameAction::ChooseOutsideGameCards { selections: b0 } => cmp_val1(a0, b0),
            _ => Ordering::Equal,
        },
        GameAction::SelectTargets { targets: a0 } => match b {
            GameAction::SelectTargets { targets: b0 } => cmp_val1(a0, b0),
            _ => Ordering::Equal,
        },
        GameAction::ChooseTarget { target: a0 } => match b {
            GameAction::ChooseTarget { target: b0 } => cmp_val1(a0, b0),
            _ => Ordering::Equal,
        },
        GameAction::RetargetSpell { new_targets: a0 } => match b {
            GameAction::RetargetSpell { new_targets: b0 } => cmp_val1(a0, b0),
            _ => Ordering::Equal,
        },
        GameAction::SubmitPilePartition { pile_a: a0 } => match b {
            GameAction::SubmitPilePartition { pile_a: b0 } => cmp_val1(a0, b0),
            _ => Ordering::Equal,
        },
        GameAction::SelectCategoryPermanents { choices: a0 } => match b {
            GameAction::SelectCategoryPermanents { choices: b0 } => cmp_val1(a0, b0),
            _ => Ordering::Equal,
        },
        GameAction::ChooseKeptCreatures { kept: a0 } => match b {
            GameAction::ChooseKeptCreatures { kept: b0 } => cmp_val1(a0, b0),
            _ => Ordering::Equal,
        },
        GameAction::SelectModes { indices: a0 } => match b {
            GameAction::SelectModes { indices: b0 } => cmp_val1(a0, b0),
            _ => Ordering::Equal,
        },
        GameAction::OrderTriggers { order: a0 } => match b {
            GameAction::OrderTriggers { order: b0 } => cmp_val1(a0, b0),
            _ => Ordering::Equal,
        },
        _ => Ordering::Equal,
    }
}

fn cmp_distribution_payload(a: &GameAction, b: &GameAction) -> (o: Ordering)
    requires
        a.kind_of() == b.kind_of(),
    ensures
        o == key::list_cmp(distribution_fields(*a), distribution_fields(*b)),
{
    proof {
        reveal(distribution_fields);
        key::list_cmp_empty(seq![], seq![]);
    }
    match a {
        GameAction::ChooseRemoveCounterCostDistribution { distribution: a0 } => match b {
            GameAction::ChooseRemoveCounterCostDistribution { distribution: b0 } => {
                cmp_val1(a0, b0)
            },
            _ => Ordering::Equal,
        },
        GameAction::DistributeAmong { distribution: a0 } => match b {
            GameAction::DistributeAmong { distribution: b0 } => cmp_val1(a0, b0),
            _ => Ordering::Equal,
        },
        GameAction::ChooseCounterMoveDistribution { selections: a0 } => match b {
            GameAction::ChooseCounterMoveDistribution { selections: b0 } => cmp_val1(a0, b0),
            _ => Ordering::Equal,
        },
        GameAction::ChooseCountersToRemove { selections: a0 } => match b {
            GameAction::ChooseCountersToRemove { selections: b0 } => cmp_val1(a0, b0),
            _ => Ordering::Equal,
        },
        GameAction::ChooseDamageSource { source: a0 } => match b {
            GameAction::ChooseDamageSource { source: b0 } => cmp_val1(a0, b0),
            _ => Ordering::Equal,
        },
        GameAction::ChoosePermanentTypeSlot { slot: a0 } => match b {
            GameAction::ChoosePermanentTypeSlot { slot: b0 } => cmp_val1(a0, b0),
            _ => Ordering::Equal,
        },
        GameAction::ChooseReplacement { index: a0 } => match b {
            GameAction::ChooseReplacement { index: b0 } => cmp_val1(a0, b0),
            _ => Ordering::Equal,
        },
        GameAction::ChooseBranch { index: a0 } => match b {
            GameAction::ChooseBranch { index: b0 } => cmp_val1(a0, b0),
            _ => Ordering::Equal,
        },
        GameAction::ChooseActivationCostBranch { index: a0 } => match b {
            GameAction::ChooseActivationCostBranch { index: b0 } => cmp_val1(a0, b0),
            _ => Ordering::Equal,
        },
        GameAction::ChooseUnlessCostBranch { choice: a0 } => match b {
            GameAction::ChooseUnlessCostBranch { choice: b0 } => cmp_val1(a0, b0),
            _ => Ordering::Equal,
        },
        _ => Ordering::Equal,
    }
}

fn cmp_decision_payload(a: &GameAction, b: &GameAction) -> (o: Ordering)
    requires
        a.kind_of() == b.kind_of(),
    ensures
        o == key::list_cmp(decision_fields(*a), decision_fields(*b)),
{
    proof {
        reveal(decision_fields);
        key::list_cmp_empty(seq![], seq![]);
    }
    match a {
        GameAction::DecideOptionalCost { pay: a0 } => match b {
            GameAction::DecideOptionalCost { pay: b0 } => cmp_val1(a0, b0),
            _ => Ordering::Equal,
        },
        GameAction::DecideOptionalEffect { accept: a0 } => match b {
            GameAction::DecideOptionalEffect { accept: b0 } => cmp_val1(a0, b0),
            _ => Ordering::Equal,
        },
        GameAction::DecideOptionalEffectAndRemember { choice: a0 } => match b {
            GameAction::DecideOptionalEffectAndRemember { choice: b0 } => cmp_val1(a0, b0),
            _ => Ordering::Equal,
        },
        GameAction::PayUnlessCost { pay: a0 } => match b {
            GameAction::PayUnlessCost { pay: b0 } => cmp_val1(a0, b0),
            _ => Ordering::Equal,
        },
        GameAction::ChooseTopOrBottom { top: a0 } => match b {
            GameAction::ChooseTopOrBottom { top: b0 } => cmp_val1(a0, b0),
            _ => Ordering::Equal,
        },
        GameAction::ChooseOption { choice: a0 } => match b {
            GameAction::ChooseOption { choice: b0 } => cmp_val1(a0, b0),
            _ => Ordering::Equal,
        },
        GameAction::ChoosePile { pile: a0 } => match b {
            GameAction::ChoosePile { pile: b0 } => cmp_val1(a0, b0),
            _ => Ordering::Equal,
        },
        GameAction::SubmitVoteCandidate { candidate_index: a0 } => match b {
            GameAction::SubmitVoteCandidate { candidate_index: b0 } => cmp_val1(a0, b0),
            _ => Ordering::Equal,
        },
        GameAction::SubmitSpellbookDraft { card: a0 } => match b {
            GameAction::SubmitSpellbookDraft { card: b0 } => cmp_val1(a0, b0),
            _ => Ordering::Equal,
        },
        GameAction::LearnDecision { choice: a0 } => match b {
            GameAction::LearnDecision { choice: b0 } => cmp_val1(a0, b0),
            _ => Ordering::Equal,
        },
        GameAction::ChooseClashOpponent { opponent: a0 } => match b {
            GameAction::ChooseClashOpponent { opponent: b0 } => cmp_val1(a0, b0),
            _ => Ordering::Equal,
        },
        GameAction::SubmitLifeAuctionBid { amount: a0 } => match b {
            GameAction::SubmitLifeAuctionBid { amount: b0 } => cmp_val1(a0, b0),
            _ => Ordering::Equal,
        },
        GameAction::ChooseGiftRecipient { opponent: a0 } => match b {
            GameAction::ChooseGiftRecipient { opponent: b0 } => cmp_val1(a0, b0),
            _ => Ordering::Equal,
        },
        _ => Ordering::Equal,
    }
}

fn cmp_match_setup_payload(a: &GameAction, b: &GameAction) -> (o: Ordering)
    requires
        a.kind_of() == b.kind_of(),
    ensures
        o == key::list_cmp(match_setup_fields(*a), match_setup_fields(*b)),
{
    proof {
        reveal(match_setup_fields);
        key::list_cmp_empty(seq![], seq![]);
    }
    match a {
        GameAction::MulliganDecision { choice: a0 } => match b {
            GameAction::MulliganDecision { choice: b0 } => cmp_val1(a0, b0),
            _ => Ordering::Equal,
        },
        GameAction::SubmitSideboard { main: a0, sideboard: a1 } => match b {
            GameAction::SubmitSideboard { main: b0, sideboard: b1 } => cmp_val2(a0, b0, a1, b1),
            _ => Ordering::Equal,
        },
        GameAction::ChoosePlayDraw { play_first: a0 } => match b {
            GameAction::ChoosePlayDraw { play_first: b0 } => cmp_val1(a0, b0),
            _ => Ordering::Equal,
        },
        GameAction::DeclareCompanion { card_index: a0 } => match b {
            GameAction::DeclareCompanion { card_index: b0 } => cmp_val1(a0, b0),
            _ => Ordering::Equal,
        },
        GameAction::SetAutoPass { mode: a0 } => match b {
            GameAction::SetAutoPass { mode: b0 } => cmp_val1(a0, b0),
            _ => Ordering::Equal,
        },
        GameAction::SetPhaseStops { stops: a0 } => match b {
            GameAction::SetPhaseStops { stops: b0 } => cmp_val1(a0, b0),
            _ => Ordering::Equal,
        },
        GameAction::SetPriorityYield { op: a0 } => match b {
            GameAction::SetPriorityYield { op: b0 } => cmp_val1(a0, b0),
            _ => Ordering::Equal,
        },
        GameAction::Debug(a0) => match b {
            GameAction::Debug(b0) => cmp_val1(a0, b0),
            _ => Ordering::Equal,
        },
        GameAction::GrantDebugPermission { player_id: a0 } => match b {
            GameAction::GrantDebugPermission { player_id: b0 } => cmp_val1(a0, b0),
            _ => Ordering::Equal,
        },
        GameAction::RevokeDebugPermission { player_id: a0 } => match b {
            GameAction::RevokeDebugPermission { player_id: b0 } => cmp_val1(a0, b0),
            _ => Ordering::Equal,
        },
        GameAction::Concede { player_id: a0 } => match b {
            GameAction::Concede { player_id: b0 } => cmp_val1(a0, b0),
            _ => Ordering::Equal,
        },
        _ => Ordering::Equal,
    }
}

/// Position of a debug action's variant in the declaration.
#[verifier::opaque]
pub open spec fn debug_rank(a: DebugAction) -> int {
    match a {
        DebugAction::MoveToZone { .. } => 0,
        DebugAction::CreateCard { .. } => 1,
        DebugAction::RemoveObject { .. } => 2,
        DebugAction::Sacrifice { .. } => 3,
        DebugAction::DrawCards { .. } => 4,
        DebugAction::Mill { .. } => 5,
        DebugAction::Reveal { .. } => 6,
        DebugAction::ShuffleLibrary { .. } => 7,
        DebugAction::Proliferate { .. } => 8,
        DebugAction::SetBasePowerToughness { .. } => 9,
        DebugAction::ModifyCounters { .. } => 10,
        DebugAction::SetTapped { .. } => 11,
        DebugAction::SetPrepared { .. } => 12,
        DebugAction::SetController { .. } => 13,
        DebugAction::SetSummoningSickness { .. } => 14,
        DebugAction::SetFaceState { .. } => 15,
        DebugAction::Attach { .. } => 16,
        DebugAction::Detach { .. } => 17,
        DebugAction::GrantKeyword { .. } => 18,
        DebugAction::RemoveKeyword { .. } => 19,
        DebugAction::SetLife { .. } => 20,
        DebugAction::ModifyPlayerCounters { .. } => 21,
        DebugAction::ModifyEnergy { .. } => 22,
        DebugAction::AddMana { .. } => 23,
        DebugAction::SetInfiniteMana { .. } => 24,
        DebugAction::SetPhase { .. } => 25,
        DebugAction::RunStateBasedActions => 26,
        DebugAction::CreateToken { .. } => 27,
        DebugAction::CreateTokenCopy { .. } => 28,
    }
}

/// The fields that break ties between two debug actions of one variant, in
/// order; a keyword counts by its discriminant alone.
pub open spec fn debug_fields(a: DebugAction) -> Seq<Key> {
    match a {
        DebugAction::MoveToZone { object_id, to_zone, library_position, simulate } => seq![
            object_id.key(), to_zone.key(), library_position.key(), simulate.key(),
        ],
        DebugAction::CreateCard { card_name, owner, zone, attach_to, run_etb } => seq![
            card_name.key(), owner.key(), zone.key(), attach_to.key(), run_etb.key(),
        ],
        DebugAction::RemoveObject { object_id } => seq![object_id.key()],
        DebugAction::Sacrifice { object_id } => seq![object_id.key()],
        DebugAction::DrawCards { player_id, count } => seq![player_id.key(), count.key()],
        DebugAction::Mill { player_id, count } => seq![player_id.key(), count.key()],
        DebugAction::Reveal { player_id, count } => seq![player_id.key(), count.key()],
        DebugAction::ShuffleLibrary { player_id } => seq![player_id.key()],
        DebugAction::Proliferate { player_id } => seq![player_id.key()],
        DebugAction::SetBasePowerToughness { object_id, power, toughness } => seq![
            object_id.key(), power.key(), toughness.key(),
        ],
        DebugAction::ModifyCounters { object_id, counter_type, delta } => seq![
            object_id.key(), counter_type.key(), delta.key(),
        ],
        DebugAction::SetTapped { object_id, tapped } => seq![object_id.key(), tapped.key()],
        DebugAction::SetPrepared { object_id, prepared } => seq![object_id.key(), prepared.key()],
        DebugAction::SetController { object_id, controller } => seq![
            object_id.key(), controller.key(),
        ],
        DebugAction::SetSummoningSickness { object_id, sick } => seq![object_id.key(), sick.key()],
        DebugAction::SetFaceState { object_id, face_down, transformed, flipped } => seq![
            object_id.key(), face_down.key(), transformed.key(), flipped.key(),
        ],
        DebugAction::Attach { object_id, target } => seq![object_id.key(), target.key()],
        DebugAction::Detach { object_id } => seq![object_id.key()],
        DebugAction::GrantKeyword { object_id, keyword } => seq![
            object_id.key(), keyword.kind_of().key(),
        ],
        DebugAction::RemoveKeyword { object_id, keyword } => seq![
            object_id.key(), keyword.kind_of().key(),
        ],
        DebugAction::SetLife { player_id, life } => seq![player_id.key(), life.key()],
        DebugAction::ModifyPlayerCounters { player_id, counter_kind, delta } => seq![
            player_id.key(), counter_kind.key(), delta.key(),
        ],
        DebugAction::ModifyEnergy { player_id, delta } => seq![player_id.key(), delta.key()],
        DebugAction::AddMana { player_id, mana } => seq![player_id.key(), mana.key()],
        DebugAction::SetInfiniteMana { player_id, enabled } => seq![player_id.key(), enabled.key()],
        DebugAction::SetPhase { phase, active_player } => seq![phase.key(), active_player.key()],
        DebugAction::RunStateBasedActions => seq![],
        DebugAction::CreateToken { request, run_etb } => seq![request.key(), run_etb.key()],
        DebugAction::CreateTokenCopy { source_id, owner } => seq![source_id.key(), owner.key()],
    }
}

pub open spec fn debug_action_key(a: DebugAction) -> Key {
    stable_ord::tagged(debug_rank(a), debug_fields(a))
}

impl StableOrd for DebugAction {
    open spec fn key(&self) -> Key {
        debug_action_key(*self)
    }

    fn stable_cmp(&self, other: &Self) -> (o: Ordering) {
        cmp_debug_action(self, other)
    }
}

/// Order over debug actions: the variant first, then the comparable fields.
pub fn cmp_debug_action(a: &DebugAction, b: &DebugAction) -> (o: Ordering)
    ensures
        o == key::key_cmp(debug_action_key(*a), debug_action_key(*b)),
{
    proof {
        stable_ord::lemma_tagged(debug_rank(*a), debug_fields(*a), debug_rank(*b), debug_fields(*b));
    }
    match debug_action_rank(a).stable_cmp(&debug_action_rank(b)) {
        Ordering::Equal => cmp_debug_action_payload(a, b),
        verdict => verdict,
    }
}

/// Declaration-order rank of a debug action's variant.
fn debug_action_rank(a: &DebugAction) -> (r: u16)
    ensures
        r == debug_rank(*a),
{
    proof {
        reveal(debug_rank);
    }
    match a {
        DebugAction::MoveToZone { .. } => 0,
        DebugAction::CreateCard { .. } => 1,
        DebugAction::RemoveObject { .. } => 2,
        DebugAction::Sacrifice { .. } => 3,
        DebugAction::DrawCards { .. } => 4,
        DebugAction::Mill { .. } => 5,
        DebugAction::Reveal { .. } => 6,
        DebugAction::ShuffleLibrary { .. } => 7,
        DebugAction::Proliferate { .. } => 8,
        DebugAction::SetBasePowerToughness { .. } => 9,
        DebugAction::ModifyCounters { .. } => 10,
        DebugAction::SetTapped { .. } => 11,
        DebugAction::SetPrepared { .. } => 12,
        DebugAction::SetController { .. } => 13,
        DebugAction::SetSummoningSickness { .. } => 14,
        DebugAction::SetFaceState { .. } => 15,
        DebugAction::Attach { .. } => 16,
        DebugAction::Detach { .. } => 17,
        DebugAction::GrantKeyword { .. } => 18,
        DebugAction::RemoveKeyword { .. } => 19,
        DebugAction::SetLife { .. } => 20,
        DebugAction::ModifyPlayerCounters { .. } => 21,
        DebugAction::ModifyEnergy { .. } => 22,
        DebugAction::AddMana { .. } => 23,
        DebugAction::SetInfiniteMana { .. } => 24,
        DebugAction::SetPhase { .. } => 25,
        DebugAction::RunStateBasedActions => 26,
        DebugAction::CreateToken { .. } => 27,
        DebugAction::CreateTokenCopy { .. } => 28,
    }
}

/// Compares the payloads of two debug actions of one variant.
fn cmp_debug_action_payload(a: &DebugAction, b: &DebugAction) -> (o: Ordering)
    requires
        debug_rank(*a) == debug_rank(*b),
    ensures
        o == key::list_cmp(debug_fields(*a), debug_fields(*b)),
{
    proof {
        reveal(debug_rank);
        key::list_cmp_empty(seq![], seq![]);
    }
    match a {
        DebugAction::MoveToZone {
            object_id: a0,
            to_zone: a1,
            library_position: a2,
            simulate: a3,
        } => match b {
            DebugAction::MoveToZone {
                object_id: b0,
                to_zone: b1,
                library_position: b2,
                simulate: b3,
            } => {
                cmp_val4(a0, b0, a1, b1, a2, b2, a3, b3)
            },
            _ => Ordering::Equal,
        },
        DebugAction::CreateCard {
            card_name: a0,
            owner: a1,
            zone: a2,
            attach_to: a3,
            run_etb: a4,
        } => match b {
            DebugAction::CreateCard {
                card_name: b0,
                owner: b1,
                zone: b2,
                attach_to: b3,
                run_etb: b4,
            } => {
                cmp_val5(a0, b0, a1, b1, a2, b2, a3, b3, a4, b4)
            },
            _ => Ordering::Equal,
        },
        DebugAction::RemoveObject { object_id: a0 } => match b {
            DebugAction::RemoveObject { object_id: b0 } => cmp_val1(a0, b0),
            _ => Ordering::Equal,
        },
        DebugAction::Sacrifice { object_id: a0 } => match b {
            DebugAction::Sacrifice { object_id: b0 } => cmp_val1(a0, b0),
            _ => Ordering::Equal,
        },
        DebugAction::DrawCards { player_id: a0, count: a1 } => match b {
            DebugAction::DrawCards { player_id: b0, count: b1 } => cmp_val2(a0, b0, a1, b1),
            _ => Ordering::Equal,
        },
        DebugAction::Mill { player_id: a0, count: a1 } => match b {
            DebugAction::Mill { player_id: b0, count: b1 } => cmp_val2(a0, b0, a1, b1),
            _ => Ordering::Equal,
        },
        DebugAction::Reveal { player_id: a0, count: a1 } => match b {
            DebugAction::Reveal { player_id: b0, count: b1 } => cmp_val2(a0, b0, a1, b1),
            _ => Ordering::Equal,
        },
        DebugAction::ShuffleLibrary { player_id: a0 } => match b {
            DebugAction::ShuffleLibrary { player_id: b0 } => cmp_val1(a0, b0),
            _ => Ordering::Equal,
        },
        DebugAction::Proliferate { player_id: a0 } => match b {
            DebugAction::Proliferate { player_id: b0 } => cmp_val1(a0, b0),
            _ => Ordering::Equal,
        },
        DebugAction::SetBasePowerToughness { object_id: a0, power: a1, toughness: a2 } => match b {
            DebugAction::SetBasePowerToughness { object_id: b0, power: b1, toughness: b2 } => {
                cmp_val3(a0, b0, a1, b1, a2, b2)
            },
            _ => Ordering::Equal,
        },
        DebugAction::ModifyCounters { object_id: a0, counter_type: a1, delta: a2 } => match b {
            DebugAction::ModifyCounters { object_id: b0, counter_type: b1, delta: b2 } => {
                cmp_val3(a0, b0, a1, b1, a2, b2)
            },
            _ => Ordering::Equal,
        },
        DebugAction::SetTapped { object_id: a0, tapped: a1 } => match b {
            DebugAction::SetTapped { object_id: b0, tapped: b1 } => cmp_val2(a0, b0, a1, b1),
            _ => Ordering::Equal,
        },
        DebugAction::SetPrepared { object_id: a0, prepared: a1 } => match b {
            DebugAction::SetPrepared { object_id: b0, prepared: b1 } => cmp_val2(a0, b0, a1, b1),
            _ => Ordering::Equal,
        },
        DebugAction::SetController { object_id: a0, controller: a1 } => match b {
            DebugAction::SetController { object_id: b0, controller: b1 } => {
                cmp_val2(a0, b0, a1, b1)
            },
            _ => Ordering::Equal,
        },
        DebugAction::SetSummoningSickness { object_id: a0, sick: a1 } => match b {
            DebugAction::SetSummoningSickness { object_id: b0, sick: b1 } => {
                cmp_val2(a0, b0, a1, b1)
            },
            _ => Ordering::Equal,
        },
        DebugAction::SetFaceState {
            object_id: a0,
            face_down: a1,
            transformed: a2,
            flipped: a3,
        } => match b {
            DebugAction::SetFaceState {
                object_id: b0,
                face_down: b1,
                transformed: b2,
                flipped: b3,
            } => {
                cmp_val4(a0, b0, a1, b1, a2, b2, a3, b3)
            },
            _ => Ordering::Equal,
        },
        DebugAction::Attach { object_id: a0, target: a1 } => match b {
            DebugAction::Attach { object_id: b0, target: b1 } => cmp_val2(a0, b0, a1, b1),
            _ => Ordering::Equal,
        },
        DebugAction::Detach { object_id: a0 } => match b {
            DebugAction::Detach { object_id: b0 } => cmp_val1(a0, b0),
            _ => Ordering::Equal,
        },
        DebugAction::GrantKeyword { object_id: a0, keyword: a1 } => match b {
            DebugAction::GrantKeyword { object_id: b0, keyword: b1 } => {
                cmp_val2(a0, b0, &a1.kind(), &b1.kind())
            },
            _ => Ordering::Equal,
        },
        DebugAction::RemoveKeyword { object_id: a0, keyword: a1 } => match b {
            DebugAction::RemoveKeyword { object_id: b0, keyword: b1 } => {
                cmp_val2(a0, b0, &a1.kind(), &b1.kind())
            },
            _ => Ordering::Equal,
        },
        DebugAction::SetLife { player_id: a0, life: a1 } => match b {
            DebugAction::SetLife { player_id: b0, life: b1 } => cmp_val2(a0, b0, a1, b1),
            _ => Ordering::Equal,
        },
        DebugAction::ModifyPlayerCounters {
            player_id: a0,
            counter_kind: a1,
            delta: a2,
        } => match b {
            DebugAction::ModifyPlayerCounters { player_id: b0, counter_kind: b1, delta: b2 } => {
                cmp_val3(a0, b0, a1, b1, a2, b2)
            },
            _ => Ordering::Equal,
        },
        DebugAction::ModifyEnergy { player_id: a0, delta: a1 } => match b {
            DebugAction::ModifyEnergy { player_id: b0, delta: b1 } => cmp_val2(a0, b0, a1, b1),
            _ => Ordering::Equal,
        },
        DebugAction::AddMana { player_id: a0, mana: a1 } => match b {
            DebugAction::AddMana { player_id: b0, mana: b1 } => cmp_val2(a0, b0, a1, b1),
            _ => Ordering::Equal,
        },
        DebugAction::SetInfiniteMana { player_id: a0, enabled: a1 } => match b {
            DebugAction::SetInfiniteMana { player_id: b0, enabled: b1 } => cmp_val2(a0, b0, a1, b1),
            _ => Ordering::Equal,
        },
        DebugAction::SetPhase { phase: a0, active_player: a1 } => match b {
            DebugAction::SetPhase { phase: b0, active_player: b1 } => cmp_val2(a0, b0, a1, b1),
            _ => Ordering::Equal,
        },
        DebugAction::RunStateBasedActions => Ordering::Equal,
        DebugAction::CreateToken { request: a0, run_etb: a1 } => match b {
            DebugAction::CreateToken { request: b0, run_etb: b1 } => cmp_val2(a0, b0, a1, b1),
            _ => Ordering::Equal,
        },
        DebugAction::CreateTokenCopy { source_id: a0, owner: a1 } => match b {
            DebugAction::CreateTokenCopy { source_id: b0, owner: b1 } => cmp_val2(a0, b0, a1, b1),
            _ => Ordering::Equal,
        },
    }
}

#[verifier::opaque]
pub open spec fn library_position_rank(p: LibraryPosition) -> int {
    match p {
        LibraryPosition::Top => 0,
        LibraryPosition::Bottom => 1,
        LibraryPosition::NthFromTop { .. } => 2,
        LibraryPosition::BeneathTop { .. } => 3,
    }
}

/// Only `NthFromTop` has a comparable field; two `BeneathTop` positions tie.
#[verifier::opaque]
pub open spec fn library_position_fields(p: LibraryPosition) -> Seq<Key> {
    match p {
        LibraryPosition::NthFromTop { n } => seq![n.key()],
        _ => seq![],
    }
}

impl StableOrd for LibraryPosition {
    open spec fn key(&self) -> Key {
        stable_ord::tagged(library_position_rank(*self), library_position_fields(*self))
    }

    fn stable_cmp(&self, other: &Self) -> (o: Ordering) {
        cmp_library_position(self, other)
    }
}

fn library_position_ordinal(p: &LibraryPosition) -> (r: u8)
    ensures
        r == library_position_rank(*p),
{
    proof {
        reveal(library_position_rank);
    }
    match p {
        LibraryPosition::Top => 0,
        LibraryPosition::Bottom => 1,
        LibraryPosition::NthFromTop { .. } => 2,
        LibraryPosition::BeneathTop { .. } => 3,
    }
}

fn cmp_library_position(a: &LibraryPosition, b: &LibraryPosition) -> (o: Ordering)
    ensures
        o == key::key_cmp(a.key(), b.key()),
{
    proof {
        reveal(library_position_rank);
        reveal(library_position_fields);
        stable_ord::lemma_tagged(
            library_position_rank(*a),
            library_position_fields(*a),
            library_position_rank(*b),
            library_position_fields(*b),
        );
    }
    match library_position_ordinal(a).stable_cmp(&library_position_ordinal(b)) {
        Ordering::Equal => match (a, b) {
            (LibraryPosition::NthFromTop { n: a0 }, LibraryPosition::NthFromTop { n: b0 }) => {
                cmp_val1(a0, b0)
            },
            _ => Ordering::Equal,
        },
        verdict => verdict,
    }
}

#[verifier::opaque]
pub open spec fn token_request_rank(r: DebugTokenRequest) -> int {
    match r {
        DebugTokenRequest::Preset { .. } => 0,
        DebugTokenRequest::Custom { .. } => 1,
    }
}

/// Owner first; of custom characteristics only the display name counts.
#[verifier::opaque]
pub open spec fn token_request_fields(r: DebugTokenRequest) -> Seq<Key> {
    match r {
        DebugTokenRequest::Preset {
            preset_id,
            owner,
            power_override,
            toughness_override,
            enter_with_counters,
        } => seq![
            owner.key(),
            preset_id.key(),
            power_override.key(),
            toughness_override.key(),
            enter_with_counters.key(),
        ],
        DebugTokenRequest::Custom { owner, characteristics, enter_with_counters } => seq![
            owner.key(),
            characteristics.display_name.key(),
            enter_with_counters.key(),
        ],
    }
}

impl StableOrd for DebugTokenRequest {
    open spec fn key(&self) -> Key {
        stable_ord::tagged(token_request_rank(*self), token_request_fields(*self))
    }

    fn stable_cmp(&self, other: &Self) -> (o: Ordering) {
        cmp_debug_token_request(self, other)
    }
}

fn token_request_ordinal(r: &DebugTokenRequest) -> (n: u8)
    ensures
        n == token_request_rank(*r),
{
    proof {
        reveal(token_request_rank);
    }
    match r {
        DebugTokenRequest::Preset { .. } => 0,
        DebugTokenRequest::Custom { .. } => 1,
    }
}

/// Order over token requests: presets before custom tokens, then by owner and
/// the comparable fields.
fn cmp_debug_token_request(a: &DebugTokenRequest, b: &DebugTokenRequest) -> (o: Ordering)
    ensures
        o == key::key_cmp(a.key(), b.key()),
{
    proof {
        reveal(token_request_rank);
        reveal(token_request_fields);
        stable_ord::lemma_tagged(
            token_request_rank(*a),
            token_request_fields(*a),
            token_request_rank(*b),
            token_request_fields(*b),
        );
    }
    match token_request_ordinal(a).stable_cmp(&token_request_ordinal(b)) {
        Ordering::Equal => match (a, b) {
            (
                DebugTokenRequest::Preset {
                    preset_id: a0,
                    owner: a1,
                    power_override: a2,
                    toughness_override: a3,
                    enter_with_counters: a4,
                },
                DebugTokenRequest::Preset {
                    preset_id: b0,
                    owner: b1,
                    power_override: b2,
                    toughness_override: b3,
                    enter_with_counters: b4,
                },
            ) => cmp_val5(a1, b1, a0, b0, a2, b2, a3, b3, a4, b4),
            (
                DebugTokenRequest::Custom {
                    owner: a0,
                    characteristics: a1,
                    enter_with_counters: a2,
                },
                DebugTokenRequest::Custom {
                    owner: b0,
                    characteristics: b1,
                    enter_with_counters: b2,
                },
            ) => cmp_val3(a0, b0, &a1.display_name, &b1.display_name, a2, b2),
            _ => Ordering::Equal,
        },
        verdict => verdict,
    }
}

/// An action compares equal to itself.
pub proof fn action_order_reflexive(a: GameAction)
    ensures
        key::key_cmp(action_key(a), action_key(a)) == Ordering::Equal,
{
    key::key_cmp_reflexive(action_key(a));
}

/// Swapping two actions reverses the verdict.
pub proof fn action_order_antisymmetric(a: GameAction, b: GameAction)
    ensures
        key::key_cmp(action_key(b), action_key(a)) == key::reverse_cmp(
            key::key_cmp(action_key(a), action_key(b)),
        ),
{
    key::key_cmp_antisymmetric(action_key(a), action_key(b));
}

/// The order is transitive: an action not after `b` comes not after anything
/// that `b` comes not after, and strictly before it if either step is strict.
pub proof fn action_order_transitive(a: GameAction, b: GameAction, c: GameAction)
    requires
        key::key_cmp(action_key(a), action_key(b)) != Ordering::Greater,
        key::key_cmp(action_key(b), action_key(c)) != Ordering::Greater,
    ensures
        key::key_cmp(action_key(a), action_key(c)) != Ordering::Greater,
        key::key_cmp(action_key(a), action_key(c)) == Ordering::Equal ==> (key::key_cmp(
            action_key(a),
            action_key(b),
        ) == Ordering::Equal && key::key_cmp(action_key(b), action_key(c)) == Ordering::Equal),
{
    key::key_cmp_equal(action_key(a), action_key(b));
    key::key_cmp_equal(action_key(b), action_key(c));
    if key::key_cmp(action_key(a), action_key(b)) == Ordering::Less && key::key_cmp(
        action_key(b),
        action_key(c),
    ) == Ordering::Less {
        key::key_cmp_transitive(action_key(a), action_key(b), action_key(c));
    }
}

/// Actions of different kinds are ordered by kind, whatever they carry.
pub proof fn action_order_kind_first(a: GameAction, b: GameAction)
    requires
        a.kind_of() != b.kind_of(),
    ensures
        key::key_cmp(action_key(a), action_key(b)) == key::number_cmp(
            a.kind_of().rank(),
            b.kind_of().rank(),
        ),
        key::key_cmp(action_key(a), action_key(b)) != Ordering::Equal,
{
    key::key_cmp_numbers(a.kind_of().rank(), b.kind_of().rank());
    if a.kind_of().rank() == b.kind_of().rank() {
        actions::kind_rank_injective(a.kind_of(), b.kind_of());
    }
    stable_ord::lemma_tagged(
        a.kind_of().rank(),
        action_fields(a),
        b.kind_of().rank(),
        action_fields(b),
    );
}

/// Two actions tie only if they are of one kind and agree in every compared
/// field.
pub proof fn action_order_ties(a: GameAction, b: GameAction)
    ensures
        key::key_cmp(action_key(a), action_key(b)) == Ordering::Equal <==> (a.kind_of()
            == b.kind_of() && action_fields(a) == action_fields(b)),
{
    stable_ord::lemma_tagged(
        a.kind_of().rank(),
        action_fields(a),
        b.kind_of().rank(),
        action_fields(b),
    );
    key::list_cmp_equal(action_fields(a), action_fields(b));
    if a.kind_of().rank() == b.kind_of().rank() {
        actions::kind_rank_injective(a.kind_of(), b.kind_of());
    }
}

/// A debug action compares equal to itself.
pub proof fn debug_order_reflexive(a: DebugAction)
    ensures
        key::key_cmp(debug_action_key(a), debug_action_key(a)) == Ordering::Equal,
{
    key::key_cmp_reflexive(debug_action_key(a));
}

/// Swapping two debug actions reverses the verdict.
pub proof fn debug_order_antisymmetric(a: DebugAction, b: DebugAction)
    ensures
        key::key_cmp(debug_action_key(b), debug_action_key(a)) == key::reverse_cmp(
            key::key_cmp(debug_action_key(a), debug_action_key(b)),
        ),
{
    key::key_cmp_antisymmetric(debug_action_key(a), debug_action_key(b));
}

/// The order of debug actions is transitive, and strict if either step is strict.
pub proof fn debug_order_transitive(a: DebugAction, b: DebugAction, c: DebugAction)
    requires
        key::key_cmp(debug_action_key(a), debug_action_key(b)) != Ordering::Greater,
        key::key_cmp(debug_action_key(b), debug_action_key(c)) != Ordering::Greater,
    ensures
        key::key_cmp(debug_action_key(a), debug_action_key(c)) != Ordering::Greater,
        key::key_cmp(debug_action_key(a), debug_action_key(c)) == Ordering::Equal ==> (
        key::key_cmp(debug_action_key(a), debug_action_key(b)) == Ordering::Equal && key::key_cmp(
            debug_action_key(b),
            debug_action_key(c),
        ) == Ordering::Equal),
{
    key::key_cmp_equal(debug_action_key(a), debug_action_key(b));
    key::key_cmp_equal(debug_action_key(b), debug_action_key(c));
    if key::key_cmp(debug_action_key(a), debug_action_key(b)) == Ordering::Less && key::key_cmp(
        debug_action_key(b),
        debug_action_key(c),
    ) == Ordering::Less {
        key::key_cmp_transitive(debug_action_key(a), debug_action_key(b), debug_action_key(c));
    }
}

} // verus!
