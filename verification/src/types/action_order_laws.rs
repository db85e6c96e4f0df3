//! What the stable order says of two actions, stated of the actions themselves.
use std::cmp::Ordering;
use vstd::prelude::*;

use crate::order::key;
use crate::order::natural;
use crate::order::natural::Natural;
use crate::order::stable_ord;
use crate::order::stable_ord::StableOrd;
use crate::types::action_stable_order;
use crate::types::actions::{DebugAction, DebugTokenRequest, GameAction, LibraryPosition};
use crate::types::payload_order_laws;

verus! {

broadcast use key::key_cmp_numbers;

/// Where the variant of an action is declared.
#[verifier::opaque]
pub open spec fn declared_place(a: GameAction) -> int {
    match a {
        GameAction::PassPriority => 0,
        GameAction::PlayLand { .. } => 1,
        GameAction::CastSpell { .. } => 2,
        GameAction::Foretell { .. } => 3,
        GameAction::ActivateAbility { .. } => 4,
        GameAction::DeclareAttackers { .. } => 5,
        GameAction::DeclareBlockers { .. } => 6,
        GameAction::ChooseUntap { .. } => 7,
        GameAction::ChooseExert { .. } => 8,
        GameAction::ChooseEnlist { .. } => 9,
        GameAction::ChooseClashOpponent { .. } => 10,
        GameAction::ChooseAssistPlayer { .. } => 11,
        GameAction::CommitAssistPayment { .. } => 12,
        GameAction::MulliganDecision { .. } => 13,
        GameAction::ReorderHand { .. } => 14,
        GameAction::TapLandForMana { .. } => 15,
        GameAction::UntapLandForMana { .. } => 16,
        GameAction::SpendPoolMana { .. } => 17,
        GameAction::UnspendPoolMana { .. } => 18,
        GameAction::SelectCards { .. } => 19,
        GameAction::ChooseRemoveCounterCostDistribution { .. } => 20,
        GameAction::SelectCoinFlips { .. } => 21,
        GameAction::ChooseOutsideGameCards { .. } => 22,
        GameAction::SelectTargets { .. } => 23,
        GameAction::ChooseTarget { .. } => 24,
        GameAction::ChooseReplacement { .. } => 25,
        GameAction::OrderTriggers { .. } => 26,
        GameAction::CancelCast => 27,
        GameAction::Equip { .. } => 28,
        GameAction::CrewVehicle { .. } => 29,
        GameAction::ActivateStation { .. } => 30,
        GameAction::SaddleMount { .. } => 31,
        GameAction::Transform { .. } => 32,
        GameAction::PlayFaceDown { .. } => 33,
        GameAction::TurnFaceUp { .. } => 34,
        GameAction::SubmitSideboard { .. } => 35,
        GameAction::ChoosePlayDraw { .. } => 36,
        GameAction::ChooseOption { .. } => 37,
        GameAction::SubmitVoteCandidate { .. } => 38,
        GameAction::SubmitSpellbookDraft { .. } => 39,
        GameAction::SubmitPilePartition { .. } => 40,
        GameAction::ChoosePile { .. } => 41,
        GameAction::ChooseBranch { .. } => 42,
        GameAction::ChooseDamageSource { .. } => 43,
        GameAction::SelectModes { .. } => 44,
        GameAction::DecideOptionalCost { .. } => 45,
        GameAction::ChooseAdventureFace { .. } => 46,
        GameAction::ChooseModalFace { .. } => 47,
        GameAction::ChooseAlternativeCast { .. } => 48,
        GameAction::ChooseCastingVariant { .. } => 49,
        GameAction::KeepAllCopyTargets => 50,
        GameAction::ChoosePermanentTypeSlot { .. } => 51,
        GameAction::ActivateNinjutsu { .. } => 52,
        GameAction::CastSpellAsSneak { .. } => 53,
        GameAction::CastSpellAsWebSlinging { .. } => 54,
        GameAction::CastSpellForFree { .. } => 55,
        GameAction::CastSpellAsMiracle { .. } => 56,
        GameAction::CastSpellAsMadness { .. } => 57,
        GameAction::DecideOptionalEffect { .. } => 58,
        GameAction::RespondToSpliceOffer { .. } => 59,
        GameAction::DecideOptionalEffectAndRemember { .. } => 60,
        GameAction::PayUnlessCost { .. } => 61,
        GameAction::ChooseUnlessCostBranch { .. } => 62,
        GameAction::ChooseActivationCostBranch { .. } => 63,
        GameAction::PayCombatTax { .. } => 64,
        GameAction::ChooseRingBearer { .. } => 65,
        GameAction::ChoosePair { .. } => 66,
        GameAction::ChooseDungeon { .. } => 67,
        GameAction::ChooseDungeonRoom { .. } => 68,
        GameAction::UnlockRoomDoor { .. } => 69,
        GameAction::RollPlanarDie => 70,
        GameAction::ChooseRoomDoor { .. } => 71,
        GameAction::TapForConvoke { .. } => 72,
        GameAction::HarmonizeTap { .. } => 73,
        GameAction::DeclareCompanion { .. } => 74,
        GameAction::CompanionToHand => 75,
        GameAction::DiscoverChoice { .. } => 76,
        GameAction::GraveyardPaidCastChoice { .. } => 77,
        GameAction::CascadeChoice { .. } => 78,
        GameAction::RippleChoice { .. } => 79,
        GameAction::FreeCastWindowChoice { .. } => 80,
        GameAction::ChooseTopOrBottom { .. } => 81,
        GameAction::ChooseMutateMergeSide { .. } => 82,
        GameAction::CipherEncode { .. } => 83,
        GameAction::ChooseLegend { .. } => 84,
        GameAction::ChooseBattleProtector { .. } => 85,
        GameAction::SetAutoPass { .. } => 86,
        GameAction::CancelAutoPass => 87,
        GameAction::SetPhaseStops { .. } => 88,
        GameAction::SetPriorityYield { .. } => 89,
        GameAction::AssignCombatDamage { .. } => 90,
        GameAction::AssignBlockerDamage { .. } => 91,
        GameAction::DistributeAmong { .. } => 92,
        GameAction::ChooseCounterMoveDistribution { .. } => 93,
        GameAction::ChooseCountersToRemove { .. } => 94,
        GameAction::SubmitPayAmount { .. } => 95,
        GameAction::RetargetSpell { .. } => 96,
        GameAction::LearnDecision { .. } => 97,
        GameAction::SelectCategoryPermanents { .. } => 98,
        GameAction::ChooseKeptCreatures { .. } => 99,
        GameAction::ChooseX { .. } => 100,
        GameAction::SubmitPhyrexianChoices { .. } => 101,
        GameAction::ChooseManaColor { .. } => 102,
        GameAction::PayManaAbilityMana { .. } => 103,
        GameAction::CastPreparedCopy { .. } => 104,
        GameAction::ChooseSpecializeColor { .. } => 105,
        GameAction::CastParadigmCopy { .. } => 106,
        GameAction::PassParadigmOffer => 107,
        GameAction::Debug(_) => 108,
        GameAction::GrantDebugPermission { .. } => 109,
        GameAction::RevokeDebugPermission { .. } => 110,
        GameAction::Concede { .. } => 111,
        GameAction::SubmitLifeAuctionBid { .. } => 112,
        GameAction::PassLifeAuction => 113,
        GameAction::ChooseGiftRecipient { .. } => 114,
    }
}

/// The rank of an action's kind is where its variant is declared.
pub proof fn lemma_declared_place(a: GameAction)
    ensures
        a.kind_of().rank() == declared_place(a),
{
    reveal(declared_place);
    reveal(GameAction::kind_of);
    reveal(crate::types::actions::GameActionKind::rank);
}

/// The action is one for casting a spell or playing a land.
pub open spec fn is_casting(a: GameAction) -> bool {
    match a {
        GameAction::PlayLand { .. }
        | GameAction::CastSpell { .. }
        | GameAction::Foretell { .. }
        | GameAction::PlayFaceDown { .. }
        | GameAction::CastSpellAsSneak { .. }
        | GameAction::CastSpellAsWebSlinging { .. }
        | GameAction::CastSpellForFree { .. }
        | GameAction::CastSpellAsMiracle { .. }
        | GameAction::CastSpellAsMadness { .. }
        | GameAction::CastPreparedCopy { .. }
        | GameAction::CastParadigmCopy { .. }
        | GameAction::ChooseAlternativeCast { .. }
        | GameAction::ChooseCastingVariant { .. } => true,
        _ => false,
    }
}

/// Two actions for casting a spell or playing a land are of one kind and carry the same.
pub open spec fn same_casting(a: GameAction, b: GameAction) -> bool {
    match (a, b) {
        (
            GameAction::PlayLand { object_id: a0, card_id: a1 },
            GameAction::PlayLand { object_id: b0, card_id: b1 },
        ) => a0.same(&b0) && a1.same(&b1),
        (
            GameAction::CastSpell { object_id: a0, card_id: a1, targets: a2, payment_mode: a3 },
            GameAction::CastSpell { object_id: b0, card_id: b1, targets: b2, payment_mode: b3 },
        ) => a0.same(&b0) && a1.same(&b1) && a2.same(&b2) && a3.same(&b3),
        (
            GameAction::Foretell { object_id: a0, card_id: a1 },
            GameAction::Foretell { object_id: b0, card_id: b1 },
        ) => a0.same(&b0) && a1.same(&b1),
        (
            GameAction::PlayFaceDown { object_id: a0, card_id: a1 },
            GameAction::PlayFaceDown { object_id: b0, card_id: b1 },
        ) => a0.same(&b0) && a1.same(&b1),
        (
            GameAction::CastSpellAsSneak {
                hand_object: a0,
                card_id: a1,
                creature_to_return: a2,
                payment_mode: a3,
            },
            GameAction::CastSpellAsSneak {
                hand_object: b0,
                card_id: b1,
                creature_to_return: b2,
                payment_mode: b3,
            },
        ) => a0.same(&b0) && a1.same(&b1) && a2.same(&b2) && a3.same(&b3),
        (
            GameAction::CastSpellAsWebSlinging {
                hand_object: a0,
                card_id: a1,
                creature_to_return: a2,
                payment_mode: a3,
            },
            GameAction::CastSpellAsWebSlinging {
                hand_object: b0,
                card_id: b1,
                creature_to_return: b2,
                payment_mode: b3,
            },
        ) => a0.same(&b0) && a1.same(&b1) && a2.same(&b2) && a3.same(&b3),
        (
            GameAction::CastSpellForFree {
                object_id: a0,
                card_id: a1,
                source_id: a2,
                payment_mode: a3,
            },
            GameAction::CastSpellForFree {
                object_id: b0,
                card_id: b1,
                source_id: b2,
                payment_mode: b3,
            },
        ) => a0.same(&b0) && a1.same(&b1) && a2.same(&b2) && a3.same(&b3),
        (
            GameAction::CastSpellAsMiracle { object_id: a0, card_id: a1, payment_mode: a2 },
            GameAction::CastSpellAsMiracle { object_id: b0, card_id: b1, payment_mode: b2 },
        ) => a0.same(&b0) && a1.same(&b1) && a2.same(&b2),
        (
            GameAction::CastSpellAsMadness { object_id: a0, card_id: a1, payment_mode: a2 },
            GameAction::CastSpellAsMadness { object_id: b0, card_id: b1, payment_mode: b2 },
        ) => a0.same(&b0) && a1.same(&b1) && a2.same(&b2),
        (
            GameAction::CastPreparedCopy { source: a0 },
            GameAction::CastPreparedCopy { source: b0 },
        ) => a0.same(&b0),
        (
            GameAction::CastParadigmCopy { source: a0 },
            GameAction::CastParadigmCopy { source: b0 },
        ) => a0.same(&b0),
        (
            GameAction::ChooseAlternativeCast { choice: a0 },
            GameAction::ChooseAlternativeCast { choice: b0 },
        ) => a0.same(&b0),
        (
            GameAction::ChooseCastingVariant { index: a0 },
            GameAction::ChooseCastingVariant { index: b0 },
        ) => a0.same(&b0),
        _ => false,
    }
}

/// Of two actions of one kind for casting a spell or playing a land, the first comes before the
/// second by the first declared field
/// in which they differ.
pub open spec fn casting_precedes(a: GameAction, b: GameAction) -> bool {
    match (a, b) {
        (
            GameAction::PlayLand { object_id: a0, card_id: a1 },
            GameAction::PlayLand { object_id: b0, card_id: b1 },
        ) => a0.precedes(&b0) || (a0.same(&b0) && (a1.precedes(&b1))),
        (
            GameAction::CastSpell { object_id: a0, card_id: a1, targets: a2, payment_mode: a3 },
            GameAction::CastSpell { object_id: b0, card_id: b1, targets: b2, payment_mode: b3 },
        ) => a0.precedes(&b0) || (a0.same(&b0) && (a1.precedes(&b1) || (a1.same(&b1)
            && (a2.precedes(&b2) || (a2.same(&b2) && (a3.precedes(&b3))))))),
        (
            GameAction::Foretell { object_id: a0, card_id: a1 },
            GameAction::Foretell { object_id: b0, card_id: b1 },
        ) => a0.precedes(&b0) || (a0.same(&b0) && (a1.precedes(&b1))),
        (
            GameAction::PlayFaceDown { object_id: a0, card_id: a1 },
            GameAction::PlayFaceDown { object_id: b0, card_id: b1 },
        ) => a0.precedes(&b0) || (a0.same(&b0) && (a1.precedes(&b1))),
        (
            GameAction::CastSpellAsSneak {
                hand_object: a0,
                card_id: a1,
                creature_to_return: a2,
                payment_mode: a3,
            },
            GameAction::CastSpellAsSneak {
                hand_object: b0,
                card_id: b1,
                creature_to_return: b2,
                payment_mode: b3,
            },
        ) => a0.precedes(&b0) || (a0.same(&b0) && (a1.precedes(&b1) || (a1.same(&b1)
            && (a2.precedes(&b2) || (a2.same(&b2) && (a3.precedes(&b3))))))),
        (
            GameAction::CastSpellAsWebSlinging {
                hand_object: a0,
                card_id: a1,
                creature_to_return: a2,
                payment_mode: a3,
            },
            GameAction::CastSpellAsWebSlinging {
                hand_object: b0,
                card_id: b1,
                creature_to_return: b2,
                payment_mode: b3,
            },
        ) => a0.precedes(&b0) || (a0.same(&b0) && (a1.precedes(&b1) || (a1.same(&b1)
            && (a2.precedes(&b2) || (a2.same(&b2) && (a3.precedes(&b3))))))),
        (
            GameAction::CastSpellForFree {
                object_id: a0,
                card_id: a1,
                source_id: a2,
                payment_mode: a3,
            },
            GameAction::CastSpellForFree {
                object_id: b0,
                card_id: b1,
                source_id: b2,
                payment_mode: b3,
            },
        ) => a0.precedes(&b0) || (a0.same(&b0) && (a1.precedes(&b1) || (a1.same(&b1)
            && (a2.precedes(&b2) || (a2.same(&b2) && (a3.precedes(&b3))))))),
        (
            GameAction::CastSpellAsMiracle { object_id: a0, card_id: a1, payment_mode: a2 },
            GameAction::CastSpellAsMiracle { object_id: b0, card_id: b1, payment_mode: b2 },
        ) => a0.precedes(&b0) || (a0.same(&b0) && (a1.precedes(&b1) || (a1.same(&b1)
            && (a2.precedes(&b2))))),
        (
            GameAction::CastSpellAsMadness { object_id: a0, card_id: a1, payment_mode: a2 },
            GameAction::CastSpellAsMadness { object_id: b0, card_id: b1, payment_mode: b2 },
        ) => a0.precedes(&b0) || (a0.same(&b0) && (a1.precedes(&b1) || (a1.same(&b1)
            && (a2.precedes(&b2))))),
        (
            GameAction::CastPreparedCopy { source: a0 },
            GameAction::CastPreparedCopy { source: b0 },
        ) => a0.precedes(&b0),
        (
            GameAction::CastParadigmCopy { source: a0 },
            GameAction::CastParadigmCopy { source: b0 },
        ) => a0.precedes(&b0),
        (
            GameAction::ChooseAlternativeCast { choice: a0 },
            GameAction::ChooseAlternativeCast { choice: b0 },
        ) => a0.precedes(&b0),
        (
            GameAction::ChooseCastingVariant { index: a0 },
            GameAction::ChooseCastingVariant { index: b0 },
        ) => a0.precedes(&b0),
        _ => false,
    }
}

proof fn lemma_casting(a: GameAction, b: GameAction)
    requires
        is_casting(a),
        declared_place(a) == declared_place(b),
    ensures
        key::list_cmp(
            action_stable_order::action_fields(a),
            action_stable_order::action_fields(b),
        ) == natural::verdict(same_casting(a, b), casting_precedes(a, b)),
        !(same_casting(a, b) && casting_precedes(a, b)),
{
    reveal(declared_place);
    reveal(action_stable_order::action_fields);
    reveal(action_stable_order::casting_fields);
    match (a, b) {
        (
            GameAction::PlayLand { object_id: a0, card_id: a1 },
            GameAction::PlayLand { object_id: b0, card_id: b1 },
        ) => {
            natural::lemma_fields2(a0, b0, a1, b1);
        },
        (
            GameAction::CastSpell { object_id: a0, card_id: a1, targets: a2, payment_mode: a3 },
            GameAction::CastSpell { object_id: b0, card_id: b1, targets: b2, payment_mode: b3 },
        ) => {
            natural::lemma_fields4(a0, b0, a1, b1, a2, b2, a3, b3);
        },
        (
            GameAction::Foretell { object_id: a0, card_id: a1 },
            GameAction::Foretell { object_id: b0, card_id: b1 },
        ) => {
            natural::lemma_fields2(a0, b0, a1, b1);
        },
        (
            GameAction::PlayFaceDown { object_id: a0, card_id: a1 },
            GameAction::PlayFaceDown { object_id: b0, card_id: b1 },
        ) => {
            natural::lemma_fields2(a0, b0, a1, b1);
        },
        (
            GameAction::CastSpellAsSneak {
                hand_object: a0,
                card_id: a1,
                creature_to_return: a2,
                payment_mode: a3,
            },
            GameAction::CastSpellAsSneak {
                hand_object: b0,
                card_id: b1,
                creature_to_return: b2,
                payment_mode: b3,
            },
        ) => {
            natural::lemma_fields4(a0, b0, a1, b1, a2, b2, a3, b3);
        },
        (
            GameAction::CastSpellAsWebSlinging {
                hand_object: a0,
                card_id: a1,
                creature_to_return: a2,
                payment_mode: a3,
            },
            GameAction::CastSpellAsWebSlinging {
                hand_object: b0,
                card_id: b1,
                creature_to_return: b2,
                payment_mode: b3,
            },
        ) => {
            natural::lemma_fields4(a0, b0, a1, b1, a2, b2, a3, b3);
        },
        (
            GameAction::CastSpellForFree {
                object_id: a0,
                card_id: a1,
                source_id: a2,
                payment_mode: a3,
            },
            GameAction::CastSpellForFree {
                object_id: b0,
                card_id: b1,
                source_id: b2,
                payment_mode: b3,
            },
        ) => {
            natural::lemma_fields4(a0, b0, a1, b1, a2, b2, a3, b3);
        },
        (
            GameAction::CastSpellAsMiracle { object_id: a0, card_id: a1, payment_mode: a2 },
            GameAction::CastSpellAsMiracle { object_id: b0, card_id: b1, payment_mode: b2 },
        ) => {
            natural::lemma_fields3(a0, b0, a1, b1, a2, b2);
        },
        (
            GameAction::CastSpellAsMadness { object_id: a0, card_id: a1, payment_mode: a2 },
            GameAction::CastSpellAsMadness { object_id: b0, card_id: b1, payment_mode: b2 },
        ) => {
            natural::lemma_fields3(a0, b0, a1, b1, a2, b2);
        },
        (
            GameAction::CastPreparedCopy { source: a0 },
            GameAction::CastPreparedCopy { source: b0 },
        ) => {
            natural::lemma_fields1(a0, b0);
        },
        (
            GameAction::CastParadigmCopy { source: a0 },
            GameAction::CastParadigmCopy { source: b0 },
        ) => {
            natural::lemma_fields1(a0, b0);
        },
        (
            GameAction::ChooseAlternativeCast { choice: a0 },
            GameAction::ChooseAlternativeCast { choice: b0 },
        ) => {
            natural::lemma_fields1(a0, b0);
        },
        (
            GameAction::ChooseCastingVariant { index: a0 },
            GameAction::ChooseCastingVariant { index: b0 },
        ) => {
            natural::lemma_fields1(a0, b0);
        },
        _ => {
        },
    }
}

/// The action is one for choosing a face or answering an offer.
pub open spec fn is_face_and_offer(a: GameAction) -> bool {
    match a {
        GameAction::ChooseAdventureFace { .. }
        | GameAction::ChooseModalFace { .. }
        | GameAction::RespondToSpliceOffer { .. }
        | GameAction::DiscoverChoice { .. }
        | GameAction::GraveyardPaidCastChoice { .. }
        | GameAction::CascadeChoice { .. }
        | GameAction::RippleChoice { .. }
        | GameAction::FreeCastWindowChoice { .. }
        | GameAction::ChooseX { .. }
        | GameAction::ChooseSpecializeColor { .. }
        | GameAction::CipherEncode { .. }
        | GameAction::ChooseMutateMergeSide { .. } => true,
        _ => false,
    }
}

/// Two actions for choosing a face or answering an offer are of one kind and carry the same.
pub open spec fn same_face_and_offer(a: GameAction, b: GameAction) -> bool {
    match (a, b) {
        (
            GameAction::ChooseAdventureFace { creature: a0 },
            GameAction::ChooseAdventureFace { creature: b0 },
        ) => a0.same(&b0),
        (
            GameAction::ChooseModalFace { back_face: a0 },
            GameAction::ChooseModalFace { back_face: b0 },
        ) => a0.same(&b0),
        (
            GameAction::RespondToSpliceOffer { card: a0 },
            GameAction::RespondToSpliceOffer { card: b0 },
        ) => a0.same(&b0),
        (
            GameAction::DiscoverChoice { choice: a0 },
            GameAction::DiscoverChoice { choice: b0 },
        ) => a0.same(&b0),
        (
            GameAction::GraveyardPaidCastChoice { choice: a0 },
            GameAction::GraveyardPaidCastChoice { choice: b0 },
        ) => a0.same(&b0),
        (
            GameAction::CascadeChoice { choice: a0 },
            GameAction::CascadeChoice { choice: b0 },
        ) => a0.same(&b0),
        (
            GameAction::RippleChoice { choice: a0 },
            GameAction::RippleChoice { choice: b0 },
        ) => a0.same(&b0),
        (
            GameAction::FreeCastWindowChoice { selection: a0 },
            GameAction::FreeCastWindowChoice { selection: b0 },
        ) => a0.same(&b0),
        (GameAction::ChooseX { value: a0 }, GameAction::ChooseX { value: b0 }) => a0.same(&b0),
        (
            GameAction::ChooseSpecializeColor { color: a0 },
            GameAction::ChooseSpecializeColor { color: b0 },
        ) => a0.same(&b0),
        (
            GameAction::CipherEncode { creature: a0 },
            GameAction::CipherEncode { creature: b0 },
        ) => a0.same(&b0),
        (
            GameAction::ChooseMutateMergeSide { side: a0 },
            GameAction::ChooseMutateMergeSide { side: b0 },
        ) => a0.same(&b0),
        _ => false,
    }
}

/// Of two actions of one kind for choosing a face or answering an offer, the first comes before the
/// second by the first declared field
/// in which they differ.
pub open spec fn face_and_offer_precedes(a: GameAction, b: GameAction) -> bool {
    match (a, b) {
        (
            GameAction::ChooseAdventureFace { creature: a0 },
            GameAction::ChooseAdventureFace { creature: b0 },
        ) => a0.precedes(&b0),
        (
            GameAction::ChooseModalFace { back_face: a0 },
            GameAction::ChooseModalFace { back_face: b0 },
        ) => a0.precedes(&b0),
        (
            GameAction::RespondToSpliceOffer { card: a0 },
            GameAction::RespondToSpliceOffer { card: b0 },
        ) => a0.precedes(&b0),
        (
            GameAction::DiscoverChoice { choice: a0 },
            GameAction::DiscoverChoice { choice: b0 },
        ) => a0.precedes(&b0),
        (
            GameAction::GraveyardPaidCastChoice { choice: a0 },
            GameAction::GraveyardPaidCastChoice { choice: b0 },
        ) => a0.precedes(&b0),
        (
            GameAction::CascadeChoice { choice: a0 },
            GameAction::CascadeChoice { choice: b0 },
        ) => a0.precedes(&b0),
        (
            GameAction::RippleChoice { choice: a0 },
            GameAction::RippleChoice { choice: b0 },
        ) => a0.precedes(&b0),
        (
            GameAction::FreeCastWindowChoice { selection: a0 },
            GameAction::FreeCastWindowChoice { selection: b0 },
        ) => a0.precedes(&b0),
        (GameAction::ChooseX { value: a0 }, GameAction::ChooseX { value: b0 }) => a0.precedes(&b0),
        (
            GameAction::ChooseSpecializeColor { color: a0 },
            GameAction::ChooseSpecializeColor { color: b0 },
        ) => a0.precedes(&b0),
        (
            GameAction::CipherEncode { creature: a0 },
            GameAction::CipherEncode { creature: b0 },
        ) => a0.precedes(&b0),
        (
            GameAction::ChooseMutateMergeSide { side: a0 },
            GameAction::ChooseMutateMergeSide { side: b0 },
        ) => a0.precedes(&b0),
        _ => false,
    }
}

proof fn lemma_face_and_offer(a: GameAction, b: GameAction)
    requires
        is_face_and_offer(a),
        declared_place(a) == declared_place(b),
    ensures
        key::list_cmp(
            action_stable_order::action_fields(a),
            action_stable_order::action_fields(b),
        ) == natural::verdict(same_face_and_offer(a, b), face_and_offer_precedes(a, b)),
        !(same_face_and_offer(a, b) && face_and_offer_precedes(a, b)),
{
    reveal(declared_place);
    reveal(action_stable_order::action_fields);
    reveal(action_stable_order::face_and_offer_fields);
    match (a, b) {
        (
            GameAction::ChooseAdventureFace { creature: a0 },
            GameAction::ChooseAdventureFace { creature: b0 },
        ) => {
            natural::lemma_fields1(a0, b0);
        },
        (
            GameAction::ChooseModalFace { back_face: a0 },
            GameAction::ChooseModalFace { back_face: b0 },
        ) => {
            natural::lemma_fields1(a0, b0);
        },
        (
            GameAction::RespondToSpliceOffer { card: a0 },
            GameAction::RespondToSpliceOffer { card: b0 },
        ) => {
            natural::lemma_fields1(a0, b0);
        },
        (GameAction::DiscoverChoice { choice: a0 }, GameAction::DiscoverChoice { choice: b0 }) => {
            natural::lemma_fields1(a0, b0);
        },
        (
            GameAction::GraveyardPaidCastChoice { choice: a0 },
            GameAction::GraveyardPaidCastChoice { choice: b0 },
        ) => {
            natural::lemma_fields1(a0, b0);
        },
        (GameAction::CascadeChoice { choice: a0 }, GameAction::CascadeChoice { choice: b0 }) => {
            natural::lemma_fields1(a0, b0);
        },
        (GameAction::RippleChoice { choice: a0 }, GameAction::RippleChoice { choice: b0 }) => {
            natural::lemma_fields1(a0, b0);
        },
        (
            GameAction::FreeCastWindowChoice { selection: a0 },
            GameAction::FreeCastWindowChoice { selection: b0 },
        ) => {
            natural::lemma_fields1(a0, b0);
        },
        (GameAction::ChooseX { value: a0 }, GameAction::ChooseX { value: b0 }) => {
            natural::lemma_fields1(a0, b0);
        },
        (
            GameAction::ChooseSpecializeColor { color: a0 },
            GameAction::ChooseSpecializeColor { color: b0 },
        ) => {
            natural::lemma_fields1(a0, b0);
        },
        (GameAction::CipherEncode { creature: a0 }, GameAction::CipherEncode { creature: b0 }) => {
            natural::lemma_fields1(a0, b0);
        },
        (
            GameAction::ChooseMutateMergeSide { side: a0 },
            GameAction::ChooseMutateMergeSide { side: b0 },
        ) => {
            natural::lemma_fields1(a0, b0);
        },
        _ => {
        },
    }
}

/// The action is one for paying costs.
pub open spec fn is_mana(a: GameAction) -> bool {
    match a {
        GameAction::TapLandForMana { .. }
        | GameAction::UntapLandForMana { .. }
        | GameAction::SpendPoolMana { .. }
        | GameAction::UnspendPoolMana { .. }
        | GameAction::CommitAssistPayment { .. }
        | GameAction::TapForConvoke { .. }
        | GameAction::HarmonizeTap { .. }
        | GameAction::SubmitPhyrexianChoices { .. }
        | GameAction::ChooseManaColor { .. }
        | GameAction::PayManaAbilityMana { .. }
        | GameAction::SubmitPayAmount { .. }
        | GameAction::ChooseAssistPlayer { .. } => true,
        _ => false,
    }
}

/// Two actions for paying costs are of one kind and carry the same.
pub open spec fn same_mana(a: GameAction, b: GameAction) -> bool {
    match (a, b) {
        (
            GameAction::TapLandForMana { object_id: a0 },
            GameAction::TapLandForMana { object_id: b0 },
        ) => a0.same(&b0),
        (
            GameAction::UntapLandForMana { object_id: a0 },
            GameAction::UntapLandForMana { object_id: b0 },
        ) => a0.same(&b0),
        (
            GameAction::SpendPoolMana { pip_id: a0 },
            GameAction::SpendPoolMana { pip_id: b0 },
        ) => a0.same(&b0),
        (
            GameAction::UnspendPoolMana { pip_id: a0 },
            GameAction::UnspendPoolMana { pip_id: b0 },
        ) => a0.same(&b0),
        (
            GameAction::CommitAssistPayment { generic: a0 },
            GameAction::CommitAssistPayment { generic: b0 },
        ) => a0.same(&b0),
        (
            GameAction::TapForConvoke { object_id: a0, mana_type: a1 },
            GameAction::TapForConvoke { object_id: b0, mana_type: b1 },
        ) => a0.same(&b0) && a1.same(&b1),
        (
            GameAction::HarmonizeTap { creature_id: a0 },
            GameAction::HarmonizeTap { creature_id: b0 },
        ) => a0.same(&b0),
        (
            GameAction::SubmitPhyrexianChoices { choices: a0 },
            GameAction::SubmitPhyrexianChoices { choices: b0 },
        ) => a0.same(&b0),
        (
            GameAction::ChooseManaColor { choice: a0, count: a1 },
            GameAction::ChooseManaColor { choice: b0, count: b1 },
        ) => a0.same(&b0) && a1.same(&b1),
        (
            GameAction::PayManaAbilityMana { payment: a0 },
            GameAction::PayManaAbilityMana { payment: b0 },
        ) => a0.same(&b0),
        (
            GameAction::SubmitPayAmount { amount: a0 },
            GameAction::SubmitPayAmount { amount: b0 },
        ) => a0.same(&b0),
        (
            GameAction::ChooseAssistPlayer { player: a0 },
            GameAction::ChooseAssistPlayer { player: b0 },
        ) => a0.same(&b0),
        _ => false,
    }
}

/// Of two actions of one kind for paying costs, the first comes before the second by the first
/// declared field
/// in which they differ.
pub open spec fn mana_precedes(a: GameAction, b: GameAction) -> bool {
    match (a, b) {
        (
            GameAction::TapLandForMana { object_id: a0 },
            GameAction::TapLandForMana { object_id: b0 },
        ) => a0.precedes(&b0),
        (
            GameAction::UntapLandForMana { object_id: a0 },
            GameAction::UntapLandForMana { object_id: b0 },
        ) => a0.precedes(&b0),
        (
            GameAction::SpendPoolMana { pip_id: a0 },
            GameAction::SpendPoolMana { pip_id: b0 },
        ) => a0.precedes(&b0),
        (
            GameAction::UnspendPoolMana { pip_id: a0 },
            GameAction::UnspendPoolMana { pip_id: b0 },
        ) => a0.precedes(&b0),
        (
            GameAction::CommitAssistPayment { generic: a0 },
            GameAction::CommitAssistPayment { generic: b0 },
        ) => a0.precedes(&b0),
        (
            GameAction::TapForConvoke { object_id: a0, mana_type: a1 },
            GameAction::TapForConvoke { object_id: b0, mana_type: b1 },
        ) => a0.precedes(&b0) || (a0.same(&b0) && (a1.precedes(&b1))),
        (
            GameAction::HarmonizeTap { creature_id: a0 },
            GameAction::HarmonizeTap { creature_id: b0 },
        ) => a0.precedes(&b0),
        (
            GameAction::SubmitPhyrexianChoices { choices: a0 },
            GameAction::SubmitPhyrexianChoices { choices: b0 },
        ) => a0.precedes(&b0),
        (
            GameAction::ChooseManaColor { choice: a0, count: a1 },
            GameAction::ChooseManaColor { choice: b0, count: b1 },
        ) => a0.precedes(&b0) || (a0.same(&b0) && (a1.precedes(&b1))),
        (
            GameAction::PayManaAbilityMana { payment: a0 },
            GameAction::PayManaAbilityMana { payment: b0 },
        ) => a0.precedes(&b0),
        (
            GameAction::SubmitPayAmount { amount: a0 },
            GameAction::SubmitPayAmount { amount: b0 },
        ) => a0.precedes(&b0),
        (
            GameAction::ChooseAssistPlayer { player: a0 },
            GameAction::ChooseAssistPlayer { player: b0 },
        ) => a0.precedes(&b0),
        _ => false,
    }
}

proof fn lemma_mana(a: GameAction, b: GameAction)
    requires
        is_mana(a),
        declared_place(a) == declared_place(b),
    ensures
        key::list_cmp(
            action_stable_order::action_fields(a),
            action_stable_order::action_fields(b),
        ) == natural::verdict(same_mana(a, b), mana_precedes(a, b)),
        !(same_mana(a, b) && mana_precedes(a, b)),
{
    reveal(declared_place);
    reveal(action_stable_order::action_fields);
    reveal(action_stable_order::mana_fields);
    match (a, b) {
        (
            GameAction::TapLandForMana { object_id: a0 },
            GameAction::TapLandForMana { object_id: b0 },
        ) => {
            natural::lemma_fields1(a0, b0);
        },
        (
            GameAction::UntapLandForMana { object_id: a0 },
            GameAction::UntapLandForMana { object_id: b0 },
        ) => {
            natural::lemma_fields1(a0, b0);
        },
        (GameAction::SpendPoolMana { pip_id: a0 }, GameAction::SpendPoolMana { pip_id: b0 }) => {
            natural::lemma_fields1(a0, b0);
        },
        (
            GameAction::UnspendPoolMana { pip_id: a0 },
            GameAction::UnspendPoolMana { pip_id: b0 },
        ) => {
            natural::lemma_fields1(a0, b0);
        },
        (
            GameAction::CommitAssistPayment { generic: a0 },
            GameAction::CommitAssistPayment { generic: b0 },
        ) => {
            natural::lemma_fields1(a0, b0);
        },
        (
            GameAction::TapForConvoke { object_id: a0, mana_type: a1 },
            GameAction::TapForConvoke { object_id: b0, mana_type: b1 },
        ) => {
            natural::lemma_fields2(a0, b0, a1, b1);
        },
        (
            GameAction::HarmonizeTap { creature_id: a0 },
            GameAction::HarmonizeTap { creature_id: b0 },
        ) => {
            natural::lemma_fields1(a0, b0);
        },
        (
            GameAction::SubmitPhyrexianChoices { choices: a0 },
            GameAction::SubmitPhyrexianChoices { choices: b0 },
        ) => {
            natural::lemma_fields1(a0, b0);
        },
        (
            GameAction::ChooseManaColor { choice: a0, count: a1 },
            GameAction::ChooseManaColor { choice: b0, count: b1 },
        ) => {
            natural::lemma_fields2(a0, b0, a1, b1);
        },
        (
            GameAction::PayManaAbilityMana { payment: a0 },
            GameAction::PayManaAbilityMana { payment: b0 },
        ) => {
            natural::lemma_fields1(a0, b0);
        },
        (
            GameAction::SubmitPayAmount { amount: a0 },
            GameAction::SubmitPayAmount { amount: b0 },
        ) => {
            natural::lemma_fields1(a0, b0);
        },
        (
            GameAction::ChooseAssistPlayer { player: a0 },
            GameAction::ChooseAssistPlayer { player: b0 },
        ) => {
            natural::lemma_fields1(a0, b0);
        },
        _ => {
        },
    }
}

/// The action is one for combat.
pub open spec fn is_combat(a: GameAction) -> bool {
    match a {
        GameAction::DeclareAttackers { .. }
        | GameAction::DeclareBlockers { .. }
        | GameAction::ChooseExert { .. }
        | GameAction::ChooseEnlist { .. }
        | GameAction::PayCombatTax { .. }
        | GameAction::AssignCombatDamage { .. }
        | GameAction::AssignBlockerDamage { .. }
        | GameAction::ActivateNinjutsu { .. }
        | GameAction::ChooseBattleProtector { .. }
        | GameAction::ChooseUntap { .. } => true,
        _ => false,
    }
}

/// Two actions for combat are of one kind and carry the same.
pub open spec fn same_combat(a: GameAction, b: GameAction) -> bool {
    match (a, b) {
        (
            GameAction::DeclareAttackers { attacks: a0, bands: a1 },
            GameAction::DeclareAttackers { attacks: b0, bands: b1 },
        ) => a0.same(&b0) && a1.same(&b1),
        (
            GameAction::DeclareBlockers { assignments: a0 },
            GameAction::DeclareBlockers { assignments: b0 },
        ) => a0.same(&b0),
        (
            GameAction::ChooseExert { exert: a0 },
            GameAction::ChooseExert { exert: b0 },
        ) => a0.same(&b0),
        (
            GameAction::ChooseEnlist { target: a0 },
            GameAction::ChooseEnlist { target: b0 },
        ) => a0.same(&b0),
        (
            GameAction::PayCombatTax { accept: a0 },
            GameAction::PayCombatTax { accept: b0 },
        ) => a0.same(&b0),
        (
            GameAction::AssignCombatDamage {
                mode: a0,
                assignments: a1,
                trample_damage: a2,
                controller_damage: a3,
            },
            GameAction::AssignCombatDamage {
                mode: b0,
                assignments: b1,
                trample_damage: b2,
                controller_damage: b3,
            },
        ) => a0.same(&b0) && a1.same(&b1) && a2.same(&b2) && a3.same(&b3),
        (
            GameAction::AssignBlockerDamage { assignments: a0 },
            GameAction::AssignBlockerDamage { assignments: b0 },
        ) => a0.same(&b0),
        (
            GameAction::ActivateNinjutsu { ninjutsu_object_id: a0, creature_to_return: a1 },
            GameAction::ActivateNinjutsu { ninjutsu_object_id: b0, creature_to_return: b1 },
        ) => a0.same(&b0) && a1.same(&b1),
        (
            GameAction::ChooseBattleProtector { protector: a0 },
            GameAction::ChooseBattleProtector { protector: b0 },
        ) => a0.same(&b0),
        (
            GameAction::ChooseUntap { object_id: a0, untap: a1 },
            GameAction::ChooseUntap { object_id: b0, untap: b1 },
        ) => a0.same(&b0) && a1.same(&b1),
        _ => false,
    }
}

/// Of two actions of one kind for combat, the first comes before the second by the first declared
/// field
/// in which they differ.
pub open spec fn combat_precedes(a: GameAction, b: GameAction) -> bool {
    match (a, b) {
        (
            GameAction::DeclareAttackers { attacks: a0, bands: a1 },
            GameAction::DeclareAttackers { attacks: b0, bands: b1 },
        ) => a0.precedes(&b0) || (a0.same(&b0) && (a1.precedes(&b1))),
        (
            GameAction::DeclareBlockers { assignments: a0 },
            GameAction::DeclareBlockers { assignments: b0 },
        ) => a0.precedes(&b0),
        (
            GameAction::ChooseExert { exert: a0 },
            GameAction::ChooseExert { exert: b0 },
        ) => a0.precedes(&b0),
        (
            GameAction::ChooseEnlist { target: a0 },
            GameAction::ChooseEnlist { target: b0 },
        ) => a0.precedes(&b0),
        (
            GameAction::PayCombatTax { accept: a0 },
            GameAction::PayCombatTax { accept: b0 },
        ) => a0.precedes(&b0),
        (
            GameAction::AssignCombatDamage {
                mode: a0,
                assignments: a1,
                trample_damage: a2,
                controller_damage: a3,
            },
            GameAction::AssignCombatDamage {
                mode: b0,
                assignments: b1,
                trample_damage: b2,
                controller_damage: b3,
            },
        ) => a0.precedes(&b0) || (a0.same(&b0) && (a1.precedes(&b1) || (a1.same(&b1)
            && (a2.precedes(&b2) || (a2.same(&b2) && (a3.precedes(&b3))))))),
        (
            GameAction::AssignBlockerDamage { assignments: a0 },
            GameAction::AssignBlockerDamage { assignments: b0 },
        ) => a0.precedes(&b0),
        (
            GameAction::ActivateNinjutsu { ninjutsu_object_id: a0, creature_to_return: a1 },
            GameAction::ActivateNinjutsu { ninjutsu_object_id: b0, creature_to_return: b1 },
        ) => a0.precedes(&b0) || (a0.same(&b0) && (a1.precedes(&b1))),
        (
            GameAction::ChooseBattleProtector { protector: a0 },
            GameAction::ChooseBattleProtector { protector: b0 },
        ) => a0.precedes(&b0),
        (
            GameAction::ChooseUntap { object_id: a0, untap: a1 },
            GameAction::ChooseUntap { object_id: b0, untap: b1 },
        ) => a0.precedes(&b0) || (a0.same(&b0) && (a1.precedes(&b1))),
        _ => false,
    }
}

proof fn lemma_combat(a: GameAction, b: GameAction)
    requires
        is_combat(a),
        declared_place(a) == declared_place(b),
    ensures
        key::list_cmp(
            action_stable_order::action_fields(a),
            action_stable_order::action_fields(b),
        ) == natural::verdict(same_combat(a, b), combat_precedes(a, b)),
        !(same_combat(a, b) && combat_precedes(a, b)),
{
    reveal(declared_place);
    reveal(action_stable_order::action_fields);
    reveal(action_stable_order::combat_fields);
    match (a, b) {
        (
            GameAction::DeclareAttackers { attacks: a0, bands: a1 },
            GameAction::DeclareAttackers { attacks: b0, bands: b1 },
        ) => {
            natural::lemma_fields2(a0, b0, a1, b1);
        },
        (
            GameAction::DeclareBlockers { assignments: a0 },
            GameAction::DeclareBlockers { assignments: b0 },
        ) => {
            natural::lemma_fields1(a0, b0);
        },
        (GameAction::ChooseExert { exert: a0 }, GameAction::ChooseExert { exert: b0 }) => {
            natural::lemma_fields1(a0, b0);
        },
        (GameAction::ChooseEnlist { target: a0 }, GameAction::ChooseEnlist { target: b0 }) => {
            natural::lemma_fields1(a0, b0);
        },
        (GameAction::PayCombatTax { accept: a0 }, GameAction::PayCombatTax { accept: b0 }) => {
            natural::lemma_fields1(a0, b0);
        },
        (
            GameAction::AssignCombatDamage {
                mode: a0,
                assignments: a1,
                trample_damage: a2,
                controller_damage: a3,
            },
            GameAction::AssignCombatDamage {
                mode: b0,
                assignments: b1,
                trample_damage: b2,
                controller_damage: b3,
            },
        ) => {
            natural::lemma_fields4(a0, b0, a1, b1, a2, b2, a3, b3);
        },
        (
            GameAction::AssignBlockerDamage { assignments: a0 },
            GameAction::AssignBlockerDamage { assignments: b0 },
        ) => {
            natural::lemma_fields1(a0, b0);
        },
        (
            GameAction::ActivateNinjutsu { ninjutsu_object_id: a0, creature_to_return: a1 },
            GameAction::ActivateNinjutsu { ninjutsu_object_id: b0, creature_to_return: b1 },
        ) => {
            natural::lemma_fields2(a0, b0, a1, b1);
        },
        (
            GameAction::ChooseBattleProtector { protector: a0 },
            GameAction::ChooseBattleProtector { protector: b0 },
        ) => {
            natural::lemma_fields1(a0, b0);
        },
        (
            GameAction::ChooseUntap { object_id: a0, untap: a1 },
            GameAction::ChooseUntap { object_id: b0, untap: b1 },
        ) => {
            natural::lemma_fields2(a0, b0, a1, b1);
        },
        _ => {
        },
    }
}

/// The action is one for activating or changing a permanent.
pub open spec fn is_permanent(a: GameAction) -> bool {
    match a {
        GameAction::ActivateAbility { .. }
        | GameAction::Equip { .. }
        | GameAction::CrewVehicle { .. }
        | GameAction::ActivateStation { .. }
        | GameAction::SaddleMount { .. }
        | GameAction::Transform { .. }
        | GameAction::TurnFaceUp { .. }
        | GameAction::UnlockRoomDoor { .. }
        | GameAction::ChooseRoomDoor { .. }
        | GameAction::ChooseRingBearer { .. }
        | GameAction::ChoosePair { .. }
        | GameAction::ChooseLegend { .. }
        | GameAction::ChooseDungeon { .. }
        | GameAction::ChooseDungeonRoom { .. } => true,
        _ => false,
    }
}

/// Two actions for activating or changing a permanent are of one kind and carry the same.
pub open spec fn same_permanent(a: GameAction, b: GameAction) -> bool {
    match (a, b) {
        (
            GameAction::ActivateAbility { source_id: a0, ability_index: a1 },
            GameAction::ActivateAbility { source_id: b0, ability_index: b1 },
        ) => a0.same(&b0) && a1.same(&b1),
        (
            GameAction::Equip { equipment_id: a0, target_id: a1 },
            GameAction::Equip { equipment_id: b0, target_id: b1 },
        ) => a0.same(&b0) && a1.same(&b1),
        (
            GameAction::CrewVehicle { vehicle_id: a0, creature_ids: a1 },
            GameAction::CrewVehicle { vehicle_id: b0, creature_ids: b1 },
        ) => a0.same(&b0) && a1.same(&b1),
        (
            GameAction::ActivateStation { spacecraft_id: a0, creature_id: a1 },
            GameAction::ActivateStation { spacecraft_id: b0, creature_id: b1 },
        ) => a0.same(&b0) && a1.same(&b1),
        (
            GameAction::SaddleMount { mount_id: a0, creature_ids: a1 },
            GameAction::SaddleMount { mount_id: b0, creature_ids: b1 },
        ) => a0.same(&b0) && a1.same(&b1),
        (
            GameAction::Transform { object_id: a0 },
            GameAction::Transform { object_id: b0 },
        ) => a0.same(&b0),
        (
            GameAction::TurnFaceUp { object_id: a0 },
            GameAction::TurnFaceUp { object_id: b0 },
        ) => a0.same(&b0),
        (
            GameAction::UnlockRoomDoor { object_id: a0, door: a1 },
            GameAction::UnlockRoomDoor { object_id: b0, door: b1 },
        ) => a0.same(&b0) && a1.same(&b1),
        (
            GameAction::ChooseRoomDoor { object_id: a0, op: a1, door: a2 },
            GameAction::ChooseRoomDoor { object_id: b0, op: b1, door: b2 },
        ) => a0.same(&b0) && a1.same(&b1) && a2.same(&b2),
        (
            GameAction::ChooseRingBearer { target: a0 },
            GameAction::ChooseRingBearer { target: b0 },
        ) => a0.same(&b0),
        (
            GameAction::ChoosePair { partner: a0 },
            GameAction::ChoosePair { partner: b0 },
        ) => a0.same(&b0),
        (
            GameAction::ChooseLegend { keep: a0 },
            GameAction::ChooseLegend { keep: b0 },
        ) => a0.same(&b0),
        (
            GameAction::ChooseDungeon { dungeon: a0 },
            GameAction::ChooseDungeon { dungeon: b0 },
        ) => a0.same(&b0),
        (
            GameAction::ChooseDungeonRoom { room_index: a0 },
            GameAction::ChooseDungeonRoom { room_index: b0 },
        ) => a0.same(&b0),
        _ => false,
    }
}

/// Of two actions of one kind for activating or changing a permanent, the first comes before the
/// second by the first declared field
/// in which they differ.
pub open spec fn permanent_precedes(a: GameAction, b: GameAction) -> bool {
    match (a, b) {
        (
            GameAction::ActivateAbility { source_id: a0, ability_index: a1 },
            GameAction::ActivateAbility { source_id: b0, ability_index: b1 },
        ) => a0.precedes(&b0) || (a0.same(&b0) && (a1.precedes(&b1))),
        (
            GameAction::Equip { equipment_id: a0, target_id: a1 },
            GameAction::Equip { equipment_id: b0, target_id: b1 },
        ) => a0.precedes(&b0) || (a0.same(&b0) && (a1.precedes(&b1))),
        (
            GameAction::CrewVehicle { vehicle_id: a0, creature_ids: a1 },
            GameAction::CrewVehicle { vehicle_id: b0, creature_ids: b1 },
        ) => a0.precedes(&b0) || (a0.same(&b0) && (a1.precedes(&b1))),
        (
            GameAction::ActivateStation { spacecraft_id: a0, creature_id: a1 },
            GameAction::ActivateStation { spacecraft_id: b0, creature_id: b1 },
        ) => a0.precedes(&b0) || (a0.same(&b0) && (a1.precedes(&b1))),
        (
            GameAction::SaddleMount { mount_id: a0, creature_ids: a1 },
            GameAction::SaddleMount { mount_id: b0, creature_ids: b1 },
        ) => a0.precedes(&b0) || (a0.same(&b0) && (a1.precedes(&b1))),
        (
            GameAction::Transform { object_id: a0 },
            GameAction::Transform { object_id: b0 },
        ) => a0.precedes(&b0),
        (
            GameAction::TurnFaceUp { object_id: a0 },
            GameAction::TurnFaceUp { object_id: b0 },
        ) => a0.precedes(&b0),
        (
            GameAction::UnlockRoomDoor { object_id: a0, door: a1 },
            GameAction::UnlockRoomDoor { object_id: b0, door: b1 },
        ) => a0.precedes(&b0) || (a0.same(&b0) && (a1.precedes(&b1))),
        (
            GameAction::ChooseRoomDoor { object_id: a0, op: a1, door: a2 },
            GameAction::ChooseRoomDoor { object_id: b0, op: b1, door: b2 },
        ) => a0.precedes(&b0) || (a0.same(&b0) && (a1.precedes(&b1) || (a1.same(&b1)
            && (a2.precedes(&b2))))),
        (
            GameAction::ChooseRingBearer { target: a0 },
            GameAction::ChooseRingBearer { target: b0 },
        ) => a0.precedes(&b0),
        (
            GameAction::ChoosePair { partner: a0 },
            GameAction::ChoosePair { partner: b0 },
        ) => a0.precedes(&b0),
        (
            GameAction::ChooseLegend { keep: a0 },
            GameAction::ChooseLegend { keep: b0 },
        ) => a0.precedes(&b0),
        (
            GameAction::ChooseDungeon { dungeon: a0 },
            GameAction::ChooseDungeon { dungeon: b0 },
        ) => a0.precedes(&b0),
        (
            GameAction::ChooseDungeonRoom { room_index: a0 },
            GameAction::ChooseDungeonRoom { room_index: b0 },
        ) => a0.precedes(&b0),
        _ => false,
    }
}

proof fn lemma_permanent(a: GameAction, b: GameAction)
    requires
        is_permanent(a),
        declared_place(a) == declared_place(b),
    ensures
        key::list_cmp(
            action_stable_order::action_fields(a),
            action_stable_order::action_fields(b),
        ) == natural::verdict(same_permanent(a, b), permanent_precedes(a, b)),
        !(same_permanent(a, b) && permanent_precedes(a, b)),
{
    reveal(declared_place);
    reveal(action_stable_order::action_fields);
    reveal(action_stable_order::permanent_fields);
    match (a, b) {
        (
            GameAction::ActivateAbility { source_id: a0, ability_index: a1 },
            GameAction::ActivateAbility { source_id: b0, ability_index: b1 },
        ) => {
            natural::lemma_fields2(a0, b0, a1, b1);
        },
        (
            GameAction::Equip { equipment_id: a0, target_id: a1 },
            GameAction::Equip { equipment_id: b0, target_id: b1 },
        ) => {
            natural::lemma_fields2(a0, b0, a1, b1);
        },
        (
            GameAction::CrewVehicle { vehicle_id: a0, creature_ids: a1 },
            GameAction::CrewVehicle { vehicle_id: b0, creature_ids: b1 },
        ) => {
            natural::lemma_fields2(a0, b0, a1, b1);
        },
        (
            GameAction::ActivateStation { spacecraft_id: a0, creature_id: a1 },
            GameAction::ActivateStation { spacecraft_id: b0, creature_id: b1 },
        ) => {
            natural::lemma_fields2(a0, b0, a1, b1);
        },
        (
            GameAction::SaddleMount { mount_id: a0, creature_ids: a1 },
            GameAction::SaddleMount { mount_id: b0, creature_ids: b1 },
        ) => {
            natural::lemma_fields2(a0, b0, a1, b1);
        },
        (GameAction::Transform { object_id: a0 }, GameAction::Transform { object_id: b0 }) => {
            natural::lemma_fields1(a0, b0);
        },
        (GameAction::TurnFaceUp { object_id: a0 }, GameAction::TurnFaceUp { object_id: b0 }) => {
            natural::lemma_fields1(a0, b0);
        },
        (
            GameAction::UnlockRoomDoor { object_id: a0, door: a1 },
            GameAction::UnlockRoomDoor { object_id: b0, door: b1 },
        ) => {
            natural::lemma_fields2(a0, b0, a1, b1);
        },
        (
            GameAction::ChooseRoomDoor { object_id: a0, op: a1, door: a2 },
            GameAction::ChooseRoomDoor { object_id: b0, op: b1, door: b2 },
        ) => {
            natural::lemma_fields3(a0, b0, a1, b1, a2, b2);
        },
        (
            GameAction::ChooseRingBearer { target: a0 },
            GameAction::ChooseRingBearer { target: b0 },
        ) => {
            natural::lemma_fields1(a0, b0);
        },
        (GameAction::ChoosePair { partner: a0 }, GameAction::ChoosePair { partner: b0 }) => {
            natural::lemma_fields1(a0, b0);
        },
        (GameAction::ChooseLegend { keep: a0 }, GameAction::ChooseLegend { keep: b0 }) => {
            natural::lemma_fields1(a0, b0);
        },
        (GameAction::ChooseDungeon { dungeon: a0 }, GameAction::ChooseDungeon { dungeon: b0 }) => {
            natural::lemma_fields1(a0, b0);
        },
        (
            GameAction::ChooseDungeonRoom { room_index: a0 },
            GameAction::ChooseDungeonRoom { room_index: b0 },
        ) => {
            natural::lemma_fields1(a0, b0);
        },
        _ => {
        },
    }
}

/// The action is one for selecting objects, targets or modes.
pub open spec fn is_selection(a: GameAction) -> bool {
    match a {
        GameAction::ReorderHand { .. }
        | GameAction::SelectCards { .. }
        | GameAction::SelectCoinFlips { .. }
        | GameAction::ChooseOutsideGameCards { .. }
        | GameAction::SelectTargets { .. }
        | GameAction::ChooseTarget { .. }
        | GameAction::RetargetSpell { .. }
        | GameAction::SubmitPilePartition { .. }
        | GameAction::SelectCategoryPermanents { .. }
        | GameAction::ChooseKeptCreatures { .. }
        | GameAction::SelectModes { .. }
        | GameAction::OrderTriggers { .. } => true,
        _ => false,
    }
}

/// Two actions for selecting objects, targets or modes are of one kind and carry the same.
pub open spec fn same_selection(a: GameAction, b: GameAction) -> bool {
    match (a, b) {
        (
            GameAction::ReorderHand { order: a0 },
            GameAction::ReorderHand { order: b0 },
        ) => a0.same(&b0),
        (
            GameAction::SelectCards { cards: a0 },
            GameAction::SelectCards { cards: b0 },
        ) => a0.same(&b0),
        (
            GameAction::SelectCoinFlips { keep_indices: a0 },
            GameAction::SelectCoinFlips { keep_indices: b0 },
        ) => a0.same(&b0),
        (
            GameAction::ChooseOutsideGameCards { selections: a0 },
            GameAction::ChooseOutsideGameCards { selections: b0 },
        ) => a0.same(&b0),
        (
            GameAction::SelectTargets { targets: a0 },
            GameAction::SelectTargets { targets: b0 },
        ) => a0.same(&b0),
        (
            GameAction::ChooseTarget { target: a0 },
            GameAction::ChooseTarget { target: b0 },
        ) => a0.same(&b0),
        (
            GameAction::RetargetSpell { new_targets: a0 },
            GameAction::RetargetSpell { new_targets: b0 },
        ) => a0.same(&b0),
        (
            GameAction::SubmitPilePartition { pile_a: a0 },
            GameAction::SubmitPilePartition { pile_a: b0 },
        ) => a0.same(&b0),
        (
            GameAction::SelectCategoryPermanents { choices: a0 },
            GameAction::SelectCategoryPermanents { choices: b0 },
        ) => a0.same(&b0),
        (
            GameAction::ChooseKeptCreatures { kept: a0 },
            GameAction::ChooseKeptCreatures { kept: b0 },
        ) => a0.same(&b0),
        (
            GameAction::SelectModes { indices: a0 },
            GameAction::SelectModes { indices: b0 },
        ) => a0.same(&b0),
        (
            GameAction::OrderTriggers { order: a0 },
            GameAction::OrderTriggers { order: b0 },
        ) => a0.same(&b0),
        _ => false,
    }
}

/// Of two actions of one kind for selecting objects, targets or modes, the first comes before the
/// second by the first declared field
/// in which they differ.
pub open spec fn selection_precedes(a: GameAction, b: GameAction) -> bool {
    match (a, b) {
        (
            GameAction::ReorderHand { order: a0 },
            GameAction::ReorderHand { order: b0 },
        ) => a0.precedes(&b0),
        (
            GameAction::SelectCards { cards: a0 },
            GameAction::SelectCards { cards: b0 },
        ) => a0.precedes(&b0),
        (
            GameAction::SelectCoinFlips { keep_indices: a0 },
            GameAction::SelectCoinFlips { keep_indices: b0 },
        ) => a0.precedes(&b0),
        (
            GameAction::ChooseOutsideGameCards { selections: a0 },
            GameAction::ChooseOutsideGameCards { selections: b0 },
        ) => a0.precedes(&b0),
        (
            GameAction::SelectTargets { targets: a0 },
            GameAction::SelectTargets { targets: b0 },
        ) => a0.precedes(&b0),
        (
            GameAction::ChooseTarget { target: a0 },
            GameAction::ChooseTarget { target: b0 },
        ) => a0.precedes(&b0),
        (
            GameAction::RetargetSpell { new_targets: a0 },
            GameAction::RetargetSpell { new_targets: b0 },
        ) => a0.precedes(&b0),
        (
            GameAction::SubmitPilePartition { pile_a: a0 },
            GameAction::SubmitPilePartition { pile_a: b0 },
        ) => a0.precedes(&b0),
        (
            GameAction::SelectCategoryPermanents { choices: a0 },
            GameAction::SelectCategoryPermanents { choices: b0 },
        ) => a0.precedes(&b0),
        (
            GameAction::ChooseKeptCreatures { kept: a0 },
            GameAction::ChooseKeptCreatures { kept: b0 },
        ) => a0.precedes(&b0),
        (
            GameAction::SelectModes { indices: a0 },
            GameAction::SelectModes { indices: b0 },
        ) => a0.precedes(&b0),
        (
            GameAction::OrderTriggers { order: a0 },
            GameAction::OrderTriggers { order: b0 },
        ) => a0.precedes(&b0),
        _ => false,
    }
}

proof fn lemma_selection(a: GameAction, b: GameAction)
    requires
        is_selection(a),
        declared_place(a) == declared_place(b),
    ensures
        key::list_cmp(
            action_stable_order::action_fields(a),
            action_stable_order::action_fields(b),
        ) == natural::verdict(same_selection(a, b), selection_precedes(a, b)),
        !(same_selection(a, b) && selection_precedes(a, b)),
{
    reveal(declared_place);
    reveal(action_stable_order::action_fields);
    reveal(action_stable_order::selection_fields);
    match (a, b) {
        (GameAction::ReorderHand { order: a0 }, GameAction::ReorderHand { order: b0 }) => {
            natural::lemma_fields1(a0, b0);
        },
        (GameAction::SelectCards { cards: a0 }, GameAction::SelectCards { cards: b0 }) => {
            natural::lemma_fields1(a0, b0);
        },
        (
            GameAction::SelectCoinFlips { keep_indices: a0 },
            GameAction::SelectCoinFlips { keep_indices: b0 },
        ) => {
            natural::lemma_fields1(a0, b0);
        },
        (
            GameAction::ChooseOutsideGameCards { selections: a0 },
            GameAction::ChooseOutsideGameCards { selections: b0 },
        ) => {
            natural::lemma_fields1(a0, b0);
        },
        (GameAction::SelectTargets { targets: a0 }, GameAction::SelectTargets { targets: b0 }) => {
            natural::lemma_fields1(a0, b0);
        },
        (GameAction::ChooseTarget { target: a0 }, GameAction::ChooseTarget { target: b0 }) => {
            natural::lemma_fields1(a0, b0);
        },
        (
            GameAction::RetargetSpell { new_targets: a0 },
            GameAction::RetargetSpell { new_targets: b0 },
        ) => {
            natural::lemma_fields1(a0, b0);
        },
        (
            GameAction::SubmitPilePartition { pile_a: a0 },
            GameAction::SubmitPilePartition { pile_a: b0 },
        ) => {
            natural::lemma_fields1(a0, b0);
        },
        (
            GameAction::SelectCategoryPermanents { choices: a0 },
            GameAction::SelectCategoryPermanents { choices: b0 },
        ) => {
            natural::lemma_fields1(a0, b0);
        },
        (
            GameAction::ChooseKeptCreatures { kept: a0 },
            GameAction::ChooseKeptCreatures { kept: b0 },
        ) => {
            natural::lemma_fields1(a0, b0);
        },
        (GameAction::SelectModes { indices: a0 }, GameAction::SelectModes { indices: b0 }) => {
            natural::lemma_fields1(a0, b0);
        },
        (GameAction::OrderTriggers { order: a0 }, GameAction::OrderTriggers { order: b0 }) => {
            natural::lemma_fields1(a0, b0);
        },
        _ => {
        },
    }
}

/// The action is one for distributing counters or damage and picking a branch.
pub open spec fn is_distribution(a: GameAction) -> bool {
    match a {
        GameAction::ChooseRemoveCounterCostDistribution { .. }
        | GameAction::DistributeAmong { .. }
        | GameAction::ChooseCounterMoveDistribution { .. }
        | GameAction::ChooseCountersToRemove { .. }
        | GameAction::ChooseDamageSource { .. }
        | GameAction::ChoosePermanentTypeSlot { .. }
        | GameAction::ChooseReplacement { .. }
        | GameAction::ChooseBranch { .. }
        | GameAction::ChooseActivationCostBranch { .. }
        | GameAction::ChooseUnlessCostBranch { .. } => true,
        _ => false,
    }
}

/// Two actions for distributing counters or damage and picking a branch are of one kind and carry
/// the same.
pub open spec fn same_distribution(a: GameAction, b: GameAction) -> bool {
    match (a, b) {
        (
            GameAction::ChooseRemoveCounterCostDistribution { distribution: a0 },
            GameAction::ChooseRemoveCounterCostDistribution { distribution: b0 },
        ) => a0.same(&b0),
        (
            GameAction::DistributeAmong { distribution: a0 },
            GameAction::DistributeAmong { distribution: b0 },
        ) => a0.same(&b0),
        (
            GameAction::ChooseCounterMoveDistribution { selections: a0 },
            GameAction::ChooseCounterMoveDistribution { selections: b0 },
        ) => a0.same(&b0),
        (
            GameAction::ChooseCountersToRemove { selections: a0 },
            GameAction::ChooseCountersToRemove { selections: b0 },
        ) => a0.same(&b0),
        (
            GameAction::ChooseDamageSource { source: a0 },
            GameAction::ChooseDamageSource { source: b0 },
        ) => a0.same(&b0),
        (
            GameAction::ChoosePermanentTypeSlot { slot: a0 },
            GameAction::ChoosePermanentTypeSlot { slot: b0 },
        ) => a0.same(&b0),
        (
            GameAction::ChooseReplacement { index: a0 },
            GameAction::ChooseReplacement { index: b0 },
        ) => a0.same(&b0),
        (
            GameAction::ChooseBranch { index: a0 },
            GameAction::ChooseBranch { index: b0 },
        ) => a0.same(&b0),
        (
            GameAction::ChooseActivationCostBranch { index: a0 },
            GameAction::ChooseActivationCostBranch { index: b0 },
        ) => a0.same(&b0),
        (
            GameAction::ChooseUnlessCostBranch { choice: a0 },
            GameAction::ChooseUnlessCostBranch { choice: b0 },
        ) => a0.same(&b0),
        _ => false,
    }
}

/// Of two actions of one kind for distributing counters or damage and picking a branch, the first
/// comes before the second by the first declared field
/// in which they differ.
pub open spec fn distribution_precedes(a: GameAction, b: GameAction) -> bool {
    match (a, b) {
        (
            GameAction::ChooseRemoveCounterCostDistribution { distribution: a0 },
            GameAction::ChooseRemoveCounterCostDistribution { distribution: b0 },
        ) => a0.precedes(&b0),
        (
            GameAction::DistributeAmong { distribution: a0 },
            GameAction::DistributeAmong { distribution: b0 },
        ) => a0.precedes(&b0),
        (
            GameAction::ChooseCounterMoveDistribution { selections: a0 },
            GameAction::ChooseCounterMoveDistribution { selections: b0 },
        ) => a0.precedes(&b0),
        (
            GameAction::ChooseCountersToRemove { selections: a0 },
            GameAction::ChooseCountersToRemove { selections: b0 },
        ) => a0.precedes(&b0),
        (
            GameAction::ChooseDamageSource { source: a0 },
            GameAction::ChooseDamageSource { source: b0 },
        ) => a0.precedes(&b0),
        (
            GameAction::ChoosePermanentTypeSlot { slot: a0 },
            GameAction::ChoosePermanentTypeSlot { slot: b0 },
        ) => a0.precedes(&b0),
        (
            GameAction::ChooseReplacement { index: a0 },
            GameAction::ChooseReplacement { index: b0 },
        ) => a0.precedes(&b0),
        (
            GameAction::ChooseBranch { index: a0 },
            GameAction::ChooseBranch { index: b0 },
        ) => a0.precedes(&b0),
        (
            GameAction::ChooseActivationCostBranch { index: a0 },
            GameAction::ChooseActivationCostBranch { index: b0 },
        ) => a0.precedes(&b0),
        (
            GameAction::ChooseUnlessCostBranch { choice: a0 },
            GameAction::ChooseUnlessCostBranch { choice: b0 },
        ) => a0.precedes(&b0),
        _ => false,
    }
}

proof fn lemma_distribution(a: GameAction, b: GameAction)
    requires
        is_distribution(a),
        declared_place(a) == declared_place(b),
    ensures
        key::list_cmp(
            action_stable_order::action_fields(a),
            action_stable_order::action_fields(b),
        ) == natural::verdict(same_distribution(a, b), distribution_precedes(a, b)),
        !(same_distribution(a, b) && distribution_precedes(a, b)),
{
    reveal(declared_place);
    reveal(action_stable_order::action_fields);
    reveal(action_stable_order::distribution_fields);
    match (a, b) {
        (
            GameAction::ChooseRemoveCounterCostDistribution { distribution: a0 },
            GameAction::ChooseRemoveCounterCostDistribution { distribution: b0 },
        ) => {
            natural::lemma_fields1(a0, b0);
        },
        (
            GameAction::DistributeAmong { distribution: a0 },
            GameAction::DistributeAmong { distribution: b0 },
        ) => {
            natural::lemma_fields1(a0, b0);
        },
        (
            GameAction::ChooseCounterMoveDistribution { selections: a0 },
            GameAction::ChooseCounterMoveDistribution { selections: b0 },
        ) => {
            natural::lemma_fields1(a0, b0);
        },
        (
            GameAction::ChooseCountersToRemove { selections: a0 },
            GameAction::ChooseCountersToRemove { selections: b0 },
        ) => {
            natural::lemma_fields1(a0, b0);
        },
        (
            GameAction::ChooseDamageSource { source: a0 },
            GameAction::ChooseDamageSource { source: b0 },
        ) => {
            natural::lemma_fields1(a0, b0);
        },
        (
            GameAction::ChoosePermanentTypeSlot { slot: a0 },
            GameAction::ChoosePermanentTypeSlot { slot: b0 },
        ) => {
            natural::lemma_fields1(a0, b0);
        },
        (
            GameAction::ChooseReplacement { index: a0 },
            GameAction::ChooseReplacement { index: b0 },
        ) => {
            natural::lemma_fields1(a0, b0);
        },
        (GameAction::ChooseBranch { index: a0 }, GameAction::ChooseBranch { index: b0 }) => {
            natural::lemma_fields1(a0, b0);
        },
        (
            GameAction::ChooseActivationCostBranch { index: a0 },
            GameAction::ChooseActivationCostBranch { index: b0 },
        ) => {
            natural::lemma_fields1(a0, b0);
        },
        (
            GameAction::ChooseUnlessCostBranch { choice: a0 },
            GameAction::ChooseUnlessCostBranch { choice: b0 },
        ) => {
            natural::lemma_fields1(a0, b0);
        },
        _ => {
        },
    }
}

/// The action is one for answering a question.
pub open spec fn is_decision(a: GameAction) -> bool {
    match a {
        GameAction::DecideOptionalCost { .. }
        | GameAction::DecideOptionalEffect { .. }
        | GameAction::DecideOptionalEffectAndRemember { .. }
        | GameAction::PayUnlessCost { .. }
        | GameAction::ChooseTopOrBottom { .. }
        | GameAction::ChooseOption { .. }
        | GameAction::ChoosePile { .. }
        | GameAction::SubmitVoteCandidate { .. }
        | GameAction::SubmitSpellbookDraft { .. }
        | GameAction::LearnDecision { .. }
        | GameAction::ChooseClashOpponent { .. }
        | GameAction::SubmitLifeAuctionBid { .. }
        | GameAction::ChooseGiftRecipient { .. } => true,
        _ => false,
    }
}

/// Two actions for answering a question are of one kind and carry the same.
pub open spec fn same_decision(a: GameAction, b: GameAction) -> bool {
    match (a, b) {
        (
            GameAction::DecideOptionalCost { pay: a0 },
            GameAction::DecideOptionalCost { pay: b0 },
        ) => a0.same(&b0),
        (
            GameAction::DecideOptionalEffect { accept: a0 },
            GameAction::DecideOptionalEffect { accept: b0 },
        ) => a0.same(&b0),
        (
            GameAction::DecideOptionalEffectAndRemember { choice: a0 },
            GameAction::DecideOptionalEffectAndRemember { choice: b0 },
        ) => a0.same(&b0),
        (
            GameAction::PayUnlessCost { pay: a0 },
            GameAction::PayUnlessCost { pay: b0 },
        ) => a0.same(&b0),
        (
            GameAction::ChooseTopOrBottom { top: a0 },
            GameAction::ChooseTopOrBottom { top: b0 },
        ) => a0.same(&b0),
        (
            GameAction::ChooseOption { choice: a0 },
            GameAction::ChooseOption { choice: b0 },
        ) => a0.same(&b0),
        (GameAction::ChoosePile { pile: a0 }, GameAction::ChoosePile { pile: b0 }) => a0.same(&b0),
        (
            GameAction::SubmitVoteCandidate { candidate_index: a0 },
            GameAction::SubmitVoteCandidate { candidate_index: b0 },
        ) => a0.same(&b0),
        (
            GameAction::SubmitSpellbookDraft { card: a0 },
            GameAction::SubmitSpellbookDraft { card: b0 },
        ) => a0.same(&b0),
        (
            GameAction::LearnDecision { choice: a0 },
            GameAction::LearnDecision { choice: b0 },
        ) => a0.same(&b0),
        (
            GameAction::ChooseClashOpponent { opponent: a0 },
            GameAction::ChooseClashOpponent { opponent: b0 },
        ) => a0.same(&b0),
        (
            GameAction::SubmitLifeAuctionBid { amount: a0 },
            GameAction::SubmitLifeAuctionBid { amount: b0 },
        ) => a0.same(&b0),
        (
            GameAction::ChooseGiftRecipient { opponent: a0 },
            GameAction::ChooseGiftRecipient { opponent: b0 },
        ) => a0.same(&b0),
        _ => false,
    }
}

/// Of two actions of one kind for answering a question, the first comes before the second by the
/// first declared field
/// in which they differ.
pub open spec fn decision_precedes(a: GameAction, b: GameAction) -> bool {
    match (a, b) {
        (
            GameAction::DecideOptionalCost { pay: a0 },
            GameAction::DecideOptionalCost { pay: b0 },
        ) => a0.precedes(&b0),
        (
            GameAction::DecideOptionalEffect { accept: a0 },
            GameAction::DecideOptionalEffect { accept: b0 },
        ) => a0.precedes(&b0),
        (
            GameAction::DecideOptionalEffectAndRemember { choice: a0 },
            GameAction::DecideOptionalEffectAndRemember { choice: b0 },
        ) => a0.precedes(&b0),
        (
            GameAction::PayUnlessCost { pay: a0 },
            GameAction::PayUnlessCost { pay: b0 },
        ) => a0.precedes(&b0),
        (
            GameAction::ChooseTopOrBottom { top: a0 },
            GameAction::ChooseTopOrBottom { top: b0 },
        ) => a0.precedes(&b0),
        (
            GameAction::ChooseOption { choice: a0 },
            GameAction::ChooseOption { choice: b0 },
        ) => a0.precedes(&b0),
        (
            GameAction::ChoosePile { pile: a0 },
            GameAction::ChoosePile { pile: b0 },
        ) => a0.precedes(&b0),
        (
            GameAction::SubmitVoteCandidate { candidate_index: a0 },
            GameAction::SubmitVoteCandidate { candidate_index: b0 },
        ) => a0.precedes(&b0),
        (
            GameAction::SubmitSpellbookDraft { card: a0 },
            GameAction::SubmitSpellbookDraft { card: b0 },
        ) => a0.precedes(&b0),
        (
            GameAction::LearnDecision { choice: a0 },
            GameAction::LearnDecision { choice: b0 },
        ) => a0.precedes(&b0),
        (
            GameAction::ChooseClashOpponent { opponent: a0 },
            GameAction::ChooseClashOpponent { opponent: b0 },
        ) => a0.precedes(&b0),
        (
            GameAction::SubmitLifeAuctionBid { amount: a0 },
            GameAction::SubmitLifeAuctionBid { amount: b0 },
        ) => a0.precedes(&b0),
        (
            GameAction::ChooseGiftRecipient { opponent: a0 },
            GameAction::ChooseGiftRecipient { opponent: b0 },
        ) => a0.precedes(&b0),
        _ => false,
    }
}

proof fn lemma_decision(a: GameAction, b: GameAction)
    requires
        is_decision(a),
        declared_place(a) == declared_place(b),
    ensures
        key::list_cmp(
            action_stable_order::action_fields(a),
            action_stable_order::action_fields(b),
        ) == natural::verdict(same_decision(a, b), decision_precedes(a, b)),
        !(same_decision(a, b) && decision_precedes(a, b)),
{
    reveal(declared_place);
    reveal(action_stable_order::action_fields);
    reveal(action_stable_order::decision_fields);
    match (a, b) {
        (
            GameAction::DecideOptionalCost { pay: a0 },
            GameAction::DecideOptionalCost { pay: b0 },
        ) => {
            natural::lemma_fields1(a0, b0);
        },
        (
            GameAction::DecideOptionalEffect { accept: a0 },
            GameAction::DecideOptionalEffect { accept: b0 },
        ) => {
            natural::lemma_fields1(a0, b0);
        },
        (
            GameAction::DecideOptionalEffectAndRemember { choice: a0 },
            GameAction::DecideOptionalEffectAndRemember { choice: b0 },
        ) => {
            natural::lemma_fields1(a0, b0);
        },
        (GameAction::PayUnlessCost { pay: a0 }, GameAction::PayUnlessCost { pay: b0 }) => {
            natural::lemma_fields1(a0, b0);
        },
        (GameAction::ChooseTopOrBottom { top: a0 }, GameAction::ChooseTopOrBottom { top: b0 }) => {
            natural::lemma_fields1(a0, b0);
        },
        (GameAction::ChooseOption { choice: a0 }, GameAction::ChooseOption { choice: b0 }) => {
            natural::lemma_fields1(a0, b0);
        },
        (GameAction::ChoosePile { pile: a0 }, GameAction::ChoosePile { pile: b0 }) => {
            natural::lemma_fields1(a0, b0);
        },
        (
            GameAction::SubmitVoteCandidate { candidate_index: a0 },
            GameAction::SubmitVoteCandidate { candidate_index: b0 },
        ) => {
            natural::lemma_fields1(a0, b0);
        },
        (
            GameAction::SubmitSpellbookDraft { card: a0 },
            GameAction::SubmitSpellbookDraft { card: b0 },
        ) => {
            natural::lemma_fields1(a0, b0);
        },
        (GameAction::LearnDecision { choice: a0 }, GameAction::LearnDecision { choice: b0 }) => {
            natural::lemma_fields1(a0, b0);
        },
        (
            GameAction::ChooseClashOpponent { opponent: a0 },
            GameAction::ChooseClashOpponent { opponent: b0 },
        ) => {
            natural::lemma_fields1(a0, b0);
        },
        (
            GameAction::SubmitLifeAuctionBid { amount: a0 },
            GameAction::SubmitLifeAuctionBid { amount: b0 },
        ) => {
            natural::lemma_fields1(a0, b0);
        },
        (
            GameAction::ChooseGiftRecipient { opponent: a0 },
            GameAction::ChooseGiftRecipient { opponent: b0 },
        ) => {
            natural::lemma_fields1(a0, b0);
        },
        _ => {
        },
    }
}

/// The action is one for the match and automatic passing.
pub open spec fn is_match_setup(a: GameAction) -> bool {
    match a {
        GameAction::MulliganDecision { .. }
        | GameAction::SubmitSideboard { .. }
        | GameAction::ChoosePlayDraw { .. }
        | GameAction::DeclareCompanion { .. }
        | GameAction::SetAutoPass { .. }
        | GameAction::SetPhaseStops { .. }
        | GameAction::SetPriorityYield { .. }
        | GameAction::GrantDebugPermission { .. }
        | GameAction::RevokeDebugPermission { .. }
        | GameAction::Concede { .. } => true,
        _ => false,
    }
}

/// Two actions for the match and automatic passing are of one kind and carry the same.
pub open spec fn same_match_setup(a: GameAction, b: GameAction) -> bool {
    match (a, b) {
        (
            GameAction::MulliganDecision { choice: a0 },
            GameAction::MulliganDecision { choice: b0 },
        ) => a0.same(&b0),
        (
            GameAction::SubmitSideboard { main: a0, sideboard: a1 },
            GameAction::SubmitSideboard { main: b0, sideboard: b1 },
        ) => a0.same(&b0) && a1.same(&b1),
        (
            GameAction::ChoosePlayDraw { play_first: a0 },
            GameAction::ChoosePlayDraw { play_first: b0 },
        ) => a0.same(&b0),
        (
            GameAction::DeclareCompanion { card_index: a0 },
            GameAction::DeclareCompanion { card_index: b0 },
        ) => a0.same(&b0),
        (
            GameAction::SetAutoPass { mode: a0 },
            GameAction::SetAutoPass { mode: b0 },
        ) => a0.same(&b0),
        (
            GameAction::SetPhaseStops { stops: a0 },
            GameAction::SetPhaseStops { stops: b0 },
        ) => a0.same(&b0),
        (
            GameAction::SetPriorityYield { op: a0 },
            GameAction::SetPriorityYield { op: b0 },
        ) => a0.same(&b0),
        (
            GameAction::GrantDebugPermission { player_id: a0 },
            GameAction::GrantDebugPermission { player_id: b0 },
        ) => a0.same(&b0),
        (
            GameAction::RevokeDebugPermission { player_id: a0 },
            GameAction::RevokeDebugPermission { player_id: b0 },
        ) => a0.same(&b0),
        (
            GameAction::Concede { player_id: a0 },
            GameAction::Concede { player_id: b0 },
        ) => a0.same(&b0),
        _ => false,
    }
}

/// Of two actions of one kind for the match and automatic passing, the first comes before the
/// second by the first declared field
/// in which they differ.
pub open spec fn match_setup_precedes(a: GameAction, b: GameAction) -> bool {
    match (a, b) {
        (
            GameAction::MulliganDecision { choice: a0 },
            GameAction::MulliganDecision { choice: b0 },
        ) => a0.precedes(&b0),
        (
            GameAction::SubmitSideboard { main: a0, sideboard: a1 },
            GameAction::SubmitSideboard { main: b0, sideboard: b1 },
        ) => a0.precedes(&b0) || (a0.same(&b0) && (a1.precedes(&b1))),
        (
            GameAction::ChoosePlayDraw { play_first: a0 },
            GameAction::ChoosePlayDraw { play_first: b0 },
        ) => a0.precedes(&b0),
        (
            GameAction::DeclareCompanion { card_index: a0 },
            GameAction::DeclareCompanion { card_index: b0 },
        ) => a0.precedes(&b0),
        (
            GameAction::SetAutoPass { mode: a0 },
            GameAction::SetAutoPass { mode: b0 },
        ) => a0.precedes(&b0),
        (
            GameAction::SetPhaseStops { stops: a0 },
            GameAction::SetPhaseStops { stops: b0 },
        ) => a0.precedes(&b0),
        (
            GameAction::SetPriorityYield { op: a0 },
            GameAction::SetPriorityYield { op: b0 },
        ) => a0.precedes(&b0),
        (
            GameAction::GrantDebugPermission { player_id: a0 },
            GameAction::GrantDebugPermission { player_id: b0 },
        ) => a0.precedes(&b0),
        (
            GameAction::RevokeDebugPermission { player_id: a0 },
            GameAction::RevokeDebugPermission { player_id: b0 },
        ) => a0.precedes(&b0),
        (
            GameAction::Concede { player_id: a0 },
            GameAction::Concede { player_id: b0 },
        ) => a0.precedes(&b0),
        _ => false,
    }
}

proof fn lemma_match_setup(a: GameAction, b: GameAction)
    requires
        is_match_setup(a),
        declared_place(a) == declared_place(b),
    ensures
        key::list_cmp(
            action_stable_order::action_fields(a),
            action_stable_order::action_fields(b),
        ) == natural::verdict(same_match_setup(a, b), match_setup_precedes(a, b)),
        !(same_match_setup(a, b) && match_setup_precedes(a, b)),
{
    reveal(declared_place);
    reveal(action_stable_order::action_fields);
    reveal(action_stable_order::match_setup_fields);
    match (a, b) {
        (
            GameAction::MulliganDecision { choice: a0 },
            GameAction::MulliganDecision { choice: b0 },
        ) => {
            natural::lemma_fields1(a0, b0);
        },
        (
            GameAction::SubmitSideboard { main: a0, sideboard: a1 },
            GameAction::SubmitSideboard { main: b0, sideboard: b1 },
        ) => {
            natural::lemma_fields2(a0, b0, a1, b1);
        },
        (
            GameAction::ChoosePlayDraw { play_first: a0 },
            GameAction::ChoosePlayDraw { play_first: b0 },
        ) => {
            natural::lemma_fields1(a0, b0);
        },
        (
            GameAction::DeclareCompanion { card_index: a0 },
            GameAction::DeclareCompanion { card_index: b0 },
        ) => {
            natural::lemma_fields1(a0, b0);
        },
        (GameAction::SetAutoPass { mode: a0 }, GameAction::SetAutoPass { mode: b0 }) => {
            natural::lemma_fields1(a0, b0);
        },
        (GameAction::SetPhaseStops { stops: a0 }, GameAction::SetPhaseStops { stops: b0 }) => {
            natural::lemma_fields1(a0, b0);
        },
        (GameAction::SetPriorityYield { op: a0 }, GameAction::SetPriorityYield { op: b0 }) => {
            natural::lemma_fields1(a0, b0);
        },
        (
            GameAction::GrantDebugPermission { player_id: a0 },
            GameAction::GrantDebugPermission { player_id: b0 },
        ) => {
            natural::lemma_fields1(a0, b0);
        },
        (
            GameAction::RevokeDebugPermission { player_id: a0 },
            GameAction::RevokeDebugPermission { player_id: b0 },
        ) => {
            natural::lemma_fields1(a0, b0);
        },
        (GameAction::Concede { player_id: a0 }, GameAction::Concede { player_id: b0 }) => {
            natural::lemma_fields1(a0, b0);
        },
        _ => {
        },
    }
}

/// Two actions without a payload are of one kind.
pub open spec fn same_bare(a: GameAction, b: GameAction) -> bool {
    match (a, b) {
        (GameAction::PassPriority, GameAction::PassPriority) => true,
        (GameAction::CancelCast, GameAction::CancelCast) => true,
        (GameAction::KeepAllCopyTargets, GameAction::KeepAllCopyTargets) => true,
        (GameAction::RollPlanarDie, GameAction::RollPlanarDie) => true,
        (GameAction::CompanionToHand, GameAction::CompanionToHand) => true,
        (GameAction::CancelAutoPass, GameAction::CancelAutoPass) => true,
        (GameAction::PassParadigmOffer, GameAction::PassParadigmOffer) => true,
        (GameAction::PassLifeAuction, GameAction::PassLifeAuction) => true,
        _ => false,
    }
}

/// The two actions are of one kind and carry the same: equal numbers, equal texts, lists with equal
/// elements. Of debug actions only what has an order counts.
pub open spec fn same_action(a: GameAction, b: GameAction) -> bool {
    if is_casting(a) {
        same_casting(a, b)
    } else if is_face_and_offer(a) {
        same_face_and_offer(a, b)
    } else if is_mana(a) {
        same_mana(a, b)
    } else if is_combat(a) {
        same_combat(a, b)
    } else if is_permanent(a) {
        same_permanent(a, b)
    } else if is_selection(a) {
        same_selection(a, b)
    } else if is_distribution(a) {
        same_distribution(a, b)
    } else if is_decision(a) {
        same_decision(a, b)
    } else if is_match_setup(a) {
        same_match_setup(a, b)
    } else {
        match (a, b) {
            (GameAction::Debug(x), GameAction::Debug(y)) => x.same(&y),
            _ => same_bare(a, b),
        }
    }
}

/// Of two actions of one kind, the first comes before the second by the first declared field in
/// which
/// they differ.
pub open spec fn payload_precedes(a: GameAction, b: GameAction) -> bool {
    if is_casting(a) {
        casting_precedes(a, b)
    } else if is_face_and_offer(a) {
        face_and_offer_precedes(a, b)
    } else if is_mana(a) {
        mana_precedes(a, b)
    } else if is_combat(a) {
        combat_precedes(a, b)
    } else if is_permanent(a) {
        permanent_precedes(a, b)
    } else if is_selection(a) {
        selection_precedes(a, b)
    } else if is_distribution(a) {
        distribution_precedes(a, b)
    } else if is_decision(a) {
        decision_precedes(a, b)
    } else if is_match_setup(a) {
        match_setup_precedes(a, b)
    } else {
        match (a, b) {
            (GameAction::Debug(x), GameAction::Debug(y)) => x.precedes(&y),
            _ => false,
        }
    }
}

proof fn lemma_bare(a: GameAction, b: GameAction)
    requires
        !is_casting(a),
        !is_face_and_offer(a),
        !is_mana(a),
        !is_combat(a),
        !is_permanent(a),
        !is_selection(a),
        !is_distribution(a),
        !is_decision(a),
        !is_match_setup(a),
        declared_place(a) == declared_place(b),
    ensures
        key::list_cmp(
            action_stable_order::action_fields(a),
            action_stable_order::action_fields(b),
        ) == natural::verdict(same_action(a, b), payload_precedes(a, b)),
{
    reveal(declared_place);
    reveal(action_stable_order::action_fields);
    reveal(action_stable_order::match_setup_fields);
    match (a, b) {
        (GameAction::Debug(x), GameAction::Debug(y)) => {
            natural::lemma_fields1(x, y);
        },
        _ => {
            key::list_cmp_empty(
                action_stable_order::action_fields(a),
                action_stable_order::action_fields(b),
            );
        },
    }
}

/// Actions of different kinds stand in the order in which the kinds are declared. Actions of one
/// kind
/// are equal only if they carry the same; else the first declared field in which they differ
/// decides.
pub proof fn order_of_actions(a: GameAction, b: GameAction)
    ensures
        key::key_cmp(
            action_stable_order::action_key(a),
            action_stable_order::action_key(b),
        ) == if declared_place(a) < declared_place(b) {
            Ordering::Less
        } else if declared_place(a) > declared_place(b) {
            Ordering::Greater
        } else {
            natural::verdict(same_action(a, b), payload_precedes(a, b))
        },
{
    stable_ord::lemma_tagged(
        a.kind_of().rank(),
        action_stable_order::action_fields(a),
        b.kind_of().rank(),
        action_stable_order::action_fields(b),
    );
    lemma_declared_place(a);
    lemma_declared_place(b);
    if declared_place(a) == declared_place(b) {
        if is_casting(a) {
                lemma_casting(a, b);
        } else if is_face_and_offer(a) {
                lemma_face_and_offer(a, b);
        } else if is_mana(a) {
                lemma_mana(a, b);
        } else if is_combat(a) {
                lemma_combat(a, b);
        } else if is_permanent(a) {
                lemma_permanent(a, b);
        } else if is_selection(a) {
                lemma_selection(a, b);
        } else if is_distribution(a) {
                lemma_distribution(a, b);
        } else if is_decision(a) {
                lemma_decision(a, b);
        } else if is_match_setup(a) {
                lemma_match_setup(a, b);
        } else {
            lemma_bare(a, b);
        }
    }
}

/// Two actions that are not debug actions compare equal exactly if they are the same action.
pub proof fn only_the_same_action_is_equal(a: GameAction, b: GameAction)
    requires
        !(a is Debug),
    ensures
        key::key_cmp(
            action_stable_order::action_key(a),
            action_stable_order::action_key(b),
        ) == Ordering::Equal <==> same_action(a, b),
{
    order_of_actions(a, b);
    reveal(declared_place);
    if same_action(a, b) {
        assert(declared_place(a) == declared_place(b));
    }
}

impl Natural for LibraryPosition {
    /// How far a card goes beneath the top is left out.
    open spec fn same(&self, other: &Self) -> bool {
        match (self, other) {
            (LibraryPosition::Top, LibraryPosition::Top) => true,
            (LibraryPosition::Bottom, LibraryPosition::Bottom) => true,
            (
                LibraryPosition::NthFromTop { n: a },
                LibraryPosition::NthFromTop { n: b },
            ) => a.same(b),
            (LibraryPosition::BeneathTop { .. }, LibraryPosition::BeneathTop { .. }) => true,
            _ => false,
        }
    }

    open spec fn precedes(&self, other: &Self) -> bool {
        match (self, other) {
            (LibraryPosition::Top, _) => !(other is Top),
            (LibraryPosition::Bottom, LibraryPosition::NthFromTop { .. }) => true,
            (LibraryPosition::Bottom, LibraryPosition::BeneathTop { .. }) => true,
            (LibraryPosition::NthFromTop { n: a }, LibraryPosition::NthFromTop { n: b }) => {
                a.precedes(b)
            },
            (LibraryPosition::NthFromTop { .. }, LibraryPosition::BeneathTop { .. }) => true,
            _ => false,
        }
    }

    proof fn stable_order_is_natural(&self, other: &Self) {
        reveal(action_stable_order::library_position_rank);
        reveal(action_stable_order::library_position_fields);
        stable_ord::lemma_tagged(
            action_stable_order::library_position_rank(*self),
            action_stable_order::library_position_fields(*self),
            action_stable_order::library_position_rank(*other),
            action_stable_order::library_position_fields(*other),
        );
        match (self, other) {
            (LibraryPosition::NthFromTop { n: a }, LibraryPosition::NthFromTop { n: b }) => {
                natural::lemma_fields1(*a, *b);
            },
            _ => {
            },
        }
    }
}

impl Natural for DebugTokenRequest {
    /// Of custom characteristics only the name counts.
    open spec fn same(&self, other: &Self) -> bool {
        match (self, other) {
            (
                DebugTokenRequest::Preset {
                    preset_id: a1,
                    owner: a0,
                    power_override: a2,
                    toughness_override: a3,
                    enter_with_counters: a4,
                },
                DebugTokenRequest::Preset {
                    preset_id: b1,
                    owner: b0,
                    power_override: b2,
                    toughness_override: b3,
                    enter_with_counters: b4,
                },
            ) => a0.same(b0) && a1.same(b1) && a2.same(b2) && a3.same(b3) && a4.same(b4),
            (
                DebugTokenRequest::Custom { owner: a0, characteristics: a1, enter_with_counters: a2 },
                DebugTokenRequest::Custom { owner: b0, characteristics: b1, enter_with_counters: b2 },
            ) => a0.same(b0) && a1.display_name.same(&b1.display_name) && a2.same(b2),
            _ => false,
        }
    }

    /// The owner decides first.
    open spec fn precedes(&self, other: &Self) -> bool {
        match (self, other) {
            (
                DebugTokenRequest::Preset {
                    preset_id: a1,
                    owner: a0,
                    power_override: a2,
                    toughness_override: a3,
                    enter_with_counters: a4,
                },
                DebugTokenRequest::Preset {
                    preset_id: b1,
                    owner: b0,
                    power_override: b2,
                    toughness_override: b3,
                    enter_with_counters: b4,
                },
            ) => a0.precedes(b0) || (a0.same(b0) && (a1.precedes(b1) || (a1.same(b1)
                && (a2.precedes(b2)
                || (a2.same(b2) && (a3.precedes(b3) || (a3.same(b3) && a4.precedes(b4)))))))),
            (
                DebugTokenRequest::Custom { owner: a0, characteristics: a1, enter_with_counters: a2 },
                DebugTokenRequest::Custom { owner: b0, characteristics: b1, enter_with_counters: b2 },
            ) => a0.precedes(b0) || (a0.same(b0) && (a1.display_name.precedes(&b1.display_name) || (
            a1.display_name.same(&b1.display_name) && a2.precedes(b2)))),
            _ => self is Preset && other is Custom,
        }
    }

    proof fn stable_order_is_natural(&self, other: &Self) {
        reveal(action_stable_order::token_request_rank);
        reveal(action_stable_order::token_request_fields);
        stable_ord::lemma_tagged(
            action_stable_order::token_request_rank(*self),
            action_stable_order::token_request_fields(*self),
            action_stable_order::token_request_rank(*other),
            action_stable_order::token_request_fields(*other),
        );
        match (self, other) {
            (
                DebugTokenRequest::Preset {
                    preset_id: a1,
                    owner: a0,
                    power_override: a2,
                    toughness_override: a3,
                    enter_with_counters: a4,
                },
                DebugTokenRequest::Preset {
                    preset_id: b1,
                    owner: b0,
                    power_override: b2,
                    toughness_override: b3,
                    enter_with_counters: b4,
                },
            ) => {
                natural::lemma_fields5(*a0, *b0, *a1, *b1, *a2, *b2, *a3, *b3, *a4, *b4);
            },
            (
                DebugTokenRequest::Custom { owner: a0, characteristics: a1, enter_with_counters: a2 },
                DebugTokenRequest::Custom { owner: b0, characteristics: b1, enter_with_counters: b2 },
            ) => {
                natural::lemma_fields3(*a0, *b0, a1.display_name, b1.display_name, *a2, *b2);
            },
            _ => {
            },
        }
    }
}

/// Where the variant of a debug action is declared.
pub open spec fn debug_place(a: DebugAction) -> int {
    match a {
        DebugAction::MoveToZone { .. } => 0,
        DebugAction::CreateCard { .. } => 1,
        DebugAction::RemoveObject { .. } => 2,
        DebugAction::Sacrifice { .. } => 3,
        DebugAction::DrawCards { .. } => 4,
        DebugAction::Mill { .. } => 5,
        DebugAction::Reveal { .. } => 6,
        DebugAction::ShuffleLibrary { .. } => 7,
        DebugAction::Proliferate { .. } => 8,
        DebugAction::SetBasePowerToughness { .. } => 9,
        DebugAction::ModifyCounters { .. } => 10,
        DebugAction::SetTapped { .. } => 11,
        DebugAction::SetPrepared { .. } => 12,
        DebugAction::SetController { .. } => 13,
        DebugAction::SetSummoningSickness { .. } => 14,
        DebugAction::SetFaceState { .. } => 15,
        DebugAction::Attach { .. } => 16,
        DebugAction::Detach { .. } => 17,
        DebugAction::GrantKeyword { .. } => 18,
        DebugAction::RemoveKeyword { .. } => 19,
        DebugAction::SetLife { .. } => 20,
        DebugAction::ModifyPlayerCounters { .. } => 21,
        DebugAction::ModifyEnergy { .. } => 22,
        DebugAction::AddMana { .. } => 23,
        DebugAction::SetInfiniteMana { .. } => 24,
        DebugAction::SetPhase { .. } => 25,
        DebugAction::RunStateBasedActions => 26,
        DebugAction::CreateToken { .. } => 27,
        DebugAction::CreateTokenCopy { .. } => 28,
    }
}

/// The two debug actions are of one kind and carry the same, as far as it has an order; of a
/// keyword
/// its parameters have none.
pub open spec fn same_debug(a: DebugAction, b: DebugAction) -> bool {
    match (a, b) {
        (
            DebugAction::MoveToZone {
                object_id: a0,
                to_zone: a1,
                library_position: a2,
                simulate: a3,
            },
            DebugAction::MoveToZone {
                object_id: b0,
                to_zone: b1,
                library_position: b2,
                simulate: b3,
            },
        ) => a0.same(&b0) && a1.same(&b1) && a2.same(&b2) && a3.same(&b3),
        (
            DebugAction::CreateCard {
                card_name: a0,
                owner: a1,
                zone: a2,
                attach_to: a3,
                run_etb: a4,
            },
            DebugAction::CreateCard {
                card_name: b0,
                owner: b1,
                zone: b2,
                attach_to: b3,
                run_etb: b4,
            },
        ) => a0.same(&b0) && a1.same(&b1) && a2.same(&b2) && a3.same(&b3) && a4.same(&b4),
        (
            DebugAction::RemoveObject { object_id: a0 },
            DebugAction::RemoveObject { object_id: b0 },
        ) => a0.same(&b0),
        (
            DebugAction::Sacrifice { object_id: a0 },
            DebugAction::Sacrifice { object_id: b0 },
        ) => a0.same(&b0),
        (
            DebugAction::DrawCards { player_id: a0, count: a1 },
            DebugAction::DrawCards { player_id: b0, count: b1 },
        ) => a0.same(&b0) && a1.same(&b1),
        (
            DebugAction::Mill { player_id: a0, count: a1 },
            DebugAction::Mill { player_id: b0, count: b1 },
        ) => a0.same(&b0) && a1.same(&b1),
        (
            DebugAction::Reveal { player_id: a0, count: a1 },
            DebugAction::Reveal { player_id: b0, count: b1 },
        ) => a0.same(&b0) && a1.same(&b1),
        (
            DebugAction::ShuffleLibrary { player_id: a0 },
            DebugAction::ShuffleLibrary { player_id: b0 },
        ) => a0.same(&b0),
        (
            DebugAction::Proliferate { player_id: a0 },
            DebugAction::Proliferate { player_id: b0 },
        ) => a0.same(&b0),
        (
            DebugAction::SetBasePowerToughness { object_id: a0, power: a1, toughness: a2 },
            DebugAction::SetBasePowerToughness { object_id: b0, power: b1, toughness: b2 },
        ) => a0.same(&b0) && a1.same(&b1) && a2.same(&b2),
        (
            DebugAction::ModifyCounters { object_id: a0, counter_type: a1, delta: a2 },
            DebugAction::ModifyCounters { object_id: b0, counter_type: b1, delta: b2 },
        ) => a0.same(&b0) && a1.same(&b1) && a2.same(&b2),
        (
            DebugAction::SetTapped { object_id: a0, tapped: a1 },
            DebugAction::SetTapped { object_id: b0, tapped: b1 },
        ) => a0.same(&b0) && a1.same(&b1),
        (
            DebugAction::SetPrepared { object_id: a0, prepared: a1 },
            DebugAction::SetPrepared { object_id: b0, prepared: b1 },
        ) => a0.same(&b0) && a1.same(&b1),
        (
            DebugAction::SetController { object_id: a0, controller: a1 },
            DebugAction::SetController { object_id: b0, controller: b1 },
        ) => a0.same(&b0) && a1.same(&b1),
        (
            DebugAction::SetSummoningSickness { object_id: a0, sick: a1 },
            DebugAction::SetSummoningSickness { object_id: b0, sick: b1 },
        ) => a0.same(&b0) && a1.same(&b1),
        (
            DebugAction::SetFaceState {
                object_id: a0,
                face_down: a1,
                transformed: a2,
                flipped: a3,
            },
            DebugAction::SetFaceState {
                object_id: b0,
                face_down: b1,
                transformed: b2,
                flipped: b3,
            },
        ) => a0.same(&b0) && a1.same(&b1) && a2.same(&b2) && a3.same(&b3),
        (
            DebugAction::Attach { object_id: a0, target: a1 },
            DebugAction::Attach { object_id: b0, target: b1 },
        ) => a0.same(&b0) && a1.same(&b1),
        (
            DebugAction::Detach { object_id: a0 },
            DebugAction::Detach { object_id: b0 },
        ) => a0.same(&b0),
        (
            DebugAction::GrantKeyword { object_id: a0, keyword: a1 },
            DebugAction::GrantKeyword { object_id: b0, keyword: b1 },
        ) => a0.same(&b0)
            && payload_order_laws::keyword_place(a1) == payload_order_laws::keyword_place(b1),
        (
            DebugAction::RemoveKeyword { object_id: a0, keyword: a1 },
            DebugAction::RemoveKeyword { object_id: b0, keyword: b1 },
        ) => a0.same(&b0)
            && payload_order_laws::keyword_place(a1) == payload_order_laws::keyword_place(b1),
        (
            DebugAction::SetLife { player_id: a0, life: a1 },
            DebugAction::SetLife { player_id: b0, life: b1 },
        ) => a0.same(&b0) && a1.same(&b1),
        (
            DebugAction::ModifyPlayerCounters { player_id: a0, counter_kind: a1, delta: a2 },
            DebugAction::ModifyPlayerCounters { player_id: b0, counter_kind: b1, delta: b2 },
        ) => a0.same(&b0) && a1.same(&b1) && a2.same(&b2),
        (
            DebugAction::ModifyEnergy { player_id: a0, delta: a1 },
            DebugAction::ModifyEnergy { player_id: b0, delta: b1 },
        ) => a0.same(&b0) && a1.same(&b1),
        (
            DebugAction::AddMana { player_id: a0, mana: a1 },
            DebugAction::AddMana { player_id: b0, mana: b1 },
        ) => a0.same(&b0) && a1.same(&b1),
        (
            DebugAction::SetInfiniteMana { player_id: a0, enabled: a1 },
            DebugAction::SetInfiniteMana { player_id: b0, enabled: b1 },
        ) => a0.same(&b0) && a1.same(&b1),
        (
            DebugAction::SetPhase { phase: a0, active_player: a1 },
            DebugAction::SetPhase { phase: b0, active_player: b1 },
        ) => a0.same(&b0) && a1.same(&b1),
        (DebugAction::RunStateBasedActions, DebugAction::RunStateBasedActions) => true,
        (
            DebugAction::CreateToken { request: a0, run_etb: a1 },
            DebugAction::CreateToken { request: b0, run_etb: b1 },
        ) => a0.same(&b0) && a1.same(&b1),
        (
            DebugAction::CreateTokenCopy { source_id: a0, owner: a1 },
            DebugAction::CreateTokenCopy { source_id: b0, owner: b1 },
        ) => a0.same(&b0) && a1.same(&b1),
        _ => false,
    }
}

/// Of two debug actions of one kind, the first comes before the second by the first declared field
/// in
/// which they differ.
pub open spec fn debug_precedes(a: DebugAction, b: DebugAction) -> bool {
    match (a, b) {
        (
            DebugAction::MoveToZone {
                object_id: a0,
                to_zone: a1,
                library_position: a2,
                simulate: a3,
            },
            DebugAction::MoveToZone {
                object_id: b0,
                to_zone: b1,
                library_position: b2,
                simulate: b3,
            },
        ) => a0.precedes(&b0) || (a0.same(&b0) && (a1.precedes(&b1) || (a1.same(&b1)
            && (a2.precedes(&b2) || (a2.same(&b2) && (a3.precedes(&b3))))))),
        (
            DebugAction::CreateCard {
                card_name: a0,
                owner: a1,
                zone: a2,
                attach_to: a3,
                run_etb: a4,
            },
            DebugAction::CreateCard {
                card_name: b0,
                owner: b1,
                zone: b2,
                attach_to: b3,
                run_etb: b4,
            },
        ) => a0.precedes(&b0) || (a0.same(&b0) && (a1.precedes(&b1) || (a1.same(&b1)
            && (a2.precedes(&b2) || (a2.same(&b2) && (a3.precedes(&b3) || (a3.same(&b3)
            && (a4.precedes(&b4))))))))),
        (
            DebugAction::RemoveObject { object_id: a0 },
            DebugAction::RemoveObject { object_id: b0 },
        ) => a0.precedes(&b0),
        (
            DebugAction::Sacrifice { object_id: a0 },
            DebugAction::Sacrifice { object_id: b0 },
        ) => a0.precedes(&b0),
        (
            DebugAction::DrawCards { player_id: a0, count: a1 },
            DebugAction::DrawCards { player_id: b0, count: b1 },
        ) => a0.precedes(&b0) || (a0.same(&b0) && (a1.precedes(&b1))),
        (
            DebugAction::Mill { player_id: a0, count: a1 },
            DebugAction::Mill { player_id: b0, count: b1 },
        ) => a0.precedes(&b0) || (a0.same(&b0) && (a1.precedes(&b1))),
        (
            DebugAction::Reveal { player_id: a0, count: a1 },
            DebugAction::Reveal { player_id: b0, count: b1 },
        ) => a0.precedes(&b0) || (a0.same(&b0) && (a1.precedes(&b1))),
        (
            DebugAction::ShuffleLibrary { player_id: a0 },
            DebugAction::ShuffleLibrary { player_id: b0 },
        ) => a0.precedes(&b0),
        (
            DebugAction::Proliferate { player_id: a0 },
            DebugAction::Proliferate { player_id: b0 },
        ) => a0.precedes(&b0),
        (
            DebugAction::SetBasePowerToughness { object_id: a0, power: a1, toughness: a2 },
            DebugAction::SetBasePowerToughness { object_id: b0, power: b1, toughness: b2 },
        ) => a0.precedes(&b0) || (a0.same(&b0) && (a1.precedes(&b1) || (a1.same(&b1)
            && (a2.precedes(&b2))))),
        (
            DebugAction::ModifyCounters { object_id: a0, counter_type: a1, delta: a2 },
            DebugAction::ModifyCounters { object_id: b0, counter_type: b1, delta: b2 },
        ) => a0.precedes(&b0) || (a0.same(&b0) && (a1.precedes(&b1) || (a1.same(&b1)
            && (a2.precedes(&b2))))),
        (
            DebugAction::SetTapped { object_id: a0, tapped: a1 },
            DebugAction::SetTapped { object_id: b0, tapped: b1 },
        ) => a0.precedes(&b0) || (a0.same(&b0) && (a1.precedes(&b1))),
        (
            DebugAction::SetPrepared { object_id: a0, prepared: a1 },
            DebugAction::SetPrepared { object_id: b0, prepared: b1 },
        ) => a0.precedes(&b0) || (a0.same(&b0) && (a1.precedes(&b1))),
        (
            DebugAction::SetController { object_id: a0, controller: a1 },
            DebugAction::SetController { object_id: b0, controller: b1 },
        ) => a0.precedes(&b0) || (a0.same(&b0) && (a1.precedes(&b1))),
        (
            DebugAction::SetSummoningSickness { object_id: a0, sick: a1 },
            DebugAction::SetSummoningSickness { object_id: b0, sick: b1 },
        ) => a0.precedes(&b0) || (a0.same(&b0) && (a1.precedes(&b1))),
        (
            DebugAction::SetFaceState {
                object_id: a0,
                face_down: a1,
                transformed: a2,
                flipped: a3,
            },
            DebugAction::SetFaceState {
                object_id: b0,
                face_down: b1,
                transformed: b2,
                flipped: b3,
            },
        ) => a0.precedes(&b0) || (a0.same(&b0) && (a1.precedes(&b1) || (a1.same(&b1)
            && (a2.precedes(&b2) || (a2.same(&b2) && (a3.precedes(&b3))))))),
        (
            DebugAction::Attach { object_id: a0, target: a1 },
            DebugAction::Attach { object_id: b0, target: b1 },
        ) => a0.precedes(&b0) || (a0.same(&b0) && (a1.precedes(&b1))),
        (
            DebugAction::Detach { object_id: a0 },
            DebugAction::Detach { object_id: b0 },
        ) => a0.precedes(&b0),
        (
            DebugAction::GrantKeyword { object_id: a0, keyword: a1 },
            DebugAction::GrantKeyword { object_id: b0, keyword: b1 },
        ) => a0.precedes(&b0) || (a0.same(&b0)
            && (payload_order_laws::keyword_place(a1) < payload_order_laws::keyword_place(b1))),
        (
            DebugAction::RemoveKeyword { object_id: a0, keyword: a1 },
            DebugAction::RemoveKeyword { object_id: b0, keyword: b1 },
        ) => a0.precedes(&b0) || (a0.same(&b0)
            && (payload_order_laws::keyword_place(a1) < payload_order_laws::keyword_place(b1))),
        (
            DebugAction::SetLife { player_id: a0, life: a1 },
            DebugAction::SetLife { player_id: b0, life: b1 },
        ) => a0.precedes(&b0) || (a0.same(&b0) && (a1.precedes(&b1))),
        (
            DebugAction::ModifyPlayerCounters { player_id: a0, counter_kind: a1, delta: a2 },
            DebugAction::ModifyPlayerCounters { player_id: b0, counter_kind: b1, delta: b2 },
        ) => a0.precedes(&b0) || (a0.same(&b0) && (a1.precedes(&b1) || (a1.same(&b1)
            && (a2.precedes(&b2))))),
        (
            DebugAction::ModifyEnergy { player_id: a0, delta: a1 },
            DebugAction::ModifyEnergy { player_id: b0, delta: b1 },
        ) => a0.precedes(&b0) || (a0.same(&b0) && (a1.precedes(&b1))),
        (
            DebugAction::AddMana { player_id: a0, mana: a1 },
            DebugAction::AddMana { player_id: b0, mana: b1 },
        ) => a0.precedes(&b0) || (a0.same(&b0) && (a1.precedes(&b1))),
        (
            DebugAction::SetInfiniteMana { player_id: a0, enabled: a1 },
            DebugAction::SetInfiniteMana { player_id: b0, enabled: b1 },
        ) => a0.precedes(&b0) || (a0.same(&b0) && (a1.precedes(&b1))),
        (
            DebugAction::SetPhase { phase: a0, active_player: a1 },
            DebugAction::SetPhase { phase: b0, active_player: b1 },
        ) => a0.precedes(&b0) || (a0.same(&b0) && (a1.precedes(&b1))),
        (
            DebugAction::CreateToken { request: a0, run_etb: a1 },
            DebugAction::CreateToken { request: b0, run_etb: b1 },
        ) => a0.precedes(&b0) || (a0.same(&b0) && (a1.precedes(&b1))),
        (
            DebugAction::CreateTokenCopy { source_id: a0, owner: a1 },
            DebugAction::CreateTokenCopy { source_id: b0, owner: b1 },
        ) => a0.precedes(&b0) || (a0.same(&b0) && (a1.precedes(&b1))),
        _ => false,
    }
}

proof fn lemma_debug_part0(a: DebugAction, b: DebugAction)
    requires
        0 <= debug_place(a) < 8,
        debug_place(a) == debug_place(b),
    ensures
        key::list_cmp(
            action_stable_order::debug_fields(a),
            action_stable_order::debug_fields(b),
        ) == natural::verdict(same_debug(a, b), debug_precedes(a, b)),
        !(same_debug(a, b) && debug_precedes(a, b)),
{
    match (a, b) {
        (
            DebugAction::MoveToZone {
                object_id: a0,
                to_zone: a1,
                library_position: a2,
                simulate: a3,
            },
            DebugAction::MoveToZone {
                object_id: b0,
                to_zone: b1,
                library_position: b2,
                simulate: b3,
            },
        ) => {
            natural::lemma_fields4(a0, b0, a1, b1, a2, b2, a3, b3);
        },
        (
            DebugAction::CreateCard {
                card_name: a0,
                owner: a1,
                zone: a2,
                attach_to: a3,
                run_etb: a4,
            },
            DebugAction::CreateCard {
                card_name: b0,
                owner: b1,
                zone: b2,
                attach_to: b3,
                run_etb: b4,
            },
        ) => {
            natural::lemma_fields5(a0, b0, a1, b1, a2, b2, a3, b3, a4, b4);
        },
        (
            DebugAction::RemoveObject { object_id: a0 },
            DebugAction::RemoveObject { object_id: b0 },
        ) => {
            natural::lemma_fields1(a0, b0);
        },
        (DebugAction::Sacrifice { object_id: a0 }, DebugAction::Sacrifice { object_id: b0 }) => {
            natural::lemma_fields1(a0, b0);
        },
        (
            DebugAction::DrawCards { player_id: a0, count: a1 },
            DebugAction::DrawCards { player_id: b0, count: b1 },
        ) => {
            natural::lemma_fields2(a0, b0, a1, b1);
        },
        (
            DebugAction::Mill { player_id: a0, count: a1 },
            DebugAction::Mill { player_id: b0, count: b1 },
        ) => {
            natural::lemma_fields2(a0, b0, a1, b1);
        },
        (
            DebugAction::Reveal { player_id: a0, count: a1 },
            DebugAction::Reveal { player_id: b0, count: b1 },
        ) => {
            natural::lemma_fields2(a0, b0, a1, b1);
        },
        (
            DebugAction::ShuffleLibrary { player_id: a0 },
            DebugAction::ShuffleLibrary { player_id: b0 },
        ) => {
            natural::lemma_fields1(a0, b0);
        },
        _ => {
            key::list_cmp_empty(
                action_stable_order::debug_fields(a),
                action_stable_order::debug_fields(b),
            );
        },
    }
}

proof fn lemma_debug_part1(a: DebugAction, b: DebugAction)
    requires
        8 <= debug_place(a) < 16,
        debug_place(a) == debug_place(b),
    ensures
        key::list_cmp(
            action_stable_order::debug_fields(a),
            action_stable_order::debug_fields(b),
        ) == natural::verdict(same_debug(a, b), debug_precedes(a, b)),
        !(same_debug(a, b) && debug_precedes(a, b)),
{
    match (a, b) {
        (
            DebugAction::Proliferate { player_id: a0 },
            DebugAction::Proliferate { player_id: b0 },
        ) => {
            natural::lemma_fields1(a0, b0);
        },
        (
            DebugAction::SetBasePowerToughness { object_id: a0, power: a1, toughness: a2 },
            DebugAction::SetBasePowerToughness { object_id: b0, power: b1, toughness: b2 },
        ) => {
            natural::lemma_fields3(a0, b0, a1, b1, a2, b2);
        },
        (
            DebugAction::ModifyCounters { object_id: a0, counter_type: a1, delta: a2 },
            DebugAction::ModifyCounters { object_id: b0, counter_type: b1, delta: b2 },
        ) => {
            natural::lemma_fields3(a0, b0, a1, b1, a2, b2);
        },
        (
            DebugAction::SetTapped { object_id: a0, tapped: a1 },
            DebugAction::SetTapped { object_id: b0, tapped: b1 },
        ) => {
            natural::lemma_fields2(a0, b0, a1, b1);
        },
        (
            DebugAction::SetPrepared { object_id: a0, prepared: a1 },
            DebugAction::SetPrepared { object_id: b0, prepared: b1 },
        ) => {
            natural::lemma_fields2(a0, b0, a1, b1);
        },
        (
            DebugAction::SetController { object_id: a0, controller: a1 },
            DebugAction::SetController { object_id: b0, controller: b1 },
        ) => {
            natural::lemma_fields2(a0, b0, a1, b1);
        },
        (
            DebugAction::SetSummoningSickness { object_id: a0, sick: a1 },
            DebugAction::SetSummoningSickness { object_id: b0, sick: b1 },
        ) => {
            natural::lemma_fields2(a0, b0, a1, b1);
        },
        (
            DebugAction::SetFaceState {
                object_id: a0,
                face_down: a1,
                transformed: a2,
                flipped: a3,
            },
            DebugAction::SetFaceState {
                object_id: b0,
                face_down: b1,
                transformed: b2,
                flipped: b3,
            },
        ) => {
            natural::lemma_fields4(a0, b0, a1, b1, a2, b2, a3, b3);
        },
        _ => {
            key::list_cmp_empty(
                action_stable_order::debug_fields(a),
                action_stable_order::debug_fields(b),
            );
        },
    }
}

proof fn lemma_debug_part2(a: DebugAction, b: DebugAction)
    requires
        16 <= debug_place(a) < 24,
        debug_place(a) == debug_place(b),
    ensures
        key::list_cmp(
            action_stable_order::debug_fields(a),
            action_stable_order::debug_fields(b),
        ) == natural::verdict(same_debug(a, b), debug_precedes(a, b)),
        !(same_debug(a, b) && debug_precedes(a, b)),
{
    match (a, b) {
        (
            DebugAction::Attach { object_id: a0, target: a1 },
            DebugAction::Attach { object_id: b0, target: b1 },
        ) => {
            natural::lemma_fields2(a0, b0, a1, b1);
        },
        (DebugAction::Detach { object_id: a0 }, DebugAction::Detach { object_id: b0 }) => {
            natural::lemma_fields1(a0, b0);
        },
        (
            DebugAction::GrantKeyword { object_id: a0, keyword: a1 },
            DebugAction::GrantKeyword { object_id: b0, keyword: b1 },
        ) => {
            payload_order_laws::lemma_keyword_place(a1);
            payload_order_laws::lemma_keyword_place(b1);
            natural::lemma_fields2(a0, b0, a1.kind_of(), b1.kind_of());
        },
        (
            DebugAction::RemoveKeyword { object_id: a0, keyword: a1 },
            DebugAction::RemoveKeyword { object_id: b0, keyword: b1 },
        ) => {
            payload_order_laws::lemma_keyword_place(a1);
            payload_order_laws::lemma_keyword_place(b1);
            natural::lemma_fields2(a0, b0, a1.kind_of(), b1.kind_of());
        },
        (
            DebugAction::SetLife { player_id: a0, life: a1 },
            DebugAction::SetLife { player_id: b0, life: b1 },
        ) => {
            natural::lemma_fields2(a0, b0, a1, b1);
        },
        (
            DebugAction::ModifyPlayerCounters { player_id: a0, counter_kind: a1, delta: a2 },
            DebugAction::ModifyPlayerCounters { player_id: b0, counter_kind: b1, delta: b2 },
        ) => {
            natural::lemma_fields3(a0, b0, a1, b1, a2, b2);
        },
        (
            DebugAction::ModifyEnergy { player_id: a0, delta: a1 },
            DebugAction::ModifyEnergy { player_id: b0, delta: b1 },
        ) => {
            natural::lemma_fields2(a0, b0, a1, b1);
        },
        (
            DebugAction::AddMana { player_id: a0, mana: a1 },
            DebugAction::AddMana { player_id: b0, mana: b1 },
        ) => {
            natural::lemma_fields2(a0, b0, a1, b1);
        },
        _ => {
            key::list_cmp_empty(
                action_stable_order::debug_fields(a),
                action_stable_order::debug_fields(b),
            );
        },
    }
}

proof fn lemma_debug_part3(a: DebugAction, b: DebugAction)
    requires
        24 <= debug_place(a) < 29,
        debug_place(a) == debug_place(b),
    ensures
        key::list_cmp(
            action_stable_order::debug_fields(a),
            action_stable_order::debug_fields(b),
        ) == natural::verdict(same_debug(a, b), debug_precedes(a, b)),
        !(same_debug(a, b) && debug_precedes(a, b)),
{
    match (a, b) {
        (
            DebugAction::SetInfiniteMana { player_id: a0, enabled: a1 },
            DebugAction::SetInfiniteMana { player_id: b0, enabled: b1 },
        ) => {
            natural::lemma_fields2(a0, b0, a1, b1);
        },
        (
            DebugAction::SetPhase { phase: a0, active_player: a1 },
            DebugAction::SetPhase { phase: b0, active_player: b1 },
        ) => {
            natural::lemma_fields2(a0, b0, a1, b1);
        },
        (
            DebugAction::CreateToken { request: a0, run_etb: a1 },
            DebugAction::CreateToken { request: b0, run_etb: b1 },
        ) => {
            natural::lemma_fields2(a0, b0, a1, b1);
        },
        (
            DebugAction::CreateTokenCopy { source_id: a0, owner: a1 },
            DebugAction::CreateTokenCopy { source_id: b0, owner: b1 },
        ) => {
            natural::lemma_fields2(a0, b0, a1, b1);
        },
        _ => {
            key::list_cmp_empty(
                action_stable_order::debug_fields(a),
                action_stable_order::debug_fields(b),
            );
        },
    }
}

proof fn lemma_debug(a: DebugAction, b: DebugAction)
    requires
        debug_place(a) == debug_place(b),
    ensures
        key::list_cmp(
            action_stable_order::debug_fields(a),
            action_stable_order::debug_fields(b),
        ) == natural::verdict(same_debug(a, b), debug_precedes(a, b)),
        !(same_debug(a, b) && debug_precedes(a, b)),
{
    if debug_place(a) < 8 {
        lemma_debug_part0(a, b);
    } else if debug_place(a) < 16 {
        lemma_debug_part1(a, b);
    } else if debug_place(a) < 24 {
        lemma_debug_part2(a, b);
    } else {
        lemma_debug_part3(a, b);
    }
}

impl Natural for DebugAction {
    open spec fn same(&self, other: &Self) -> bool {
        same_debug(*self, *other)
    }

    open spec fn precedes(&self, other: &Self) -> bool {
        debug_place(*self) < debug_place(*other) || debug_precedes(*self, *other)
    }

    proof fn stable_order_is_natural(&self, other: &Self) {
        let a = *self;
        let b = *other;
        reveal(action_stable_order::debug_rank);
        stable_ord::lemma_tagged(
            action_stable_order::debug_rank(a),
            action_stable_order::debug_fields(a),
            action_stable_order::debug_rank(b),
            action_stable_order::debug_fields(b),
        );
        if debug_place(a) == debug_place(b) {
            lemma_debug(a, b);
        } else {
            assert(!same_debug(a, b) && !debug_precedes(a, b));
        }
    }
}

} // verus!
