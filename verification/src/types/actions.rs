//! Player actions and debug actions.
use std::cmp::Ordering;
use vstd::prelude::*;

use crate::order::key::Key;
use crate::order::stable_ord::StableOrd;
use crate::types::action_payloads::{
    AlternativeCastDecision, AttachTarget, AttackTarget, AutoMayChoice, AutoPassMode, CastChoice,
    CastPaymentMode, CombatDamageMode, DoorLockOp, DungeonId, LearnOption, MergeSide,
    MulliganChoice, PhyrexianChoice, PileSide, PriorityYieldOp, RoomDoor, TargetRef,
};
use crate::types::card_type::CoreType;
use crate::types::counters::{CounterType, PlayerCounterKind};
use crate::types::identifiers::{CardId, ObjectId, PlayerId};
use crate::types::keywords::Keyword;
use crate::types::mana::{ManaColor, ManaType};
use crate::types::phase::Phase;
use crate::types::quantity::QuantityExpr;
use crate::types::tokens::TokenCharacteristics;
use crate::types::zones::Zone;

verus! {

/// Everything a player can submit.
#[allow(inconsistent_fields)]
#[derive(Clone, Debug, PartialEq, Eq, Hash)]
pub enum GameAction {
    PassPriority,
    PlayLand { object_id: ObjectId, card_id: CardId },
    CastSpell {
        object_id: ObjectId,
        card_id: CardId,
        targets: Vec<ObjectId>,
        payment_mode: CastPaymentMode,
    },
    Foretell { object_id: ObjectId, card_id: CardId },
    ActivateAbility { source_id: ObjectId, ability_index: usize },
    DeclareAttackers { attacks: Vec<(ObjectId, AttackTarget)>, bands: Vec<Vec<ObjectId>> },
    DeclareBlockers { assignments: Vec<(ObjectId, ObjectId)> },
    ChooseUntap { object_id: ObjectId, untap: bool },
    ChooseExert { exert: bool },
    ChooseEnlist { target: Option<ObjectId> },
    ChooseClashOpponent { opponent: PlayerId },
    ChooseAssistPlayer { player: Option<PlayerId> },
    CommitAssistPayment { generic: u32 },
    MulliganDecision { choice: MulliganChoice },
    ReorderHand { order: Vec<ObjectId> },
    TapLandForMana { object_id: ObjectId },
    UntapLandForMana { object_id: ObjectId },
    SpendPoolMana { pip_id: u64 },
    UnspendPoolMana { pip_id: u64 },
    SelectCards { cards: Vec<ObjectId> },
    ChooseRemoveCounterCostDistribution { distribution: Vec<(ObjectId, u32)> },
    SelectCoinFlips { keep_indices: Vec<usize> },
    ChooseOutsideGameCards { selections: Vec<(usize, u32)> },
    SelectTargets { targets: Vec<TargetRef> },
    ChooseTarget { target: Option<TargetRef> },
    ChooseReplacement { index: usize },
    OrderTriggers { order: Vec<usize> },
    CancelCast,
    Equip { equipment_id: ObjectId, target_id: ObjectId },
    CrewVehicle { vehicle_id: ObjectId, creature_ids: Vec<ObjectId> },
    ActivateStation { spacecraft_id: ObjectId, creature_id: Option<ObjectId> },
    SaddleMount { mount_id: ObjectId, creature_ids: Vec<ObjectId> },
    Transform { object_id: ObjectId },
    PlayFaceDown { object_id: ObjectId, card_id: CardId },
    TurnFaceUp { object_id: ObjectId },
    SubmitSideboard { main: Vec<(String, u32)>, sideboard: Vec<(String, u32)> },
    ChoosePlayDraw { play_first: bool },
    ChooseOption { choice: String },
    SubmitVoteCandidate { candidate_index: usize },
    SubmitSpellbookDraft { card: String },
    SubmitPilePartition { pile_a: Vec<ObjectId> },
    ChoosePile { pile: PileSide },
    ChooseBranch { index: usize },
    ChooseDamageSource { source: ObjectId },
    SelectModes { indices: Vec<usize> },
    DecideOptionalCost { pay: bool },
    ChooseAdventureFace { creature: bool },
    ChooseModalFace { back_face: bool },
    ChooseAlternativeCast { choice: AlternativeCastDecision },
    ChooseCastingVariant { index: usize },
    KeepAllCopyTargets,
    ChoosePermanentTypeSlot { slot: CoreType },
    ActivateNinjutsu { ninjutsu_object_id: ObjectId, creature_to_return: ObjectId },
    CastSpellAsSneak {
        hand_object: ObjectId,
        card_id: CardId,
        creature_to_return: ObjectId,
        payment_mode: CastPaymentMode,
    },
    CastSpellAsWebSlinging {
        hand_object: ObjectId,
        card_id: CardId,
        creature_to_return: ObjectId,
        payment_mode: CastPaymentMode,
    },
    CastSpellForFree {
        object_id: ObjectId,
        card_id: CardId,
        source_id: ObjectId,
        payment_mode: CastPaymentMode,
    },
    CastSpellAsMiracle { object_id: ObjectId, card_id: CardId, payment_mode: CastPaymentMode },
    CastSpellAsMadness { object_id: ObjectId, card_id: CardId, payment_mode: CastPaymentMode },
    DecideOptionalEffect { accept: bool },
    RespondToSpliceOffer { card: Option<ObjectId> },
    DecideOptionalEffectAndRemember { choice: AutoMayChoice },
    PayUnlessCost { pay: bool },
    ChooseUnlessCostBranch { choice: Option<usize> },
    ChooseActivationCostBranch { index: usize },
    PayCombatTax { accept: bool },
    ChooseRingBearer { target: ObjectId },
    ChoosePair { partner: Option<ObjectId> },
    ChooseDungeon { dungeon: DungeonId },
    ChooseDungeonRoom { room_index: usize },
    UnlockRoomDoor { object_id: ObjectId, door: RoomDoor },
    RollPlanarDie,
    ChooseRoomDoor { object_id: ObjectId, op: DoorLockOp, door: RoomDoor },
    TapForConvoke { object_id: ObjectId, mana_type: ManaType },
    HarmonizeTap { creature_id: Option<ObjectId> },
    DeclareCompanion { card_index: Option<usize> },
    CompanionToHand,
    DiscoverChoice { choice: CastChoice },
    GraveyardPaidCastChoice { choice: CastChoice },
    CascadeChoice { choice: CastChoice },
    RippleChoice { choice: CastChoice },
    FreeCastWindowChoice { selection: Option<ObjectId> },
    ChooseTopOrBottom { top: bool },
    ChooseMutateMergeSide { side: MergeSide },
    CipherEncode { creature: Option<ObjectId> },
    ChooseLegend { keep: ObjectId },
    ChooseBattleProtector { protector: PlayerId },
    SetAutoPass { mode: AutoPassMode },
    CancelAutoPass,
    SetPhaseStops { stops: Vec<Phase> },
    SetPriorityYield { op: PriorityYieldOp },
    AssignCombatDamage {
        mode: CombatDamageMode,
        assignments: Vec<(ObjectId, u32)>,
        trample_damage: u32,
        controller_damage: u32,
    },
    AssignBlockerDamage { assignments: Vec<(ObjectId, u32)> },
    DistributeAmong { distribution: Vec<(TargetRef, u32)> },
    ChooseCounterMoveDistribution { selections: Vec<(CounterType, u32)> },
    ChooseCountersToRemove { selections: Vec<(CounterType, u32)> },
    SubmitPayAmount { amount: u32 },
    RetargetSpell { new_targets: Vec<TargetRef> },
    LearnDecision { choice: LearnOption },
    SelectCategoryPermanents { choices: Vec<Option<ObjectId>> },
    ChooseKeptCreatures { kept: Vec<ObjectId> },
    ChooseX { value: u32 },
    SubmitPhyrexianChoices { choices: Vec<PhyrexianChoice> },
    ChooseManaColor { choice: ManaType, count: u32 },
    PayManaAbilityMana { payment: Vec<ManaType> },
    CastPreparedCopy { source: ObjectId },
    ChooseSpecializeColor { color: ManaColor },
    CastParadigmCopy { source: ObjectId },
    PassParadigmOffer,
    Debug(DebugAction),
    GrantDebugPermission { player_id: PlayerId },
    RevokeDebugPermission { player_id: PlayerId },
    Concede { player_id: PlayerId },
    SubmitLifeAuctionBid { amount: u32 },
    PassLifeAuction,
    ChooseGiftRecipient { opponent: PlayerId },
}

/// The discriminant of an action, in declaration order.
#[derive(Clone, Copy, Debug, PartialEq, Eq, Structural, Hash)]
pub enum GameActionKind {
    PassPriority,
    PlayLand,
    CastSpell,
    Foretell,
    ActivateAbility,
    DeclareAttackers,
    DeclareBlockers,
    ChooseUntap,
    ChooseExert,
    ChooseEnlist,
    ChooseClashOpponent,
    ChooseAssistPlayer,
    CommitAssistPayment,
    MulliganDecision,
    ReorderHand,
    TapLandForMana,
    UntapLandForMana,
    SpendPoolMana,
    UnspendPoolMana,
    SelectCards,
    ChooseRemoveCounterCostDistribution,
    SelectCoinFlips,
    ChooseOutsideGameCards,
    SelectTargets,
    ChooseTarget,
    ChooseReplacement,
    OrderTriggers,
    CancelCast,
    Equip,
    CrewVehicle,
    ActivateStation,
    SaddleMount,
    Transform,
    PlayFaceDown,
    TurnFaceUp,
    SubmitSideboard,
    ChoosePlayDraw,
    ChooseOption,
    SubmitVoteCandidate,
    SubmitSpellbookDraft,
    SubmitPilePartition,
    ChoosePile,
    ChooseBranch,
    ChooseDamageSource,
    SelectModes,
    DecideOptionalCost,
    ChooseAdventureFace,
    ChooseModalFace,
    ChooseAlternativeCast,
    ChooseCastingVariant,
    KeepAllCopyTargets,
    ChoosePermanentTypeSlot,
    ActivateNinjutsu,
    CastSpellAsSneak,
    CastSpellAsWebSlinging,
    CastSpellForFree,
    CastSpellAsMiracle,
    CastSpellAsMadness,
    DecideOptionalEffect,
    RespondToSpliceOffer,
    DecideOptionalEffectAndRemember,
    PayUnlessCost,
    ChooseUnlessCostBranch,
    ChooseActivationCostBranch,
    PayCombatTax,
    ChooseRingBearer,
    ChoosePair,
    ChooseDungeon,
    ChooseDungeonRoom,
    UnlockRoomDoor,
    RollPlanarDie,
    ChooseRoomDoor,
    TapForConvoke,
    HarmonizeTap,
    DeclareCompanion,
    CompanionToHand,
    DiscoverChoice,
    GraveyardPaidCastChoice,
    CascadeChoice,
    RippleChoice,
    FreeCastWindowChoice,
    ChooseTopOrBottom,
    ChooseMutateMergeSide,
    CipherEncode,
    ChooseLegend,
    ChooseBattleProtector,
    SetAutoPass,
    CancelAutoPass,
    SetPhaseStops,
    SetPriorityYield,
    AssignCombatDamage,
    AssignBlockerDamage,
    DistributeAmong,
    ChooseCounterMoveDistribution,
    ChooseCountersToRemove,
    SubmitPayAmount,
    RetargetSpell,
    LearnDecision,
    SelectCategoryPermanents,
    ChooseKeptCreatures,
    ChooseX,
    SubmitPhyrexianChoices,
    ChooseManaColor,
    PayManaAbilityMana,
    CastPreparedCopy,
    ChooseSpecializeColor,
    CastParadigmCopy,
    PassParadigmOffer,
    Debug,
    GrantDebugPermission,
    RevokeDebugPermission,
    Concede,
    SubmitLifeAuctionBid,
    PassLifeAuction,
    ChooseGiftRecipient,
}

impl GameActionKind {
    /// Position of the variant in the declaration.
    #[verifier::opaque]
    pub open spec fn rank(&self) -> int {
        match self {
            GameActionKind::PassPriority => 0,
            GameActionKind::PlayLand => 1,
            GameActionKind::CastSpell => 2,
            GameActionKind::Foretell => 3,
            GameActionKind::ActivateAbility => 4,
            GameActionKind::DeclareAttackers => 5,
            GameActionKind::DeclareBlockers => 6,
            GameActionKind::ChooseUntap => 7,
            GameActionKind::ChooseExert => 8,
            GameActionKind::ChooseEnlist => 9,
            GameActionKind::ChooseClashOpponent => 10,
            GameActionKind::ChooseAssistPlayer => 11,
            GameActionKind::CommitAssistPayment => 12,
            GameActionKind::MulliganDecision => 13,
            GameActionKind::ReorderHand => 14,
            GameActionKind::TapLandForMana => 15,
            GameActionKind::UntapLandForMana => 16,
            GameActionKind::SpendPoolMana => 17,
            GameActionKind::UnspendPoolMana => 18,
            GameActionKind::SelectCards => 19,
            GameActionKind::ChooseRemoveCounterCostDistribution => 20,
            GameActionKind::SelectCoinFlips => 21,
            GameActionKind::ChooseOutsideGameCards => 22,
            GameActionKind::SelectTargets => 23,
            GameActionKind::ChooseTarget => 24,
            GameActionKind::ChooseReplacement => 25,
            GameActionKind::OrderTriggers => 26,
            GameActionKind::CancelCast => 27,
            GameActionKind::Equip => 28,
            GameActionKind::CrewVehicle => 29,
            GameActionKind::ActivateStation => 30,
            GameActionKind::SaddleMount => 31,
            GameActionKind::Transform => 32,
            GameActionKind::PlayFaceDown => 33,
            GameActionKind::TurnFaceUp => 34,
            GameActionKind::SubmitSideboard => 35,
            GameActionKind::ChoosePlayDraw => 36,
            GameActionKind::ChooseOption => 37,
            GameActionKind::SubmitVoteCandidate => 38,
            GameActionKind::SubmitSpellbookDraft => 39,
            GameActionKind::SubmitPilePartition => 40,
            GameActionKind::ChoosePile => 41,
            GameActionKind::ChooseBranch => 42,
            GameActionKind::ChooseDamageSource => 43,
            GameActionKind::SelectModes => 44,
            GameActionKind::DecideOptionalCost => 45,
            GameActionKind::ChooseAdventureFace => 46,
            GameActionKind::ChooseModalFace => 47,
            GameActionKind::ChooseAlternativeCast => 48,
            GameActionKind::ChooseCastingVariant => 49,
            GameActionKind::KeepAllCopyTargets => 50,
            GameActionKind::ChoosePermanentTypeSlot => 51,
            GameActionKind::ActivateNinjutsu => 52,
            GameActionKind::CastSpellAsSneak => 53,
            GameActionKind::CastSpellAsWebSlinging => 54,
            GameActionKind::CastSpellForFree => 55,
            GameActionKind::CastSpellAsMiracle => 56,
            GameActionKind::CastSpellAsMadness => 57,
            GameActionKind::DecideOptionalEffect => 58,
            GameActionKind::RespondToSpliceOffer => 59,
            GameActionKind::DecideOptionalEffectAndRemember => 60,
            GameActionKind::PayUnlessCost => 61,
            GameActionKind::ChooseUnlessCostBranch => 62,
            GameActionKind::ChooseActivationCostBranch => 63,
            GameActionKind::PayCombatTax => 64,
            GameActionKind::ChooseRingBearer => 65,
            GameActionKind::ChoosePair => 66,
            GameActionKind::ChooseDungeon => 67,
            GameActionKind::ChooseDungeonRoom => 68,
            GameActionKind::UnlockRoomDoor => 69,
            GameActionKind::RollPlanarDie => 70,
            GameActionKind::ChooseRoomDoor => 71,
            GameActionKind::TapForConvoke => 72,
            GameActionKind::HarmonizeTap => 73,
            GameActionKind::DeclareCompanion => 74,
            GameActionKind::CompanionToHand => 75,
            GameActionKind::DiscoverChoice => 76,
            GameActionKind::GraveyardPaidCastChoice => 77,
            GameActionKind::CascadeChoice => 78,
            GameActionKind::RippleChoice => 79,
            GameActionKind::FreeCastWindowChoice => 80,
            GameActionKind::ChooseTopOrBottom => 81,
            GameActionKind::ChooseMutateMergeSide => 82,
            GameActionKind::CipherEncode => 83,
            GameActionKind::ChooseLegend => 84,
            GameActionKind::ChooseBattleProtector => 85,
            GameActionKind::SetAutoPass => 86,
            GameActionKind::CancelAutoPass => 87,
            GameActionKind::SetPhaseStops => 88,
            GameActionKind::SetPriorityYield => 89,
            GameActionKind::AssignCombatDamage => 90,
            GameActionKind::AssignBlockerDamage => 91,
            GameActionKind::DistributeAmong => 92,
            GameActionKind::ChooseCounterMoveDistribution => 93,
            GameActionKind::ChooseCountersToRemove => 94,
            GameActionKind::SubmitPayAmount => 95,
            GameActionKind::RetargetSpell => 96,
            GameActionKind::LearnDecision => 97,
            GameActionKind::SelectCategoryPermanents => 98,
            GameActionKind::ChooseKeptCreatures => 99,
            GameActionKind::ChooseX => 100,
            GameActionKind::SubmitPhyrexianChoices => 101,
            GameActionKind::ChooseManaColor => 102,
            GameActionKind::PayManaAbilityMana => 103,
            GameActionKind::CastPreparedCopy => 104,
            GameActionKind::ChooseSpecializeColor => 105,
            GameActionKind::CastParadigmCopy => 106,
            GameActionKind::PassParadigmOffer => 107,
            GameActionKind::Debug => 108,
            GameActionKind::GrantDebugPermission => 109,
            GameActionKind::RevokeDebugPermission => 110,
            GameActionKind::Concede => 111,
            GameActionKind::SubmitLifeAuctionBid => 112,
            GameActionKind::PassLifeAuction => 113,
            GameActionKind::ChooseGiftRecipient => 114,
        }
    }

    pub fn ordinal(&self) -> (r: u8)
        ensures
            r == self.rank(),
    {
        proof {
            reveal(GameActionKind::rank);
        }
        match self {
            GameActionKind::PassPriority => 0,
            GameActionKind::PlayLand => 1,
            GameActionKind::CastSpell => 2,
            GameActionKind::Foretell => 3,
            GameActionKind::ActivateAbility => 4,
            GameActionKind::DeclareAttackers => 5,
            GameActionKind::DeclareBlockers => 6,
            GameActionKind::ChooseUntap => 7,
            GameActionKind::ChooseExert => 8,
            GameActionKind::ChooseEnlist => 9,
            GameActionKind::ChooseClashOpponent => 10,
            GameActionKind::ChooseAssistPlayer => 11,
            GameActionKind::CommitAssistPayment => 12,
            GameActionKind::MulliganDecision => 13,
            GameActionKind::ReorderHand => 14,
            GameActionKind::TapLandForMana => 15,
            GameActionKind::UntapLandForMana => 16,
            GameActionKind::SpendPoolMana => 17,
            GameActionKind::UnspendPoolMana => 18,
            GameActionKind::SelectCards => 19,
            GameActionKind::ChooseRemoveCounterCostDistribution => 20,
            GameActionKind::SelectCoinFlips => 21,
            GameActionKind::ChooseOutsideGameCards => 22,
            GameActionKind::SelectTargets => 23,
            GameActionKind::ChooseTarget => 24,
            GameActionKind::ChooseReplacement => 25,
            GameActionKind::OrderTriggers => 26,
            GameActionKind::CancelCast => 27,
            GameActionKind::Equip => 28,
            GameActionKind::CrewVehicle => 29,
            GameActionKind::ActivateStation => 30,
            GameActionKind::SaddleMount => 31,
            GameActionKind::Transform => 32,
            GameActionKind::PlayFaceDown => 33,
            GameActionKind::TurnFaceUp => 34,
            GameActionKind::SubmitSideboard => 35,
            GameActionKind::ChoosePlayDraw => 36,
            GameActionKind::ChooseOption => 37,
            GameActionKind::SubmitVoteCandidate => 38,
            GameActionKind::SubmitSpellbookDraft => 39,
            GameActionKind::SubmitPilePartition => 40,
            GameActionKind::ChoosePile => 41,
            GameActionKind::ChooseBranch => 42,
            GameActionKind::ChooseDamageSource => 43,
            GameActionKind::SelectModes => 44,
            GameActionKind::DecideOptionalCost => 45,
            GameActionKind::ChooseAdventureFace => 46,
            GameActionKind::ChooseModalFace => 47,
            GameActionKind::ChooseAlternativeCast => 48,
            GameActionKind::ChooseCastingVariant => 49,
            GameActionKind::KeepAllCopyTargets => 50,
            GameActionKind::ChoosePermanentTypeSlot => 51,
            GameActionKind::ActivateNinjutsu => 52,
            GameActionKind::CastSpellAsSneak => 53,
            GameActionKind::CastSpellAsWebSlinging => 54,
            GameActionKind::CastSpellForFree => 55,
            GameActionKind::CastSpellAsMiracle => 56,
            GameActionKind::CastSpellAsMadness => 57,
            GameActionKind::DecideOptionalEffect => 58,
            GameActionKind::RespondToSpliceOffer => 59,
            GameActionKind::DecideOptionalEffectAndRemember => 60,
            GameActionKind::PayUnlessCost => 61,
            GameActionKind::ChooseUnlessCostBranch => 62,
            GameActionKind::ChooseActivationCostBranch => 63,
            GameActionKind::PayCombatTax => 64,
            GameActionKind::ChooseRingBearer => 65,
            GameActionKind::ChoosePair => 66,
            GameActionKind::ChooseDungeon => 67,
            GameActionKind::ChooseDungeonRoom => 68,
            GameActionKind::UnlockRoomDoor => 69,
            GameActionKind::RollPlanarDie => 70,
            GameActionKind::ChooseRoomDoor => 71,
            GameActionKind::TapForConvoke => 72,
            GameActionKind::HarmonizeTap => 73,
            GameActionKind::DeclareCompanion => 74,
            GameActionKind::CompanionToHand => 75,
            GameActionKind::DiscoverChoice => 76,
            GameActionKind::GraveyardPaidCastChoice => 77,
            GameActionKind::CascadeChoice => 78,
            GameActionKind::RippleChoice => 79,
            GameActionKind::FreeCastWindowChoice => 80,
            GameActionKind::ChooseTopOrBottom => 81,
            GameActionKind::ChooseMutateMergeSide => 82,
            GameActionKind::CipherEncode => 83,
            GameActionKind::ChooseLegend => 84,
            GameActionKind::ChooseBattleProtector => 85,
            GameActionKind::SetAutoPass => 86,
            GameActionKind::CancelAutoPass => 87,
            GameActionKind::SetPhaseStops => 88,
            GameActionKind::SetPriorityYield => 89,
            GameActionKind::AssignCombatDamage => 90,
            GameActionKind::AssignBlockerDamage => 91,
            GameActionKind::DistributeAmong => 92,
            GameActionKind::ChooseCounterMoveDistribution => 93,
            GameActionKind::ChooseCountersToRemove => 94,
            GameActionKind::SubmitPayAmount => 95,
            GameActionKind::RetargetSpell => 96,
            GameActionKind::LearnDecision => 97,
            GameActionKind::SelectCategoryPermanents => 98,
            GameActionKind::ChooseKeptCreatures => 99,
            GameActionKind::ChooseX => 100,
            GameActionKind::SubmitPhyrexianChoices => 101,
            GameActionKind::ChooseManaColor => 102,
            GameActionKind::PayManaAbilityMana => 103,
            GameActionKind::CastPreparedCopy => 104,
            GameActionKind::ChooseSpecializeColor => 105,
            GameActionKind::CastParadigmCopy => 106,
            GameActionKind::PassParadigmOffer => 107,
            GameActionKind::Debug => 108,
            GameActionKind::GrantDebugPermission => 109,
            GameActionKind::RevokeDebugPermission => 110,
            GameActionKind::Concede => 111,
            GameActionKind::SubmitLifeAuctionBid => 112,
            GameActionKind::PassLifeAuction => 113,
            GameActionKind::ChooseGiftRecipient => 114,
        }
    }
}

impl StableOrd for GameActionKind {
    open spec fn key(&self) -> Key {
        Key::Num(self.rank())
    }

    fn stable_cmp(&self, other: &Self) -> (o: Ordering) {
        self.ordinal().stable_cmp(&other.ordinal())
    }
}

/// No two kinds share a rank.
pub proof fn kind_rank_injective(a: GameActionKind, b: GameActionKind)
    requires
        a.rank() == b.rank(),
    ensures
        a == b,
{
    reveal(GameActionKind::rank);
}

impl GameAction {
    pub open spec fn kind_of(&self) -> GameActionKind {
        match self {
            GameAction::PassPriority => GameActionKind::PassPriority,
            GameAction::PlayLand { .. } => GameActionKind::PlayLand,
            GameAction::CastSpell { .. } => GameActionKind::CastSpell,
            GameAction::Foretell { .. } => GameActionKind::Foretell,
            GameAction::ActivateAbility { .. } => GameActionKind::ActivateAbility,
            GameAction::DeclareAttackers { .. } => GameActionKind::DeclareAttackers,
            GameAction::DeclareBlockers { .. } => GameActionKind::DeclareBlockers,
            GameAction::ChooseUntap { .. } => GameActionKind::ChooseUntap,
            GameAction::ChooseExert { .. } => GameActionKind::ChooseExert,
            GameAction::ChooseEnlist { .. } => GameActionKind::ChooseEnlist,
            GameAction::ChooseClashOpponent { .. } => GameActionKind::ChooseClashOpponent,
            GameAction::ChooseAssistPlayer { .. } => GameActionKind::ChooseAssistPlayer,
            GameAction::CommitAssistPayment { .. } => GameActionKind::CommitAssistPayment,
            GameAction::MulliganDecision { .. } => GameActionKind::MulliganDecision,
            GameAction::ReorderHand { .. } => GameActionKind::ReorderHand,
            GameAction::TapLandForMana { .. } => GameActionKind::TapLandForMana,
            GameAction::UntapLandForMana { .. } => GameActionKind::UntapLandForMana,
            GameAction::SpendPoolMana { .. } => GameActionKind::SpendPoolMana,
            GameAction::UnspendPoolMana { .. } => GameActionKind::UnspendPoolMana,
            GameAction::SelectCards { .. } => GameActionKind::SelectCards,
            GameAction::ChooseRemoveCounterCostDistribution { .. } => {
                GameActionKind::ChooseRemoveCounterCostDistribution
            },
            GameAction::SelectCoinFlips { .. } => GameActionKind::SelectCoinFlips,
            GameAction::ChooseOutsideGameCards { .. } => GameActionKind::ChooseOutsideGameCards,
            GameAction::SelectTargets { .. } => GameActionKind::SelectTargets,
            GameAction::ChooseTarget { .. } => GameActionKind::ChooseTarget,
            GameAction::ChooseReplacement { .. } => GameActionKind::ChooseReplacement,
            GameAction::OrderTriggers { .. } => GameActionKind::OrderTriggers,
            GameAction::CancelCast => GameActionKind::CancelCast,
            GameAction::Equip { .. } => GameActionKind::Equip,
            GameAction::CrewVehicle { .. } => GameActionKind::CrewVehicle,
            GameAction::ActivateStation { .. } => GameActionKind::ActivateStation,
            GameAction::SaddleMount { .. } => GameActionKind::SaddleMount,
            GameAction::Transform { .. } => GameActionKind::Transform,
            GameAction::PlayFaceDown { .. } => GameActionKind::PlayFaceDown,
            GameAction::TurnFaceUp { .. } => GameActionKind::TurnFaceUp,
            GameAction::SubmitSideboard { .. } => GameActionKind::SubmitSideboard,
            GameAction::ChoosePlayDraw { .. } => GameActionKind::ChoosePlayDraw,
            GameAction::ChooseOption { .. } => GameActionKind::ChooseOption,
            GameAction::SubmitVoteCandidate { .. } => GameActionKind::SubmitVoteCandidate,
            GameAction::SubmitSpellbookDraft { .. } => GameActionKind::SubmitSpellbookDraft,
            GameAction::SubmitPilePartition { .. } => GameActionKind::SubmitPilePartition,
            GameAction::ChoosePile { .. } => GameActionKind::ChoosePile,
            GameAction::ChooseBranch { .. } => GameActionKind::ChooseBranch,
            GameAction::ChooseDamageSource { .. } => GameActionKind::ChooseDamageSource,
            GameAction::SelectModes { .. } => GameActionKind::SelectModes,
            GameAction::DecideOptionalCost { .. } => GameActionKind::DecideOptionalCost,
            GameAction::ChooseAdventureFace { .. } => GameActionKind::ChooseAdventureFace,
            GameAction::ChooseModalFace { .. } => GameActionKind::ChooseModalFace,
            GameAction::ChooseAlternativeCast { .. } => GameActionKind::ChooseAlternativeCast,
            GameAction::ChooseCastingVariant { .. } => GameActionKind::ChooseCastingVariant,
            GameAction::KeepAllCopyTargets => GameActionKind::KeepAllCopyTargets,
            GameAction::ChoosePermanentTypeSlot { .. } => GameActionKind::ChoosePermanentTypeSlot,
            GameAction::ActivateNinjutsu { .. } => GameActionKind::ActivateNinjutsu,
            GameAction::CastSpellAsSneak { .. } => GameActionKind::CastSpellAsSneak,
            GameAction::CastSpellAsWebSlinging { .. } => GameActionKind::CastSpellAsWebSlinging,
            GameAction::CastSpellForFree { .. } => GameActionKind::CastSpellForFree,
            GameAction::CastSpellAsMiracle { .. } => GameActionKind::CastSpellAsMiracle,
            GameAction::CastSpellAsMadness { .. } => GameActionKind::CastSpellAsMadness,
            GameAction::DecideOptionalEffect { .. } => GameActionKind::DecideOptionalEffect,
            GameAction::RespondToSpliceOffer { .. } => GameActionKind::RespondToSpliceOffer,
            GameAction::DecideOptionalEffectAndRemember { .. } => {
                GameActionKind::DecideOptionalEffectAndRemember
            },
            GameAction::PayUnlessCost { .. } => GameActionKind::PayUnlessCost,
            GameAction::ChooseUnlessCostBranch { .. } => GameActionKind::ChooseUnlessCostBranch,
            GameAction::ChooseActivationCostBranch { .. } => {
                GameActionKind::ChooseActivationCostBranch
            },
            GameAction::PayCombatTax { .. } => GameActionKind::PayCombatTax,
            GameAction::ChooseRingBearer { .. } => GameActionKind::ChooseRingBearer,
            GameAction::ChoosePair { .. } => GameActionKind::ChoosePair,
            GameAction::ChooseDungeon { .. } => GameActionKind::ChooseDungeon,
            GameAction::ChooseDungeonRoom { .. } => GameActionKind::ChooseDungeonRoom,
            GameAction::UnlockRoomDoor { .. } => GameActionKind::UnlockRoomDoor,
            GameAction::RollPlanarDie => GameActionKind::RollPlanarDie,
            GameAction::ChooseRoomDoor { .. } => GameActionKind::ChooseRoomDoor,
            GameAction::TapForConvoke { .. } => GameActionKind::TapForConvoke,
            GameAction::HarmonizeTap { .. } => GameActionKind::HarmonizeTap,
            GameAction::DeclareCompanion { .. } => GameActionKind::DeclareCompanion,
            GameAction::CompanionToHand => GameActionKind::CompanionToHand,
            GameAction::DiscoverChoice { .. } => GameActionKind::DiscoverChoice,
            GameAction::GraveyardPaidCastChoice { .. } => GameActionKind::GraveyardPaidCastChoice,
            GameAction::CascadeChoice { .. } => GameActionKind::CascadeChoice,
            GameAction::RippleChoice { .. } => GameActionKind::RippleChoice,
            GameAction::FreeCastWindowChoice { .. } => GameActionKind::FreeCastWindowChoice,
            GameAction::ChooseTopOrBottom { .. } => GameActionKind::ChooseTopOrBottom,
            GameAction::ChooseMutateMergeSide { .. } => GameActionKind::ChooseMutateMergeSide,
            GameAction::CipherEncode { .. } => GameActionKind::CipherEncode,
            GameAction::ChooseLegend { .. } => GameActionKind::ChooseLegend,
            GameAction::ChooseBattleProtector { .. } => GameActionKind::ChooseBattleProtector,
            GameAction::SetAutoPass { .. } => GameActionKind::SetAutoPass,
            GameAction::CancelAutoPass => GameActionKind::CancelAutoPass,
            GameAction::SetPhaseStops { .. } => GameActionKind::SetPhaseStops,
            GameAction::SetPriorityYield { .. } => GameActionKind::SetPriorityYield,
            GameAction::AssignCombatDamage { .. } => GameActionKind::AssignCombatDamage,
            GameAction::AssignBlockerDamage { .. } => GameActionKind::AssignBlockerDamage,
            GameAction::DistributeAmong { .. } => GameActionKind::DistributeAmong,
            GameAction::ChooseCounterMoveDistribution { .. } => {
                GameActionKind::ChooseCounterMoveDistribution
            },
            GameAction::ChooseCountersToRemove { .. } => GameActionKind::ChooseCountersToRemove,
            GameAction::SubmitPayAmount { .. } => GameActionKind::SubmitPayAmount,
            GameAction::RetargetSpell { .. } => GameActionKind::RetargetSpell,
            GameAction::LearnDecision { .. } => GameActionKind::LearnDecision,
            GameAction::SelectCategoryPermanents { .. } => GameActionKind::SelectCategoryPermanents,
            GameAction::ChooseKeptCreatures { .. } => GameActionKind::ChooseKeptCreatures,
            GameAction::ChooseX { .. } => GameActionKind::ChooseX,
            GameAction::SubmitPhyrexianChoices { .. } => GameActionKind::SubmitPhyrexianChoices,
            GameAction::ChooseManaColor { .. } => GameActionKind::ChooseManaColor,
            GameAction::PayManaAbilityMana { .. } => GameActionKind::PayManaAbilityMana,
            GameAction::CastPreparedCopy { .. } => GameActionKind::CastPreparedCopy,
            GameAction::ChooseSpecializeColor { .. } => GameActionKind::ChooseSpecializeColor,
            GameAction::CastParadigmCopy { .. } => GameActionKind::CastParadigmCopy,
            GameAction::PassParadigmOffer => GameActionKind::PassParadigmOffer,
            GameAction::Debug(..) => GameActionKind::Debug,
            GameAction::GrantDebugPermission { .. } => GameActionKind::GrantDebugPermission,
            GameAction::RevokeDebugPermission { .. } => GameActionKind::RevokeDebugPermission,
            GameAction::Concede { .. } => GameActionKind::Concede,
            GameAction::SubmitLifeAuctionBid { .. } => GameActionKind::SubmitLifeAuctionBid,
            GameAction::PassLifeAuction => GameActionKind::PassLifeAuction,
            GameAction::ChooseGiftRecipient { .. } => GameActionKind::ChooseGiftRecipient,
        }
    }

    /// The action's discriminant.
    pub fn kind(&self) -> (k: GameActionKind)
        ensures
            k == self.kind_of(),
    {
        match self {
            GameAction::PassPriority => GameActionKind::PassPriority,
            GameAction::PlayLand { .. } => GameActionKind::PlayLand,
            GameAction::CastSpell { .. } => GameActionKind::CastSpell,
            GameAction::Foretell { .. } => GameActionKind::Foretell,
            GameAction::ActivateAbility { .. } => GameActionKind::ActivateAbility,
            GameAction::DeclareAttackers { .. } => GameActionKind::DeclareAttackers,
            GameAction::DeclareBlockers { .. } => GameActionKind::DeclareBlockers,
            GameAction::ChooseUntap { .. } => GameActionKind::ChooseUntap,
            GameAction::ChooseExert { .. } => GameActionKind::ChooseExert,
            GameAction::ChooseEnlist { .. } => GameActionKind::ChooseEnlist,
            GameAction::ChooseClashOpponent { .. } => GameActionKind::ChooseClashOpponent,
            GameAction::ChooseAssistPlayer { .. } => GameActionKind::ChooseAssistPlayer,
            GameAction::CommitAssistPayment { .. } => GameActionKind::CommitAssistPayment,
            GameAction::MulliganDecision { .. } => GameActionKind::MulliganDecision,
            GameAction::ReorderHand { .. } => GameActionKind::ReorderHand,
            GameAction::TapLandForMana { .. } => GameActionKind::TapLandForMana,
            GameAction::UntapLandForMana { .. } => GameActionKind::UntapLandForMana,
            GameAction::SpendPoolMana { .. } => GameActionKind::SpendPoolMana,
            GameAction::UnspendPoolMana { .. } => GameActionKind::UnspendPoolMana,
            GameAction::SelectCards { .. } => GameActionKind::SelectCards,
            GameAction::ChooseRemoveCounterCostDistribution { .. } => {
                GameActionKind::ChooseRemoveCounterCostDistribution
            },
            GameAction::SelectCoinFlips { .. } => GameActionKind::SelectCoinFlips,
            GameAction::ChooseOutsideGameCards { .. } => GameActionKind::ChooseOutsideGameCards,
            GameAction::SelectTargets { .. } => GameActionKind::SelectTargets,
            GameAction::ChooseTarget { .. } => GameActionKind::ChooseTarget,
            GameAction::ChooseReplacement { .. } => GameActionKind::ChooseReplacement,
            GameAction::OrderTriggers { .. } => GameActionKind::OrderTriggers,
            GameAction::CancelCast => GameActionKind::CancelCast,
            GameAction::Equip { .. } => GameActionKind::Equip,
            GameAction::CrewVehicle { .. } => GameActionKind::CrewVehicle,
            GameAction::ActivateStation { .. } => GameActionKind::ActivateStation,
            GameAction::SaddleMount { .. } => GameActionKind::SaddleMount,
            GameAction::Transform { .. } => GameActionKind::Transform,
            GameAction::PlayFaceDown { .. } => GameActionKind::PlayFaceDown,
            GameAction::TurnFaceUp { .. } => GameActionKind::TurnFaceUp,
            GameAction::SubmitSideboard { .. } => GameActionKind::SubmitSideboard,
            GameAction::ChoosePlayDraw { .. } => GameActionKind::ChoosePlayDraw,
            GameAction::ChooseOption { .. } => GameActionKind::ChooseOption,
            GameAction::SubmitVoteCandidate { .. } => GameActionKind::SubmitVoteCandidate,
            GameAction::SubmitSpellbookDraft { .. } => GameActionKind::SubmitSpellbookDraft,
            GameAction::SubmitPilePartition { .. } => GameActionKind::SubmitPilePartition,
            GameAction::ChoosePile { .. } => GameActionKind::ChoosePile,
            GameAction::ChooseBranch { .. } => GameActionKind::ChooseBranch,
            GameAction::ChooseDamageSource { .. } => GameActionKind::ChooseDamageSource,
            GameAction::SelectModes { .. } => GameActionKind::SelectModes,
            GameAction::DecideOptionalCost { .. } => GameActionKind::DecideOptionalCost,
            GameAction::ChooseAdventureFace { .. } => GameActionKind::ChooseAdventureFace,
            GameAction::ChooseModalFace { .. } => GameActionKind::ChooseModalFace,
            GameAction::ChooseAlternativeCast { .. } => GameActionKind::ChooseAlternativeCast,
            GameAction::ChooseCastingVariant { .. } => GameActionKind::ChooseCastingVariant,
            GameAction::KeepAllCopyTargets => GameActionKind::KeepAllCopyTargets,
            GameAction::ChoosePermanentTypeSlot { .. } => GameActionKind::ChoosePermanentTypeSlot,
            GameAction::ActivateNinjutsu { .. } => GameActionKind::ActivateNinjutsu,
            GameAction::CastSpellAsSneak { .. } => GameActionKind::CastSpellAsSneak,
            GameAction::CastSpellAsWebSlinging { .. } => GameActionKind::CastSpellAsWebSlinging,
            GameAction::CastSpellForFree { .. } => GameActionKind::CastSpellForFree,
            GameAction::CastSpellAsMiracle { .. } => GameActionKind::CastSpellAsMiracle,
            GameAction::CastSpellAsMadness { .. } => GameActionKind::CastSpellAsMadness,
            GameAction::DecideOptionalEffect { .. } => GameActionKind::DecideOptionalEffect,
            GameAction::RespondToSpliceOffer { .. } => GameActionKind::RespondToSpliceOffer,
            GameAction::DecideOptionalEffectAndRemember { .. } => {
                GameActionKind::DecideOptionalEffectAndRemember
            },
            GameAction::PayUnlessCost { .. } => GameActionKind::PayUnlessCost,
            GameAction::ChooseUnlessCostBranch { .. } => GameActionKind::ChooseUnlessCostBranch,
            GameAction::ChooseActivationCostBranch { .. } => {
                GameActionKind::ChooseActivationCostBranch
            },
            GameAction::PayCombatTax { .. } => GameActionKind::PayCombatTax,
            GameAction::ChooseRingBearer { .. } => GameActionKind::ChooseRingBearer,
            GameAction::ChoosePair { .. } => GameActionKind::ChoosePair,
            GameAction::ChooseDungeon { .. } => GameActionKind::ChooseDungeon,
            GameAction::ChooseDungeonRoom { .. } => GameActionKind::ChooseDungeonRoom,
            GameAction::UnlockRoomDoor { .. } => GameActionKind::UnlockRoomDoor,
            GameAction::RollPlanarDie => GameActionKind::RollPlanarDie,
            GameAction::ChooseRoomDoor { .. } => GameActionKind::ChooseRoomDoor,
            GameAction::TapForConvoke { .. } => GameActionKind::TapForConvoke,
            GameAction::HarmonizeTap { .. } => GameActionKind::HarmonizeTap,
            GameAction::DeclareCompanion { .. } => GameActionKind::DeclareCompanion,
            GameAction::CompanionToHand => GameActionKind::CompanionToHand,
            GameAction::DiscoverChoice { .. } => GameActionKind::DiscoverChoice,
            GameAction::GraveyardPaidCastChoice { .. } => GameActionKind::GraveyardPaidCastChoice,
            GameAction::CascadeChoice { .. } => GameActionKind::CascadeChoice,
            GameAction::RippleChoice { .. } => GameActionKind::RippleChoice,
            GameAction::FreeCastWindowChoice { .. } => GameActionKind::FreeCastWindowChoice,
            GameAction::ChooseTopOrBottom { .. } => GameActionKind::ChooseTopOrBottom,
            GameAction::ChooseMutateMergeSide { .. } => GameActionKind::ChooseMutateMergeSide,
            GameAction::CipherEncode { .. } => GameActionKind::CipherEncode,
            GameAction::ChooseLegend { .. } => GameActionKind::ChooseLegend,
            GameAction::ChooseBattleProtector { .. } => GameActionKind::ChooseBattleProtector,
            GameAction::SetAutoPass { .. } => GameActionKind::SetAutoPass,
            GameAction::CancelAutoPass => GameActionKind::CancelAutoPass,
            GameAction::SetPhaseStops { .. } => GameActionKind::SetPhaseStops,
            GameAction::SetPriorityYield { .. } => GameActionKind::SetPriorityYield,
            GameAction::AssignCombatDamage { .. } => GameActionKind::AssignCombatDamage,
            GameAction::AssignBlockerDamage { .. } => GameActionKind::AssignBlockerDamage,
            GameAction::DistributeAmong { .. } => GameActionKind::DistributeAmong,
            GameAction::ChooseCounterMoveDistribution { .. } => {
                GameActionKind::ChooseCounterMoveDistribution
            },
            GameAction::ChooseCountersToRemove { .. } => GameActionKind::ChooseCountersToRemove,
            GameAction::SubmitPayAmount { .. } => GameActionKind::SubmitPayAmount,
            GameAction::RetargetSpell { .. } => GameActionKind::RetargetSpell,
            GameAction::LearnDecision { .. } => GameActionKind::LearnDecision,
            GameAction::SelectCategoryPermanents { .. } => GameActionKind::SelectCategoryPermanents,
            GameAction::ChooseKeptCreatures { .. } => GameActionKind::ChooseKeptCreatures,
            GameAction::ChooseX { .. } => GameActionKind::ChooseX,
            GameAction::SubmitPhyrexianChoices { .. } => GameActionKind::SubmitPhyrexianChoices,
            GameAction::ChooseManaColor { .. } => GameActionKind::ChooseManaColor,
            GameAction::PayManaAbilityMana { .. } => GameActionKind::PayManaAbilityMana,
            GameAction::CastPreparedCopy { .. } => GameActionKind::CastPreparedCopy,
            GameAction::ChooseSpecializeColor { .. } => GameActionKind::ChooseSpecializeColor,
            GameAction::CastParadigmCopy { .. } => GameActionKind::CastParadigmCopy,
            GameAction::PassParadigmOffer => GameActionKind::PassParadigmOffer,
            GameAction::Debug(..) => GameActionKind::Debug,
            GameAction::GrantDebugPermission { .. } => GameActionKind::GrantDebugPermission,
            GameAction::RevokeDebugPermission { .. } => GameActionKind::RevokeDebugPermission,
            GameAction::Concede { .. } => GameActionKind::Concede,
            GameAction::SubmitLifeAuctionBid { .. } => GameActionKind::SubmitLifeAuctionBid,
            GameAction::PassLifeAuction => GameActionKind::PassLifeAuction,
            GameAction::ChooseGiftRecipient { .. } => GameActionKind::ChooseGiftRecipient,
        }
    }
}

/// A place in a library (CR 401.7).
#[derive(Clone, Debug, PartialEq, Eq, Hash)]
pub enum LibraryPosition {
    Top,
    Bottom,
    NthFromTop { n: u32 },
    BeneathTop { depth: QuantityExpr },
}

/// A token created by a debug action.
#[derive(Clone, Debug, PartialEq, Eq, Hash)]
pub enum DebugTokenRequest {
    Preset {
        preset_id: String,
        owner: PlayerId,
        power_override: Option<i32>,
        toughness_override: Option<i32>,
        enter_with_counters: Vec<(CounterType, u32)>,
    },
    Custom {
        owner: PlayerId,
        characteristics: TokenCharacteristics,
        enter_with_counters: Vec<(CounterType, u32)>,
    },
}

/// A direct edit of the game, for debugging.
#[allow(inconsistent_fields)]
#[derive(Clone, Debug, PartialEq, Eq, Hash)]
pub enum DebugAction {
    MoveToZone {
        object_id: ObjectId,
        to_zone: Zone,
        library_position: Option<LibraryPosition>,
        simulate: bool,
    },
    CreateCard {
        card_name: String,
        owner: PlayerId,
        zone: Zone,
        attach_to: Option<ObjectId>,
        run_etb: bool,
    },
    RemoveObject { object_id: ObjectId },
    Sacrifice { object_id: ObjectId },
    DrawCards { player_id: PlayerId, count: u32 },
    Mill { player_id: PlayerId, count: u32 },
    Reveal { player_id: PlayerId, count: u32 },
    ShuffleLibrary { player_id: PlayerId },
    Proliferate { player_id: PlayerId },
    SetBasePowerToughness { object_id: ObjectId, power: i32, toughness: i32 },
    ModifyCounters { object_id: ObjectId, counter_type: CounterType, delta: i32 },
    SetTapped { object_id: ObjectId, tapped: bool },
    SetPrepared { object_id: ObjectId, prepared: bool },
    SetController { object_id: ObjectId, controller: PlayerId },
    SetSummoningSickness { object_id: ObjectId, sick: bool },
    SetFaceState {
        object_id: ObjectId,
        face_down: Option<bool>,
        transformed: Option<bool>,
        flipped: Option<bool>,
    },
    Attach { object_id: ObjectId, target: AttachTarget },
    Detach { object_id: ObjectId },
    GrantKeyword { object_id: ObjectId, keyword: Keyword },
    RemoveKeyword { object_id: ObjectId, keyword: Keyword },
    SetLife { player_id: PlayerId, life: i32 },
    ModifyPlayerCounters { player_id: PlayerId, counter_kind: PlayerCounterKind, delta: i32 },
    ModifyEnergy { player_id: PlayerId, delta: i32 },
    AddMana { player_id: PlayerId, mana: Vec<ManaType> },
    SetInfiniteMana { player_id: PlayerId, enabled: bool },
    SetPhase { phase: Phase, active_player: Option<PlayerId> },
    RunStateBasedActions,
    CreateToken { request: DebugTokenRequest, run_etb: bool },
    CreateTokenCopy { source_id: ObjectId, owner: PlayerId },
}

} // verus!
