//! The natural order of what actions carry: identifiers by number, variants in the order in which they
//! are declared, then their contents.
use vstd::prelude::*;

use crate::order::natural;
use crate::order::natural::Natural;
use crate::order::stable_ord;
use crate::order::stable_ord::StableOrd;
use crate::types::action_payloads::{
    AlternativeCastDecision, AttachTarget, AttackTarget, AutoMayChoice, AutoPassMode, CastChoice,
    CastPaymentMode, CombatDamageMode, DoorLockOp, DungeonId, LearnOption, MergeSide,
    MulliganChoice, PhyrexianChoice, PileSide, PriorityYieldOp, RoomDoor, TargetRef,
};
use crate::types::card_type::{CoreType, Supertype};
use crate::types::counters::{CounterType, PlayerCounterKind};
use crate::types::identifiers::{CardId, ObjectId, PlayerId};
use crate::types::keywords::{Keyword, KeywordKind};
use crate::types::mana::{ManaColor, ManaType};
use crate::types::phase::Phase;
use crate::types::zones::Zone;

verus! {

broadcast use crate::order::key::key_cmp_numbers;

impl Natural for PlayerId {
    open spec fn same(&self, other: &Self) -> bool {
        self.0 == other.0
    }

    open spec fn precedes(&self, other: &Self) -> bool {
        self.0 < other.0
    }

    proof fn stable_order_is_natural(&self, other: &Self) {
    }
}

impl Natural for ObjectId {
    open spec fn same(&self, other: &Self) -> bool {
        self.0 == other.0
    }

    open spec fn precedes(&self, other: &Self) -> bool {
        self.0 < other.0
    }

    proof fn stable_order_is_natural(&self, other: &Self) {
    }
}

impl Natural for CardId {
    open spec fn same(&self, other: &Self) -> bool {
        self.0 == other.0
    }

    open spec fn precedes(&self, other: &Self) -> bool {
        self.0 < other.0
    }

    proof fn stable_order_is_natural(&self, other: &Self) {
    }
}

/// Where the variant is declared.
pub open spec fn cast_payment_mode_place(x: CastPaymentMode) -> int {
    match x {
        CastPaymentMode::Auto => 0,
        CastPaymentMode::Manual => 1,
    }
}

impl Natural for CastPaymentMode {
    open spec fn same(&self, other: &Self) -> bool {
        *self == *other
    }

    open spec fn precedes(&self, other: &Self) -> bool {
        cast_payment_mode_place(*self) < cast_payment_mode_place(*other)
    }

    proof fn stable_order_is_natural(&self, other: &Self) {
        reveal(CastPaymentMode::rank);
    }
}

/// Where the variant is declared.
pub open spec fn mulligan_choice_place(x: MulliganChoice) -> int {
    match x {
        MulliganChoice::Keep => 0,
        MulliganChoice::Mulligan => 1,
    }
}

impl Natural for MulliganChoice {
    open spec fn same(&self, other: &Self) -> bool {
        *self == *other
    }

    open spec fn precedes(&self, other: &Self) -> bool {
        mulligan_choice_place(*self) < mulligan_choice_place(*other)
    }

    proof fn stable_order_is_natural(&self, other: &Self) {
        reveal(MulliganChoice::rank);
    }
}

/// Where the variant is declared.
pub open spec fn pile_side_place(x: PileSide) -> int {
    match x {
        PileSide::First => 0,
        PileSide::Second => 1,
    }
}

impl Natural for PileSide {
    open spec fn same(&self, other: &Self) -> bool {
        *self == *other
    }

    open spec fn precedes(&self, other: &Self) -> bool {
        pile_side_place(*self) < pile_side_place(*other)
    }

    proof fn stable_order_is_natural(&self, other: &Self) {
        reveal(PileSide::rank);
    }
}

/// Where the variant is declared.
pub open spec fn alternative_cast_decision_place(x: AlternativeCastDecision) -> int {
    match x {
        AlternativeCastDecision::Normal => 0,
        AlternativeCastDecision::Alternative => 1,
    }
}

impl Natural for AlternativeCastDecision {
    open spec fn same(&self, other: &Self) -> bool {
        *self == *other
    }

    open spec fn precedes(&self, other: &Self) -> bool {
        alternative_cast_decision_place(*self) < alternative_cast_decision_place(*other)
    }

    proof fn stable_order_is_natural(&self, other: &Self) {
        reveal(AlternativeCastDecision::rank);
    }
}

/// Where the variant is declared.
pub open spec fn auto_may_choice_place(x: AutoMayChoice) -> int {
    match x {
        AutoMayChoice::AlwaysAccept => 0,
        AutoMayChoice::AlwaysDecline => 1,
    }
}

impl Natural for AutoMayChoice {
    open spec fn same(&self, other: &Self) -> bool {
        *self == *other
    }

    open spec fn precedes(&self, other: &Self) -> bool {
        auto_may_choice_place(*self) < auto_may_choice_place(*other)
    }

    proof fn stable_order_is_natural(&self, other: &Self) {
        reveal(AutoMayChoice::rank);
    }
}

/// Where the variant is declared.
pub open spec fn dungeon_id_place(x: DungeonId) -> int {
    match x {
        DungeonId::LostMineOfPhandelver => 0,
        DungeonId::DungeonOfTheMadMage => 1,
        DungeonId::TombOfAnnihilation => 2,
        DungeonId::Undercity => 3,
    }
}

impl Natural for DungeonId {
    open spec fn same(&self, other: &Self) -> bool {
        *self == *other
    }

    open spec fn precedes(&self, other: &Self) -> bool {
        dungeon_id_place(*self) < dungeon_id_place(*other)
    }

    proof fn stable_order_is_natural(&self, other: &Self) {
        reveal(DungeonId::rank);
    }
}

/// Where the variant is declared.
pub open spec fn room_door_place(x: RoomDoor) -> int {
    match x {
        RoomDoor::Left => 0,
        RoomDoor::Right => 1,
    }
}

impl Natural for RoomDoor {
    open spec fn same(&self, other: &Self) -> bool {
        *self == *other
    }

    open spec fn precedes(&self, other: &Self) -> bool {
        room_door_place(*self) < room_door_place(*other)
    }

    proof fn stable_order_is_natural(&self, other: &Self) {
        reveal(RoomDoor::rank);
    }
}

/// Where the variant is declared.
pub open spec fn door_lock_op_place(x: DoorLockOp) -> int {
    match x {
        DoorLockOp::Unlock => 0,
        DoorLockOp::Lock => 1,
        DoorLockOp::LockOrUnlock => 2,
    }
}

impl Natural for DoorLockOp {
    open spec fn same(&self, other: &Self) -> bool {
        *self == *other
    }

    open spec fn precedes(&self, other: &Self) -> bool {
        door_lock_op_place(*self) < door_lock_op_place(*other)
    }

    proof fn stable_order_is_natural(&self, other: &Self) {
        reveal(DoorLockOp::rank);
    }
}

/// Where the variant is declared.
pub open spec fn cast_choice_place(x: CastChoice) -> int {
    match x {
        CastChoice::Cast => 0,
        CastChoice::Decline => 1,
    }
}

impl Natural for CastChoice {
    open spec fn same(&self, other: &Self) -> bool {
        *self == *other
    }

    open spec fn precedes(&self, other: &Self) -> bool {
        cast_choice_place(*self) < cast_choice_place(*other)
    }

    proof fn stable_order_is_natural(&self, other: &Self) {
        reveal(CastChoice::rank);
    }
}

/// Where the variant is declared.
pub open spec fn merge_side_place(x: MergeSide) -> int {
    match x {
        MergeSide::Top => 0,
        MergeSide::Bottom => 1,
    }
}

impl Natural for MergeSide {
    open spec fn same(&self, other: &Self) -> bool {
        *self == *other
    }

    open spec fn precedes(&self, other: &Self) -> bool {
        merge_side_place(*self) < merge_side_place(*other)
    }

    proof fn stable_order_is_natural(&self, other: &Self) {
        reveal(MergeSide::rank);
    }
}

/// Where the variant is declared.
pub open spec fn auto_pass_mode_place(x: AutoPassMode) -> int {
    match x {
        AutoPassMode::UntilStackEmpty => 0,
        AutoPassMode::UntilEndOfTurn => 1,
    }
}

impl Natural for AutoPassMode {
    open spec fn same(&self, other: &Self) -> bool {
        *self == *other
    }

    open spec fn precedes(&self, other: &Self) -> bool {
        auto_pass_mode_place(*self) < auto_pass_mode_place(*other)
    }

    proof fn stable_order_is_natural(&self, other: &Self) {
        reveal(AutoPassMode::rank);
    }
}

/// Where the variant is declared.
pub open spec fn priority_yield_op_place(x: PriorityYieldOp) -> int {
    match x {
        PriorityYieldOp::Add => 0,
        PriorityYieldOp::Remove => 1,
    }
}

impl Natural for PriorityYieldOp {
    open spec fn same(&self, other: &Self) -> bool {
        *self == *other
    }

    open spec fn precedes(&self, other: &Self) -> bool {
        priority_yield_op_place(*self) < priority_yield_op_place(*other)
    }

    proof fn stable_order_is_natural(&self, other: &Self) {
        reveal(PriorityYieldOp::rank);
    }
}

/// Where the variant is declared.
pub open spec fn combat_damage_mode_place(x: CombatDamageMode) -> int {
    match x {
        CombatDamageMode::Normal => 0,
        CombatDamageMode::AsThoughUnblocked => 1,
    }
}

impl Natural for CombatDamageMode {
    open spec fn same(&self, other: &Self) -> bool {
        *self == *other
    }

    open spec fn precedes(&self, other: &Self) -> bool {
        combat_damage_mode_place(*self) < combat_damage_mode_place(*other)
    }

    proof fn stable_order_is_natural(&self, other: &Self) {
        reveal(CombatDamageMode::rank);
    }
}

/// Where the variant is declared.
pub open spec fn learn_option_place(x: LearnOption) -> int {
    match x {
        LearnOption::Rummage => 0,
        LearnOption::Lesson => 1,
        LearnOption::Decline => 2,
    }
}

impl Natural for LearnOption {
    open spec fn same(&self, other: &Self) -> bool {
        *self == *other
    }

    open spec fn precedes(&self, other: &Self) -> bool {
        learn_option_place(*self) < learn_option_place(*other)
    }

    proof fn stable_order_is_natural(&self, other: &Self) {
        reveal(LearnOption::rank);
    }
}

/// Where the variant is declared.
pub open spec fn phyrexian_choice_place(x: PhyrexianChoice) -> int {
    match x {
        PhyrexianChoice::Mana => 0,
        PhyrexianChoice::Life => 1,
    }
}

impl Natural for PhyrexianChoice {
    open spec fn same(&self, other: &Self) -> bool {
        *self == *other
    }

    open spec fn precedes(&self, other: &Self) -> bool {
        phyrexian_choice_place(*self) < phyrexian_choice_place(*other)
    }

    proof fn stable_order_is_natural(&self, other: &Self) {
        reveal(PhyrexianChoice::rank);
    }
}

/// Where the variant is declared.
pub open spec fn mana_color_place(x: ManaColor) -> int {
    match x {
        ManaColor::White => 0,
        ManaColor::Blue => 1,
        ManaColor::Black => 2,
        ManaColor::Red => 3,
        ManaColor::Green => 4,
    }
}

impl Natural for ManaColor {
    open spec fn same(&self, other: &Self) -> bool {
        *self == *other
    }

    open spec fn precedes(&self, other: &Self) -> bool {
        mana_color_place(*self) < mana_color_place(*other)
    }

    proof fn stable_order_is_natural(&self, other: &Self) {
        reveal(ManaColor::rank);
    }
}

/// Where the variant is declared.
pub open spec fn mana_type_place(x: ManaType) -> int {
    match x {
        ManaType::White => 0,
        ManaType::Blue => 1,
        ManaType::Black => 2,
        ManaType::Red => 3,
        ManaType::Green => 4,
        ManaType::Colorless => 5,
    }
}

impl Natural for ManaType {
    open spec fn same(&self, other: &Self) -> bool {
        *self == *other
    }

    open spec fn precedes(&self, other: &Self) -> bool {
        mana_type_place(*self) < mana_type_place(*other)
    }

    proof fn stable_order_is_natural(&self, other: &Self) {
        reveal(ManaType::rank);
    }
}

/// Where the variant is declared.
pub open spec fn core_type_place(x: CoreType) -> int {
    match x {
        CoreType::Artifact => 0,
        CoreType::Battle => 1,
        CoreType::Creature => 2,
        CoreType::Enchantment => 3,
        CoreType::Instant => 4,
        CoreType::Kindred => 5,
        CoreType::Land => 6,
        CoreType::Planeswalker => 7,
        CoreType::Sorcery => 8,
        CoreType::Plane => 9,
        CoreType::Phenomenon => 10,
        CoreType::Scheme => 11,
        CoreType::Vanguard => 12,
        CoreType::Conspiracy => 13,
        CoreType::Dungeon => 14,
    }
}

impl Natural for CoreType {
    open spec fn same(&self, other: &Self) -> bool {
        *self == *other
    }

    open spec fn precedes(&self, other: &Self) -> bool {
        core_type_place(*self) < core_type_place(*other)
    }

    proof fn stable_order_is_natural(&self, other: &Self) {
        reveal(CoreType::rank);
    }
}

/// Where the variant is declared.
pub open spec fn supertype_place(x: Supertype) -> int {
    match x {
        Supertype::Basic => 0,
        Supertype::Legendary => 1,
        Supertype::Ongoing => 2,
        Supertype::Snow => 3,
        Supertype::World => 4,
    }
}

impl Natural for Supertype {
    open spec fn same(&self, other: &Self) -> bool {
        *self == *other
    }

    open spec fn precedes(&self, other: &Self) -> bool {
        supertype_place(*self) < supertype_place(*other)
    }

    proof fn stable_order_is_natural(&self, other: &Self) {
        reveal(Supertype::rank);
    }
}

/// Where the variant is declared.
pub open spec fn phase_place(x: Phase) -> int {
    match x {
        Phase::Untap => 0,
        Phase::Upkeep => 1,
        Phase::Draw => 2,
        Phase::PreCombatMain => 3,
        Phase::BeginCombat => 4,
        Phase::DeclareAttackers => 5,
        Phase::DeclareBlockers => 6,
        Phase::CombatDamage => 7,
        Phase::EndCombat => 8,
        Phase::PostCombatMain => 9,
        Phase::End => 10,
        Phase::Cleanup => 11,
    }
}

impl Natural for Phase {
    open spec fn same(&self, other: &Self) -> bool {
        *self == *other
    }

    open spec fn precedes(&self, other: &Self) -> bool {
        phase_place(*self) < phase_place(*other)
    }

    proof fn stable_order_is_natural(&self, other: &Self) {
        reveal(Phase::rank);
    }
}

/// Where the variant is declared.
pub open spec fn zone_place(x: Zone) -> int {
    match x {
        Zone::Library => 0,
        Zone::Hand => 1,
        Zone::Battlefield => 2,
        Zone::Graveyard => 3,
        Zone::Stack => 4,
        Zone::Exile => 5,
        Zone::Command => 6,
    }
}

impl Natural for Zone {
    open spec fn same(&self, other: &Self) -> bool {
        *self == *other
    }

    open spec fn precedes(&self, other: &Self) -> bool {
        zone_place(*self) < zone_place(*other)
    }

    proof fn stable_order_is_natural(&self, other: &Self) {
        reveal(Zone::rank);
    }
}

/// Where the variant is declared.
pub open spec fn player_counter_kind_place(x: PlayerCounterKind) -> int {
    match x {
        PlayerCounterKind::Poison => 0,
        PlayerCounterKind::Energy => 1,
        PlayerCounterKind::Experience => 2,
        PlayerCounterKind::Rad => 3,
        PlayerCounterKind::Ticket => 4,
    }
}

impl Natural for PlayerCounterKind {
    open spec fn same(&self, other: &Self) -> bool {
        *self == *other
    }

    open spec fn precedes(&self, other: &Self) -> bool {
        player_counter_kind_place(*self) < player_counter_kind_place(*other)
    }

    proof fn stable_order_is_natural(&self, other: &Self) {
        reveal(PlayerCounterKind::rank);
    }
}

/// Where the variant is declared.
pub open spec fn keyword_kind_place(x: KeywordKind) -> int {
    match x {
        KeywordKind::Flying => 0,
        KeywordKind::FirstStrike => 1,
        KeywordKind::DoubleStrike => 2,
        KeywordKind::Deathtouch => 3,
        KeywordKind::Defender => 4,
        KeywordKind::Haste => 5,
        KeywordKind::Hexproof => 6,
        KeywordKind::Indestructible => 7,
        KeywordKind::Lifelink => 8,
        KeywordKind::Menace => 9,
        KeywordKind::Reach => 10,
        KeywordKind::Shroud => 11,
        KeywordKind::Trample => 12,
        KeywordKind::Vigilance => 13,
        KeywordKind::Delve => 14,
        KeywordKind::Protection => 15,
        KeywordKind::Gift => 16,
    }
}

impl Natural for KeywordKind {
    open spec fn same(&self, other: &Self) -> bool {
        *self == *other
    }

    open spec fn precedes(&self, other: &Self) -> bool {
        keyword_kind_place(*self) < keyword_kind_place(*other)
    }

    proof fn stable_order_is_natural(&self, other: &Self) {
        reveal(KeywordKind::rank);
    }
}

/// Where the keyword is declared; its parameters do not count.
pub open spec fn keyword_place(k: Keyword) -> int {
    match k {
        Keyword::Flying => 0,
        Keyword::FirstStrike => 1,
        Keyword::DoubleStrike => 2,
        Keyword::Deathtouch => 3,
        Keyword::Defender => 4,
        Keyword::Haste => 5,
        Keyword::Hexproof => 6,
        Keyword::Indestructible => 7,
        Keyword::Lifelink => 8,
        Keyword::Menace => 9,
        Keyword::Reach => 10,
        Keyword::Shroud => 11,
        Keyword::Trample => 12,
        Keyword::Vigilance => 13,
        Keyword::Delve => 14,
        Keyword::Protection(_) => 15,
        Keyword::Gift(_) => 16,
    }
}

/// A keyword's discriminant stands where the keyword is declared.
pub proof fn lemma_keyword_place(k: Keyword)
    ensures
        keyword_kind_place(k.kind_of()) == keyword_place(k),
{
}

/// Where the variant is declared.
pub open spec fn target_ref_place(x: TargetRef) -> int {
    match x {
        TargetRef::Object(_) => 0,
        TargetRef::Player(_) => 1,
    }
}

impl Natural for TargetRef {
    open spec fn same(&self, other: &Self) -> bool {
        match (self, other) {
            (TargetRef::Object(a), TargetRef::Object(b)) => a.same(b),
            (TargetRef::Player(a), TargetRef::Player(b)) => a.same(b),
            _ => false,
        }
    }

    open spec fn precedes(&self, other: &Self) -> bool {
        match (self, other) {
            (TargetRef::Object(a), TargetRef::Object(b)) => a.precedes(b),
            (TargetRef::Player(a), TargetRef::Player(b)) => a.precedes(b),
            _ => target_ref_place(*self) < target_ref_place(*other),
        }
    }

    proof fn stable_order_is_natural(&self, other: &Self) {
        reveal(TargetRef::rank);
        reveal(TargetRef::fields);
        stable_ord::lemma_tagged(self.rank(), self.fields(), other.rank(), other.fields());
        match (self, other) {
            (TargetRef::Object(a), TargetRef::Object(b)) => {
                natural::lemma_fields1(*a, *b);
            },
            (TargetRef::Player(a), TargetRef::Player(b)) => {
                natural::lemma_fields1(*a, *b);
            },
            _ => {
            },
        }
    }
}

/// Where the variant is declared.
pub open spec fn attack_target_place(x: AttackTarget) -> int {
    match x {
        AttackTarget::Player(_) => 0,
        AttackTarget::Planeswalker(_) => 1,
        AttackTarget::Battle(_) => 2,
    }
}

impl Natural for AttackTarget {
    open spec fn same(&self, other: &Self) -> bool {
        match (self, other) {
            (AttackTarget::Player(a), AttackTarget::Player(b)) => a.same(b),
            (AttackTarget::Planeswalker(a), AttackTarget::Planeswalker(b)) => a.same(b),
            (AttackTarget::Battle(a), AttackTarget::Battle(b)) => a.same(b),
            _ => false,
        }
    }

    open spec fn precedes(&self, other: &Self) -> bool {
        match (self, other) {
            (AttackTarget::Player(a), AttackTarget::Player(b)) => a.precedes(b),
            (AttackTarget::Planeswalker(a), AttackTarget::Planeswalker(b)) => a.precedes(b),
            (AttackTarget::Battle(a), AttackTarget::Battle(b)) => a.precedes(b),
            _ => attack_target_place(*self) < attack_target_place(*other),
        }
    }

    proof fn stable_order_is_natural(&self, other: &Self) {
        reveal(AttackTarget::rank);
        reveal(AttackTarget::fields);
        stable_ord::lemma_tagged(self.rank(), self.fields(), other.rank(), other.fields());
        match (self, other) {
            (AttackTarget::Player(a), AttackTarget::Player(b)) => {
                natural::lemma_fields1(*a, *b);
            },
            (AttackTarget::Planeswalker(a), AttackTarget::Planeswalker(b)) => {
                natural::lemma_fields1(*a, *b);
            },
            (AttackTarget::Battle(a), AttackTarget::Battle(b)) => {
                natural::lemma_fields1(*a, *b);
            },
            _ => {
            },
        }
    }
}

/// Where the variant is declared.
pub open spec fn attach_target_place(x: AttachTarget) -> int {
    match x {
        AttachTarget::Object(_) => 0,
        AttachTarget::Player(_) => 1,
    }
}

impl Natural for AttachTarget {
    open spec fn same(&self, other: &Self) -> bool {
        match (self, other) {
            (AttachTarget::Object(a), AttachTarget::Object(b)) => a.same(b),
            (AttachTarget::Player(a), AttachTarget::Player(b)) => a.same(b),
            _ => false,
        }
    }

    open spec fn precedes(&self, other: &Self) -> bool {
        match (self, other) {
            (AttachTarget::Object(a), AttachTarget::Object(b)) => a.precedes(b),
            (AttachTarget::Player(a), AttachTarget::Player(b)) => a.precedes(b),
            _ => attach_target_place(*self) < attach_target_place(*other),
        }
    }

    proof fn stable_order_is_natural(&self, other: &Self) {
        reveal(AttachTarget::rank);
        reveal(AttachTarget::fields);
        stable_ord::lemma_tagged(self.rank(), self.fields(), other.rank(), other.fields());
        match (self, other) {
            (AttachTarget::Object(a), AttachTarget::Object(b)) => {
                natural::lemma_fields1(*a, *b);
            },
            (AttachTarget::Player(a), AttachTarget::Player(b)) => {
                natural::lemma_fields1(*a, *b);
            },
            _ => {
            },
        }
    }
}

/// Where the variant is declared.
pub open spec fn counter_type_place(x: CounterType) -> int {
    match x {
        CounterType::Plus1Plus1 => 0,
        CounterType::Minus1Minus1 => 1,
        CounterType::Loyalty => 2,
        CounterType::Defense => 3,
        CounterType::Lore => 4,
        CounterType::Stun => 5,
        CounterType::Generic(_) => 6,
    }
}

impl Natural for CounterType {
    open spec fn same(&self, other: &Self) -> bool {
        match (self, other) {
            (CounterType::Plus1Plus1, CounterType::Plus1Plus1) => true,
            (CounterType::Minus1Minus1, CounterType::Minus1Minus1) => true,
            (CounterType::Loyalty, CounterType::Loyalty) => true,
            (CounterType::Defense, CounterType::Defense) => true,
            (CounterType::Lore, CounterType::Lore) => true,
            (CounterType::Stun, CounterType::Stun) => true,
            (CounterType::Generic(a), CounterType::Generic(b)) => a.same(b),
            _ => false,
        }
    }

    open spec fn precedes(&self, other: &Self) -> bool {
        match (self, other) {
            (CounterType::Generic(a), CounterType::Generic(b)) => a.precedes(b),
            _ => counter_type_place(*self) < counter_type_place(*other),
        }
    }

    proof fn stable_order_is_natural(&self, other: &Self) {
        reveal(CounterType::rank);
        reveal(CounterType::fields);
        stable_ord::lemma_tagged(self.rank(), self.fields(), other.rank(), other.fields());
        match (self, other) {
            (CounterType::Generic(a), CounterType::Generic(b)) => {
                natural::lemma_fields1(*a, *b);
            },
            _ => {
            },
        }
    }
}

} // verus!
