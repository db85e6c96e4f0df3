//! Payloads of player actions.
use std::cmp::Ordering;
use vstd::prelude::*;

use crate::order::key::Key;
use crate::order::stable_ord;
use crate::order::stable_ord::{cmp_val1, StableOrd};
use crate::types::identifiers::{ObjectId, PlayerId};

verus! {

/// A chosen target (CR 115.1).
#[derive(Clone, Copy, Debug, PartialEq, Eq, Structural, Hash)]
pub enum TargetRef {
    Object(ObjectId),
    Player(PlayerId),
}

impl TargetRef {
    #[verifier::opaque]
    pub open spec fn rank(&self) -> int {
        match self {
            TargetRef::Object(..) => 0,
            TargetRef::Player(..) => 1,
        }
    }

    #[verifier::opaque]
    pub open spec fn fields(&self) -> Seq<Key> {
        match self {
            TargetRef::Object(x) => seq![x.key()],
            TargetRef::Player(x) => seq![x.key()],
        }
    }

    fn ordinal(&self) -> (r: u8)
        ensures
            r == self.rank(),
    {
        proof {
            reveal(TargetRef::rank);
        }
        match self {
            TargetRef::Object(..) => 0,
            TargetRef::Player(..) => 1,
        }
    }
}

impl StableOrd for TargetRef {
    open spec fn key(&self) -> Key {
        stable_ord::tagged(self.rank(), self.fields())
    }

    fn stable_cmp(&self, other: &Self) -> (o: Ordering) {
        proof {
            reveal(TargetRef::rank);
            reveal(TargetRef::fields);
            stable_ord::lemma_tagged(self.rank(), self.fields(), other.rank(), other.fields());
        }
        match self.ordinal().stable_cmp(&other.ordinal()) {
            Ordering::Equal => match (self, other) {
                (TargetRef::Object(a), TargetRef::Object(b)) => cmp_val1(a, b),
                (TargetRef::Player(a), TargetRef::Player(b)) => cmp_val1(a, b),
                _ => Ordering::Equal,
            },
            verdict => verdict,
        }
    }
}

/// What an attacking creature attacks (CR 508.1b).
#[derive(Clone, Copy, Debug, PartialEq, Eq, Structural, Hash)]
pub enum AttackTarget {
    Player(PlayerId),
    Planeswalker(ObjectId),
    Battle(ObjectId),
}

impl AttackTarget {
    #[verifier::opaque]
    pub open spec fn rank(&self) -> int {
        match self {
            AttackTarget::Player(..) => 0,
            AttackTarget::Planeswalker(..) => 1,
            AttackTarget::Battle(..) => 2,
        }
    }

    #[verifier::opaque]
    pub open spec fn fields(&self) -> Seq<Key> {
        match self {
            AttackTarget::Player(x) => seq![x.key()],
            AttackTarget::Planeswalker(x) => seq![x.key()],
            AttackTarget::Battle(x) => seq![x.key()],
        }
    }

    fn ordinal(&self) -> (r: u8)
        ensures
            r == self.rank(),
    {
        proof {
            reveal(AttackTarget::rank);
        }
        match self {
            AttackTarget::Player(..) => 0,
            AttackTarget::Planeswalker(..) => 1,
            AttackTarget::Battle(..) => 2,
        }
    }
}

impl StableOrd for AttackTarget {
    open spec fn key(&self) -> Key {
        stable_ord::tagged(self.rank(), self.fields())
    }

    fn stable_cmp(&self, other: &Self) -> (o: Ordering) {
        proof {
            reveal(AttackTarget::rank);
            reveal(AttackTarget::fields);
            stable_ord::lemma_tagged(self.rank(), self.fields(), other.rank(), other.fields());
        }
        match self.ordinal().stable_cmp(&other.ordinal()) {
            Ordering::Equal => match (self, other) {
                (AttackTarget::Player(a), AttackTarget::Player(b)) => cmp_val1(a, b),
                (AttackTarget::Planeswalker(a), AttackTarget::Planeswalker(b)) => cmp_val1(a, b),
                (AttackTarget::Battle(a), AttackTarget::Battle(b)) => cmp_val1(a, b),
                _ => Ordering::Equal,
            },
            verdict => verdict,
        }
    }
}

/// What an Aura, Equipment or Fortification is attached to (CR 701.3).
#[derive(Clone, Copy, Debug, PartialEq, Eq, Structural, Hash)]
pub enum AttachTarget {
    Object(ObjectId),
    Player(PlayerId),
}

impl AttachTarget {
    #[verifier::opaque]
    pub open spec fn rank(&self) -> int {
        match self {
            AttachTarget::Object(..) => 0,
            AttachTarget::Player(..) => 1,
        }
    }

    #[verifier::opaque]
    pub open spec fn fields(&self) -> Seq<Key> {
        match self {
            AttachTarget::Object(x) => seq![x.key()],
            AttachTarget::Player(x) => seq![x.key()],
        }
    }

    fn ordinal(&self) -> (r: u8)
        ensures
            r == self.rank(),
    {
        proof {
            reveal(AttachTarget::rank);
        }
        match self {
            AttachTarget::Object(..) => 0,
            AttachTarget::Player(..) => 1,
        }
    }
}

impl StableOrd for AttachTarget {
    open spec fn key(&self) -> Key {
        stable_ord::tagged(self.rank(), self.fields())
    }

    fn stable_cmp(&self, other: &Self) -> (o: Ordering) {
        proof {
            reveal(AttachTarget::rank);
            reveal(AttachTarget::fields);
            stable_ord::lemma_tagged(self.rank(), self.fields(), other.rank(), other.fields());
        }
        match self.ordinal().stable_cmp(&other.ordinal()) {
            Ordering::Equal => match (self, other) {
                (AttachTarget::Object(a), AttachTarget::Object(b)) => cmp_val1(a, b),
                (AttachTarget::Player(a), AttachTarget::Player(b)) => cmp_val1(a, b),
                _ => Ordering::Equal,
            },
            verdict => verdict,
        }
    }
}

/// How the costs of a spell are paid.
#[derive(Clone, Copy, Debug, PartialEq, Eq, Structural, Hash)]
pub enum CastPaymentMode {
    Auto,
    Manual,
}

impl CastPaymentMode {
    /// Position of the variant in the declaration.
    #[verifier::opaque]
    pub open spec fn rank(&self) -> int {
        match self {
            CastPaymentMode::Auto => 0,
            CastPaymentMode::Manual => 1,
        }
    }

    pub fn ordinal(&self) -> (r: u8)
        ensures
            r == self.rank(),
    {
        proof {
            reveal(CastPaymentMode::rank);
        }
        match self {
            CastPaymentMode::Auto => 0,
            CastPaymentMode::Manual => 1,
        }
    }
}

impl StableOrd for CastPaymentMode {
    open spec fn key(&self) -> Key {
        Key::Num(self.rank())
    }

    fn stable_cmp(&self, other: &Self) -> (o: Ordering) {
        self.ordinal().stable_cmp(&other.ordinal())
    }
}

/// A mulligan decision (CR 103.5).
#[derive(Clone, Copy, Debug, PartialEq, Eq, Structural, Hash)]
pub enum MulliganChoice {
    Keep,
    Mulligan,
}

impl MulliganChoice {
    /// Position of the variant in the declaration.
    #[verifier::opaque]
    pub open spec fn rank(&self) -> int {
        match self {
            MulliganChoice::Keep => 0,
            MulliganChoice::Mulligan => 1,
        }
    }

    pub fn ordinal(&self) -> (r: u8)
        ensures
            r == self.rank(),
    {
        proof {
            reveal(MulliganChoice::rank);
        }
        match self {
            MulliganChoice::Keep => 0,
            MulliganChoice::Mulligan => 1,
        }
    }
}

impl StableOrd for MulliganChoice {
    open spec fn key(&self) -> Key {
        Key::Num(self.rank())
    }

    fn stable_cmp(&self, other: &Self) -> (o: Ordering) {
        self.ordinal().stable_cmp(&other.ordinal())
    }
}

/// One of two piles (CR 700.3).
#[derive(Clone, Copy, Debug, PartialEq, Eq, Structural, Hash)]
pub enum PileSide {
    First,
    Second,
}

impl PileSide {
    /// Position of the variant in the declaration.
    #[verifier::opaque]
    pub open spec fn rank(&self) -> int {
        match self {
            PileSide::First => 0,
            PileSide::Second => 1,
        }
    }

    pub fn ordinal(&self) -> (r: u8)
        ensures
            r == self.rank(),
    {
        proof {
            reveal(PileSide::rank);
        }
        match self {
            PileSide::First => 0,
            PileSide::Second => 1,
        }
    }
}

impl StableOrd for PileSide {
    open spec fn key(&self) -> Key {
        Key::Num(self.rank())
    }

    fn stable_cmp(&self, other: &Self) -> (o: Ordering) {
        self.ordinal().stable_cmp(&other.ordinal())
    }
}

/// Whether a spell is cast for an alternative cost (CR 118.9).
#[derive(Clone, Copy, Debug, PartialEq, Eq, Structural, Hash)]
pub enum AlternativeCastDecision {
    Normal,
    Alternative,
}

impl AlternativeCastDecision {
    /// Position of the variant in the declaration.
    #[verifier::opaque]
    pub open spec fn rank(&self) -> int {
        match self {
            AlternativeCastDecision::Normal => 0,
            AlternativeCastDecision::Alternative => 1,
        }
    }

    pub fn ordinal(&self) -> (r: u8)
        ensures
            r == self.rank(),
    {
        proof {
            reveal(AlternativeCastDecision::rank);
        }
        match self {
            AlternativeCastDecision::Normal => 0,
            AlternativeCastDecision::Alternative => 1,
        }
    }
}

impl StableOrd for AlternativeCastDecision {
    open spec fn key(&self) -> Key {
        Key::Num(self.rank())
    }

    fn stable_cmp(&self, other: &Self) -> (o: Ordering) {
        self.ordinal().stable_cmp(&other.ordinal())
    }
}

/// A remembered answer to an optional effect.
#[derive(Clone, Copy, Debug, PartialEq, Eq, Structural, Hash)]
pub enum AutoMayChoice {
    AlwaysAccept,
    AlwaysDecline,
}

impl AutoMayChoice {
    /// Position of the variant in the declaration.
    #[verifier::opaque]
    pub open spec fn rank(&self) -> int {
        match self {
            AutoMayChoice::AlwaysAccept => 0,
            AutoMayChoice::AlwaysDecline => 1,
        }
    }

    pub fn ordinal(&self) -> (r: u8)
        ensures
            r == self.rank(),
    {
        proof {
            reveal(AutoMayChoice::rank);
        }
        match self {
            AutoMayChoice::AlwaysAccept => 0,
            AutoMayChoice::AlwaysDecline => 1,
        }
    }
}

impl StableOrd for AutoMayChoice {
    open spec fn key(&self) -> Key {
        Key::Num(self.rank())
    }

    fn stable_cmp(&self, other: &Self) -> (o: Ordering) {
        self.ordinal().stable_cmp(&other.ordinal())
    }
}

/// A dungeon card (CR 309).
#[derive(Clone, Copy, Debug, PartialEq, Eq, Structural, Hash)]
pub enum DungeonId {
    LostMineOfPhandelver,
    DungeonOfTheMadMage,
    TombOfAnnihilation,
    Undercity,
}

impl DungeonId {
    /// Position of the variant in the declaration.
    #[verifier::opaque]
    pub open spec fn rank(&self) -> int {
        match self {
            DungeonId::LostMineOfPhandelver => 0,
            DungeonId::DungeonOfTheMadMage => 1,
            DungeonId::TombOfAnnihilation => 2,
            DungeonId::Undercity => 3,
        }
    }

    pub fn ordinal(&self) -> (r: u8)
        ensures
            r == self.rank(),
    {
        proof {
            reveal(DungeonId::rank);
        }
        match self {
            DungeonId::LostMineOfPhandelver => 0,
            DungeonId::DungeonOfTheMadMage => 1,
            DungeonId::TombOfAnnihilation => 2,
            DungeonId::Undercity => 3,
        }
    }
}

impl StableOrd for DungeonId {
    open spec fn key(&self) -> Key {
        Key::Num(self.rank())
    }

    fn stable_cmp(&self, other: &Self) -> (o: Ordering) {
        self.ordinal().stable_cmp(&other.ordinal())
    }
}

/// A half of a Room permanent (CR 709.5).
#[derive(Clone, Copy, Debug, PartialEq, Eq, Structural, Hash)]
pub enum RoomDoor {
    Left,
    Right,
}

impl RoomDoor {
    /// Position of the variant in the declaration.
    #[verifier::opaque]
    pub open spec fn rank(&self) -> int {
        match self {
            RoomDoor::Left => 0,
            RoomDoor::Right => 1,
        }
    }

    pub fn ordinal(&self) -> (r: u8)
        ensures
            r == self.rank(),
    {
        proof {
            reveal(RoomDoor::rank);
        }
        match self {
            RoomDoor::Left => 0,
            RoomDoor::Right => 1,
        }
    }
}

impl StableOrd for RoomDoor {
    open spec fn key(&self) -> Key {
        Key::Num(self.rank())
    }

    fn stable_cmp(&self, other: &Self) -> (o: Ordering) {
        self.ordinal().stable_cmp(&other.ordinal())
    }
}

/// What is done to a door of a Room (CR 709.5f-g).
#[derive(Clone, Copy, Debug, PartialEq, Eq, Structural, Hash)]
pub enum DoorLockOp {
    Unlock,
    Lock,
    LockOrUnlock,
}

impl DoorLockOp {
    /// Position of the variant in the declaration.
    #[verifier::opaque]
    pub open spec fn rank(&self) -> int {
        match self {
            DoorLockOp::Unlock => 0,
            DoorLockOp::Lock => 1,
            DoorLockOp::LockOrUnlock => 2,
        }
    }

    pub fn ordinal(&self) -> (r: u8)
        ensures
            r == self.rank(),
    {
        proof {
            reveal(DoorLockOp::rank);
        }
        match self {
            DoorLockOp::Unlock => 0,
            DoorLockOp::Lock => 1,
            DoorLockOp::LockOrUnlock => 2,
        }
    }
}

impl StableOrd for DoorLockOp {
    open spec fn key(&self) -> Key {
        Key::Num(self.rank())
    }

    fn stable_cmp(&self, other: &Self) -> (o: Ordering) {
        self.ordinal().stable_cmp(&other.ordinal())
    }
}

/// Whether an offered card is cast.
#[derive(Clone, Copy, Debug, PartialEq, Eq, Structural, Hash)]
pub enum CastChoice {
    Cast,
    Decline,
}

impl CastChoice {
    /// Position of the variant in the declaration.
    #[verifier::opaque]
    pub open spec fn rank(&self) -> int {
        match self {
            CastChoice::Cast => 0,
            CastChoice::Decline => 1,
        }
    }

    pub fn ordinal(&self) -> (r: u8)
        ensures
            r == self.rank(),
    {
        proof {
            reveal(CastChoice::rank);
        }
        match self {
            CastChoice::Cast => 0,
            CastChoice::Decline => 1,
        }
    }
}

impl StableOrd for CastChoice {
    open spec fn key(&self) -> Key {
        Key::Num(self.rank())
    }

    fn stable_cmp(&self, other: &Self) -> (o: Ordering) {
        self.ordinal().stable_cmp(&other.ordinal())
    }
}

/// Where a mutating spell goes (CR 702.140).
#[derive(Clone, Copy, Debug, PartialEq, Eq, Structural, Hash)]
pub enum MergeSide {
    Top,
    Bottom,
}

impl MergeSide {
    /// Position of the variant in the declaration.
    #[verifier::opaque]
    pub open spec fn rank(&self) -> int {
        match self {
            MergeSide::Top => 0,
            MergeSide::Bottom => 1,
        }
    }

    pub fn ordinal(&self) -> (r: u8)
        ensures
            r == self.rank(),
    {
        proof {
            reveal(MergeSide::rank);
        }
        match self {
            MergeSide::Top => 0,
            MergeSide::Bottom => 1,
        }
    }
}

impl StableOrd for MergeSide {
    open spec fn key(&self) -> Key {
        Key::Num(self.rank())
    }

    fn stable_cmp(&self, other: &Self) -> (o: Ordering) {
        self.ordinal().stable_cmp(&other.ordinal())
    }
}

/// How long priority is passed automatically.
#[derive(Clone, Copy, Debug, PartialEq, Eq, Structural, Hash)]
pub enum AutoPassMode {
    UntilStackEmpty,
    UntilEndOfTurn,
}

impl AutoPassMode {
    /// Position of the variant in the declaration.
    #[verifier::opaque]
    pub open spec fn rank(&self) -> int {
        match self {
            AutoPassMode::UntilStackEmpty => 0,
            AutoPassMode::UntilEndOfTurn => 1,
        }
    }

    pub fn ordinal(&self) -> (r: u8)
        ensures
            r == self.rank(),
    {
        proof {
            reveal(AutoPassMode::rank);
        }
        match self {
            AutoPassMode::UntilStackEmpty => 0,
            AutoPassMode::UntilEndOfTurn => 1,
        }
    }
}

impl StableOrd for AutoPassMode {
    open spec fn key(&self) -> Key {
        Key::Num(self.rank())
    }

    fn stable_cmp(&self, other: &Self) -> (o: Ordering) {
        self.ordinal().stable_cmp(&other.ordinal())
    }
}

/// Change to a standing priority yield.
#[derive(Clone, Copy, Debug, PartialEq, Eq, Structural, Hash)]
pub enum PriorityYieldOp {
    Add,
    Remove,
}

impl PriorityYieldOp {
    /// Position of the variant in the declaration.
    #[verifier::opaque]
    pub open spec fn rank(&self) -> int {
        match self {
            PriorityYieldOp::Add => 0,
            PriorityYieldOp::Remove => 1,
        }
    }

    pub fn ordinal(&self) -> (r: u8)
        ensures
            r == self.rank(),
    {
        proof {
            reveal(PriorityYieldOp::rank);
        }
        match self {
            PriorityYieldOp::Add => 0,
            PriorityYieldOp::Remove => 1,
        }
    }
}

impl StableOrd for PriorityYieldOp {
    open spec fn key(&self) -> Key {
        Key::Num(self.rank())
    }

    fn stable_cmp(&self, other: &Self) -> (o: Ordering) {
        self.ordinal().stable_cmp(&other.ordinal())
    }
}

/// How an attacker assigns its combat damage (CR 510.1).
#[derive(Clone, Copy, Debug, PartialEq, Eq, Structural, Hash)]
pub enum CombatDamageMode {
    Normal,
    AsThoughUnblocked,
}

impl CombatDamageMode {
    /// Position of the variant in the declaration.
    #[verifier::opaque]
    pub open spec fn rank(&self) -> int {
        match self {
            CombatDamageMode::Normal => 0,
            CombatDamageMode::AsThoughUnblocked => 1,
        }
    }

    pub fn ordinal(&self) -> (r: u8)
        ensures
            r == self.rank(),
    {
        proof {
            reveal(CombatDamageMode::rank);
        }
        match self {
            CombatDamageMode::Normal => 0,
            CombatDamageMode::AsThoughUnblocked => 1,
        }
    }
}

impl StableOrd for CombatDamageMode {
    open spec fn key(&self) -> Key {
        Key::Num(self.rank())
    }

    fn stable_cmp(&self, other: &Self) -> (o: Ordering) {
        self.ordinal().stable_cmp(&other.ordinal())
    }
}

/// A choice made for learn (CR 701.48).
#[derive(Clone, Copy, Debug, PartialEq, Eq, Structural, Hash)]
pub enum LearnOption {
    Rummage,
    Lesson,
    Decline,
}

impl LearnOption {
    /// Position of the variant in the declaration.
    #[verifier::opaque]
    pub open spec fn rank(&self) -> int {
        match self {
            LearnOption::Rummage => 0,
            LearnOption::Lesson => 1,
            LearnOption::Decline => 2,
        }
    }

    pub fn ordinal(&self) -> (r: u8)
        ensures
            r == self.rank(),
    {
        proof {
            reveal(LearnOption::rank);
        }
        match self {
            LearnOption::Rummage => 0,
            LearnOption::Lesson => 1,
            LearnOption::Decline => 2,
        }
    }
}

impl StableOrd for LearnOption {
    open spec fn key(&self) -> Key {
        Key::Num(self.rank())
    }

    fn stable_cmp(&self, other: &Self) -> (o: Ordering) {
        self.ordinal().stable_cmp(&other.ordinal())
    }
}

/// How a Phyrexian mana symbol is paid (CR 107.4f).
#[derive(Clone, Copy, Debug, PartialEq, Eq, Structural, Hash)]
pub enum PhyrexianChoice {
    Mana,
    Life,
}

impl PhyrexianChoice {
    /// Position of the variant in the declaration.
    #[verifier::opaque]
    pub open spec fn rank(&self) -> int {
        match self {
            PhyrexianChoice::Mana => 0,
            PhyrexianChoice::Life => 1,
        }
    }

    pub fn ordinal(&self) -> (r: u8)
        ensures
            r == self.rank(),
    {
        proof {
            reveal(PhyrexianChoice::rank);
        }
        match self {
            PhyrexianChoice::Mana => 0,
            PhyrexianChoice::Life => 1,
        }
    }
}

impl StableOrd for PhyrexianChoice {
    open spec fn key(&self) -> Key {
        Key::Num(self.rank())
    }

    fn stable_cmp(&self, other: &Self) -> (o: Ordering) {
        self.ordinal().stable_cmp(&other.ordinal())
    }
}

} // verus!
