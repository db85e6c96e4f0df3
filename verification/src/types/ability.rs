//! Abilities, their effects and what they refer to.
use std::sync::Arc;
use vstd::prelude::*;

use crate::types::action_payloads::TargetRef;
use crate::types::identifiers::{ObjectId, PlayerId};
use crate::types::keywords::GiftKind;
use crate::types::mana_cost::ManaCost;
use crate::types::quantity::QuantityExpr;
use crate::types::replacements::{AppliedReplacements, ReplacementId};
use crate::types::target_filter::{ControllerRef, TargetFilter};

verus! {

/// How an ability comes onto the stack (CR 113.3).
#[derive(Clone, Copy, Debug, PartialEq, Eq, Structural, Hash)]
pub enum AbilityKind {
    Spell,
    Activated,
    Triggered,
}

/// Who takes part in a life auction.
#[derive(Clone, Copy, Debug, PartialEq, Eq, Structural, Hash)]
pub enum LifeAuctionParticipants {
    AllPlayers,
    ControllerAndTargetController,
}

/// The bid that opens a life auction.
#[derive(Clone, Copy, Debug, PartialEq, Eq, Structural, Hash)]
pub enum LifeAuctionStartingBid {
    Fixed(u32),
    ControllerChooses,
}

/// What an ability does when it resolves.
#[allow(inconsistent_fields)]
#[derive(Debug, PartialEq, Eq)]
pub enum Effect {
    LifeAuction {
        participants: LifeAuctionParticipants,
        starting_bid: LifeAuctionStartingBid,
        starting_with: ControllerRef,
    },
    GiftDelivery { kind: GiftKind },
    LoseLife { amount: QuantityExpr, target: Option<TargetFilter> },
    GainLife { amount: QuantityExpr, target: TargetFilter },
    DealDamage { amount: QuantityExpr, target: TargetFilter },
    Draw { count: QuantityExpr, target: TargetFilter },
    Discard { count: QuantityExpr, target: TargetFilter },
    Scry { count: QuantityExpr, target: TargetFilter },
    GiveControl { target: TargetFilter, recipient: TargetFilter },
    Counter { target: TargetFilter },
    PayCost { cost: ManaCost },
    Planeswalk,
    /// An instruction that is not carried out.
    Unimplemented,
}

/// The effect of a completed instruction, as events report it.
#[derive(Clone, Copy, Debug, PartialEq, Eq, Structural, Hash)]
pub enum EffectKind {
    LifeAuction,
    GiftDelivery,
    LoseLife,
    GainLife,
    DealDamage,
    Draw,
    Discard,
    Scry,
    GiveControl,
    Counter,
    PayCost,
    Planeswalk,
    Unimplemented,
}

/// When an instruction of a chain is carried out.
#[derive(Clone, Copy, Debug, PartialEq, Eq, Structural, Hash)]
pub enum AbilityCondition {
    /// "If you win the bidding, ..."
    AuctionWinnerIs { player: ControllerRef },
    /// "When you do, ..." (CR 603.12a).
    WhenYouDo,
}

/// The choice of modes (CR 700.2).
#[derive(Debug, PartialEq, Eq)]
pub struct ModalChoice {
    pub min_choices: usize,
    pub max_choices: usize,
    pub mode_count: usize,
    /// A cap that is read while the ability resolves.
    pub dynamic_max_choices: Option<QuantityExpr>,
    /// What each chosen mode costs, where the modes are paid for.
    pub mode_costs: Vec<ManaCost>,
}

/// The contents of a choice of modes.
pub struct ModalModel {
    pub min_choices: usize,
    pub max_choices: usize,
    pub mode_count: usize,
    pub dynamic_max_choices: Option<QuantityExpr>,
    pub mode_costs: Seq<ManaCost>,
}

impl View for ModalChoice {
    type V = ModalModel;

    open spec fn view(&self) -> ModalModel {
        ModalModel {
            min_choices: self.min_choices,
            max_choices: self.max_choices,
            mode_count: self.mode_count,
            dynamic_max_choices: self.dynamic_max_choices,
            mode_costs: self.mode_costs@,
        }
    }
}

/// An ability as a card has it.
#[derive(Debug, PartialEq, Eq)]
pub struct AbilityDefinition {
    pub kind: AbilityKind,
    pub effect: Arc<Effect>,
    pub sub_ability: Option<Box<AbilityDefinition>>,
    pub condition: Option<AbilityCondition>,
    pub modal: Option<Arc<ModalChoice>>,
    pub mode_abilities: Option<Arc<Vec<AbilityDefinition>>>,
    pub optional: bool,
    pub repeat_for: Option<QuantityExpr>,
}

impl AbilityDefinition {
    /// An ability with one effect and nothing attached to it.
    pub open spec fn plain(kind: AbilityKind, effect: Effect) -> AbilityDefinition {
        AbilityDefinition {
            kind,
            effect: Arc::new(effect),
            sub_ability: None,
            condition: None,
            modal: None,
            mode_abilities: None,
            optional: false,
            repeat_for: None,
        }
    }

    pub fn new(kind: AbilityKind, effect: Effect) -> (r: Self)
        ensures
            r == AbilityDefinition::plain(kind, effect),
    {
        AbilityDefinition {
            kind,
            effect: Arc::new(effect),
            sub_ability: None,
            condition: None,
            modal: None,
            mode_abilities: None,
            optional: false,
            repeat_for: None,
        }
    }

    /// The ability, followed by another one.
    pub fn sub_ability(self, sub: AbilityDefinition) -> (r: Self)
        ensures
            r == (AbilityDefinition { sub_ability: Some(Box::new(sub)), ..self }),
    {
        AbilityDefinition { sub_ability: Some(Box::new(sub)), ..self }
    }

    /// The ability, carried out under a condition.
    pub fn condition(self, condition: AbilityCondition) -> (r: Self)
        ensures
            r == (AbilityDefinition { condition: Some(condition), ..self }),
    {
        AbilityDefinition { condition: Some(condition), ..self }
    }

    /// The ability as an instruction that may be declined.
    pub fn optional(self) -> (r: Self)
        ensures
            r == (AbilityDefinition { optional: true, ..self }),
    {
        AbilityDefinition { optional: true, ..self }
    }

    /// The ability, done up to a number of times.
    pub fn repeat_for(self, times: QuantityExpr) -> (r: Self)
        ensures
            r == (AbilityDefinition { repeat_for: Some(times), ..self }),
    {
        AbilityDefinition { repeat_for: Some(times), ..self }
    }

    /// The ability as a choice of modes.
    pub fn modal(self, modal: ModalChoice, modes: Vec<AbilityDefinition>) -> (r: Self)
        ensures
            r == (AbilityDefinition {
                modal: Some(Arc::new(modal)),
                mode_abilities: Some(Arc::new(modes)),
                ..self
            }),
    {
        AbilityDefinition {
            modal: Some(Arc::new(modal)),
            mode_abilities: Some(Arc::new(modes)),
            ..self
        }
    }
}

/// What was decided while the spell was cast.
#[derive(Clone, Copy, Debug, PartialEq, Eq, Structural, Hash)]
pub struct SpellContext {
    /// The optional additional cost was paid; for gift, the gift was promised.
    pub additional_cost_paid: bool,
    /// The opponent to whom the gift was promised (CR 702.174a).
    pub gift_recipient: Option<PlayerId>,
}

/// An ability that resolves or waits to resolve.
#[derive(Debug, PartialEq, Eq)]
pub struct ResolvedAbility {
    pub effect: Arc<Effect>,
    pub targets: Vec<TargetRef>,
    pub source_id: ObjectId,
    pub controller: PlayerId,
    pub context: SpellContext,
    pub sub_ability: Option<Box<ResolvedAbility>>,
    pub condition: Option<AbilityCondition>,
    pub modal: Option<Arc<ModalChoice>>,
    pub mode_abilities: Option<Arc<Vec<AbilityDefinition>>>,
    pub optional: bool,
    pub repeat_for: Option<QuantityExpr>,
    /// Replacement effects that were already applied to this event (CR 614.5).
    pub replacement_applied: AppliedReplacements,
}

/// The contents of a resolving ability.
pub struct AbilityModel {
    pub effect: Effect,
    pub targets: Seq<TargetRef>,
    pub source_id: ObjectId,
    pub controller: PlayerId,
    pub context: SpellContext,
    pub sub_ability: Option<Box<AbilityModel>>,
    pub condition: Option<AbilityCondition>,
    pub modal: Option<Arc<ModalChoice>>,
    pub mode_abilities: Option<Arc<Vec<AbilityDefinition>>>,
    pub optional: bool,
    pub repeat_for: Option<QuantityExpr>,
    pub replacement_applied: Seq<ReplacementId>,
}

impl View for ResolvedAbility {
    type V = AbilityModel;

    open spec fn view(&self) -> AbilityModel {
        self.model()
    }
}

impl ResolvedAbility {
    pub open spec fn model(&self) -> AbilityModel
        decreases self,
    {
        AbilityModel {
            effect: *self.effect,
            targets: self.targets@,
            source_id: self.source_id,
            controller: self.controller,
            context: self.context,
            sub_ability: match self.sub_ability {
                Some(sub) => Some(Box::new(sub.model())),
                None => None,
            },
            condition: self.condition,
            modal: self.modal,
            mode_abilities: self.mode_abilities,
            optional: self.optional,
            repeat_for: self.repeat_for,
            replacement_applied: self.replacement_applied@,
        }
    }

    pub fn new(
        effect: Effect,
        targets: Vec<TargetRef>,
        source_id: ObjectId,
        controller: PlayerId,
    ) -> (r: Self)
        ensures
            r@ == (AbilityModel {
                effect,
                targets: targets@,
                source_id,
                controller,
                context: SpellContext { additional_cost_paid: false, gift_recipient: None },
                sub_ability: None,
                condition: None,
                modal: None,
                mode_abilities: None,
                optional: false,
                repeat_for: None,
                replacement_applied: Seq::empty(),
            }),
    {
        ResolvedAbility {
            effect: Arc::new(effect),
            targets,
            source_id,
            controller,
            context: SpellContext { additional_cost_paid: false, gift_recipient: None },
            sub_ability: None,
            condition: None,
            modal: None,
            mode_abilities: None,
            optional: false,
            repeat_for: None,
            replacement_applied: AppliedReplacements::none(),
        }
    }
}

/// Why an effect could not be resolved.
#[derive(Clone, Debug, PartialEq, Eq)]
pub enum EffectError {
    InvalidParam(String),
}

impl EffectError {
    pub open spec fn message(self) -> Seq<char> {
        match self {
            EffectError::InvalidParam(m) => m@,
        }
    }
}

} // verus!
