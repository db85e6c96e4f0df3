//! The state of a game.
use vstd::prelude::*;

use crate::game::game_object::ObjectModel;
use crate::game::object_store::ObjectStore;
use crate::types::ability::{AbilityModel, ResolvedAbility, SpellContext};
use crate::types::action_payloads::{CastPaymentMode, TargetRef};
use crate::types::format::{FormatConfig, GameFormat};
use crate::types::identifiers::{ObjectId, PlayerId};
use crate::types::mana_cost::ManaCost;
use crate::types::phase::Phase;
use crate::types::player::{Player, PlayerModel};
use crate::types::prompts::{PromptModel, WaitingFor};
use crate::types::proposed_event::{ProposedEvent, ProposedModel};
use crate::types::replacements::{AppliedReplacements, ReplacementId};

verus! {

/// The direction in which turns pass.
#[derive(Clone, Copy, Debug, PartialEq, Eq, Structural, Hash)]
pub enum TurnDirection {
    Clockwise,
    Counterclockwise,
}

/// A spell or ability on the stack (CR 405).
#[derive(Debug, PartialEq, Eq)]
pub struct StackEntry {
    /// The spell, or the source of the ability.
    pub source_id: ObjectId,
    pub controller: PlayerId,
    pub is_spell: bool,
    pub context: SpellContext,
    /// What resolves; a permanent spell has no instructions.
    pub ability: Option<ResolvedAbility>,
}

/// The contents of a stack entry.
pub struct StackModel {
    pub source_id: ObjectId,
    pub controller: PlayerId,
    pub is_spell: bool,
    pub context: SpellContext,
    pub ability: Option<AbilityModel>,
}

impl View for StackEntry {
    type V = StackModel;

    open spec fn view(&self) -> StackModel {
        StackModel {
            source_id: self.source_id,
            controller: self.controller,
            is_spell: self.is_spell,
            context: self.context,
            ability: match self.ability {
                Some(ability) => Some(ability@),
                None => None,
            },
        }
    }
}

/// Instructions that follow once the current prompt is answered.
#[derive(Debug, PartialEq, Eq)]
pub struct PendingContinuation {
    pub chain: Box<ResolvedAbility>,
}

/// A cost that may be paid several times, together with the modes it buys.
#[derive(Debug, PartialEq, Eq)]
pub struct PendingRepeatedPayment {
    pub cost: ManaCost,
    /// The reflexive ability whose modes are chosen (CR 603.12a).
    pub reflexive: Box<ResolvedAbility>,
}

/// The repeated optional payment of the ability that resolves.
#[derive(Debug, PartialEq, Eq)]
pub struct RepeatedOptionalPaymentFrame {
    pub optional_cost_payments_this_resolution: u32,
    pub pending: Option<PendingRepeatedPayment>,
}

/// The contents of a repeated optional payment.
pub struct PaymentFrameModel {
    pub optional_cost_payments_this_resolution: u32,
    pub pending: Option<(ManaCost, AbilityModel)>,
}

impl View for RepeatedOptionalPaymentFrame {
    type V = PaymentFrameModel;

    open spec fn view(&self) -> PaymentFrameModel {
        PaymentFrameModel {
            optional_cost_payments_this_resolution: self.optional_cost_payments_this_resolution,
            pending: match self.pending {
                Some(p) => Some((p.cost, p.reflexive@)),
                None => None,
            },
        }
    }
}

/// A triggered ability that still needs targets (CR 603.3d).
#[derive(Debug, PartialEq, Eq)]
pub struct PendingTrigger {
    pub source_id: ObjectId,
    pub controller: PlayerId,
    /// The chosen modes in printed order.
    pub modes: Vec<ResolvedAbility>,
}

/// A spell whose casting is under way (CR 601.2).
#[derive(Debug, PartialEq, Eq)]
pub struct PendingCast {
    pub object_id: ObjectId,
    pub controller: PlayerId,
    pub context: SpellContext,
    pub targets: Vec<TargetRef>,
    pub payment_mode: CastPaymentMode,
}

/// The contents of a casting under way.
pub struct PendingCastModel {
    pub object_id: ObjectId,
    pub controller: PlayerId,
    pub context: SpellContext,
    pub targets: Seq<TargetRef>,
    pub payment_mode: CastPaymentMode,
}

impl View for PendingCast {
    type V = PendingCastModel;

    open spec fn view(&self) -> PendingCastModel {
        PendingCastModel {
            object_id: self.object_id,
            controller: self.controller,
            context: self.context,
            targets: self.targets@,
            payment_mode: self.payment_mode,
        }
    }
}

#[derive(Debug)]
pub struct GameState {
    pub format_config: FormatConfig,
    pub rng_seed: u64,
    pub players: Vec<Player>,
    pub seat_order: Vec<PlayerId>,
    pub turn_direction: TurnDirection,
    pub turn_number: u32,
    pub active_player: PlayerId,
    pub priority_player: PlayerId,
    /// How many players passed in succession (CR 117.4).
    pub consecutive_passes: u32,
    pub phase: Phase,
    pub objects: ObjectStore,
    pub next_object_id: u64,
    pub battlefield: Vec<ObjectId>,
    pub command_zone: Vec<ObjectId>,
    pub exile: Vec<ObjectId>,
    /// Last entry on top.
    pub stack: Vec<StackEntry>,
    /// Top card first.
    pub planar_deck: Vec<ObjectId>,
    pub eliminated_players: Vec<PlayerId>,
    pub waiting_for: WaitingFor,
    pub pending_continuation: Option<PendingContinuation>,
    pub pending_life_auction_participants: Option<Vec<PlayerId>>,
    /// Winner and bid of the auction that just completed (CR 608.2c).
    pub last_life_auction: Option<(PlayerId, u32)>,
    pub last_effect_count: Option<i32>,
    pub post_replacement_token_choice_applied: Option<AppliedReplacements>,
    pub pending_replacement: Option<ProposedEvent>,
    pub repeated_payment: Option<RepeatedOptionalPaymentFrame>,
    pub pending_trigger: Option<PendingTrigger>,
    pub pending_cast: Option<PendingCast>,
}

/// The contents of a pending trigger.
pub struct PendingTriggerModel {
    pub source_id: ObjectId,
    pub controller: PlayerId,
    pub modes: Seq<AbilityModel>,
}

impl View for PendingTrigger {
    type V = PendingTriggerModel;

    open spec fn view(&self) -> PendingTriggerModel {
        PendingTriggerModel {
            source_id: self.source_id,
            controller: self.controller,
            modes: ability_models(self.modes@),
        }
    }
}

/// The contents of a game.
#[verifier::ext_equal]
pub struct GameModel {
    pub format_config: FormatConfig,
    pub rng_seed: u64,
    pub players: Seq<PlayerModel>,
    pub seat_order: Seq<PlayerId>,
    pub turn_direction: TurnDirection,
    pub turn_number: u32,
    pub active_player: PlayerId,
    pub priority_player: PlayerId,
    pub consecutive_passes: u32,
    pub phase: Phase,
    pub objects: Map<ObjectId, ObjectModel>,
    pub next_object_id: u64,
    pub battlefield: Seq<ObjectId>,
    pub command_zone: Seq<ObjectId>,
    pub exile: Seq<ObjectId>,
    pub stack: Seq<StackModel>,
    pub planar_deck: Seq<ObjectId>,
    pub eliminated_players: Seq<PlayerId>,
    pub waiting_for: PromptModel,
    pub pending_continuation: Option<AbilityModel>,
    pub pending_life_auction_participants: Option<Seq<PlayerId>>,
    pub last_life_auction: Option<(PlayerId, u32)>,
    pub last_effect_count: Option<i32>,
    pub post_replacement_token_choice_applied: Option<Seq<ReplacementId>>,
    pub pending_replacement: Option<ProposedModel>,
    pub repeated_payment: Option<PaymentFrameModel>,
    pub pending_trigger: Option<PendingTriggerModel>,
    pub pending_cast: Option<PendingCastModel>,
}

pub open spec fn ability_models(abilities: Seq<ResolvedAbility>) -> Seq<AbilityModel> {
    Seq::new(abilities.len(), |i: int| abilities[i]@)
}

pub open spec fn player_models(players: Seq<Player>) -> Seq<PlayerModel> {
    Seq::new(players.len(), |i: int| players[i]@)
}

pub open spec fn stack_models(stack: Seq<StackEntry>) -> Seq<StackModel> {
    Seq::new(stack.len(), |i: int| stack[i]@)
}

impl View for GameState {
    type V = GameModel;

    open spec fn view(&self) -> GameModel {
        GameModel {
            format_config: self.format_config,
            rng_seed: self.rng_seed,
            players: player_models(self.players@),
            seat_order: self.seat_order@,
            turn_direction: self.turn_direction,
            turn_number: self.turn_number,
            active_player: self.active_player,
            priority_player: self.priority_player,
            consecutive_passes: self.consecutive_passes,
            phase: self.phase,
            objects: self.objects@,
            next_object_id: self.next_object_id,
            battlefield: self.battlefield@,
            command_zone: self.command_zone@,
            exile: self.exile@,
            stack: stack_models(self.stack@),
            planar_deck: self.planar_deck@,
            eliminated_players: self.eliminated_players@,
            waiting_for: self.waiting_for@,
            pending_continuation: match self.pending_continuation {
                Some(c) => Some(c.chain@),
                None => None,
            },
            pending_life_auction_participants: match self.pending_life_auction_participants {
                Some(p) => Some(p@),
                None => None,
            },
            last_life_auction: self.last_life_auction,
            last_effect_count: self.last_effect_count,
            post_replacement_token_choice_applied:
                match self.post_replacement_token_choice_applied {
                Some(a) => Some(a@),
                None => None,
            },
            pending_replacement: match self.pending_replacement {
                Some(e) => Some(e@),
                None => None,
            },
            repeated_payment: match self.repeated_payment {
                Some(f) => Some(f@),
                None => None,
            },
            pending_trigger: match self.pending_trigger {
                Some(t) => Some(t@),
                None => None,
            },
            pending_cast: match self.pending_cast {
                Some(c) => Some(c@),
                None => None,
            },
        }
    }
}

impl GameState {
    /// A game that has not begun: the first seat has priority and every zone is empty.
    pub open spec fn initial(
        format_config: FormatConfig,
        player_count: u8,
        seed: u64,
    ) -> GameModel {
        GameModel {
            format_config,
            rng_seed: seed,
            players: Seq::new(
                player_count as nat,
                |i: int| Player::fresh(PlayerId(i as u8), format_config.starting_life),
            ),
            seat_order: Seq::new(player_count as nat, |i: int| PlayerId(i as u8)),
            turn_direction: TurnDirection::Clockwise,
            turn_number: 1,
            active_player: PlayerId(0),
            priority_player: PlayerId(0),
            consecutive_passes: 0,
            phase: Phase::PreCombatMain,
            objects: Map::empty(),
            next_object_id: 1,
            battlefield: Seq::empty(),
            command_zone: Seq::empty(),
            exile: Seq::empty(),
            stack: Seq::empty(),
            planar_deck: Seq::empty(),
            eliminated_players: Seq::empty(),
            waiting_for: PromptModel::Priority { player: PlayerId(0) },
            pending_continuation: None,
            pending_life_auction_participants: None,
            last_life_auction: None,
            last_effect_count: None,
            post_replacement_token_choice_applied: None,
            pending_replacement: None,
            repeated_payment: None,
            pending_trigger: None,
            pending_cast: None,
        }
    }

    pub fn new(format_config: FormatConfig, player_count: u8, seed: u64) -> (r: Self)
        ensures
            r@ == GameState::initial(format_config, player_count, seed),
    {
        let mut players: Vec<Player> = Vec::new();
        let mut seat_order: Vec<PlayerId> = Vec::new();
        let mut i: u8 = 0;
        while i < player_count
            invariant
                i <= player_count,
                players.len() == i,
                seat_order.len() == i,
                forall|j: int|
                    0 <= j < i ==> (#[trigger] players@[j])@ == Player::fresh(
                        PlayerId(j as u8),
                        format_config.starting_life,
                    ),
                forall|j: int| 0 <= j < i ==> #[trigger] seat_order@[j] == PlayerId(j as u8),
            decreases player_count - i,
        {
            players.push(Player::new(PlayerId(i), format_config.starting_life));
            seat_order.push(PlayerId(i));
            i = i + 1;
        }
        let r = GameState {
            format_config,
            rng_seed: seed,
            players,
            seat_order,
            turn_direction: TurnDirection::Clockwise,
            turn_number: 1,
            active_player: PlayerId(0),
            priority_player: PlayerId(0),
            consecutive_passes: 0,
            phase: Phase::PreCombatMain,
            objects: ObjectStore::new(),
            next_object_id: 1,
            battlefield: Vec::new(),
            command_zone: Vec::new(),
            exile: Vec::new(),
            stack: Vec::new(),
            planar_deck: Vec::new(),
            eliminated_players: Vec::new(),
            waiting_for: WaitingFor::Priority { player: PlayerId(0) },
            pending_continuation: None,
            pending_life_auction_participants: None,
            last_life_auction: None,
            last_effect_count: None,
            post_replacement_token_choice_applied: None,
            pending_replacement: None,
            repeated_payment: None,
            pending_trigger: None,
            pending_cast: None,
        };
        assert(r@ =~= GameState::initial(format_config, player_count, seed));
        r
    }

    /// A two-player game with 20 life each.
    pub fn new_two_player(seed: u64) -> (r: Self)
        ensures
            r@ == GameState::initial(
                FormatConfig { format: GameFormat::Standard, starting_life: 20 },
                2,
                seed,
            ),
    {
        GameState::new(FormatConfig::standard(), 2, seed)
    }

    /// The repeated optional payment under way, if there is one.
    pub fn active_repeated_optional_payment_frame(&self) -> (r: Option<
        &RepeatedOptionalPaymentFrame,
    >)
        ensures
            match r {
                Some(f) => self@.repeated_payment == Some(f@),
                None => self@.repeated_payment is None,
            },
    {
        match &self.repeated_payment {
            Some(f) => Some(f),
            None => None,
        }
    }
}

} // verus!
