//! Casting spells (CR 601), with promised gifts (CR 702.174).
use vstd::prelude::*;

use crate::game::ability_utils;
use crate::game::engine::reply;
use crate::game::engine::reply::{EngineError, ErrorModel, Reply};
use crate::game::game_object::{GameObject, ObjectModel};
use crate::game::mana_payment;
use crate::game::players;
use crate::game::zones;
use crate::shared;
use crate::types::ability::{AbilityModel, ResolvedAbility, SpellContext};
use crate::types::action_payloads::{CastPaymentMode, TargetRef};
use crate::types::card_type::CoreType;
use crate::types::events::GameEvent;
use crate::types::game_state;
use crate::types::game_state::{
    GameModel, GameState, PendingCast, PendingCastModel, StackEntry, StackModel,
};
use crate::types::identifiers::{CardId, ObjectId, PlayerId};
use crate::types::phase::Phase;
use crate::types::player::PlayerModel;
use crate::types::prompts::{PromptModel, WaitingFor};
use crate::types::zones::Zone;

verus! {

/// The player may cast spells other than instants now (CR 307.1).
pub open spec fn sorcery_timing(s: GameModel, player: PlayerId) -> bool {
    &&& s.active_player == player
    &&& s.stack.len() == 0
    &&& (s.phase == Phase::PreCombatMain || s.phase == Phase::PostCombatMain)
}

/// The player may begin to cast the card.
pub open spec fn castable(s: GameModel, player: PlayerId, id: ObjectId, card_id: CardId) -> bool {
    &&& s.objects.contains_key(id)
    &&& s.objects[id].zone == Zone::Hand
    &&& s.objects[id].owner == player
    &&& s.objects[id].card_id == card_id
    &&& (s.objects[id].core_types.contains(CoreType::Instant) || sorcery_timing(s, player))
    &&& players::known(s, player)
}

/// The player can pay for the card.
pub open spec fn affordable(s: GameModel, player: PlayerId, id: ObjectId) -> bool {
    mana_payment::payable(s.players[players::seat(s, player)].mana, s.objects[id].mana_cost, 1)
}

/// What the spell does when it resolves, with its targets.
pub open spec fn spell_instructions(o: ObjectModel, c: PendingCastModel) -> Option<AbilityModel> {
    match o.spell_ability {
        Some(def) => Some(
            AbilityModel {
                targets: c.targets,
                ..ability_utils::resolved_from(*def, c.object_id, c.controller, c.context)
            },
        ),
        None => None,
    }
}

/// The spell is paid for and on the stack, and its controller has priority (CR 601.2i).
pub open spec fn spell_cast(s: GameModel, c: PendingCastModel) -> GameModel {
    let i = players::seat(s, c.controller);
    let o = s.objects[c.object_id];
    let p = s.players[i];
    let paid = players::with_player(
        s,
        i,
        PlayerModel { mana: mana_payment::paid(p.mana, o.mana_cost, 1), ..p },
    );
    let on_stack = zones::moved(paid, c.object_id, Zone::Stack);
    GameModel {
        objects: on_stack.objects.insert(
            c.object_id,
            ObjectModel { controller: c.controller, ..on_stack.objects[c.object_id] },
        ),
        stack: on_stack.stack.push(
            StackModel {
                source_id: c.object_id,
                controller: c.controller,
                is_spell: true,
                context: c.context,
                ability: spell_instructions(o, c),
            },
        ),
        pending_cast: None,
        consecutive_passes: 0,
        priority_player: c.controller,
        waiting_for: PromptModel::Priority { player: c.controller },
        ..on_stack
    }
}

/// The casting is completed, if it still can be.
#[verifier::opaque]
pub open spec fn finish_reply(s: GameModel, c: PendingCastModel) -> Reply {
    if !players::known(s, c.controller) || !s.objects.contains_key(c.object_id) {
        reply::refused(s, ErrorModel::IllegalChoice)
    } else if !affordable(s, c.controller, c.object_id) {
        reply::refused(s, ErrorModel::Unaffordable)
    } else {
        Reply { state: spell_cast(s, c), result: Ok(Seq::empty()) }
    }
}

/// The spell is paid for: at once, or, where the player pays by hand, once they say so. Until then
/// the game waits for the payment (CR 601.2g).
pub open spec fn payment_reply(s: GameModel, c: PendingCastModel) -> Reply {
    match c.payment_mode {
        CastPaymentMode::Auto => finish_reply(s, c),
        CastPaymentMode::Manual => Reply {
            state: GameModel {
                pending_cast: Some(c),
                waiting_for: PromptModel::ManaPayment { player: c.controller },
                ..s
            },
            result: Ok(Seq::empty()),
        },
    }
}

/// The payment that the game waits for can be made. Without a spell there is nothing to pay for.
pub open spec fn can_settle(s: GameModel) -> bool {
    match s.pending_cast {
        None => true,
        Some(c) => {
            &&& players::known(s, c.controller)
            &&& s.objects.contains_key(c.object_id)
            &&& affordable(s, c.controller, c.object_id)
        },
    }
}

/// The player is done with adding mana: the spell is paid for and cast. Without a spell the player
/// has priority again.
#[verifier::opaque]
pub open spec fn settle_reply(s: GameModel, player: PlayerId) -> Reply {
    if !(s.waiting_for is ManaPayment) {
        reply::refused(s, ErrorModel::WrongPrompt)
    } else {
        match s.pending_cast {
            Some(c) => finish_reply(s, c),
            None => Reply {
                state: GameModel {
                    priority_player: player,
                    waiting_for: PromptModel::Priority { player },
                    ..s
                },
                result: Ok(Seq::empty()),
            },
        }
    }
}

/// The player takes the spell back instead of paying for it. The card is still in their
/// hand, and they have priority again.
#[verifier::opaque]
pub open spec fn cancel_reply(s: GameModel) -> Reply {
    match (s.waiting_for, s.pending_cast) {
        (PromptModel::ManaPayment { .. }, Some(c)) => Reply {
            state: GameModel {
                pending_cast: None,
                priority_player: c.controller,
                waiting_for: PromptModel::Priority { player: c.controller },
                ..s
            },
            result: Ok(Seq::empty()),
        },
        _ => reply::refused(s, ErrorModel::WrongPrompt),
    }
}

pub open spec fn as_targets(ids: Seq<ObjectId>) -> Seq<TargetRef> {
    Seq::new(ids.len(), |i: int| TargetRef::Object(ids[i]))
}

/// A player begins to cast a card from their hand. Where it has an optional additional cost, the
/// game asks for that first. A spell that is paid for by hand can be announced before there is mana
/// for it.
#[verifier::opaque]
pub open spec fn cast_reply(
    s: GameModel,
    player: PlayerId,
    id: ObjectId,
    card_id: CardId,
    targets: Seq<ObjectId>,
    payment_mode: CastPaymentMode,
) -> Reply {
    let c = PendingCastModel {
        object_id: id,
        controller: player,
        context: ability_utils::no_context(),
        targets: as_targets(targets),
        payment_mode,
    };
    if !(s.waiting_for is Priority) {
        reply::refused(s, ErrorModel::WrongPrompt)
    } else if !castable(s, player, id, card_id) {
        reply::refused(s, ErrorModel::IllegalChoice)
    } else if payment_mode == CastPaymentMode::Auto && !affordable(s, player, id) {
        reply::refused(s, ErrorModel::Unaffordable)
    } else if s.objects[id].additional_cost is Some {
        Reply {
            state: GameModel {
                pending_cast: Some(c),
                waiting_for: PromptModel::OptionalCostChoice { player, object_id: id },
                ..s
            },
            result: Ok(Seq::empty()),
        }
    } else {
        payment_reply(s, c)
    }
}

/// The gift was promised to an opponent.
pub open spec fn promised_to(c: PendingCastModel, opponent: PlayerId) -> PendingCastModel {
    PendingCastModel {
        context: SpellContext { additional_cost_paid: true, gift_recipient: Some(opponent) },
        ..c
    }
}

/// The answer to an optional cost. A gift is promised to the only opponent at once; with several,
/// the game asks to whom (CR 702.174a).
#[verifier::opaque]
pub open spec fn optional_cost_reply(s: GameModel, pay: bool) -> Reply {
    match (s.waiting_for, s.pending_cast) {
        (PromptModel::OptionalCostChoice { player, object_id }, Some(c)) => if !pay {
            payment_reply(s, c)
        } else {
            let opponents = players::others_alive(s, s.seat_order, c.controller);
            if opponents.len() == 0 {
                reply::refused(s, ErrorModel::IllegalChoice)
            } else if opponents.len() == 1 {
                payment_reply(s, promised_to(c, opponents[0]))
            } else {
                Reply {
                    state: GameModel {
                        waiting_for: PromptModel::GiftChooseOpponent {
                            player,
                            object_id,
                            opponents,
                        },
                        ..s
                    },
                    result: Ok(Seq::empty()),
                }
            }
        },
        _ => reply::refused(s, ErrorModel::WrongPrompt),
    }
}

/// The answer to the question to whom the gift is promised.
#[verifier::opaque]
pub open spec fn recipient_reply(s: GameModel, opponent: PlayerId) -> Reply {
    match (s.waiting_for, s.pending_cast) {
        (PromptModel::GiftChooseOpponent { opponents, .. }, Some(c)) => if opponents.contains(
            opponent,
        ) {
            payment_reply(s, promised_to(c, opponent))
        } else {
            reply::refused(s, ErrorModel::IllegalChoice)
        },
        _ => reply::refused(s, ErrorModel::WrongPrompt),
    }
}

fn is_instant(obj: &GameObject) -> (r: bool)
    ensures
        r == obj@.core_types.contains(CoreType::Instant),
{
    let mut i: usize = 0;
    while i < obj.card_types.core_types.len()
        invariant
            i <= obj.card_types.core_types.len(),
            forall|j: int|
                0 <= j < i ==> obj.card_types.core_types@[j] != CoreType::Instant,
        decreases obj.card_types.core_types.len() - i,
    {
        if obj.card_types.core_types[i] == CoreType::Instant {
            return true;
        }
        i = i + 1;
    }
    false
}

fn is_sorcery_timing(state: &GameState, player: PlayerId) -> (r: bool)
    ensures
        r == sorcery_timing(state@, player),
{
    state.active_player == player && state.stack.len() == 0 && (state.phase == Phase::PreCombatMain
        || state.phase == Phase::PostCombatMain)
}

pub fn is_castable(state: &GameState, player: PlayerId, id: ObjectId, card_id: CardId) -> (r: bool)
    ensures
        r == castable(state@, player, id, card_id),
{
    match state.objects.get(&id) {
        None => false,
        Some(obj) => {
            let at: usize = players::find_player(state, player);
            obj.zone == Zone::Hand && obj.owner == player && obj.card_id == card_id && (is_instant(
                obj,
            ) || is_sorcery_timing(state, player)) && at < state.players.len()
        },
    }
}

pub fn is_affordable(state: &GameState, player: PlayerId, id: ObjectId) -> (r: bool)
    requires
        players::known(state@, player),
        state@.objects.contains_key(id),
    ensures
        r == affordable(state@, player, id),
{
    match state.objects.get(&id) {
        None => false,
        Some(obj) => {
            let i: usize = players::find_player(state, player);
            mana_payment::can_pay(&state.players[i].mana_pool.mana, &obj.mana_cost, 1)
        },
    }
}

fn make_instructions(state: &GameState, c: &PendingCast) -> (r: Option<ResolvedAbility>)
    requires
        state@.objects.contains_key(c.object_id),
    ensures
        match r {
            Some(a) => spell_instructions(state@.objects[c.object_id], c@) == Some(a@),
            None => spell_instructions(state@.objects[c.object_id], c@) is None,
        },
{
    match state.objects.get(&c.object_id) {
        None => None,
        Some(obj) => match &obj.spell_ability {
            None => None,
            Some(def) => {
                let mut a = ability_utils::build_resolved_in_context(
                    def,
                    c.object_id,
                    c.controller,
                    c.context,
                );
                a.targets = shared::copy_all(&c.targets);
                Some(a)
            },
        },
    }
}

fn finish_cast(state: &mut GameState, c: PendingCast) -> (r: Result<Vec<GameEvent>, EngineError>)
    ensures
        reply::agrees(r, final(state)@, finish_reply(old(state)@, c@)),
{
    proof {
        reveal(finish_reply);
    }
    let i: usize = players::find_player(state, c.controller);
    let cost = match state.objects.get(&c.object_id) {
        Some(obj) => obj.mana_cost,
        None => {
            return Err(EngineError::IllegalChoice);
        },
    };
    if i >= state.players.len() {
        return Err(EngineError::IllegalChoice);
    }
    if !is_affordable(state, c.controller, c.object_id) {
        return Err(EngineError::Unaffordable);
    }
    let ability = make_instructions(state, &c);
    let mana = mana_payment::pay(&state.players[i].mana_pool.mana, &cost, 1);
    state.players[i].mana_pool.mana = mana;
    let ghost paid = state@;
    proof {
        players::lemma_player_update(old(state).players@, i as int, state.players@[i as int]);
        let p = old(state)@.players[i as int];
        assert(paid =~= players::with_player(
            old(state)@,
            i as int,
            PlayerModel { mana: mana_payment::paid(p.mana, cost, 1), ..p },
        ));
    }
    zones::move_object(state, c.object_id, Zone::Stack);
    if let Some(obj) = state.objects.get_mut(&c.object_id) {
        obj.controller = c.controller;
    }
    let entry = StackEntry {
        source_id: c.object_id,
        controller: c.controller,
        is_spell: true,
        context: c.context,
        ability,
    };
    let ghost before = state.stack@;
    let ghost e = entry@;
    state.stack.push(entry);
    assert(game_state::stack_models(state.stack@) =~= game_state::stack_models(before).push(e));
    state.pending_cast = None;
    state.consecutive_passes = 0;
    state.priority_player = c.controller;
    state.waiting_for = WaitingFor::Priority { player: c.controller };
    assert(state@ =~= spell_cast(old(state)@, c@));
    Ok(Vec::new())
}

fn begin_payment(state: &mut GameState, c: PendingCast) -> (r: Result<Vec<GameEvent>, EngineError>)
    ensures
        reply::agrees(r, final(state)@, payment_reply(old(state)@, c@)),
{
    match c.payment_mode {
        CastPaymentMode::Auto => finish_cast(state, c),
        CastPaymentMode::Manual => {
            state.waiting_for = WaitingFor::ManaPayment { player: c.controller };
            state.pending_cast = Some(c);
            Ok(Vec::new())
        },
    }
}

/// Whether the payment that the game waits for can be made.
pub fn is_payment_covered(state: &GameState) -> (r: bool)
    ensures
        r == can_settle(state@),
{
    match &state.pending_cast {
        None => true,
        Some(c) => {
            let i: usize = players::find_player(state, c.controller);
            i < state.players.len() && state.objects.get(&c.object_id).is_some() && is_affordable(
                state,
                c.controller,
                c.object_id,
            )
        },
    }
}

/// Pays for the spell that is being cast.
pub fn settle_payment(state: &mut GameState, player: PlayerId) -> (r: Result<
    Vec<GameEvent>,
    EngineError,
>)
    ensures
        reply::agrees(r, final(state)@, settle_reply(old(state)@, player)),
{
    proof {
        reveal(settle_reply);
    }
    match &state.waiting_for {
        WaitingFor::ManaPayment { .. } => {},
        _ => {
            return Err(EngineError::WrongPrompt);
        },
    }
    let c = match &state.pending_cast {
        Some(c) => pending_copy(c),
        None => {
            state.priority_player = player;
            state.waiting_for = WaitingFor::Priority { player };
            return Ok(Vec::new());
        },
    };
    finish_cast(state, c)
}

/// Takes back the spell that is being paid for.
pub fn cancel_cast(state: &mut GameState) -> (r: Result<Vec<GameEvent>, EngineError>)
    ensures
        reply::agrees(r, final(state)@, cancel_reply(old(state)@)),
{
    proof {
        reveal(cancel_reply);
    }
    match &state.waiting_for {
        WaitingFor::ManaPayment { .. } => {},
        _ => {
            return Err(EngineError::WrongPrompt);
        },
    }
    let player = match &state.pending_cast {
        Some(c) => c.controller,
        None => {
            return Err(EngineError::WrongPrompt);
        },
    };
    state.pending_cast = None;
    state.priority_player = player;
    state.waiting_for = WaitingFor::Priority { player };
    Ok(Vec::new())
}

fn to_targets(ids: Vec<ObjectId>) -> (r: Vec<TargetRef>)
    ensures
        r@ == as_targets(ids@),
{
    let mut r: Vec<TargetRef> = Vec::new();
    let mut i: usize = 0;
    while i < ids.len()
        invariant
            i <= ids.len(),
            r.len() == i,
            forall|j: int| 0 <= j < i ==> r@[j] == TargetRef::Object(ids@[j]),
        decreases ids.len() - i,
    {
        r.push(TargetRef::Object(ids[i]));
        i = i + 1;
    }
    assert(r@ =~= as_targets(ids@));
    r
}

pub fn cast_spell(
    state: &mut GameState,
    player: PlayerId,
    object_id: ObjectId,
    card_id: CardId,
    targets: Vec<ObjectId>,
    payment_mode: CastPaymentMode,
) -> (r: Result<Vec<GameEvent>, EngineError>)
    ensures
        reply::agrees(
            r,
            final(state)@,
            cast_reply(old(state)@, player, object_id, card_id, targets@, payment_mode),
        ),
{
    proof {
        reveal(cast_reply);
    }
    match &state.waiting_for {
        WaitingFor::Priority { .. } => {},
        _ => {
            return Err(EngineError::WrongPrompt);
        },
    }
    if !is_castable(state, player, object_id, card_id) {
        return Err(EngineError::IllegalChoice);
    }
    if payment_mode == CastPaymentMode::Auto && !is_affordable(state, player, object_id) {
        return Err(EngineError::Unaffordable);
    }
    let c = PendingCast {
        object_id,
        controller: player,
        context: SpellContext { additional_cost_paid: false, gift_recipient: None },
        targets: to_targets(targets),
        payment_mode,
    };
    let optional_cost = match state.objects.get(&object_id) {
        Some(obj) => obj.additional_cost.is_some(),
        None => false,
    };
    if optional_cost {
        state.pending_cast = Some(c);
        state.waiting_for = WaitingFor::OptionalCostChoice { player, object_id };
        Ok(Vec::new())
    } else {
        begin_payment(state, c)
    }
}

fn pending_copy(c: &PendingCast) -> (r: PendingCast)
    ensures
        r@ == c@,
{
    PendingCast {
        object_id: c.object_id,
        controller: c.controller,
        context: c.context,
        targets: shared::copy_all(&c.targets),
        payment_mode: c.payment_mode,
    }
}

pub fn decide_optional_cost(state: &mut GameState, pay: bool) -> (r: Result<
    Vec<GameEvent>,
    EngineError,
>)
    ensures
        reply::agrees(r, final(state)@, optional_cost_reply(old(state)@, pay)),
{
    proof {
        reveal(optional_cost_reply);
    }
    let (player, object_id) = match &state.waiting_for {
        WaitingFor::OptionalCostChoice { player, object_id } => (*player, *object_id),
        _ => {
            return Err(EngineError::WrongPrompt);
        },
    };
    let c = match &state.pending_cast {
        Some(c) => pending_copy(c),
        None => {
            return Err(EngineError::WrongPrompt);
        },
    };
    if !pay {
        return begin_payment(state, c);
    }
    let opponents = players::opponents(state, c.controller);
    if opponents.len() == 0 {
        return Err(EngineError::IllegalChoice);
    }
    if opponents.len() == 1 {
        let context = SpellContext {
            additional_cost_paid: true,
            gift_recipient: Some(opponents[0]),
        };
        return begin_payment(state, PendingCast { context, ..c });
    }
    state.waiting_for = WaitingFor::GiftChooseOpponent { player, object_id, opponents };
    Ok(Vec::new())
}

pub fn choose_gift_recipient(state: &mut GameState, opponent: PlayerId) -> (r: Result<
    Vec<GameEvent>,
    EngineError,
>)
    ensures
        reply::agrees(r, final(state)@, recipient_reply(old(state)@, opponent)),
{
    proof {
        reveal(recipient_reply);
    }
    let offered = match &state.waiting_for {
        WaitingFor::GiftChooseOpponent { opponents, .. } => {
            let mut found = false;
            let mut i: usize = 0;
            while i < opponents.len() && !found
                invariant
                    i <= opponents.len(),
                    found ==> opponents@.contains(opponent),
                    !found ==> forall|j: int| 0 <= j < i ==> opponents@[j] != opponent,
                decreases opponents.len() - i,
            {
                found = opponents[i] == opponent;
                i = i + 1;
            }
            found
        },
        _ => {
            return Err(EngineError::WrongPrompt);
        },
    };
    let c = match &state.pending_cast {
        Some(c) => pending_copy(c),
        None => {
            return Err(EngineError::WrongPrompt);
        },
    };
    if !offered {
        return Err(EngineError::IllegalChoice);
    }
    let context = SpellContext { additional_cost_paid: true, gift_recipient: Some(opponent) };
    begin_payment(state, PendingCast { context, ..c })
}

} // verus!
