//! What holds of every promised gift.
use std::sync::Arc;
use vstd::prelude::*;

use crate::game::effects::draw;
use crate::game::effects::gift_delivery;
use crate::game::effects::round_laws;
use crate::game::effects::token;
use crate::game::engine::priority;
use crate::game::game_object::ObjectModel;
use crate::game::outcome::Outcome;
use crate::game::players;
use crate::game::replacement;
use crate::types::ability::{AbilityModel, Effect, EffectKind, SpellContext};
use crate::types::events::GameEvent;
use crate::types::game_state::GameModel;
use crate::types::identifiers::{ObjectId, PlayerId};
use crate::types::keywords::{GiftKind, GiftTokenSpec};
use crate::types::prompts::PromptModel;
use crate::types::proposed_event::{ProposedModel, TokenModel};
use crate::types::replacements::{ReplacementEvent, ReplacementId, ReplacementOutcome};
use crate::types::statics::{StaticDefinition, StaticMode};
use crate::types::target_filter::{ControllerRef, TargetFilter};
use crate::types::triggers::TriggerDefinition;
use crate::types::zones::{EtbTapState, Zone};

verus! {

/// A gift that was not promised changes nothing.
pub proof fn unpromised_gifts_change_nothing(o: Outcome, a: AbilityModel)
    requires
        a.effect is GiftDelivery,
        !a.context.additional_cost_paid,
    ensures
        gift_delivery::delivered(o, a) == Some(o),
{
}

/// The gift goes to the opponent who was chosen when it was promised.
pub proof fn chosen_opponent_is_the_recipient(s: GameModel, a: AbilityModel, chosen: PlayerId)
    requires
        a.context.gift_recipient == Some(chosen),
    ensures
        gift_delivery::gift_recipient(s, a) == chosen,
{
}

/// The object is the same in both games, or in neither.
pub open spec fn same_object(s: GameModel, t: GameModel, id: ObjectId) -> bool {
    &&& s.objects.contains_key(id) == t.objects.contains_key(id)
    &&& s.objects.contains_key(id) ==> s.objects[id] == t.objects[id]
}

/// The objects with identifiers below a bound are the same in both games.
pub open spec fn kept(s: GameModel, t: GameModel, bound: u64) -> bool {
    forall|id: ObjectId| id.0 < bound ==> #[trigger] same_object(s, t, id)
}

/// The `k`th new token stands on the battlefield after what was there.
pub open spec fn token_stands(
    s: GameModel,
    after: GameModel,
    owner: PlayerId,
    spec: TokenModel,
    tap: EtbTapState,
    k: int,
) -> bool {
    let id = ObjectId((s.next_object_id + k) as u64);
    &&& after.objects.contains_key(id)
    &&& after.objects[id] == token::token_object(id, owner, spec, tap)
    &&& after.battlefield[s.battlefield.len() + k] == id
}

/// Tokens that enter are tokens of their owner on the battlefield, and nothing that was there
/// before changes.
pub proof fn tokens_are_their_owners(
    o: Outcome,
    owner: PlayerId,
    spec: TokenModel,
    tap: EtbTapState,
    count: nat,
)
    requires
        o.state.next_object_id + count <= u64::MAX,
    ensures
        ({
            let after = token::tokens_entered(o, owner, spec, tap, count).state;
            &&& after.next_object_id == o.state.next_object_id + count
            &&& after.battlefield.len() == o.state.battlefield.len() + count
            &&& after.battlefield.take(o.state.battlefield.len() as int) == o.state.battlefield
            &&& forall|k: int|
                0 <= k < count ==> #[trigger] token_stands(o.state, after, owner, spec, tap, k)
            &&& kept(o.state, after, o.state.next_object_id)
        }),
    decreases count,
{
    let b = o.state.battlefield;
    if count == 0 {
        assert(b.take(b.len() as int) =~= b);
    } else {
        let n = (count - 1) as nat;
        tokens_are_their_owners(o, owner, spec, tap, n);
        let before = token::tokens_entered(o, owner, spec, tap, n).state;
        let after = token::tokens_entered(o, owner, spec, tap, count).state;
        let new = ObjectId(before.next_object_id);
        assert(after.battlefield.take(b.len() as int) =~= before.battlefield.take(b.len() as int));
        assert forall|k: int| 0 <= k < count implies #[trigger] token_stands(
            o.state,
            after,
            owner,
            spec,
            tap,
            k,
        ) by {
            let id = ObjectId((o.state.next_object_id + k) as u64);
            if k < n {
                assert(token_stands(o.state, before, owner, spec, tap, k));
                assert(id != new);
            } else {
                assert(id == new);
            }
        }
        assert(kept(o.state, before, o.state.next_object_id));
        assert forall|id: ObjectId| id.0 < o.state.next_object_id implies #[trigger] same_object(
            o.state,
            after,
            id,
        ) by {
            assert(same_object(o.state, before, id));
        }
    }
}

/// A permanent of the player has a replacement effect for events of a kind.
pub open spec fn replaces(
    s: GameModel,
    id: ObjectId,
    player: PlayerId,
    kind: ReplacementEvent,
) -> bool {
    &&& s.objects.contains_key(id)
    &&& s.objects[id].controller == player
    &&& exists|i: int|
        0 <= i < s.objects[id].replacement_definitions.len()
            && #[trigger] s.objects[id].replacement_definitions[i].event == kind
}

proof fn lemma_no_object_candidates(
    s: GameModel,
    id: ObjectId,
    player: PlayerId,
    kind: ReplacementEvent,
    applied: Seq<ReplacementId>,
    n: nat,
)
    requires
        s.objects.contains_key(id),
        s.objects[id].controller == player,
        !replaces(s, id, player, kind),
        n <= s.objects[id].replacement_definitions.len(),
    ensures
        replacement::object_candidates(
            id,
            s.objects[id],
            kind,
            applied,
            n,
        ).len() == 0,
    decreases n,
{
    if n > 0 {
        lemma_no_object_candidates(s, id, player, kind, applied, (n - 1) as nat);
        assert(s.objects[id].replacement_definitions[n - 1].event != kind);
    }
}

/// Without a permanent of the player that replaces events of a kind, no replacement effect applies.
pub proof fn lemma_no_candidates(
    s: GameModel,
    ids: Seq<ObjectId>,
    player: PlayerId,
    kind: ReplacementEvent,
    applied: Seq<ReplacementId>,
)
    requires
        forall|i: int| 0 <= i < ids.len() ==> !replaces(s, #[trigger] ids[i], player, kind),
    ensures
        replacement::permanent_candidates(
            s,
            ids,
            player,
            kind,
            applied,
        ).len() == 0,
    decreases ids.len(),
{
    if ids.len() > 0 {
        assert forall|i: int| 0 <= i < ids.drop_last().len() implies !replaces(
            s,
            #[trigger] ids.drop_last()[i],
            player,
            kind,
        ) by {
            assert(!replaces(s, ids[i], player, kind));
        }
        lemma_no_candidates(s, ids.drop_last(), player, kind, applied);
        let id = ids.last();
        assert(!replaces(s, ids[ids.len() - 1], player, kind));
        if s.objects.contains_key(id) && s.objects[id].controller == player {
            lemma_no_object_candidates(
                s,
                id,
                player,
                kind,
                applied,
                s.objects[id].replacement_definitions.len(),
            );
        }
    }
}

/// A promised token gift is one token for the recipient, unless a permanent of the recipient
/// replaces it; permanents of other players do not count.
pub proof fn unreplaced_gift_is_one_token(o: Outcome, a: AbilityModel, gift: GiftTokenSpec)
    requires
        a.effect == (Effect::GiftDelivery { kind: GiftKind::Token(gift) }),
        a.context.additional_cost_paid,
        forall|i: int|
            0 <= i < o.state.battlefield.len() ==> !replaces(
                o.state,
                #[trigger] o.state.battlefield[i],
                gift_delivery::gift_recipient(o.state, a),
                ReplacementEvent::CreateToken,
            ),
    ensures
        gift_delivery::delivered(o, a) == Some(
            token::tokens_entered(
                o,
                gift_delivery::gift_recipient(o.state, a),
                gift_delivery::gift_token(gift, a),
                gift.enter_tapped,
                1,
            ).report(gift_delivery::gift_report(a)),
        ),
{
    lemma_no_candidates(
        o.state,
        o.state.battlefield,
        gift_delivery::gift_recipient(o.state, a),
        ReplacementEvent::CreateToken,
        gift_delivery::applied_before(o.state),
    );
}

/// Where exactly one effect of the recipient applies and it doubles tokens, the gift is two tokens.
pub proof fn doubled_gift_is_two_tokens(
    o: Outcome,
    a: AbilityModel,
    gift: GiftTokenSpec,
    id: ReplacementId,
)
    requires
        a.effect == (Effect::GiftDelivery { kind: GiftKind::Token(gift) }),
        a.context.additional_cost_paid,
        replacement::candidates(
            o.state,
            gift_delivery::proposed_gift(
                o.state,
                a,
                gift,
                gift_delivery::gift_recipient(o.state, a),
            ),
        ) == seq![(id, ReplacementOutcome::Double)],
    ensures
        gift_delivery::delivered(o, a) == Some(
            token::tokens_entered(
                o,
                gift_delivery::gift_recipient(o.state, a),
                gift_delivery::gift_token(gift, a),
                gift.enter_tapped,
                2,
            ).report(gift_delivery::gift_report(a)),
        ),
{
}

/// The object is a token of the player with the characteristics that a gift names and no others. It
/// is tapped exactly if the gift says that it enters tapped.
pub open spec fn is_gift_token(o: ObjectModel, gift: GiftTokenSpec, owner: PlayerId) -> bool {
    &&& o.is_token
    &&& o.zone == Zone::Battlefield
    &&& o.owner == owner
    &&& o.controller == owner
    &&& o.tapped <==> gift.enter_tapped == EtbTapState::Tapped
    &&& o.name == gift.display_name@
    &&& o.power == gift.power
    &&& o.toughness == gift.toughness
    &&& o.core_types == gift.core_types@
    &&& o.subtypes == gift.subtypes@
    &&& o.color == gift.colors@
    &&& o.supertypes.len() == 0
    &&& o.keywords.len() == 0
    &&& o.counters.len() == 0
    &&& o.static_definitions.len() == 0
    &&& o.base_trigger_definitions.len() == 0
    &&& o.replacement_definitions.len() == 0
    &&& o.attached_to is None
    &&& o.sacrifice_at is None
    &&& !o.attacking
    &&& !o.face_down
    &&& !o.is_vanguard
    &&& o.hand_modifier == 0
    &&& o.life_modifier == 0
    &&& o.additional_cost is None
    &&& o.spell_ability is None
}

/// The recipient of a gift: whoever was chosen, else the next player in turn order.
pub open spec fn receives(s: GameModel, a: AbilityModel, player: PlayerId) -> bool {
    match a.context.gift_recipient {
        Some(chosen) => player == chosen,
        None => player == players::following(s, a.controller),
    }
}

/// Nothing that was in the game changed but that objects were added at the end of the battlefield.
pub open spec fn only_objects_added(before: GameModel, after: GameModel, n: nat) -> bool {
    &&& after == GameModel {
        next_object_id: (before.next_object_id + n) as u64,
        objects: after.objects,
        battlefield: after.battlefield,
        ..before
    }
    &&& after.battlefield.len() == before.battlefield.len() + n
    &&& forall|i: int|
        0 <= i < before.battlefield.len() ==> #[trigger] after.battlefield[i]
            == before.battlefield[i]
    &&& kept(before, after, before.next_object_id)
}

/// A promised token gift that nothing replaces adds one object to the game: the gift's token, last
/// on the battlefield, owned and controlled by the recipient. The events tell of the token, then of
/// the delivered gift.
pub proof fn unreplaced_gift_token_is_as_named(
    o: Outcome,
    a: AbilityModel,
    gift: GiftTokenSpec,
    player: PlayerId,
)
    requires
        a.effect == (Effect::GiftDelivery { kind: GiftKind::Token(gift) }),
        a.context.additional_cost_paid,
        receives(o.state, a, player),
        o.state.next_object_id < u64::MAX,
        forall|i: int|
            0 <= i < o.state.battlefield.len() ==> !replaces(
                o.state,
                #[trigger] o.state.battlefield[i],
                player,
                ReplacementEvent::CreateToken,
            ),
    ensures
        gift_delivery::delivered(o, a) matches Some(after) && {
            let id = ObjectId(o.state.next_object_id);
            &&& only_objects_added(o.state, after.state, 1)
            &&& after.state.battlefield[o.state.battlefield.len() as int] == id
            &&& after.state.objects.contains_key(id)
            &&& is_gift_token(after.state.objects[id], gift, player)
            &&& after.events == o.events + seq![
                GameEvent::TokenCreated { object_id: id, owner: player },
                GameEvent::EffectResolved {
                    kind: EffectKind::GiftDelivery,
                    source_id: a.source_id,
                    subject: None,
                },
            ]
        },
{
    unreplaced_gift_is_one_token(o, a, gift);
    let spec = gift_delivery::gift_token(gift, a);
    tokens_are_their_owners(o, player, spec, gift.enter_tapped, 1);
    let after = token::tokens_entered(o, player, spec, gift.enter_tapped, 1);
    assert(token_stands(o.state, after.state, player, spec, gift.enter_tapped, 0));
    assert(token::tokens_entered(o, player, spec, gift.enter_tapped, 0) == o);
    assert(gift_delivery::delivered(o, a)->Some_0.events =~= o.events + seq![
        GameEvent::TokenCreated { object_id: ObjectId(o.state.next_object_id), owner: player },
        GameEvent::EffectResolved {
            kind: EffectKind::GiftDelivery,
            source_id: a.source_id,
            subject: None,
        },
    ]);
}

/// Where the one effect that applies doubles tokens, the gift adds two such objects.
pub proof fn doubled_gift_tokens_are_as_named(
    o: Outcome,
    a: AbilityModel,
    gift: GiftTokenSpec,
    player: PlayerId,
    id: ReplacementId,
)
    requires
        a.effect == (Effect::GiftDelivery { kind: GiftKind::Token(gift) }),
        a.context.additional_cost_paid,
        receives(o.state, a, player),
        o.state.next_object_id < u64::MAX - 1,
        replacement::candidates(
            o.state,
            gift_delivery::proposed_gift(o.state, a, gift, player),
        ) == seq![(id, ReplacementOutcome::Double)],
    ensures
        gift_delivery::delivered(o, a) matches Some(after) && {
            &&& only_objects_added(o.state, after.state, 2)
            &&& forall|k: int|
                0 <= k < 2 ==> {
                    let id = #[trigger] after.state.battlefield[o.state.battlefield.len() + k];
                    &&& id == ObjectId((o.state.next_object_id + k) as u64)
                    &&& after.state.objects.contains_key(id)
                    &&& is_gift_token(after.state.objects[id], gift, player)
                }
        },
{
    doubled_gift_is_two_tokens(o, a, gift, id);
    let spec = gift_delivery::gift_token(gift, a);
    let tap = gift.enter_tapped;
    tokens_are_their_owners(o, player, spec, tap, 2);
    let after = token::tokens_entered(o, player, spec, tap, 2);
    assert(token::tokens_entered(o, player, spec, tap, 0) == o);
    assert(token::tokens_entered(o, player, spec, tap, 1).state.next_object_id
        == o.state.next_object_id + 1);
    assert forall|k: int| 0 <= k < 2 implies {
        let id = #[trigger] after.state.battlefield[o.state.battlefield.len() + k];
        &&& id == ObjectId((o.state.next_object_id + k) as u64)
        &&& after.state.objects.contains_key(id)
        &&& is_gift_token(after.state.objects[id], gift, player)
    } by {
        assert(token_stands(o.state, after.state, player, spec, tap, k));
    }
}

/// Limits on draws leave the smaller of two numbers the smaller of what they leave of the larger one
/// and that number.
proof fn lemma_statics_cap(
    defs: Seq<Arc<StaticDefinition>>,
    controller: PlayerId,
    player: PlayerId,
    drawn: int,
    n: int,
    m: int,
)
    requires
        0 <= m <= n,
    ensures
        draw::left_by_statics(defs, controller, player, drawn, m) == smaller(
            draw::left_by_statics(defs, controller, player, drawn, n),
            m,
        ),
        0 <= draw::left_by_statics(defs, controller, player, drawn, n) <= n,
    decreases defs.len(),
{
    if defs.len() > 0 {
        lemma_statics_cap(defs.drop_last(), controller, player, drawn, n, m);
    }
}

spec fn smaller(a: int, b: int) -> int {
    if a < b {
        a
    } else {
        b
    }
}

proof fn lemma_permanents_cap(
    s: GameModel,
    ids: Seq<ObjectId>,
    player: PlayerId,
    drawn: int,
    n: int,
    m: int,
)
    requires
        0 <= m <= n,
    ensures
        draw::left_by_permanents(s, ids, player, drawn, m) == smaller(
            draw::left_by_permanents(s, ids, player, drawn, n),
            m,
        ),
        0 <= draw::left_by_permanents(s, ids, player, drawn, n) <= n,
    decreases ids.len(),
{
    if ids.len() > 0 {
        lemma_permanents_cap(s, ids.drop_last(), player, drawn, n, m);
        if s.objects.contains_key(ids.last()) {
            let o = s.objects[ids.last()];
            let x = draw::left_by_permanents(s, ids.drop_last(), player, drawn, n);
            let y = draw::left_by_permanents(s, ids.drop_last(), player, drawn, m);
            lemma_statics_cap(o.static_definitions, o.controller, player, drawn, x, y);
        }
    }
}

/// What a player may draw of the cards that they may draw is all of them.
proof fn lemma_allowed_twice(s: GameModel, player: PlayerId, n: int)
    requires
        0 <= n,
    ensures
        0 <= draw::allowed_draws(s, player, n) <= n,
        draw::allowed_draws(s, player, draw::allowed_draws(s, player, n)) == draw::allowed_draws(
            s,
            player,
            n,
        ),
{
    let i = players::seat(s, player);
    if i < s.players.len() {
        let drawn = s.players[i].cards_drawn_this_turn as int;
        lemma_permanents_cap(s, s.battlefield, player, drawn, n, n);
        lemma_permanents_cap(
            s,
            s.battlefield,
            player,
            drawn,
            n,
            draw::allowed_draws(s, player, n),
        );
    }
}

/// A promised card gift is one draw of the recipient, if they may draw, unless a permanent of the
/// recipient replaces it.
pub proof fn unreplaced_card_gift_is_one_draw(o: Outcome, a: AbilityModel)
    requires
        a.effect == (Effect::GiftDelivery { kind: GiftKind::Card }),
        a.context.additional_cost_paid,
        forall|i: int|
            0 <= i < o.state.battlefield.len() ==> !replaces(
                o.state,
                #[trigger] o.state.battlefield[i],
                gift_delivery::gift_recipient(o.state, a),
                ReplacementEvent::Draw,
            ),
    ensures
        ({
            let player = gift_delivery::gift_recipient(o.state, a);
            gift_delivery::delivered(o, a) == Some(
                draw::cards_drawn(
                    o,
                    player,
                    draw::allowed_draws(o.state, player, 1) as nat,
                ).report(gift_delivery::gift_report(a)),
            )
        }),
{
    let player = gift_delivery::gift_recipient(o.state, a);
    lemma_allowed_twice(o.state, player, 1);
    lemma_no_candidates(
        o.state,
        o.state.battlefield,
        player,
        ReplacementEvent::Draw,
        Seq::empty(),
    );
}

/// Where exactly one effect of the recipient applies to their draw and it doubles draws, a card gift
/// is two cards, as far as they may draw them.
pub proof fn doubled_card_gift_is_two_draws(o: Outcome, a: AbilityModel, id: ReplacementId)
    requires
        a.effect == (Effect::GiftDelivery { kind: GiftKind::Card }),
        a.context.additional_cost_paid,
        ({
            let player = gift_delivery::gift_recipient(o.state, a);
            draw::allowed_draws(o.state, player, 1) == 1 && replacement::candidates(
                o.state,
                draw::proposed_draw(player, 1),
            ) == seq![(id, ReplacementOutcome::Double)]
        }),
    ensures
        gift_delivery::delivered(o, a) == Some(
            draw::drawn_within_limits(o, gift_delivery::gift_recipient(o.state, a), 2).report(
                gift_delivery::gift_report(a),
            ),
        ),
{
}

/// A card gift whose draw waits for a choice of replacement effects has drawn nothing yet: the game
/// asks the recipient and remembers the draw.
pub proof fn waiting_card_gifts_have_drawn_nothing(o: Outcome, a: AbilityModel)
    requires
        a.effect == (Effect::GiftDelivery { kind: GiftKind::Card }),
        a.context.additional_cost_paid,
        ({
            let player = gift_delivery::gift_recipient(o.state, a);
            draw::allowed_draws(o.state, player, 1) == 1 && replacement::candidates(
                o.state,
                draw::proposed_draw(player, 1),
            ).len() > 1
        }),
    ensures
        ({
            let player = gift_delivery::gift_recipient(o.state, a);
            let after = gift_delivery::delivered(o, a)->Some_0;
            &&& gift_delivery::delivered(o, a) is Some
            &&& after.events == o.events.push(gift_delivery::gift_report(a))
            &&& after.state == (GameModel {
                waiting_for: after.state.waiting_for,
                pending_replacement: Some(draw::proposed_draw(player, 1)),
                ..o.state
            })
            &&& after.state.waiting_for matches PromptModel::ReplacementChoice { player: p, .. }
                && p == player
        }),
{
}

/// The abilities that trigger when a permanent spell enters know what was decided when it was cast.
pub proof fn triggers_keep_the_promise(
    triggers: Seq<Arc<TriggerDefinition>>,
    source_id: ObjectId,
    controller: PlayerId,
    context: SpellContext,
    i: int,
)
    requires
        0 <= i < priority::enters_triggers(triggers, source_id, controller, context).len(),
    ensures
        ({
            let e = priority::enters_triggers(triggers, source_id, controller, context)[i];
            e.controller == controller && e.context == context && (e.ability matches Some(a)
                && a.context == context && a.controller == controller)
        }),
    decreases triggers.len(),
{
    if triggers.len() > 0 {
        let front = priority::enters_triggers(
            triggers.drop_last(),
            source_id,
            controller,
            context,
        );
        if i < front.len() {
            triggers_keep_the_promise(triggers.drop_last(), source_id, controller, context, i);
        }
    }
}

/// The static ability of a permanent of `controller` applies to the player.
pub open spec fn touches(def: StaticDefinition, controller: PlayerId, player: PlayerId) -> bool {
    match def.affected {
        None => true,
        Some(TargetFilter::Controller) => player == controller,
        Some(TargetFilter::Typed(typed)) => {
            ||| typed.controller is None
            ||| typed.controller == Some(ControllerRef::You) && player == controller
            ||| typed.controller == Some(ControllerRef::Opponent) && player != controller
        },
        Some(_) => false,
    }
}

/// A static ability of the permanent in a place of the battlefield limits the player's draws.
pub open spec fn limits_draws(s: GameModel, player: PlayerId, b: int, d: int) -> bool {
    let id = s.battlefield[b];
    &&& 0 <= b < s.battlefield.len()
    &&& s.objects.contains_key(id)
    &&& 0 <= d < s.objects[id].static_definitions.len()
    &&& (s.objects[id].static_definitions[d].mode is CantDraw
        || s.objects[id].static_definitions[d].mode is PerTurnDrawLimit)
    &&& touches(*s.objects[id].static_definitions[d], s.objects[id].controller, player)
}

proof fn lemma_no_limits(
    defs: Seq<Arc<StaticDefinition>>,
    controller: PlayerId,
    player: PlayerId,
    drawn: int,
    n: int,
)
    requires
        forall|d: int|
            0 <= d < defs.len() ==> !((#[trigger] defs[d]).mode is CantDraw
                || defs[d].mode is PerTurnDrawLimit) || !touches(*defs[d], controller, player),
    ensures
        draw::left_by_statics(defs, controller, player, drawn, n) == n,
    decreases defs.len(),
{
    if defs.len() > 0 {
        let front = defs.drop_last();
        assert forall|d: int| 0 <= d < front.len() implies !((#[trigger] front[d]).mode is CantDraw
            || front[d].mode is PerTurnDrawLimit) || !touches(*front[d], controller, player) by {
            assert(front[d] == defs[d]);
        }
        lemma_no_limits(front, controller, player, drawn, n);
        let last = defs[defs.len() - 1];
        assert(!(last.mode is CantDraw || last.mode is PerTurnDrawLimit) || !touches(
            *last,
            controller,
            player,
        ));
        assert(draw::affects_player(*last, controller, player) == touches(
            *last,
            controller,
            player,
        ));
    }
}

proof fn lemma_no_limits_among(s: GameModel, player: PlayerId, k: int, drawn: int, n: int)
    requires
        0 <= k <= s.battlefield.len(),
        forall|b: int, d: int| !#[trigger] limits_draws(s, player, b, d),
    ensures
        draw::left_by_permanents(s, s.battlefield.take(k), player, drawn, n) == n,
    decreases k,
{
    let ids = s.battlefield.take(k);
    if k > 0 {
        assert(ids.drop_last() =~= s.battlefield.take(k - 1));
        lemma_no_limits_among(s, player, k - 1, drawn, n);
        let id = s.battlefield[k - 1];
        if s.objects.contains_key(id) {
            let o = s.objects[id];
            assert forall|d: int| 0 <= d < o.static_definitions.len() implies !((
            #[trigger] o.static_definitions[d]).mode is CantDraw
                || o.static_definitions[d].mode is PerTurnDrawLimit) || !touches(
                *o.static_definitions[d],
                o.controller,
                player,
            ) by {
                assert(!limits_draws(s, player, k - 1, d));
            }
            lemma_no_limits(o.static_definitions, o.controller, player, drawn, n);
        }
    }
}

/// A player whose draws no permanent limits may draw as many cards as they are to draw.
pub proof fn draws_are_free_without_limits(s: GameModel, player: PlayerId, i: int, n: int)
    requires
        round_laws::listed_at(s, player, i),
        forall|b: int, d: int| !#[trigger] limits_draws(s, player, b, d),
    ensures
        draw::allowed_draws(s, player, n) == n,
{
    round_laws::lemma_listed_at(s, player, i);
    lemma_no_limits_among(
        s,
        player,
        s.battlefield.len() as int,
        s.players[i].cards_drawn_this_turn as int,
        n,
    );
    assert(s.battlefield.take(s.battlefield.len() as int) =~= s.battlefield);
}

/// What a limit leaves of any number of draws in a turn.
pub open spec fn limit_of(mode: StaticMode, drawn: int) -> int {
    match mode {
        StaticMode::PerTurnDrawLimit { max } => if max > drawn {
            max - drawn
        } else {
            0
        },
        _ => 0,
    }
}

proof fn lemma_limited(
    defs: Seq<Arc<StaticDefinition>>,
    controller: PlayerId,
    player: PlayerId,
    drawn: int,
    n: int,
    d: int,
)
    requires
        0 <= d < defs.len(),
        defs[d].mode is CantDraw || defs[d].mode is PerTurnDrawLimit,
        touches(*defs[d], controller, player),
        0 <= n,
    ensures
        draw::left_by_statics(defs, controller, player, drawn, n) <= limit_of(defs[d].mode, drawn),
    decreases defs.len(),
{
    let front = defs.drop_last();
    lemma_statics_cap(front, controller, player, drawn, n, 0);
    if d < front.len() {
        assert(front[d] == defs[d]);
        lemma_limited(front, controller, player, drawn, n, d);
    } else {
        assert(draw::affects_player(*defs[d], controller, player));
    }
}

proof fn lemma_limited_among(
    s: GameModel,
    player: PlayerId,
    k: int,
    drawn: int,
    n: int,
    b: int,
    d: int,
)
    requires
        0 <= b < k <= s.battlefield.len(),
        limits_draws(s, player, b, d),
        0 <= n,
    ensures
        draw::left_by_permanents(s, s.battlefield.take(k), player, drawn, n) <= limit_of(
            s.objects[s.battlefield[b]].static_definitions[d].mode,
            drawn,
        ),
    decreases k,
{
    let ids = s.battlefield.take(k);
    assert(ids.drop_last() =~= s.battlefield.take(k - 1));
    lemma_permanents_cap(s, ids.drop_last(), player, drawn, n, 0);
    let m = draw::left_by_permanents(s, ids.drop_last(), player, drawn, n);
    let id = s.battlefield[k - 1];
    if b < k - 1 {
        lemma_limited_among(s, player, k - 1, drawn, n, b, d);
        if s.objects.contains_key(id) {
            let o = s.objects[id];
            lemma_statics_cap(o.static_definitions, o.controller, player, drawn, m, 0);
        }
    } else {
        let o = s.objects[id];
        lemma_limited(o.static_definitions, o.controller, player, drawn, m, d);
    }
}

/// A player whose draws a permanent limits may draw no more than it leaves: nothing where they
/// cannot draw, else what is left of the limit for the turn.
pub proof fn limits_bind_draws(s: GameModel, player: PlayerId, i: int, n: int, b: int, d: int)
    requires
        round_laws::listed_at(s, player, i),
        limits_draws(s, player, b, d),
        0 <= n,
    ensures
        draw::allowed_draws(s, player, n) <= limit_of(
            s.objects[s.battlefield[b]].static_definitions[d].mode,
            s.players[i].cards_drawn_this_turn as int,
        ),
{
    round_laws::lemma_listed_at(s, player, i);
    lemma_limited_among(
        s,
        player,
        s.battlefield.len() as int,
        s.players[i].cards_drawn_this_turn as int,
        n,
        b,
        d,
    );
    assert(s.battlefield.take(s.battlefield.len() as int) =~= s.battlefield);
}

/// A promised card gift that nothing replaces or limits: the top card of the recipient's library
/// comes last into their hand, and counts as drawn this turn. With an empty library nothing is drawn.
/// Either way the delivery is reported.
pub proof fn unreplaced_card_gift_is_the_top_card(
    o: Outcome,
    a: AbilityModel,
    player: PlayerId,
    i: int,
)
    requires
        a.effect == (Effect::GiftDelivery { kind: GiftKind::Card }),
        a.context.additional_cost_paid,
        receives(o.state, a, player),
        round_laws::listed_at(o.state, player, i),
        o.state.players[i].cards_drawn_this_turn < u32::MAX,
        forall|b: int, d: int| !#[trigger] limits_draws(o.state, player, b, d),
        forall|b: int|
            0 <= b < o.state.battlefield.len() ==> !replaces(
                o.state,
                #[trigger] o.state.battlefield[b],
                player,
                ReplacementEvent::Draw,
            ),
    ensures
        gift_delivery::delivered(o, a) matches Some(after) && {
            let s = o.state;
            let t = after.state;
            let told = GameEvent::EffectResolved {
                kind: EffectKind::GiftDelivery,
                source_id: a.source_id,
                subject: None,
            };
            if s.players[i].library.len() == 0 {
                t == s && after.events == o.events.push(told)
            } else {
                let card = s.players[i].library[0];
                &&& t == (GameModel { players: t.players, objects: t.objects, ..s })
                &&& t.players.len() == s.players.len()
                &&& forall|j: int|
                    0 <= j < s.players.len() && j != i ==> #[trigger] t.players[j] == s.players[j]
                &&& t.players[i].hand == s.players[i].hand.push(card)
                &&& t.players[i].library == s.players[i].library.drop_first()
                &&& t.players[i].cards_drawn_this_turn == s.players[i].cards_drawn_this_turn + 1
                &&& t.players[i].life == s.players[i].life
                &&& t.players[i].graveyard == s.players[i].graveyard
                &&& t.objects.dom() == s.objects.dom()
                &&& s.objects.contains_key(card) ==> t.objects[card] == (ObjectModel {
                    zone: Zone::Hand,
                    ..s.objects[card]
                })
                &&& forall|other: ObjectId|
                    other != card && s.objects.contains_key(other) ==> #[trigger] t.objects[other]
                        == s.objects[other]
                &&& after.events == o.events + seq![
                    GameEvent::CardDrawn { player_id: player, object_id: card },
                    told,
                ]
            }
        },
{
    round_laws::lemma_listed_at(o.state, player, i);
    draws_are_free_without_limits(o.state, player, i, 1);
    unreplaced_card_gift_is_one_draw(o, a);
    assert(draw::cards_drawn(o, player, 0) == o);
    let after = gift_delivery::delivered(o, a)->Some_0;
    assert(after == draw::one_drawn(o, player).report(gift_delivery::gift_report(a)));
    if o.state.players[i].library.len() > 0 {
        let card = o.state.players[i].library[0];
        assert(after.state.objects.dom() =~= o.state.objects.dom());
        assert(after.events =~= o.events + seq![
            GameEvent::CardDrawn { player_id: player, object_id: card },
            gift_delivery::gift_report(a),
        ]);
    }
}

/// The proposal to create one gift token for the recipient, as the gift and its spell say.
pub open spec fn proposes_the_gift(
    e: ProposedModel,
    a: AbilityModel,
    gift: GiftTokenSpec,
    player: PlayerId,
) -> bool {
    e matches ProposedModel::CreateToken { owner, spec, enter_tapped, count, .. } && {
        &&& owner == player
        &&& enter_tapped == gift.enter_tapped
        &&& count == 1
        &&& spec.display_name == gift.display_name@
        &&& spec.script_name == gift.script_name@
        &&& spec.power == gift.power
        &&& spec.toughness == gift.toughness
        &&& spec.core_types == gift.core_types@
        &&& spec.subtypes == gift.subtypes@
        &&& spec.colors == gift.colors@
        &&& spec.supertypes.len() == 0
        &&& spec.keywords.len() == 0
        &&& spec.static_abilities.len() == 0
        &&& spec.enter_with_counters.len() == 0
        &&& spec.tapped <==> gift.enter_tapped == EtbTapState::Tapped
        &&& !spec.enters_attacking
        &&& spec.sacrifice_at is None
        &&& spec.attach_to is None
        &&& spec.source_id == a.source_id
        &&& spec.controller == a.controller
    }
}

/// A token gift to which several replacement effects apply waits for the recipient to choose: the
/// proposal is kept, as many effects are offered as apply, and nothing is created or reported yet.
pub proof fn waiting_token_gifts_have_created_nothing(
    o: Outcome,
    a: AbilityModel,
    gift: GiftTokenSpec,
    player: PlayerId,
)
    requires
        a.effect == (Effect::GiftDelivery { kind: GiftKind::Token(gift) }),
        a.context.additional_cost_paid,
        receives(o.state, a, player),
        1 < replacement::candidates(
            o.state,
            gift_delivery::proposed_gift(o.state, a, gift, player),
        ).len() <= usize::MAX,
    ensures
        gift_delivery::delivered(o, a) matches Some(after) && {
            &&& after.events == o.events
            &&& after.state == (GameModel {
                waiting_for: after.state.waiting_for,
                pending_replacement: after.state.pending_replacement,
                ..o.state
            })
            &&& after.state.pending_replacement matches Some(e) && proposes_the_gift(
                e,
                a,
                gift,
                player,
            )
            &&& after.state.waiting_for matches PromptModel::ReplacementChoice {
                player: chooser,
                candidate_count,
            } && chooser == player && candidate_count == replacement::candidates(
                o.state,
                gift_delivery::proposed_gift(o.state, a, gift, player),
            ).len()
        },
{
    let e = gift_delivery::proposed_gift(o.state, a, gift, player);
    let held = replacement::held(o.state, e);
    assert(replacement::permanent_candidates(
        held,
        held.battlefield,
        player,
        ReplacementEvent::CreateToken,
        gift_delivery::applied_before(o.state),
    ) == replacement::candidates(o.state, e)) by {
        lemma_same_candidates(
            o.state,
            held,
            o.state.battlefield,
            player,
            ReplacementEvent::CreateToken,
            gift_delivery::applied_before(o.state),
        );
    }
}

proof fn lemma_same_candidates(
    s: GameModel,
    t: GameModel,
    ids: Seq<ObjectId>,
    player: PlayerId,
    kind: ReplacementEvent,
    applied: Seq<ReplacementId>,
)
    requires
        s.objects == t.objects,
    ensures
        replacement::permanent_candidates(s, ids, player, kind, applied)
            == replacement::permanent_candidates(t, ids, player, kind, applied),
    decreases ids.len(),
{
    if ids.len() > 0 {
        lemma_same_candidates(s, t, ids.drop_last(), player, kind, applied);
    }
}

/// A token gift that its one replacement effect prevents creates nothing; the delivery is reported.
pub proof fn prevented_token_gifts_create_nothing(
    o: Outcome,
    a: AbilityModel,
    gift: GiftTokenSpec,
    player: PlayerId,
    id: ReplacementId,
)
    requires
        a.effect == (Effect::GiftDelivery { kind: GiftKind::Token(gift) }),
        a.context.additional_cost_paid,
        receives(o.state, a, player),
        replacement::candidates(
            o.state,
            gift_delivery::proposed_gift(o.state, a, gift, player),
        ) == seq![(id, ReplacementOutcome::Prevent)],
    ensures
        gift_delivery::delivered(o, a) matches Some(after) && {
            &&& after.state == o.state
            &&& after.events == o.events.push(
                GameEvent::EffectResolved {
                    kind: EffectKind::GiftDelivery,
                    source_id: a.source_id,
                    subject: None,
                },
            )
        },
{
}

/// A token enters with the characteristics of its specification, under its owner's control. It is
/// tapped where the way it enters says so, untapped where it says that; else as specified.
pub proof fn tokens_enter_as_specified(
    id: ObjectId,
    owner: PlayerId,
    spec: TokenModel,
    tap: EtbTapState,
)
    ensures
        ({
            let o = token::token_object(id, owner, spec, tap);
            &&& o.id == id
            &&& o.card_id.0 == 0
            &&& o.is_token
            &&& o.zone == Zone::Battlefield
            &&& o.owner == owner
            &&& o.controller == owner
            &&& tap == EtbTapState::Tapped ==> o.tapped
            &&& tap == EtbTapState::Untapped ==> !o.tapped
            &&& tap == EtbTapState::Unspecified ==> o.tapped == spec.tapped
            &&& o.name == spec.display_name
            &&& o.power == spec.power
            &&& o.toughness == spec.toughness
            &&& o.core_types == spec.core_types
            &&& o.subtypes == spec.subtypes
            &&& o.supertypes == spec.supertypes
            &&& o.color == spec.colors
            &&& o.keywords.len() == spec.keywords.len()
            &&& forall|k: int|
                0 <= k < spec.keywords.len() ==> *#[trigger] o.keywords[k] == spec.keywords[k]
            &&& o.attached_to == spec.attach_to
            &&& o.counters == spec.enter_with_counters
            &&& o.attacking == spec.enters_attacking
            &&& o.sacrifice_at == spec.sacrifice_at
            &&& o.static_definitions == spec.static_abilities
            &&& !o.face_down
            &&& !o.is_vanguard
        }),
{
}

} // verus!
