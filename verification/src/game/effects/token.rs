//! Creating tokens (CR 111).
use std::sync::Arc;
use vstd::prelude::*;

use crate::game::game_object::{GameObject, ObjectModel};
use crate::game::outcome;
use crate::game::outcome::Outcome;
use crate::shared;
use crate::types::card::CardTypes;
use crate::types::counters::CounterType;
use crate::types::events::GameEvent;
use crate::types::game_state::{GameModel, GameState};
use crate::types::identifiers::{CardId, ObjectId, PlayerId};
use crate::types::keywords::Keyword;
use crate::types::mana_cost::ManaCost;
use crate::types::proposed_event::{TokenModel, TokenSpec};
use crate::types::zones::{EtbTapState, Zone};

verus! {

/// The keywords of a token, as objects hold them.
pub open spec fn shared_keywords(keywords: Seq<Keyword>) -> Seq<Arc<Keyword>> {
    Seq::new(keywords.len(), |i: int| Arc::new(keywords[i]))
}

/// A token as it enters under its owner's control (CR 111.2).
pub open spec fn token_object(
    id: ObjectId,
    owner: PlayerId,
    spec: TokenModel,
    enter_tapped: EtbTapState,
) -> ObjectModel {
    ObjectModel {
        is_token: true,
        tapped: enter_tapped.resolved(spec.tapped),
        power: spec.power,
        toughness: spec.toughness,
        core_types: spec.core_types,
        subtypes: spec.subtypes,
        supertypes: spec.supertypes,
        color: spec.colors,
        keywords: shared_keywords(spec.keywords),
        attached_to: spec.attach_to,
        counters: spec.enter_with_counters,
        attacking: spec.enters_attacking,
        sacrifice_at: spec.sacrifice_at,
        static_definitions: spec.static_abilities,
        ..GameObject::blank(id, CardId(0), owner, spec.display_name, Zone::Battlefield)
    }
}

/// One token enters.
pub open spec fn token_entered(
    o: Outcome,
    owner: PlayerId,
    spec: TokenModel,
    enter_tapped: EtbTapState,
) -> Outcome {
    let s = o.state;
    let id = ObjectId(s.next_object_id);
    Outcome {
        state: GameModel {
            next_object_id: (s.next_object_id + 1) as u64,
            objects: s.objects.insert(id, token_object(id, owner, spec, enter_tapped)),
            battlefield: s.battlefield.push(id),
            ..s
        },
        events: o.events.push(GameEvent::TokenCreated { object_id: id, owner }),
    }
}

/// `count` equal tokens enter.
pub open spec fn tokens_entered(
    o: Outcome,
    owner: PlayerId,
    spec: TokenModel,
    enter_tapped: EtbTapState,
    count: nat,
) -> Outcome
    decreases count,
{
    if count == 0 {
        o
    } else {
        token_entered(
            tokens_entered(o, owner, spec, enter_tapped, (count - 1) as nat),
            owner,
            spec,
            enter_tapped,
        )
    }
}

pub proof fn lemma_tokens_next_id(
    o: Outcome,
    owner: PlayerId,
    spec: TokenModel,
    enter_tapped: EtbTapState,
    count: nat,
)
    requires
        o.state.next_object_id + count <= u64::MAX,
    ensures
        tokens_entered(o, owner, spec, enter_tapped, count).state.next_object_id
            == o.state.next_object_id + count,
    decreases count,
{
    if count > 0 {
        lemma_tokens_next_id(o, owner, spec, enter_tapped, (count - 1) as nat);
    }
}

fn share_keywords(keywords: Vec<Keyword>) -> (r: Vec<Arc<Keyword>>)
    ensures
        r@ == shared_keywords(keywords@),
{
    let mut left = keywords;
    let mut r: Vec<Arc<Keyword>> = Vec::new();
    let ghost all = left@;
    while left.len() > 0
        invariant
            r@.len() + left@.len() == all.len(),
            left@ == all.skip(r@.len() as int),
            forall|j: int| 0 <= j < r@.len() ==> #[trigger] r@[j] == Arc::new(all[j]),
        decreases left.len(),
    {
        let ghost n = r@.len() as int;
        let k = left.remove(0);
        assert(k == all[n]);
        r.push(Arc::new(k));
        assert(left@ =~= all.skip(n + 1));
    }
    assert(r@ =~= shared_keywords(all));
    r
}

fn copy_counters(counters: &Vec<(CounterType, u32)>) -> (r: Vec<(CounterType, u32)>)
    ensures
        r@ == counters@,
{
    let mut r: Vec<(CounterType, u32)> = Vec::new();
    let mut i: usize = 0;
    while i < counters.len()
        invariant
            i <= counters.len(),
            r@ == counters@.take(i as int),
        decreases counters.len() - i,
    {
        r.push((counters[i].0.copied(), counters[i].1));
        i = i + 1;
        assert(counters@.take(i as int) =~= counters@.take(i - 1).push(counters@[i - 1]));
    }
    assert(counters@.take(i as int) =~= counters@);
    r
}

/// Creates the tokens of an event that is no longer replaced.
pub fn create_tokens(
    state: &mut GameState,
    owner: PlayerId,
    spec: TokenSpec,
    enter_tapped: EtbTapState,
    count: u32,
    events: &mut Vec<GameEvent>,
)
    requires
        old(state).next_object_id + count <= u64::MAX,
    ensures
        outcome::at(final(state)@, final(events)@) == tokens_entered(
            outcome::at(old(state)@, old(events)@),
            owner,
            spec@,
            enter_tapped,
            count as nat,
        ),
{
    let ghost model = spec@;
    let ghost before = outcome::at(state@, events@);
    let TokenSpec {
        characteristics: c,
        script_name: _,
        static_abilities,
        enter_with_counters,
        tapped,
        enters_attacking,
        sacrifice_at,
        source_id: _,
        controller: _,
        attach_to,
    } = spec;
    let keywords = share_keywords(c.keywords);
    let mut i: u32 = 0;
    while i < count
        invariant
            i <= count,
            old(state).next_object_id + count <= u64::MAX,
            state.next_object_id == old(state).next_object_id + i,
            outcome::at(state@, events@) == tokens_entered(
                before,
                owner,
                model,
                enter_tapped,
                i as nat,
            ),
            model.display_name == c.display_name@,
            model.power == c.power,
            model.toughness == c.toughness,
            model.core_types == c.core_types@,
            model.subtypes == c.subtypes@,
            model.supertypes == c.supertypes@,
            model.colors == c.colors@,
            keywords@ == shared_keywords(model.keywords),
            model.static_abilities == static_abilities@,
            model.enter_with_counters == enter_with_counters@,
            model.tapped == tapped,
            model.enters_attacking == enters_attacking,
            model.sacrifice_at == sacrifice_at,
            model.attach_to == attach_to,
        decreases count - i,
    {
        let id = ObjectId(state.next_object_id);
        let token = GameObject {
            id,
            card_id: CardId(0),
            owner,
            controller: owner,
            name: c.display_name.clone(),
            zone: Zone::Battlefield,
            tapped: enter_tapped.resolve(tapped),
            face_down: false,
            is_token: true,
            is_vanguard: false,
            mana_cost: ManaCost::zero(),
            power: c.power,
            toughness: c.toughness,
            card_types: CardTypes {
                core_types: shared::copy_all(&c.core_types),
                subtypes: shared::copy_texts(&c.subtypes),
                supertypes: shared::copy_all(&c.supertypes),
            },
            color: shared::copy_all(&c.colors),
            keywords: shared::share_all(&keywords),
            hand_modifier: 0,
            life_modifier: 0,
            additional_cost: None,
            spell_ability: None,
            attached_to: attach_to,
            counters: copy_counters(&enter_with_counters),
            attacking: enters_attacking,
            sacrifice_at,
            static_definitions: shared::share_all(&static_abilities),
            base_trigger_definitions: Vec::new(),
            replacement_definitions: Vec::new(),
        };
        assert(token@ =~= token_object(id, owner, model, enter_tapped));
        state.next_object_id = state.next_object_id + 1;
        state.objects.insert(id, token);
        state.battlefield.push(id);
        events.push(GameEvent::TokenCreated { object_id: id, owner });
        i = i + 1;
    }
}

} // verus!
