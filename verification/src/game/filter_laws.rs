//! What filters describe, and whom attack requirements force.
use std::sync::Arc;
use vstd::prelude::*;

use crate::game::combat;
use crate::game::filter;
use crate::game::filter::FilterContext;
use crate::game::game_object::ObjectModel;
use crate::order::natural::Natural;
use crate::parser::oracle;
use crate::types::card_type::CoreType;
use crate::types::game_state::GameModel;
use crate::types::identifiers::{ObjectId, PlayerId};
use crate::types::mana::ManaColor;
use crate::types::selection;
use crate::types::statics::StaticMode;
use crate::types::target_filter::{ControllerRef, FilterProp, TargetFilter, TypeFilter, TypedFilter};

verus! {

/// The card type that a type constraint asks for.
pub open spec fn asked_type(f: TypeFilter) -> Option<CoreType> {
    match f {
        TypeFilter::Artifact => Some(CoreType::Artifact),
        TypeFilter::Battle => Some(CoreType::Battle),
        TypeFilter::Creature => Some(CoreType::Creature),
        TypeFilter::Enchantment => Some(CoreType::Enchantment),
        TypeFilter::Instant => Some(CoreType::Instant),
        TypeFilter::Kindred => Some(CoreType::Kindred),
        TypeFilter::Land => Some(CoreType::Land),
        TypeFilter::Planeswalker => Some(CoreType::Planeswalker),
        TypeFilter::Sorcery => Some(CoreType::Sorcery),
        _ => None,
    }
}

/// Cards of the type can be on the battlefield.
pub open spec fn is_permanent_type(t: CoreType) -> bool {
    &&& is_on_traditional_cards(t)
    &&& t != CoreType::Instant
    &&& t != CoreType::Sorcery
    &&& t != CoreType::Kindred
}

/// The type is one of cards that are shuffled into a deck.
pub open spec fn is_on_traditional_cards(t: CoreType) -> bool {
    match t {
        CoreType::Plane | CoreType::Phenomenon | CoreType::Scheme | CoreType::Vanguard
        | CoreType::Conspiracy | CoreType::Dungeon => false,
        _ => true,
    }
}

proof fn lemma_some_type(o: ObjectModel, options: Seq<TypeFilter>)
    ensures
        filter::some_type_matches(o, options) <==> exists|i: int|
            0 <= i < options.len() && filter::type_matches(o, #[trigger] options[i]),
    decreases options.len(),
{
    if options.len() > 0 {
        let front = options.drop_last();
        lemma_some_type(o, front);
        if filter::some_type_matches(o, front) {
            let i = choose|i: int| 0 <= i < front.len() && filter::type_matches(o, front[i]);
            assert(filter::type_matches(o, options[i]));
        }
        if filter::type_matches(o, options.last()) {
            assert(filter::type_matches(o, options[options.len() - 1]));
        }
        if exists|i: int| 0 <= i < options.len() && filter::type_matches(o, #[trigger] options[i]) {
            let i = choose|i: int|
                0 <= i < options.len() && filter::type_matches(o, #[trigger] options[i]);
            if i < front.len() {
                assert(filter::type_matches(o, front[i]));
            }
        }
    }
}

/// What meets a type constraint: what has the card type or the subtype, what is a permanent card, what
/// does not meet the negated constraint, and what meets one of several.
pub proof fn what_type_constraints_ask_for(o: ObjectModel, f: TypeFilter)
    ensures
        asked_type(f) matches Some(t) ==> (filter::type_matches(o, f) <==> o.core_types.contains(t)),
        f is Permanent ==> (filter::type_matches(o, f) <==> exists|t: CoreType|
            is_permanent_type(t) && #[trigger] o.core_types.contains(t)),
        f is Card || f is Any ==> filter::type_matches(o, f),
        f matches TypeFilter::Non(inner) ==> filter::type_matches(o, f) != filter::type_matches(
            o,
            *inner,
        ),
        f matches TypeFilter::Subtype(name) ==> (filter::type_matches(o, f) <==> exists|i: int|
            0 <= i < o.subtypes.len() && (#[trigger] o.subtypes[i])@ == name@),
        f matches TypeFilter::AnyOf(options) ==> (filter::type_matches(o, f) <==> exists|i: int|
            0 <= i < options@.len() && filter::type_matches(o, #[trigger] options@[i])),
{
    if let TypeFilter::AnyOf(options) = f {
        lemma_some_type(o, options@);
    }
    if f is Permanent && exists|t: CoreType|
        is_permanent_type(t) && #[trigger] o.core_types.contains(t) {
        let t = choose|t: CoreType| is_permanent_type(t) && #[trigger] o.core_types.contains(t);
        assert(is_permanent_type(t));
    }
}

/// A filter without constraints describes every object.
pub proof fn unconstrained_filters_describe_everything(
    s: GameModel,
    id: ObjectId,
    f: Arc<TypedFilter>,
    ctx: FilterContext,
)
    requires
        s.objects.contains_key(id),
        f.type_filters@.len() == 0,
        f.controller is None,
        f.properties@.len() == 0,
    ensures
        filter::object_matches(s, id, TargetFilter::Typed(f), ctx),
{
}

/// A filter does not describe an object that misses one of its constraints: a type, a property, or
/// the controller.
pub proof fn filters_ask_for_every_constraint(
    s: GameModel,
    id: ObjectId,
    f: Arc<TypedFilter>,
    you: PlayerId,
    i: int,
)
    requires
        s.objects.contains_key(id),
        ({
            let o = s.objects[id];
            ||| 0 <= i < f.type_filters@.len() && !filter::type_matches(o, f.type_filters@[i])
            ||| 0 <= i < f.properties@.len() && match f.properties@[i] {
                FilterProp::Token => !o.is_token,
                FilterProp::Tapped => !o.tapped,
                FilterProp::Attacking => !o.attacking,
                FilterProp::HasColor { color } => !o.color.contains(color),
            }
            ||| f.controller == Some(ControllerRef::You) && o.controller != you
            ||| f.controller == Some(ControllerRef::Opponent) && o.controller == you
            ||| f.controller == Some(ControllerRef::ActivePlayer) && o.controller
                != s.active_player
        }),
    ensures
        !filter::object_matches(
            s,
            id,
            TargetFilter::Typed(f),
            FilterContext { controller: Some(you) },
        ),
{
    let ctx = FilterContext { controller: Some(you) };
    assert(filter::object_matches(s, id, TargetFilter::Typed(f), ctx) && 0 <= i
        < f.type_filters@.len() ==> filter::type_matches(s.objects[id], f.type_filters@[i]));
    assert(filter::object_matches(s, id, TargetFilter::Typed(f), ctx) && 0 <= i
        < f.properties@.len() ==> filter::prop_matches(s.objects[id], f.properties@[i]));
}

/// A filter describes an object that meets all of its constraints.
pub proof fn filters_describe_what_meets_their_constraints(
    s: GameModel,
    id: ObjectId,
    f: Arc<TypedFilter>,
    you: PlayerId,
)
    requires
        s.objects.contains_key(id),
        forall|i: int|
            0 <= i < f.type_filters@.len() ==> filter::type_matches(
                s.objects[id],
                #[trigger] f.type_filters@[i],
            ),
        forall|i: int|
            0 <= i < f.properties@.len() ==> match #[trigger] f.properties@[i] {
                FilterProp::Token => s.objects[id].is_token,
                FilterProp::Tapped => s.objects[id].tapped,
                FilterProp::Attacking => s.objects[id].attacking,
                FilterProp::HasColor { color } => s.objects[id].color.contains(color),
            },
        match f.controller {
            None => true,
            Some(ControllerRef::You) => s.objects[id].controller == you,
            Some(ControllerRef::Opponent) => s.objects[id].controller != you,
            Some(ControllerRef::ActivePlayer) => s.objects[id].controller == s.active_player,
            Some(_) => false,
        },
    ensures
        filter::object_matches(
            s,
            id,
            TargetFilter::Typed(f),
            FilterContext { controller: Some(you) },
        ),
{
    let o = s.objects[id];
    assert forall|i: int| 0 <= i < f.properties@.len() implies #[trigger] filter::prop_matches(
        o,
        f.properties@[i],
    ) by {
        assert(0 <= i < f.properties@.len());
    }
}

/// A permanent that makes the creatures of the opponents attack forces each of their creatures.
pub proof fn opposing_creatures_must_attack(s: GameModel, i: int, j: int, id: ObjectId)
    requires
        0 <= i < s.battlefield.len(),
        s.objects.contains_key(s.battlefield[i]),
        0 <= j < s.objects[s.battlefield[i]].static_definitions.len(),
        oracle::opponents_must_attack(*s.objects[s.battlefield[i]].static_definitions[j]),
        s.objects.contains_key(id),
        s.objects[id].controller != s.objects[s.battlefield[i]].controller,
        s.objects[id].core_types.contains(CoreType::Creature),
    ensures
        combat::must_attack(s, id),
{
    let source = s.objects[s.battlefield[i]];
    assert(combat::forces_attack(s, *source.static_definitions[j], source, id));
    assert(combat::some_forces_attack(s, source.static_definitions, source, id));
}

/// Without an attack requirement on the battlefield, no creature must attack.
pub proof fn nothing_must_attack_unasked(s: GameModel, id: ObjectId)
    requires
        forall|i: int, j: int|
            0 <= i < s.battlefield.len() && s.objects.contains_key(s.battlefield[i]) && 0 <= j
                < s.objects[s.battlefield[i]].static_definitions.len()
                ==> (*#[trigger] s.objects[s.battlefield[i]].static_definitions[j]).mode
                != StaticMode::MustAttack,
    ensures
        !combat::must_attack(s, id),
{
    if combat::must_attack(s, id) {
        let i = choose|i: int|
            0 <= i < s.battlefield.len() && {
                let source = #[trigger] s.battlefield[i];
                s.objects.contains_key(source) && combat::some_forces_attack(
                    s,
                    s.objects[source].static_definitions,
                    s.objects[source],
                    id,
                )
            };
        let source = s.objects[s.battlefield[i]];
        let defs = source.static_definitions;
        let j = choose|j: int|
            0 <= j < defs.len() && combat::forces_attack(s, *#[trigger] defs[j], source, id);
        assert((*s.objects[s.battlefield[i]].static_definitions[j]).mode != StaticMode::MustAttack);
    }
}

/// The colors of an iteration are the five colors, each of them once, from white to green.
pub proof fn iterations_meet_every_color(c: ManaColor, i: int, j: int)
    ensures
        selection::color_members().len() == 5,
        selection::color_members().contains(c),
        0 <= i < j < 5 ==> selection::color_members()[i].precedes(&selection::color_members()[j]),
{
    let m = selection::color_members();
    let k: int = match c {
        ManaColor::White => 0,
        ManaColor::Blue => 1,
        ManaColor::Black => 2,
        ManaColor::Red => 3,
        ManaColor::Green => 4,
    };
    assert(m[k] == c);
}

/// The card types of an iteration are those that cards in a library have, each of them once, in their
/// order: the permanent types, instants, sorceries and kindred.
pub proof fn iterations_meet_every_card_type(t: CoreType, i: int, j: int)
    ensures
        ({
            let m = selection::type_members();
            &&& 0 <= i < m.len() ==> asked_type(m[i]) is Some
            &&& 0 <= i < j < m.len() ==> asked_type(m[i])->Some_0.precedes(&asked_type(m[j])->Some_0)
            &&& is_permanent_type(t) || t is Instant || t is Sorcery || t is Kindred ==> exists|
                k: int,
            |
                0 <= k < m.len() && asked_type(#[trigger] m[k]) == Some(t)
        }),
{
    let m = selection::type_members();
    let k: int = match t {
        CoreType::Artifact => 0,
        CoreType::Battle => 1,
        CoreType::Creature => 2,
        CoreType::Enchantment => 3,
        CoreType::Instant => 4,
        CoreType::Kindred => 5,
        CoreType::Land => 6,
        CoreType::Planeswalker => 7,
        CoreType::Sorcery => 8,
        _ => 9,
    };
    if k < 9 {
        assert(asked_type(m[k]) == Some(t));
    }
}

} // verus!
