//! Which objects and players a filter or reference stands for.
use vstd::prelude::*;

use crate::game::game_object::{GameObject, ObjectModel};
use crate::text;
use crate::types::ability::ResolvedAbility;
use crate::types::action_payloads::TargetRef;
use crate::types::card_type::CoreType;
use crate::types::game_state::{GameModel, GameState};
use crate::types::identifiers::{ObjectId, PlayerId};
use crate::types::mana::ManaColor;
use crate::types::selection;
use crate::types::target_filter::{ControllerRef, FilterProp, TargetFilter, TypeFilter, TypedFilter};

verus! {

/// The first object among the targets.
pub open spec fn first_object(targets: Seq<TargetRef>) -> Option<ObjectId>
    decreases targets.len(),
{
    if targets.len() == 0 {
        None
    } else {
        match targets[0] {
            TargetRef::Object(id) => Some(id),
            TargetRef::Player(_) => first_object(targets.drop_first()),
        }
    }
}

/// The first player among the targets.
pub open spec fn first_player(targets: Seq<TargetRef>) -> Option<PlayerId>
    decreases targets.len(),
{
    if targets.len() == 0 {
        None
    } else {
        match targets[0] {
            TargetRef::Player(id) => Some(id),
            TargetRef::Object(_) => first_player(targets.drop_first()),
        }
    }
}

pub fn target_object(targets: &Vec<TargetRef>) -> (r: Option<ObjectId>)
    ensures
        r == first_object(targets@),
{
    let mut i: usize = 0;
    assert(targets@.skip(0) =~= targets@);
    while i < targets.len()
        invariant
            i <= targets.len(),
            first_object(targets@.skip(i as int)) == first_object(targets@),
        decreases targets.len() - i,
    {
        if let TargetRef::Object(id) = targets[i] {
            return Some(id);
        }
        assert(targets@.skip(i as int).drop_first() =~= targets@.skip(i + 1));
        i = i + 1;
    }
    None
}

pub fn target_player(targets: &Vec<TargetRef>) -> (r: Option<PlayerId>)
    ensures
        r == first_player(targets@),
{
    let mut i: usize = 0;
    assert(targets@.skip(0) =~= targets@);
    while i < targets.len()
        invariant
            i <= targets.len(),
            first_player(targets@.skip(i as int)) == first_player(targets@),
        decreases targets.len() - i,
    {
        if let TargetRef::Player(id) = targets[i] {
            return Some(id);
        }
        assert(targets@.skip(i as int).drop_first() =~= targets@.skip(i + 1));
        i = i + 1;
    }
    None
}

/// The controller of the first object among the targets (CR 608.2c).
pub open spec fn parent_controller(s: GameModel, targets: Seq<TargetRef>) -> Option<PlayerId> {
    match first_object(targets) {
        Some(id) => if s.objects.contains_key(id) {
            Some(s.objects[id].controller)
        } else {
            None
        },
        None => None,
    }
}

pub fn parent_target_controller(
    ability: &ResolvedAbility,
    state: &GameState,
) -> (r: Option<PlayerId>)
    ensures
        r == parent_controller(state@, ability@.targets),
{
    match target_object(&ability.targets) {
        Some(id) => match state.objects.get(&id) {
            Some(obj) => Some(obj.controller),
            None => None,
        },
        None => None,
    }
}

/// The one player a reference names, if it names one.
pub open spec fn named_player(
    s: GameModel,
    controller: Option<PlayerId>,
    targets: Seq<TargetRef>,
    reference: ControllerRef,
) -> Option<PlayerId> {
    match reference {
        ControllerRef::You => controller,
        ControllerRef::Opponent => None,
        ControllerRef::TargetPlayer => first_player(targets),
        ControllerRef::ParentTargetController => parent_controller(s, targets),
        ControllerRef::ActivePlayer => Some(s.active_player),
    }
}

/// The player that `reference` names for an ability of `controller`.
pub fn controller_ref_player(
    state: &GameState,
    controller: Option<PlayerId>,
    ability: Option<&ResolvedAbility>,
    reference: &ControllerRef,
) -> (r: Option<PlayerId>)
    ensures
        r == named_player(
            state@,
            controller,
            match ability {
                Some(a) => a@.targets,
                None => Seq::empty(),
            },
            *reference,
        ),
{
    match *reference {
        ControllerRef::You => controller,
        ControllerRef::Opponent => None,
        ControllerRef::TargetPlayer => match ability {
            Some(a) => target_player(&a.targets),
            None => None,
        },
        ControllerRef::ParentTargetController => match ability {
            Some(a) => parent_target_controller(a, state),
            None => None,
        },
        ControllerRef::ActivePlayer => Some(state.active_player),
    }
}

/// The object has a permanent card type (CR 110.4).
pub open spec fn permanent_type(o: ObjectModel) -> bool {
    ||| o.core_types.contains(CoreType::Artifact)
    ||| o.core_types.contains(CoreType::Battle)
    ||| o.core_types.contains(CoreType::Creature)
    ||| o.core_types.contains(CoreType::Enchantment)
    ||| o.core_types.contains(CoreType::Land)
    ||| o.core_types.contains(CoreType::Planeswalker)
}

/// The object meets a type constraint.
pub open spec fn type_matches(o: ObjectModel, f: TypeFilter) -> bool
    decreases f,
{
    match f {
        TypeFilter::Creature => o.core_types.contains(CoreType::Creature),
        TypeFilter::Land => o.core_types.contains(CoreType::Land),
        TypeFilter::Artifact => o.core_types.contains(CoreType::Artifact),
        TypeFilter::Enchantment => o.core_types.contains(CoreType::Enchantment),
        TypeFilter::Instant => o.core_types.contains(CoreType::Instant),
        TypeFilter::Sorcery => o.core_types.contains(CoreType::Sorcery),
        TypeFilter::Planeswalker => o.core_types.contains(CoreType::Planeswalker),
        TypeFilter::Battle => o.core_types.contains(CoreType::Battle),
        TypeFilter::Kindred => o.core_types.contains(CoreType::Kindred),
        TypeFilter::Permanent => permanent_type(o),
        TypeFilter::Card | TypeFilter::Any => true,
        TypeFilter::Non(inner) => !type_matches(o, *inner),
        TypeFilter::Subtype(name) => has_subtype(o, name@),
        TypeFilter::AnyOf(options) => some_type_matches(o, options@),
    }
}

/// The object meets at least one of the type constraints.
pub open spec fn some_type_matches(o: ObjectModel, options: Seq<TypeFilter>) -> bool
    decreases options,
{
    options.len() > 0 && (some_type_matches(o, options.drop_last()) || type_matches(
        o,
        options.last(),
    ))
}

pub open spec fn has_subtype(o: ObjectModel, name: Seq<char>) -> bool {
    exists|i: int| 0 <= i < o.subtypes.len() && (#[trigger] o.subtypes[i])@ == name
}

fn has_core_type(obj: &GameObject, t: CoreType) -> (r: bool)
    ensures
        r == obj@.core_types.contains(t),
{
    let mut i: usize = 0;
    while i < obj.card_types.core_types.len()
        invariant
            i <= obj.card_types.core_types.len(),
            forall|j: int| 0 <= j < i ==> obj.card_types.core_types@[j] != t,
        decreases obj.card_types.core_types.len() - i,
    {
        if obj.card_types.core_types[i] == t {
            return true;
        }
        i = i + 1;
    }
    false
}

fn has_subtype_named(obj: &GameObject, name: &str) -> (r: bool)
    ensures
        r == has_subtype(obj@, name@),
{
    let mut i: usize = 0;
    while i < obj.card_types.subtypes.len()
        invariant
            i <= obj.card_types.subtypes.len(),
            forall|j: int| 0 <= j < i ==> (#[trigger] obj.card_types.subtypes@[j])@ != name@,
        decreases obj.card_types.subtypes.len() - i,
    {
        if text::is_word(&text::chars_of(obj.card_types.subtypes[i].as_str()), name) {
            assert(obj@.subtypes[i as int]@ == name@);
            return true;
        }
        i = i + 1;
    }
    false
}

pub fn matches_type(obj: &GameObject, f: &TypeFilter) -> (r: bool)
    ensures
        r == type_matches(obj@, *f),
    decreases f,
{
    match f {
        TypeFilter::Creature => has_core_type(obj, CoreType::Creature),
        TypeFilter::Land => has_core_type(obj, CoreType::Land),
        TypeFilter::Artifact => has_core_type(obj, CoreType::Artifact),
        TypeFilter::Enchantment => has_core_type(obj, CoreType::Enchantment),
        TypeFilter::Instant => has_core_type(obj, CoreType::Instant),
        TypeFilter::Sorcery => has_core_type(obj, CoreType::Sorcery),
        TypeFilter::Planeswalker => has_core_type(obj, CoreType::Planeswalker),
        TypeFilter::Battle => has_core_type(obj, CoreType::Battle),
        TypeFilter::Kindred => has_core_type(obj, CoreType::Kindred),
        TypeFilter::Permanent => has_core_type(obj, CoreType::Artifact) || has_core_type(
            obj,
            CoreType::Battle,
        ) || has_core_type(obj, CoreType::Creature) || has_core_type(obj, CoreType::Enchantment)
            || has_core_type(obj, CoreType::Land) || has_core_type(obj, CoreType::Planeswalker),
        TypeFilter::Card => true,
        TypeFilter::Any => true,
        TypeFilter::Non(inner) => !matches_type(obj, inner),
        TypeFilter::Subtype(name) => has_subtype_named(obj, name.as_str()),
        TypeFilter::AnyOf(options) => {
            let mut found = false;
            let mut i: usize = 0;
            while i < options.len()
                invariant
                    i <= options.len(),
                    *f == TypeFilter::AnyOf(*options),
                    found == some_type_matches(obj@, options@.take(i as int)),
                decreases options.len() - i,
            {
                assert(decreases_to!(*f => f->AnyOf_0));
                assert(decreases_to!(*options => options@));
                assert(decreases_to!(options@ => options@[i as int]));
                assert(options@.take(i + 1).drop_last() =~= options@.take(i as int));
                let one = matches_type(obj, &options[i]);
                found = found || one;
                i = i + 1;
            }
            assert(options@.take(i as int) =~= options@);
            found
        },
    }
}

/// Whose filter it is.
#[derive(Clone, Copy, Debug, PartialEq, Eq, Structural)]
pub struct FilterContext {
    pub controller: Option<PlayerId>,
}

impl FilterContext {
    /// A filter of nobody in particular.
    pub fn neutral() -> (r: Self)
        ensures
            r == (FilterContext { controller: None }),
    {
        FilterContext { controller: None }
    }
}

/// The object has a controller that the reference allows.
pub open spec fn controller_matches(
    s: GameModel,
    o: ObjectModel,
    reference: ControllerRef,
    ctx: FilterContext,
) -> bool {
    match reference {
        ControllerRef::You => ctx.controller == Some(o.controller),
        ControllerRef::Opponent => match ctx.controller {
            Some(you) => o.controller != you,
            None => false,
        },
        ControllerRef::ActivePlayer => o.controller == s.active_player,
        ControllerRef::TargetPlayer | ControllerRef::ParentTargetController => false,
    }
}

pub open spec fn prop_matches(o: ObjectModel, prop: FilterProp) -> bool {
    match prop {
        FilterProp::Token => o.is_token,
        FilterProp::Tapped => o.tapped,
        FilterProp::Attacking => o.attacking,
        FilterProp::HasColor { color } => o.color.contains(color),
    }
}

/// The object meets every constraint of the filter.
pub open spec fn typed_matches(
    s: GameModel,
    o: ObjectModel,
    f: TypedFilter,
    ctx: FilterContext,
) -> bool {
    &&& forall|i: int|
        0 <= i < f.type_filters@.len() ==> #[trigger] type_matches(o, f.type_filters@[i])
    &&& match f.controller {
        Some(reference) => controller_matches(s, o, reference, ctx),
        None => true,
    }
    &&& forall|i: int|
        0 <= i < f.properties@.len() ==> #[trigger] prop_matches(o, f.properties@[i])
}

/// The object is one that the filter describes by its characteristics.
pub open spec fn object_matches(
    s: GameModel,
    id: ObjectId,
    f: TargetFilter,
    ctx: FilterContext,
) -> bool {
    s.objects.contains_key(id) && (match f {
        TargetFilter::Typed(typed) => typed_matches(s, s.objects[id], *typed, ctx),
        _ => false,
    })
}

fn matches_controller(
    state: &GameState,
    obj: &GameObject,
    reference: ControllerRef,
    ctx: &FilterContext,
) -> (r:
    bool)
    ensures
        r == controller_matches(state@, obj@, reference, *ctx),
{
    match reference {
        ControllerRef::You => match ctx.controller {
            Some(you) => obj.controller == you,
            None => false,
        },
        ControllerRef::Opponent => match ctx.controller {
            Some(you) => obj.controller != you,
            None => false,
        },
        ControllerRef::ActivePlayer => obj.controller == state.active_player,
        ControllerRef::TargetPlayer | ControllerRef::ParentTargetController => false,
    }
}

fn has_color(obj: &GameObject, color: ManaColor) -> (r: bool)
    ensures
        r == obj@.color.contains(color),
{
    let mut i: usize = 0;
    while i < obj.color.len()
        invariant
            i <= obj.color.len(),
            forall|j: int| 0 <= j < i ==> obj.color@[j] != color,
        decreases obj.color.len() - i,
    {
        if obj.color[i] == color {
            return true;
        }
        i = i + 1;
    }
    false
}

fn matches_typed(
    state: &GameState,
    obj: &GameObject,
    f: &TypedFilter,
    ctx: &FilterContext,
) -> (r: bool)
    ensures
        r == typed_matches(state@, obj@, *f, *ctx),
{
    let mut i: usize = 0;
    while i < f.type_filters.len()
        invariant
            i <= f.type_filters.len(),
            forall|j: int| 0 <= j < i ==> #[trigger] type_matches(obj@, f.type_filters@[j]),
        decreases f.type_filters.len() - i,
    {
        if !matches_type(obj, &f.type_filters[i]) {
            assert(!type_matches(obj@, f.type_filters@[i as int]));
            return false;
        }
        i = i + 1;
    }
    if let Some(reference) = f.controller {
        if !matches_controller(state, obj, reference, ctx) {
            return false;
        }
    }
    let mut j: usize = 0;
    while j < f.properties.len()
        invariant
            j <= f.properties.len(),
            forall|k: int| 0 <= k < j ==> #[trigger] prop_matches(obj@, f.properties@[k]),
        decreases f.properties.len() - j,
    {
        let ok = match f.properties[j] {
            FilterProp::Token => obj.is_token,
            FilterProp::Tapped => obj.tapped,
            FilterProp::Attacking => obj.attacking,
            FilterProp::HasColor { color } => has_color(obj, color),
        };
        if !ok {
            assert(!prop_matches(obj@, f.properties@[j as int]));
            return false;
        }
        j = j + 1;
    }
    true
}

/// Whether an object is one that the filter describes by its characteristics.
pub fn matches_target_filter(
    state: &GameState,
    id: ObjectId,
    f: &TargetFilter,
    ctx: &FilterContext,
) -> (r:
    bool)
    ensures
        r == object_matches(state@, id, *f, *ctx),
{
    match state.objects.get(&id) {
        None => false,
        Some(obj) => match f {
            TargetFilter::Typed(typed) => matches_typed(state, obj, typed, ctx),
            _ => false,
        },
    }
}

/// The filter of a color in an iteration accepts exactly the objects of that color.
pub proof fn color_members_accept_their_color(
    s: GameModel,
    id: ObjectId,
    f: TargetFilter,
    color: ManaColor,
    ctx: FilterContext,
)
    requires
        selection::color_filter(f, color),
        s.objects.contains_key(id),
    ensures
        object_matches(s, id, f, ctx) == s.objects[id].color.contains(color),
{
    let typed = f->Typed_0;
    assert(typed.properties@[0] == FilterProp::HasColor { color });
    if object_matches(s, id, f, ctx) {
        assert(prop_matches(s.objects[id], typed.properties@[0]));
    }
}

/// The filter of a card type in an iteration accepts exactly the objects of that type, so a kindred
/// card is accepted for both of its types (CR 308.1).
pub proof fn type_members_accept_their_type(
    s: GameModel,
    id: ObjectId,
    f: TargetFilter,
    t: TypeFilter,
    ctx: FilterContext,
)
    requires
        selection::type_filter(f, t),
        s.objects.contains_key(id),
    ensures
        object_matches(s, id, f, ctx) == type_matches(s.objects[id], t),
{
    let typed = f->Typed_0;
    assert(typed.type_filters@[0] == t);
    if object_matches(s, id, f, ctx) {
        assert(type_matches(s.objects[id], typed.type_filters@[0]));
    }
}

} // verus!
