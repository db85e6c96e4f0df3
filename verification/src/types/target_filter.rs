//! What effects, static abilities and targets refer to.
use std::sync::Arc;
use vstd::prelude::*;

use crate::shared;
use crate::types::mana::ManaColor;

verus! {

/// A player named in relation to an ability.
#[derive(Clone, Copy, Debug, PartialEq, Eq, Structural, Hash)]
pub enum ControllerRef {
    You,
    Opponent,
    /// The player chosen as a target (CR 115.1).
    TargetPlayer,
    /// The controller of the object inherited from the parent (CR 608.2c).
    ParentTargetController,
    /// The player whose turn it is (CR 102.1).
    ActivePlayer,
}

/// A constraint on card types (CR 205).
#[derive(Debug, PartialEq, Eq)]
pub enum TypeFilter {
    Creature,
    Land,
    Artifact,
    Enchantment,
    Instant,
    Sorcery,
    Planeswalker,
    Battle,
    Kindred,
    Permanent,
    Card,
    Any,
    /// Does not match the inner filter (CR 205.4b).
    Non(Box<TypeFilter>),
    /// Has the subtype (CR 205.3).
    Subtype(String),
    /// Matches at least one of the inner filters (CR 608.2b).
    AnyOf(Vec<TypeFilter>),
}

/// A property beyond card types.
#[derive(Clone, Copy, Debug, PartialEq, Eq, Structural, Hash)]
pub enum FilterProp {
    Token,
    Tapped,
    Attacking,
    HasColor { color: ManaColor },
}

impl FilterProp {
    /// Both are the same property, whatever its values.
    pub open spec fn alike(self, other: Self) -> bool {
        match (self, other) {
            (FilterProp::Token, FilterProp::Token) => true,
            (FilterProp::Tapped, FilterProp::Tapped) => true,
            (FilterProp::Attacking, FilterProp::Attacking) => true,
            (FilterProp::HasColor { .. }, FilterProp::HasColor { .. }) => true,
            _ => false,
        }
    }

    pub fn same_kind(&self, other: &Self) -> (r: bool)
        ensures
            r == self.alike(*other),
    {
        match (self, other) {
            (FilterProp::Token, FilterProp::Token) => true,
            (FilterProp::Tapped, FilterProp::Tapped) => true,
            (FilterProp::Attacking, FilterProp::Attacking) => true,
            (FilterProp::HasColor { .. }, FilterProp::HasColor { .. }) => true,
            _ => false,
        }
    }
}

/// All of the type constraints and properties, under one controller.
#[derive(Debug, PartialEq, Eq)]
pub struct TypedFilter {
    pub type_filters: Vec<TypeFilter>,
    pub controller: Option<ControllerRef>,
    pub properties: Vec<FilterProp>,
}

impl Default for TypedFilter {
    fn default() -> (r: Self)
        ensures
            r.type_filters@.len() == 0,
            r.controller is None,
            r.properties@.len() == 0,
    {
        TypedFilter { type_filters: Vec::new(), controller: None, properties: Vec::new() }
    }
}

impl TypedFilter {
    pub fn new(card_type: TypeFilter) -> (r: Self)
        ensures
            r.type_filters@ == seq![card_type],
            r.controller is None,
            r.properties@.len() == 0,
    {
        let mut type_filters: Vec<TypeFilter> = Vec::new();
        type_filters.push(card_type);
        TypedFilter { type_filters, controller: None, properties: Vec::new() }
    }

    pub fn creature() -> (r: Self)
        ensures
            r.type_filters@ == seq![TypeFilter::Creature],
            r.controller is None,
            r.properties@.len() == 0,
    {
        TypedFilter::new(TypeFilter::Creature)
    }

    pub fn permanent() -> (r: Self)
        ensures
            r.type_filters@ == seq![TypeFilter::Permanent],
            r.controller is None,
            r.properties@.len() == 0,
    {
        TypedFilter::new(TypeFilter::Permanent)
    }

    pub fn land() -> (r: Self)
        ensures
            r.type_filters@ == seq![TypeFilter::Land],
            r.controller is None,
            r.properties@.len() == 0,
    {
        TypedFilter::new(TypeFilter::Land)
    }

    pub fn card() -> (r: Self)
        ensures
            r.type_filters@ == seq![TypeFilter::Card],
            r.controller is None,
            r.properties@.len() == 0,
    {
        TypedFilter::new(TypeFilter::Card)
    }

    /// The filter with one more type constraint.
    pub fn with_type(self, tf: TypeFilter) -> (r: Self)
        ensures
            r.type_filters@ == self.type_filters@.push(tf),
            r.controller == self.controller,
            r.properties == self.properties,
    {
        let mut r = self;
        r.type_filters.push(tf);
        r
    }

    pub fn controller(self, ctrl: ControllerRef) -> (r: Self)
        ensures
            r == (TypedFilter { controller: Some(ctrl), ..self }),
    {
        TypedFilter { controller: Some(ctrl), ..self }
    }

    /// The filter with one more subtype constraint (CR 205.3).
    pub fn subtype(self, sub: String) -> (r: Self)
        ensures
            r.type_filters@ == self.type_filters@.push(TypeFilter::Subtype(sub)),
            r.controller == self.controller,
            r.properties == self.properties,
    {
        self.with_type(TypeFilter::Subtype(sub))
    }

    pub fn properties(self, props: Vec<FilterProp>) -> (r: Self)
        ensures
            r == (TypedFilter { properties: props, ..self }),
    {
        TypedFilter { properties: props, ..self }
    }
}

/// Position of the first subtype constraint at or after `from`, their number without one.
pub open spec fn subtype_index(filters: Seq<TypeFilter>, from: int) -> int
    decreases filters.len() - from,
{
    if from >= filters.len() {
        filters.len() as int
    } else if filters[from] is Subtype {
        from
    } else {
        subtype_index(filters, from + 1)
    }
}

/// Position of the first constraint at or after `from` that is neither a subtype nor a negation,
/// their number without one.
pub open spec fn primary_index(filters: Seq<TypeFilter>, from: int) -> int
    decreases filters.len() - from,
{
    if from >= filters.len() {
        filters.len() as int
    } else if !(filters[from] is Subtype || filters[from] is Non) {
        from
    } else {
        primary_index(filters, from + 1)
    }
}

impl TypedFilter {
    /// The first subtype that the filter asks for.
    pub fn get_subtype(&self) -> (r: Option<&str>)
        ensures
            ({
                let i = subtype_index(self.type_filters@, 0);
                match r {
                    Some(name) => i < self.type_filters@.len() && (self.type_filters@[i] matches
                        TypeFilter::Subtype(s) && name@ == s@),
                    None => i >= self.type_filters@.len(),
                }
            }),
    {
        let mut i: usize = 0;
        while i < self.type_filters.len()
            invariant
                i <= self.type_filters.len(),
                subtype_index(self.type_filters@, i as int) == subtype_index(
                    self.type_filters@,
                    0,
                ),
            decreases self.type_filters.len() - i,
        {
            if let TypeFilter::Subtype(name) = &self.type_filters[i] {
                return Some(name.as_str());
            }
            i = i + 1;
        }
        None
    }

    /// The first constraint that names a card type.
    pub fn get_primary_type(&self) -> (r: Option<&TypeFilter>)
        ensures
            ({
                let i = primary_index(self.type_filters@, 0);
                match r {
                    Some(f) => i < self.type_filters@.len() && *f == self.type_filters@[i],
                    None => i >= self.type_filters@.len(),
                }
            }),
    {
        let mut i: usize = 0;
        while i < self.type_filters.len()
            invariant
                i <= self.type_filters.len(),
                primary_index(self.type_filters@, i as int) == primary_index(
                    self.type_filters@,
                    0,
                ),
            decreases self.type_filters.len() - i,
        {
            match &self.type_filters[i] {
                TypeFilter::Subtype(_) => {},
                TypeFilter::Non(_) => {},
                f => {
                    return Some(f);
                },
            }
            i = i + 1;
        }
        None
    }

    /// Whether the filter says more than that something is a card.
    pub fn has_meaningful_type_constraint(&self) -> (r: bool)
        ensures
            r == (self.properties@.len() > 0 || exists|i: int|
                0 <= i < self.type_filters@.len() && !(#[trigger] self.type_filters@[i] is Card
                    || self.type_filters@[i] is Any)),
    {
        let mut i: usize = 0;
        while i < self.type_filters.len()
            invariant
                i <= self.type_filters.len(),
                forall|j: int|
                    0 <= j < i ==> (#[trigger] self.type_filters@[j] is Card
                        || self.type_filters@[j] is Any),
            decreases self.type_filters.len() - i,
        {
            match &self.type_filters[i] {
                TypeFilter::Card => {},
                TypeFilter::Any => {},
                _ => {
                    return true;
                },
            }
            i = i + 1;
        }
        self.properties.len() > 0
    }
}

/// What an effect applies to.
#[derive(Debug, PartialEq, Eq)]
pub enum TargetFilter {
    /// The controller of the ability.
    Controller,
    /// The source of the ability.
    SelfRef,
    /// The target player.
    Player,
    /// What the parent ability targets (CR 608.2c).
    ParentTarget,
    /// The winner of the auction that just completed.
    WinningBidder,
    /// Objects with the given characteristics.
    Typed(Arc<TypedFilter>),
}

impl TargetFilter {
    /// The same filter.
    pub fn copied(&self) -> (r: Self)
        ensures
            r == *self,
    {
        match self {
            TargetFilter::Controller => TargetFilter::Controller,
            TargetFilter::SelfRef => TargetFilter::SelfRef,
            TargetFilter::Player => TargetFilter::Player,
            TargetFilter::ParentTarget => TargetFilter::ParentTarget,
            TargetFilter::WinningBidder => TargetFilter::WinningBidder,
            TargetFilter::Typed(typed) => TargetFilter::Typed(shared::share(typed)),
        }
    }
}

impl From<TypedFilter> for TargetFilter {
    fn from(f: TypedFilter) -> (r: Self) {
        TargetFilter::Typed(Arc::new(f))
    }
}

impl vstd::std_specs::convert::FromSpecImpl<TypedFilter> for TargetFilter {
    open spec fn obeys_from_spec() -> bool {
        true
    }

    open spec fn from_spec(f: TypedFilter) -> Self {
        TargetFilter::Typed(Arc::new(f))
    }
}

} // verus!
