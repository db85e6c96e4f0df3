//! How many and which cards, players and targets are selected.
use vstd::prelude::*;

use crate::types::mana::ManaColor;
use crate::types::quantity::QuantityExpr;
use crate::types::target_filter::{FilterProp, TargetFilter, TypeFilter, TypedFilter};

verus! {

/// A number of targets that varies (CR 601.2c).
#[derive(Clone, Copy, Debug, PartialEq, Eq, Structural)]
pub struct MultiTargetSpec {
    pub min: QuantityExpr,
    /// `None` is any number (CR 115.1d).
    pub max: Option<QuantityExpr>,
}

impl MultiTargetSpec {
    pub fn fixed(min: usize, max: usize) -> (r: Self)
        ensures
            r == (MultiTargetSpec {
                min: QuantityExpr::Fixed { value: min as i32 },
                max: Some(QuantityExpr::Fixed { value: max as i32 }),
            }),
    {
        MultiTargetSpec::bounded_expr(
            QuantityExpr::Fixed { value: #[verifier::truncate] (min as i32) },
            QuantityExpr::Fixed { value: #[verifier::truncate] (max as i32) },
        )
    }

    pub fn up_to(max: QuantityExpr) -> (r: Self)
        ensures
            r == (MultiTargetSpec { min: QuantityExpr::Fixed { value: 0 }, max: Some(max) }),
    {
        MultiTargetSpec::bounded_expr(QuantityExpr::Fixed { value: 0 }, max)
    }

    pub fn exact(count: QuantityExpr) -> (r: Self)
        ensures
            r == (MultiTargetSpec { min: count, max: Some(count) }),
    {
        MultiTargetSpec::bounded_expr(count, count)
    }

    pub fn unlimited(min: usize) -> (r: Self)
        ensures
            r == (MultiTargetSpec { min: QuantityExpr::Fixed { value: min as i32 }, max: None }),
    {
        MultiTargetSpec {
            min: QuantityExpr::Fixed { value: #[verifier::truncate] (min as i32) },
            max: None,
        }
    }

    pub fn bounded(min: usize, max: QuantityExpr) -> (r: Self)
        ensures
            r == (MultiTargetSpec {
                min: QuantityExpr::Fixed { value: min as i32 },
                max: Some(max),
            }),
    {
        MultiTargetSpec::bounded_expr(
            QuantityExpr::Fixed { value: #[verifier::truncate] (min as i32) },
            max,
        )
    }

    pub fn bounded_expr(min: QuantityExpr, max: QuantityExpr) -> (r: Self)
        ensures
            r == (MultiTargetSpec { min, max: Some(max) }),
    {
        MultiTargetSpec { min, max: Some(max) }
    }

    pub fn min_is_fixed_zero(&self) -> (r: bool)
        ensures
            r == (self.min == QuantityExpr::Fixed { value: 0 }),
    {
        match self.min {
            QuantityExpr::Fixed { value } => value == 0,
            _ => false,
        }
    }

    /// The lower bound, where it is a number of targets.
    pub fn fixed_min_usize(&self) -> (r: Option<usize>)
        ensures
            match self.min {
                QuantityExpr::Fixed { value } => if value >= 0 {
                    r == Some(value as usize)
                } else {
                    r is None
                },
                QuantityExpr::Ref { .. } => r is None,
            },
    {
        match self.min {
            QuantityExpr::Fixed { value } => if value >= 0 {
                Some(value as usize)
            } else {
                None
            },
            QuantityExpr::Ref { .. } => None,
        }
    }

    /// Replaces both bounds by what a function makes of them.
    pub fn map_quantities<F: Fn(QuantityExpr) -> QuantityExpr>(&mut self, map: F)
        requires
            call_requires(map, (old(self).min,)),
            old(self).max matches Some(max) ==> call_requires(map, (max,)),
        ensures
            call_ensures(map, (old(self).min,), final(self).min),
            match old(self).max {
                Some(max) => final(self).max matches Some(new) && call_ensures(map, (max,), new),
                None => final(self).max is None,
            },
    {
        self.min = map(self.min);
        if let Some(max) = self.max {
            self.max = Some(map(max));
        }
    }
}

/// What may be done with a counter of a chosen kind.
#[derive(Clone, Copy, Debug, PartialEq, Eq, Structural, Hash)]
pub enum CounterAdjustment {
    Add,
    Remove,
    AddOrRemove,
}

impl CounterAdjustment {
    pub fn allows_add(self) -> (r: bool)
        ensures
            r == (self != CounterAdjustment::Remove),
    {
        match self {
            CounterAdjustment::Add => true,
            CounterAdjustment::AddOrRemove => true,
            CounterAdjustment::Remove => false,
        }
    }

    pub fn allows_remove(self) -> (r: bool)
        ensures
            r == (self != CounterAdjustment::Add),
    {
        match self {
            CounterAdjustment::Remove => true,
            CounterAdjustment::AddOrRemove => true,
            CounterAdjustment::Add => false,
        }
    }
}

/// A closed list of members that an effect goes through, one after the other.
#[derive(Clone, Copy, Debug, PartialEq, Eq, Structural, Hash)]
pub enum IterationCategory {
    /// The five colors (CR 105.1).
    Color,
    /// The card types of cards in a library (CR 205.2a).
    CardType,
}

/// The colors, in their usual order.
pub open spec fn color_members() -> Seq<ManaColor> {
    seq![ManaColor::White, ManaColor::Blue, ManaColor::Black, ManaColor::Red, ManaColor::Green]
}

/// The card types that a card in a library can have, in the order of the rules.
pub open spec fn type_members() -> Seq<TypeFilter> {
    seq![
        TypeFilter::Artifact,
        TypeFilter::Battle,
        TypeFilter::Creature,
        TypeFilter::Enchantment,
        TypeFilter::Instant,
        TypeFilter::Kindred,
        TypeFilter::Land,
        TypeFilter::Planeswalker,
        TypeFilter::Sorcery,
    ]
}

/// The filter accepts exactly what has the color.
pub open spec fn color_filter(f: TargetFilter, color: ManaColor) -> bool {
    f matches TargetFilter::Typed(typed) && {
        &&& typed.type_filters@.len() == 0
        &&& typed.controller is None
        &&& typed.properties@ == seq![FilterProp::HasColor { color }]
    }
}

/// The filter accepts exactly what has the card type.
pub open spec fn type_filter(f: TargetFilter, t: TypeFilter) -> bool {
    f matches TargetFilter::Typed(typed) && {
        &&& typed.type_filters@ == seq![t]
        &&& typed.controller is None
        &&& typed.properties@.len() == 0
    }
}

fn filter_for_color(color: ManaColor) -> (r: TargetFilter)
    ensures
        color_filter(r, color),
{
    let mut properties: Vec<FilterProp> = Vec::new();
    properties.push(FilterProp::HasColor { color });
    TargetFilter::from(TypedFilter::default().properties(properties))
}

fn filter_for_type(t: TypeFilter) -> (r: TargetFilter)
    ensures
        type_filter(r, t),
{
    TargetFilter::from(TypedFilter::new(t))
}

impl IterationCategory {
    /// One filter for each member, in order.
    pub fn member_filters(self) -> (r: Vec<TargetFilter>)
        ensures
            match self {
                IterationCategory::Color => {
                    &&& r@.len() == color_members().len()
                    &&& forall|i: int|
                        0 <= i < r@.len() ==> color_filter(#[trigger] r@[i], color_members()[i])
                },
                IterationCategory::CardType => {
                    &&& r@.len() == type_members().len()
                    &&& forall|i: int|
                        0 <= i < r@.len() ==> type_filter(#[trigger] r@[i], type_members()[i])
                },
            },
    {
        let mut r: Vec<TargetFilter> = Vec::new();
        match self {
            IterationCategory::Color => {
                r.push(filter_for_color(ManaColor::White));
                r.push(filter_for_color(ManaColor::Blue));
                r.push(filter_for_color(ManaColor::Black));
                r.push(filter_for_color(ManaColor::Red));
                r.push(filter_for_color(ManaColor::Green));
            },
            IterationCategory::CardType => {
                r.push(filter_for_type(TypeFilter::Artifact));
                r.push(filter_for_type(TypeFilter::Battle));
                r.push(filter_for_type(TypeFilter::Creature));
                r.push(filter_for_type(TypeFilter::Enchantment));
                r.push(filter_for_type(TypeFilter::Instant));
                r.push(filter_for_type(TypeFilter::Kindred));
                r.push(filter_for_type(TypeFilter::Land));
                r.push(filter_for_type(TypeFilter::Planeswalker));
                r.push(filter_for_type(TypeFilter::Sorcery));
            },
        }
        r
    }
}

} // verus!
