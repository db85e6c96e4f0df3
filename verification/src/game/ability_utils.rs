//! From the abilities of cards to abilities that resolve.
use std::sync::Arc;
use vstd::prelude::*;

use crate::shared;
use crate::types::ability::{AbilityDefinition, AbilityModel, ResolvedAbility, SpellContext};
use crate::types::identifiers::{ObjectId, PlayerId};
use crate::types::replacements::AppliedReplacements;

verus! {

/// Nothing was decided while the spell was cast.
pub open spec fn no_context() -> SpellContext {
    SpellContext { additional_cost_paid: false, gift_recipient: None }
}

/// The definition as a resolving ability without targets; every part of it knows the context.
pub open spec fn resolved_from(
    def: AbilityDefinition,
    source_id: ObjectId,
    controller: PlayerId,
    context: SpellContext,
) -> AbilityModel
    decreases def,
{
    AbilityModel {
        effect: *def.effect,
        targets: Seq::empty(),
        source_id,
        controller,
        context,
        sub_ability: match def.sub_ability {
            Some(sub) => Some(Box::new(resolved_from(*sub, source_id, controller, context))),
            None => None,
        },
        condition: def.condition,
        modal: def.modal,
        mode_abilities: def.mode_abilities,
        optional: def.optional,
        repeat_for: def.repeat_for,
        replacement_applied: Seq::empty(),
    }
}

fn share_option<T>(value: &Option<Arc<T>>) -> (r: Option<Arc<T>>)
    ensures
        r == *value,
{
    match value {
        Some(v) => Some(shared::share(v)),
        None => None,
    }
}

/// Makes a resolving ability in a context.
pub fn build_resolved_in_context(
    def: &AbilityDefinition,
    source_id: ObjectId,
    controller: PlayerId,
    context: SpellContext,
) -> (r: ResolvedAbility)
    ensures
        r@ == resolved_from(*def, source_id, controller, context),
    decreases def,
{
    let sub_ability = match &def.sub_ability {
        Some(sub) => Some(
            Box::new(build_resolved_in_context(sub, source_id, controller, context)),
        ),
        None => None,
    };
    ResolvedAbility {
        effect: shared::share(&def.effect),
        targets: Vec::new(),
        source_id,
        controller,
        context,
        sub_ability,
        condition: def.condition,
        modal: share_option(&def.modal),
        mode_abilities: share_option(&def.mode_abilities),
        optional: def.optional,
        repeat_for: def.repeat_for,
        replacement_applied: AppliedReplacements::none(),
    }
}

/// Makes a resolving ability without targets.
pub fn build_resolved_from_def(
    def: &AbilityDefinition,
    source_id: ObjectId,
    controller: PlayerId,
) -> (r:
    ResolvedAbility)
    ensures
        r@ == resolved_from(*def, source_id, controller, no_context()),
{
    build_resolved_in_context(
        def,
        source_id,
        controller,
        SpellContext { additional_cost_paid: false, gift_recipient: None },
    )
}

/// The instructions of `a`, followed by those of `b`.
pub open spec fn followed_by(a: AbilityModel, b: AbilityModel) -> AbilityModel
    decreases a,
{
    AbilityModel {
        sub_ability: match a.sub_ability {
            Some(sub) => Some(Box::new(followed_by(*sub, b))),
            None => Some(Box::new(b)),
        },
        ..a
    }
}

/// Puts the instructions of one ability after those of another.
pub fn append_chain(a: ResolvedAbility, b: ResolvedAbility) -> (r: ResolvedAbility)
    ensures
        r@ == followed_by(a@, b@),
    decreases a,
{
    let mut r = a;
    let sub = r.sub_ability;
    r.sub_ability = match sub {
        Some(sub) => Some(Box::new(append_chain(*sub, b))),
        None => Some(Box::new(b)),
    };
    r
}

} // verus!
