//! What filters, keywords and prompts are described by.
use vstd::prelude::*;

use crate::types::choices;
use crate::types::identifiers::PlayerId;
use crate::types::keywords::{Keyword, ProtectionTarget};
use crate::types::mana::ManaColor;
use crate::types::mana_spend;
use crate::types::mana_spend::ManaSpendRestriction;
use crate::types::prompts::PromptModel;
use crate::types::target_filter;
use crate::types::target_filter::{FilterProp, TypeFilter};
use crate::types::zones::EtbTapState;

verus! {

/// The subtype of a filter is the first one that it asks for.
pub proof fn the_first_subtype_counts(filters: Seq<TypeFilter>, from: int, k: int)
    requires
        0 <= from <= k < filters.len(),
        filters[k] is Subtype,
        forall|j: int| from <= j < k ==> !(#[trigger] filters[j] is Subtype),
    ensures
        target_filter::subtype_index(filters, from) == k,
    decreases k - from,
{
    if from < k {
        assert(!(filters[from] is Subtype));
        the_first_subtype_counts(filters, from + 1, k);
    }
}

/// A filter that asks for no subtype has none.
pub proof fn filters_without_subtype_have_none(filters: Seq<TypeFilter>, from: int)
    requires
        0 <= from <= filters.len(),
        forall|j: int| from <= j < filters.len() ==> !(#[trigger] filters[j] is Subtype),
    ensures
        target_filter::subtype_index(filters, from) == filters.len(),
    decreases filters.len() - from,
{
    if from < filters.len() {
        assert(!(filters[from] is Subtype));
        filters_without_subtype_have_none(filters, from + 1);
    }
}

/// The card type of a filter is the first constraint that is neither a subtype nor a negation.
pub proof fn the_first_card_type_counts(filters: Seq<TypeFilter>, from: int, k: int)
    requires
        0 <= from <= k < filters.len(),
        !(filters[k] is Subtype),
        !(filters[k] is Non),
        forall|j: int|
            from <= j < k ==> (#[trigger] filters[j] is Subtype || filters[j] is Non),
    ensures
        target_filter::primary_index(filters, from) == k,
    decreases k - from,
{
    if from < k {
        assert(filters[from] is Subtype || filters[from] is Non);
        the_first_card_type_counts(filters, from + 1, k);
    }
}

/// A filter of subtypes and negations only has no card type.
pub proof fn filters_without_card_type_have_none(filters: Seq<TypeFilter>, from: int)
    requires
        0 <= from <= filters.len(),
        forall|j: int|
            from <= j < filters.len() ==> (#[trigger] filters[j] is Subtype || filters[j] is Non),
    ensures
        target_filter::primary_index(filters, from) == filters.len(),
    decreases filters.len() - from,
{
    if from < filters.len() {
        assert(filters[from] is Subtype || filters[from] is Non);
        filters_without_card_type_have_none(filters, from + 1);
    }
}

/// Every property is of its own kind, and of no other one; colors are of one kind.
pub proof fn properties_of_one_kind(a: FilterProp, b: FilterProp, c: ManaColor, d: ManaColor)
    ensures
        a.alike(a),
        a.alike(b) == b.alike(a),
        (FilterProp::HasColor { color: c }).alike(FilterProp::HasColor { color: d }),
        a.alike(b) ==> a == b || (a is HasColor && b is HasColor),
{
}

/// The kind of a keyword is the keyword without its parameters.
pub proof fn kinds_of_keywords(k: Keyword)
    ensures
        k.kind_of() is Flying <==> k is Flying,
        k.kind_of() is FirstStrike <==> k is FirstStrike,
        k.kind_of() is DoubleStrike <==> k is DoubleStrike,
        k.kind_of() is Deathtouch <==> k is Deathtouch,
        k.kind_of() is Defender <==> k is Defender,
        k.kind_of() is Haste <==> k is Haste,
        k.kind_of() is Hexproof <==> k is Hexproof,
        k.kind_of() is Indestructible <==> k is Indestructible,
        k.kind_of() is Lifelink <==> k is Lifelink,
        k.kind_of() is Menace <==> k is Menace,
        k.kind_of() is Reach <==> k is Reach,
        k.kind_of() is Shroud <==> k is Shroud,
        k.kind_of() is Trample <==> k is Trample,
        k.kind_of() is Vigilance <==> k is Vigilance,
        k.kind_of() is Delve <==> k is Delve,
        k.kind_of() is Protection <==> k is Protection,
        k.kind_of() is Gift <==> k is Gift,
{
}

/// Keywords are shown by their names, and protection with what it is from.
pub proof fn names_of_keywords(k: Keyword, c: ManaColor)
    ensures
        k is Flying ==> k.shown() == "Flying"@,
        k is FirstStrike ==> k.shown() == "First strike"@,
        k is DoubleStrike ==> k.shown() == "Double strike"@,
        k is Deathtouch ==> k.shown() == "Deathtouch"@,
        k is Defender ==> k.shown() == "Defender"@,
        k is Haste ==> k.shown() == "Haste"@,
        k is Hexproof ==> k.shown() == "Hexproof"@,
        k is Indestructible ==> k.shown() == "Indestructible"@,
        k is Lifelink ==> k.shown() == "Lifelink"@,
        k is Menace ==> k.shown() == "Menace"@,
        k is Reach ==> k.shown() == "Reach"@,
        k is Shroud ==> k.shown() == "Shroud"@,
        k is Trample ==> k.shown() == "Trample"@,
        k is Vigilance ==> k.shown() == "Vigilance"@,
        k is Delve ==> k.shown() == "Delve"@,
        k is Gift ==> k.shown() == "Gift"@,
        k == Keyword::Protection(ProtectionTarget::Color(c)) ==> k.shown() == "Protection from "@
            + choices::color_name(c),
        k == Keyword::Protection(ProtectionTarget::ChosenColor) ==> k.shown()
            == "Protection from the chosen color"@,
{
}

/// A restriction on spending mana that leaves a choice is supported exactly if there is a branch and
/// every branch is supported; every other one is.
pub proof fn supported_restrictions(r: ManaSpendRestriction, i: int)
    ensures
        !(r is Any) ==> mana_spend::covered(r),
        r matches ManaSpendRestriction::Any(subs) ==> {
            &&& subs@.len() == 0 ==> !mana_spend::covered(r)
            &&& 0 <= i < subs@.len() && !mana_spend::covered(subs@[i]) ==> !mana_spend::covered(r)
            &&& subs@.len() > 0 && (forall|k: int|
                0 <= k < subs@.len() ==> mana_spend::covered(#[trigger] subs@[k]))
                ==> mana_spend::covered(r)
        },
{
}

/// A prompt for one player can be answered by that player and by nobody else; those who still decide
/// on a mulligan can all answer; a game that is over asks nobody.
pub proof fn who_answers_prompts(m: PromptModel, p: PlayerId)
    ensures
        m is GameOver ==> !m.actors().contains(p),
        m matches PromptModel::MulliganDecision { pending } ==> (m.actors().contains(p)
            <==> pending.contains(p)),
        m matches PromptModel::Priority { player } ==> (m.actors().contains(p) <==> p == player),
        m matches PromptModel::PayAmountChoice { player, .. } ==> (m.actors().contains(p) <==> p
            == player),
        m matches PromptModel::LifeAuctionBid { player, .. } ==> (m.actors().contains(p) <==> p
            == player),
        m matches PromptModel::ScryChoice { player, .. } ==> (m.actors().contains(p) <==> p
            == player),
        m matches PromptModel::DiscardChoice { player, .. } ==> (m.actors().contains(p) <==> p
            == player),
        m matches PromptModel::ReplacementChoice { player, .. } ==> (m.actors().contains(p) <==> p
            == player),
        m matches PromptModel::OptionalCostChoice { player, .. } ==> (m.actors().contains(p) <==> p
            == player),
        m matches PromptModel::GiftChooseOpponent { player, .. } ==> (m.actors().contains(p) <==> p
            == player),
        m matches PromptModel::ManaPayment { player } ==> (m.actors().contains(p) <==> p == player),
        m matches PromptModel::OrderTriggers { player, .. } ==> (m.actors().contains(p) <==> p
            == player),
        m matches PromptModel::AbilityModeChoice { player, .. } ==> (m.actors().contains(p) <==> p
            == player),
        m matches PromptModel::TriggerTargetSelection { player, .. } ==> (m.actors().contains(p)
            <==> p == player),
{
    if m.actors().len() == 1 {
        assert(m.actors()[0] == m.actors()[0]);
        assert(m.actors().contains(m.actors()[0]));
    }
}

/// What is told to enter tapped or untapped does so; nothing told, the usual state decides.
pub proof fn told_tap_states_win(usual: bool)
    ensures
        EtbTapState::Tapped.resolved(usual),
        !EtbTapState::Untapped.resolved(usual),
        EtbTapState::Unspecified.resolved(usual) == usual,
{
}

} // verus!
