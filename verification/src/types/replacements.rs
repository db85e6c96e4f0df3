//! Replacement effects (CR 614).
use vstd::prelude::*;

use crate::types::identifiers::ObjectId;

verus! {

/// The kind of event a replacement effect watches.
#[derive(Clone, Copy, Debug, PartialEq, Eq, Structural, Hash)]
pub enum ReplacementEvent {
    /// One or more tokens would be created under the controller's control.
    CreateToken,
    /// The controller would planeswalk.
    Planeswalk,
    /// The controller would draw one or more cards.
    Draw,
}

/// What happens instead.
#[derive(Clone, Copy, Debug, PartialEq, Eq, Structural, Hash)]
pub enum ReplacementOutcome {
    /// Twice as many.
    Double,
    /// Nothing.
    Prevent,
}

/// A replacement effect of a permanent, for events of its controller.
#[derive(Clone, Copy, Debug, PartialEq, Eq, Structural, Hash)]
pub struct ReplacementDefinition {
    pub event: ReplacementEvent,
    pub outcome: ReplacementOutcome,
}

/// One replacement effect of one permanent.
#[derive(Clone, Copy, Debug, PartialEq, Eq, Structural, Hash)]
pub struct ReplacementId {
    pub source: ObjectId,
    pub index: usize,
}

/// The replacement effects that an event already went through (CR 614.5).
#[derive(Clone, Debug, PartialEq, Eq)]
pub struct AppliedReplacements {
    pub ids: Vec<ReplacementId>,
}

impl View for AppliedReplacements {
    type V = Seq<ReplacementId>;

    open spec fn view(&self) -> Seq<ReplacementId> {
        self.ids@
    }
}

impl AppliedReplacements {
    pub fn none() -> (r: Self)
        ensures
            r@ == Seq::<ReplacementId>::empty(),
    {
        AppliedReplacements { ids: Vec::new() }
    }

    /// A copy with the same entries.
    pub fn copied(&self) -> (r: Self)
        ensures
            r@ == self@,
    {
        let mut ids: Vec<ReplacementId> = Vec::new();
        let mut i: usize = 0;
        while i < self.ids.len()
            invariant
                i <= self.ids.len(),
                ids@ == self.ids@.take(i as int),
            decreases self.ids.len() - i,
        {
            ids.push(self.ids[i]);
            i = i + 1;
        }
        AppliedReplacements { ids }
    }

    pub fn contains(&self, id: ReplacementId) -> (r: bool)
        ensures
            r == self@.contains(id),
    {
        let mut i: usize = 0;
        while i < self.ids.len()
            invariant
                i <= self.ids.len(),
                forall|j: int| 0 <= j < i ==> self.ids@[j] != id,
            decreases self.ids.len() - i,
        {
            if self.ids[i] == id {
                return true;
            }
            i = i + 1;
        }
        false
    }
}

} // verus!
