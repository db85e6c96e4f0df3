//! Quantities that effects refer to.
use vstd::prelude::*;

verus! {

/// A number read from the game while an ability resolves.
#[derive(Clone, Copy, Debug, PartialEq, Eq, Structural, Hash)]
pub enum QuantityRef {
    /// The high bid of the auction that just completed.
    WinningBidAmount,
    /// How often an optional cost was paid during this resolution (CR 603.12a).
    TimesCostPaidThisResolution,
    /// Cards in the controller's hand.
    HandSize,
}

#[derive(Clone, Copy, Debug, PartialEq, Eq, Structural, Hash)]
pub enum QuantityExpr {
    Fixed { value: i32 },
    Ref { qty: QuantityRef },
}

} // verus!
