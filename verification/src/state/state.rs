//! How a market can end.

use vstd::prelude::*;

verus! {

/// The terminal result of a market.
#[derive(Clone, Copy, Debug, PartialEq, Eq, Structural)]
pub enum Outcome {
    /// The authority resolved the market to "Yes".
    Yes,
    /// The authority resolved the market to "No".
    No,
    /// The authority aborted the market; every bettor gets the wager back.
    Aborted,
}

} // verus!
