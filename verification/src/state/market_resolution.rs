//! The two sides of a market.

use vstd::prelude::*;
use crate::state::state::Outcome;

verus! {

/// A side of the market: what a bettor wagers on, and what the authority
/// resolves the market to.
#[derive(Clone, Copy, Debug, PartialEq, Eq, Structural)]
pub enum MarketResolution {
    Yes,
    No,
}

impl MarketResolution {
    /// The side that loses when `self` wins.
    pub open spec fn opposite(self) -> MarketResolution {
        match self {
            MarketResolution::Yes => MarketResolution::No,
            MarketResolution::No => MarketResolution::Yes,
        }
    }

    /// The outcome of a market that is resolved to this side.
    pub open spec fn outcome(self) -> Outcome {
        match self {
            MarketResolution::Yes => Outcome::Yes,
            MarketResolution::No => Outcome::No,
        }
    }

    /// The outcome of a market that is resolved to this side.
    pub fn to_outcome(&self) -> (outcome: Outcome)
        ensures
            outcome == self.outcome(),
    {
        match self {
            MarketResolution::Yes => Outcome::Yes,
            MarketResolution::No => Outcome::No,
        }
    }
}

} // verus!
