//! The reasons for which an operation on a market is rejected.

use vstd::prelude::*;

verus! {

/// Why an operation was rejected. A rejected operation changes nothing.
#[derive(Clone, Copy, Debug, PartialEq, Eq, Structural)]
pub enum ErrorCode {
    /// The caller is not the identity recorded as authority.
    Unauthorized,
    /// The market no longer accepts bets or administrative transitions.
    MarketIsClosed,
    /// A refund was asked of a market that was not aborted.
    MarketIsNotAborted,
    /// Kept for operations that must reject an aborted market.
    MarketIsAborted,
    /// The payout cannot be represented even in the widened arithmetic.
    MathOverflow,
    /// The bet was already withdrawn, or there is no such bet.
    BetIsNotFunded,
    /// A reward was asked of a market that was not resolved to Yes or No.
    MarketIsNotResolved,
    /// The bet was placed on the side that lost.
    WagerAndOutcomeDoNotMatch,
    /// A bet of nothing was offered.
    AmountIsZero,
    /// The bettor already has a bet on this market.
    BetAlreadyExists,
    /// A market with this id already exists.
    MarketAlreadyExists,
    /// There is no market with this id.
    MarketNotFound,
}

} // verus!
