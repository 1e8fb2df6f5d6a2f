//! A bettor takes the wager back from an aborted market.

use vstd::prelude::*;
use crate::errors::ErrorCode;
use crate::state::bet::{Bet, BetEscrowFundsStatus};
use crate::state::market::Market;
use crate::state::pubkey::Pubkey;
use crate::state::state::Outcome;

verus! {

/// What a refund request of `signer` on `bet` in `market` comes to: the
/// bettor's own wager, or the reason for which the request is rejected. The
/// first condition that fails decides.
pub open spec fn refund(market: Market, bet: Bet, signer: Pubkey) -> Result<u64, ErrorCode> {
    if signer != bet.authority {
        Err(ErrorCode::Unauthorized)
    } else if !market.is_aborted() {
        Err(ErrorCode::MarketIsNotAborted)
    } else if !bet.is_funded() {
        Err(ErrorCode::BetIsNotFunded)
    } else {
        Ok(bet.amount)
    }
}

/// Settles the refund request of `signer` on `bet`.
///
/// On success the bet is marked withdrawn and the result is the bettor's own
/// wager, which the caller has to move from escrow to the bettor together with
/// this change. A rejected request leaves the bet as it was.
pub fn handler(market: &Market, bet: &mut Bet, signer: &Pubkey) -> (res: Result<u64, ErrorCode>)
    ensures
        res == refund(*market, *old(bet), *signer),
        res is Ok ==> *final(bet) == old(bet).withdrawn(),
        res is Err ==> *final(bet) == *old(bet),
{
    if *signer != bet.authority {
        return Err(ErrorCode::Unauthorized);
    }
    // a wager is returned only by a market that was aborted
    match (market.is_closed, market.outcome) {
        (true, Some(Outcome::Aborted)) => {},
        _ => { return Err(ErrorCode::MarketIsNotAborted); },
    }
    // a wager is returned once
    if bet.escrow_funds_status != BetEscrowFundsStatus::Funded {
        return Err(ErrorCode::BetIsNotFunded);
    }
    bet.escrow_funds_status = BetEscrowFundsStatus::Withdrawn;
    Ok(bet.amount)
}

} // verus!
