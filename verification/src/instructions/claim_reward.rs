//! A winner claims the reward.

use vstd::prelude::*;
use crate::errors::ErrorCode;
use crate::payout::{reward, reward_is_representable, reward_of};
use crate::state::bet::{Bet, BetEscrowFundsStatus};
use crate::state::market::Market;
use crate::state::market_resolution::MarketResolution;
use crate::state::pubkey::Pubkey;
use crate::state::state::Outcome;

verus! {

/// What a claim of `signer` on `bet` in `market` comes to: the reward that
/// escrow owes, or the reason for which the claim is rejected. The first
/// condition that fails decides.
pub open spec fn claim(market: Market, bet: Bet, signer: Pubkey) -> Result<u64, ErrorCode> {
    let side = bet.wagered_outcome;
    let winner_pool = market.pool(side);
    let loser_pool = market.pool(side.opposite());
    if signer != bet.authority {
        Err(ErrorCode::Unauthorized)
    } else if market.winner() is None {
        Err(ErrorCode::MarketIsNotResolved)
    } else if !bet.is_funded() {
        Err(ErrorCode::BetIsNotFunded)
    } else if market.winner() != Some(side) {
        Err(ErrorCode::WagerAndOutcomeDoNotMatch)
    } else if !reward_is_representable(bet.amount as nat, winner_pool, loser_pool) {
        Err(ErrorCode::MathOverflow)
    } else {
        Ok(reward_of(bet.amount as nat, winner_pool, loser_pool) as u64)
    }
}

/// Settles the claim of `signer` on `bet`.
///
/// On success the bet is marked withdrawn and the result is the reward, which
/// the caller has to move from escrow to the bettor together with this change.
/// A rejected claim leaves the bet as it was.
pub fn handler(market: &Market, bet: &mut Bet, signer: &Pubkey) -> (res: Result<u64, ErrorCode>)
    ensures
        res == claim(*market, *old(bet), *signer),
        res is Ok ==> *final(bet) == old(bet).withdrawn(),
        res is Err ==> *final(bet) == *old(bet),
{
    if *signer != bet.authority {
        return Err(ErrorCode::Unauthorized);
    }
    // there is no reward before the market is resolved to one of the sides
    let winner = match (market.is_closed, market.outcome) {
        (true, Some(Outcome::Yes)) => MarketResolution::Yes,
        (true, Some(Outcome::No)) => MarketResolution::No,
        _ => { return Err(ErrorCode::MarketIsNotResolved); },
    };
    // a reward is paid once
    if bet.escrow_funds_status != BetEscrowFundsStatus::Funded {
        return Err(ErrorCode::BetIsNotFunded);
    }
    // the losing side has no reward
    let (winner_pool, loser_pool) = match (bet.wagered_outcome, winner) {
        (MarketResolution::Yes, MarketResolution::Yes) => (market.yes_wagered, market.no_wagered),
        (MarketResolution::No, MarketResolution::No) => (market.no_wagered, market.yes_wagered),
        _ => { return Err(ErrorCode::WagerAndOutcomeDoNotMatch); },
    };
    let owed = reward(bet.amount, winner_pool, loser_pool)?;
    bet.escrow_funds_status = BetEscrowFundsStatus::Withdrawn;
    Ok(owed)
}

} // verus!
