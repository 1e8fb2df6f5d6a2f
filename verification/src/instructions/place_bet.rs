//! A bettor places a bet on an open market.

use vstd::prelude::*;
use crate::errors::ErrorCode;
use crate::state::bet::{Bet, BetEscrowFundsStatus};
use crate::state::market::Market;
use crate::state::market_resolution::MarketResolution;
use crate::state::pubkey::Pubkey;

verus! {

/// Whether `market` takes a wager of `amount` on `side`, or why not. The first
/// condition that fails decides.
pub open spec fn admission(market: Market, amount: u64, side: MarketResolution) -> Result<
    (),
    ErrorCode,
> {
    if !market.is_open() {
        Err(ErrorCode::MarketIsClosed)
    } else if amount == 0 {
        Err(ErrorCode::AmountIsZero)
    } else if market.pool(side) + amount > u64::MAX {
        Err(ErrorCode::MathOverflow)
    } else {
        Ok(())
    }
}

/// The bet that `signer` holds after wagering `amount` on `side`.
pub open spec fn funded_bet(signer: Pubkey, bump: u8, amount: u64, side: MarketResolution) -> Bet {
    Bet {
        authority: signer,
        bump,
        amount,
        wagered_outcome: side,
        escrow_funds_status: BetEscrowFundsStatus::Funded,
    }
}

/// Places the bet of `signer`: `amount` on `wagered_outcome`.
///
/// On success the total of that side has grown by `amount`, and the result is
/// the funded bet. The caller has to move `amount` from the bettor into escrow
/// together with this change, and to see that `signer` has no other bet on
/// this market. A rejected bet leaves the market as it was.
pub fn handler(
    market: &mut Market,
    signer: Pubkey,
    bump: u8,
    amount: u64,
    wagered_outcome: MarketResolution,
) -> (res: Result<Bet, ErrorCode>)
    ensures
        match admission(*old(market), amount, wagered_outcome) {
            Ok(()) => {
                &&& res == Ok::<Bet, ErrorCode>(funded_bet(signer, bump, amount, wagered_outcome))
                &&& *final(market) == old(market).with_wager(wagered_outcome, amount)
            },
            Err(e) => res == Err::<Bet, ErrorCode>(e) && *final(market) == *old(market),
        },
{
    // a market that was resolved or aborted takes no bets
    if market.is_closed || market.outcome.is_some() {
        return Err(ErrorCode::MarketIsClosed);
    }
    if amount == 0 {
        return Err(ErrorCode::AmountIsZero);
    }
    match wagered_outcome {
        MarketResolution::Yes => {
            match market.yes_wagered.checked_add(amount) {
                Some(total) => { market.yes_wagered = total; },
                None => { return Err(ErrorCode::MathOverflow); },
            }
        },
        MarketResolution::No => {
            match market.no_wagered.checked_add(amount) {
                Some(total) => { market.no_wagered = total; },
                None => { return Err(ErrorCode::MathOverflow); },
            }
        },
    }
    Ok(
        Bet {
            authority: signer,
            bump,
            amount,
            wagered_outcome,
            escrow_funds_status: BetEscrowFundsStatus::Funded,
        },
    )
}

} // verus!
