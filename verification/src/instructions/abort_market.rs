//! The authority aborts an open market.

use vstd::prelude::*;
use crate::errors::ErrorCode;
use crate::instructions::resolve_market::may_close;
use crate::state::market::Market;
use crate::state::pubkey::Pubkey;
use crate::state::state::Outcome;

verus! {

/// Aborts `market` on behalf of `signer`.
///
/// Only the authority is heard, and only on an open market. A rejected call
/// leaves the market as it was.
pub fn handler(market: &mut Market, signer: &Pubkey) -> (res: Result<(), ErrorCode>)
    ensures
        res == may_close(*old(market), *signer),
        res is Ok ==> *final(market) == old(market).closed_with(Outcome::Aborted),
        res is Err ==> *final(market) == *old(market),
{
    market.authorize(signer)?;
    if market.is_closed || market.outcome.is_some() {
        return Err(ErrorCode::MarketIsClosed);
    }
    market.is_closed = true;
    market.outcome = Some(Outcome::Aborted);
    Ok(())
}

} // verus!
