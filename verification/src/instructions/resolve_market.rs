//! The authority resolves an open market to one of its sides.

use vstd::prelude::*;
use crate::errors::ErrorCode;
use crate::state::market::Market;
use crate::state::market_resolution::MarketResolution;
use crate::state::pubkey::Pubkey;

verus! {

/// Whether `signer` may end `market` now, or why not: the caller must be the
/// authority, and then the market must be open.
pub open spec fn may_close(market: Market, signer: Pubkey) -> Result<(), ErrorCode> {
    if signer != market.authority {
        Err(ErrorCode::Unauthorized)
    } else if !market.is_open() {
        Err(ErrorCode::MarketIsClosed)
    } else {
        Ok(())
    }
}

/// Resolves `market` to `resolution` on behalf of `signer`.
///
/// Only the authority is heard, and only on an open market. A rejected call
/// leaves the market as it was.
pub fn handler(market: &mut Market, signer: &Pubkey, resolution: MarketResolution) -> (res: Result<
    (),
    ErrorCode,
>)
    ensures
        res == may_close(*old(market), *signer),
        res is Ok ==> *final(market) == old(market).closed_with(resolution.outcome()),
        res is Err ==> *final(market) == *old(market),
{
    market.authorize(signer)?;
    if market.is_closed || market.outcome.is_some() {
        return Err(ErrorCode::MarketIsClosed);
    }
    market.is_closed = true;
    market.outcome = Some(resolution.to_outcome());
    Ok(())
}

} // verus!
