//! Anyone creates a market and becomes its authority.

use vstd::prelude::*;
use crate::state::escrow_authority::EscrowAuthority;
use crate::state::market::Market;
use crate::state::pubkey::Pubkey;

verus! {

/// Derivation metadata of the addresses of the records that come with a new
/// market. The rules never read them; they are stored for the host.
#[derive(Clone, Copy, Debug, PartialEq, Eq, Structural)]
pub struct CreateMarketBumps {
    pub market: u8,
    pub escrow_authority: u8,
    pub escrow: u8,
}

/// The market that `signer` creates: open, with nothing wagered, and with
/// `signer` as its authority.
pub open spec fn new_market(
    signer: Pubkey,
    bumps: CreateMarketBumps,
    market_id: String,
    fee_bps: u16,
    question: String,
) -> Market {
    Market {
        authority: signer,
        bump: bumps.market,
        fee_bps,
        market_id,
        question,
        is_closed: false,
        outcome: None,
        yes_wagered: 0,
        no_wagered: 0,
        market_dump: 0,
        escrow_bump: bumps.escrow,
        escrow_authority_bump: bumps.escrow_authority,
    }
}

/// Creates a market on behalf of `signer`, together with the record of the
/// authority over its escrow pool.
///
/// The caller has to see that no other market has this `market_id`.
pub fn handler(
    signer: Pubkey,
    bumps: CreateMarketBumps,
    market_id: String,
    fee_bps: u16,
    question: String,
) -> (created: (Market, EscrowAuthority))
    ensures
        created.0 == new_market(signer, bumps, market_id, fee_bps, question),
        created.0.is_open(),
        created.1 == (EscrowAuthority { bump: bumps.escrow_authority }),
{
    let market = Market {
        authority: signer,
        bump: bumps.market,
        fee_bps,
        market_id,
        question,
        is_closed: false,
        outcome: None,
        yes_wagered: 0,
        no_wagered: 0,
        market_dump: 0,
        escrow_bump: bumps.escrow,
        escrow_authority_bump: bumps.escrow_authority,
    };
    let escrow_authority = EscrowAuthority { bump: bumps.escrow_authority };
    (market, escrow_authority)
}

} // verus!
