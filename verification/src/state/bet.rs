//! One wager of one bettor on one market.

use vstd::prelude::*;
use crate::state::market_resolution::MarketResolution;
use crate::state::pubkey::Pubkey;

verus! {

/// Whether the wager of a bet still lies in escrow.
#[derive(Clone, Copy, Debug, PartialEq, Eq, Structural)]
pub enum BetEscrowFundsStatus {
    /// The wager lies in escrow.
    Funded,
    /// The bettor has claimed the reward or taken the refund. This is final.
    Withdrawn,
}

/// The wager of one bettor on one market. A market holds at most one bet of
/// each bettor.
#[derive(Clone, Copy, Debug, PartialEq, Eq)]
pub struct Bet {
    /// The bettor: the only identity that may withdraw on this bet.
    pub authority: Pubkey,
    /// Derivation metadata of the record's address; the rules never read it.
    pub bump: u8,
    /// The wager, fixed when the bet is placed.
    pub amount: u64,
    /// The side the bettor wagered on, fixed when the bet is placed.
    pub wagered_outcome: MarketResolution,
    /// Whether the wager still lies in escrow.
    pub escrow_funds_status: BetEscrowFundsStatus,
}

impl Bet {
    /// The size of the stored record in bytes.
    pub const LEN: usize = 32  // authority
     + 1  // bump
     + 8  // amount
     + 1  // wagered_outcome
     + 1;  // escrow_funds_status

    /// Whether the wager still lies in escrow.
    pub open spec fn is_funded(self) -> bool {
        self.escrow_funds_status == BetEscrowFundsStatus::Funded
    }

    /// This bet once its wager has left escrow.
    pub open spec fn withdrawn(self) -> Bet {
        Bet { escrow_funds_status: BetEscrowFundsStatus::Withdrawn, ..self }
    }
}

} // verus!
