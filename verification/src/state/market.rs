//! A market: its question, its authority, its status and its totals.

use vstd::prelude::*;
use crate::errors::ErrorCode;
use crate::state::market_resolution::MarketResolution;
use crate::state::pubkey::Pubkey;
use crate::state::state::Outcome;

verus! {

/// A binary-outcome market.
///
/// A market is open until its authority resolves or aborts it. From then on
/// `is_closed` is set, `outcome` holds the result, and neither changes again.
#[derive(Clone, Debug, PartialEq, Eq)]
pub struct Market {
    /// The only identity that may resolve or abort the market.
    pub authority: Pubkey,
    /// Derivation metadata of the record's address; the rules never read it.
    pub bump: u8,
    /// A fee in basis points. It is stored and takes part in no computation.
    pub fee_bps: u16,
    /// The key under which the market is found.
    pub market_id: String,
    /// What the market asks.
    pub question: String,
    /// Whether the market has left the open status.
    pub is_closed: bool,
    /// `None` while the market is open, then its terminal result.
    pub outcome: Option<Outcome>,
    /// The sum of the wagers on "Yes".
    pub yes_wagered: u64,
    /// The sum of the wagers on "No".
    pub no_wagered: u64,
    /// Derivation metadata; the rules never read it.
    pub market_dump: u8,
    /// Derivation metadata of the escrow pool's address.
    pub escrow_bump: u8,
    /// Derivation metadata of the escrow authority's address.
    pub escrow_authority_bump: u8,
}

impl Market {
    /// The size of the stored record in bytes, with room for thirty-two bytes
    /// of `market_id` and of `question` each.
    pub const LEN: usize = 8 + 32  // authority
     + 1  // bump
     + 2  // fee_bps
     + 4 + 32  // market_id: length prefix and text
     + 4 + 32  // question: length prefix and text
     + 1  // is_closed
     + 1  // outcome
     + 8  // yes_wagered
     + 8  // no_wagered
     + 1  // market_dump
     + 1  // escrow_bump
     + 1;  // escrow_authority_bump

    /// Whether the market still takes bets and awaits its result.
    pub open spec fn is_open(self) -> bool {
        !self.is_closed && self.outcome is None
    }

    /// The side that won, if the market was resolved.
    pub open spec fn winner(self) -> Option<MarketResolution> {
        if !self.is_closed {
            None
        } else {
            match self.outcome {
                Some(Outcome::Yes) => Some(MarketResolution::Yes),
                Some(Outcome::No) => Some(MarketResolution::No),
                _ => None,
            }
        }
    }

    /// Whether the market was aborted.
    pub open spec fn is_aborted(self) -> bool {
        self.is_closed && self.outcome == Some(Outcome::Aborted)
    }

    /// The sum of the wagers on `side`.
    pub open spec fn pool(self, side: MarketResolution) -> nat {
        match side {
            MarketResolution::Yes => self.yes_wagered as nat,
            MarketResolution::No => self.no_wagered as nat,
        }
    }

    /// This market with `amount` more wagered on `side`.
    pub open spec fn with_wager(self, side: MarketResolution, amount: u64) -> Market {
        match side {
            MarketResolution::Yes => Market {
                yes_wagered: (self.yes_wagered + amount) as u64,
                ..self
            },
            MarketResolution::No => Market { no_wagered: (self.no_wagered + amount) as u64, ..self },
        }
    }

    /// What the authorization gate answers to `signer`: only the recorded
    /// authority passes.
    pub open spec fn admits(self, signer: Pubkey) -> Result<(), ErrorCode> {
        if signer == self.authority {
            Ok(())
        } else {
            Err(ErrorCode::Unauthorized)
        }
    }

    /// The authorization gate: passes the recorded authority and nobody else.
    pub fn authorize(&self, signer: &Pubkey) -> (res: Result<(), ErrorCode>)
        ensures
            res == self.admits(*signer),
    {
        if *signer == self.authority {
            Ok(())
        } else {
            Err(ErrorCode::Unauthorized)
        }
    }

    /// This market with its terminal result set.
    pub open spec fn closed_with(self, outcome: Outcome) -> Market {
        Market { is_closed: true, outcome: Some(outcome), ..self }
    }
}

} // verus!
