//! The records that the market keeps.

pub mod bet;
pub mod escrow_authority;
pub mod market;
pub mod market_resolution;
pub mod pubkey;
pub mod state;

pub use bet::{Bet, BetEscrowFundsStatus};
pub use escrow_authority::EscrowAuthority;
pub use market::Market;
pub use market_resolution::MarketResolution;
pub use pubkey::Pubkey;
pub use state::Outcome;
