//! The operations on single records: each takes the records it concerns and
//! either applies all of its changes or rejects the call and changes nothing.

pub mod abort_market;
pub mod claim_reward;
pub mod create_market;
pub mod place_bet;
pub mod resolve_market;
pub mod withdraw_after_abort;
