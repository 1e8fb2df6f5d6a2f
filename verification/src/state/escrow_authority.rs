//! The record that stands for the program's authority over an escrow pool.

use vstd::prelude::*;

verus! {

/// The holder of a market's escrow pool. It carries only the derivation
/// metadata of its own address.
#[derive(Clone, Copy, Debug, PartialEq, Eq, Structural)]
pub struct EscrowAuthority {
    pub bump: u8,
}

impl EscrowAuthority {
    /// The size of the stored record in bytes.
    pub const LEN: usize = 8;
}

} // verus!
