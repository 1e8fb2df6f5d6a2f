//! The payout rule: a winner receives the share of the losing pool that the
//! wager is of the winning pool, rounded down.

use vstd::prelude::*;
use vstd::arithmetic::div_mod::{lemma_div_is_ordered, lemma_div_multiples_vanish};
use vstd::arithmetic::div_mod::lemma_fundamental_div_mod;
use vstd::arithmetic::div_mod::lemma_mod_bound;
use vstd::arithmetic::mul::{lemma_mul_inequality, lemma_mul_is_commutative};
use crate::errors::ErrorCode;

verus! {

/// The reward of a wager of `amount` on the winning side:
/// `amount * loser_pool / winner_pool`, rounded down.
pub open spec fn reward_of(amount: nat, winner_pool: nat, loser_pool: nat) -> nat {
    (amount * loser_pool) / winner_pool
}

/// Whether a wager of `amount` has a reward that fits the integer width: the
/// winning pool is not empty and the quotient is not above `u64::MAX`.
pub open spec fn reward_is_representable(amount: nat, winner_pool: nat, loser_pool: nat) -> bool {
    winner_pool > 0 && reward_of(amount, winner_pool, loser_pool) <= u64::MAX
}

/// A reward times the winning pool is at most the wager times the losing
/// pool: rounding only ever keeps value in escrow.
pub proof fn lemma_reward_rounds_down(amount: nat, winner_pool: nat, loser_pool: nat)
    requires
        winner_pool > 0,
    ensures
        reward_of(amount, winner_pool, loser_pool) * winner_pool <= amount * loser_pool,
{
    let x = (amount * loser_pool) as int;
    let d = winner_pool as int;
    lemma_fundamental_div_mod(x, d);
    lemma_mod_bound(x, d);
    lemma_mul_is_commutative(d, x / d);
}

/// A wager that is part of the winning pool is never rewarded with more than
/// the whole losing pool.
pub proof fn lemma_reward_at_most_loser_pool(amount: nat, winner_pool: nat, loser_pool: nat)
    requires
        0 < winner_pool,
        amount <= winner_pool,
    ensures
        reward_of(amount, winner_pool, loser_pool) <= loser_pool,
{
    let d = winner_pool as int;
    lemma_mul_inequality(amount as int, d, loser_pool as int);
    lemma_div_is_ordered((amount * loser_pool) as int, (winner_pool * loser_pool) as int, d);
    lemma_mul_is_commutative(d, loser_pool as int);
    lemma_div_multiples_vanish(loser_pool as int, d);
}

/// Computes the reward of a wager of `amount` on the winning side. The product
/// is taken in 128 bits, where it cannot overflow, before it is divided.
///
/// Fails with `MathOverflow` exactly when the reward has no value in 64 bits.
pub fn reward(amount: u64, winner_pool: u64, loser_pool: u64) -> (res: Result<u64, ErrorCode>)
    ensures
        reward_is_representable(amount as nat, winner_pool as nat, loser_pool as nat) ==> res
            == Ok::<u64, ErrorCode>(
            reward_of(amount as nat, winner_pool as nat, loser_pool as nat) as u64,
        ),
        !reward_is_representable(amount as nat, winner_pool as nat, loser_pool as nat) ==> res
            == Err::<u64, ErrorCode>(ErrorCode::MathOverflow),
{
    proof {
        assert(amount * loser_pool <= 0xffff_ffff_ffff_ffff * 0xffff_ffff_ffff_ffff)
            by (nonlinear_arith)
            requires
                amount <= 0xffff_ffff_ffff_ffff,
                loser_pool <= 0xffff_ffff_ffff_ffff,
        ;
    }
    let wide_amount: u128 = amount as u128;
    let wide_loser_pool: u128 = loser_pool as u128;
    let numerator: u128 = match wide_amount.checked_mul(wide_loser_pool) {
        Some(product) => product,
        None => { return Err(ErrorCode::MathOverflow); },
    };
    let quotient: u128 = match numerator.checked_div(winner_pool as u128) {
        Some(quotient) => quotient,
        None => { return Err(ErrorCode::MathOverflow); },
    };
    if quotient > u64::MAX as u128 {
        return Err(ErrorCode::MathOverflow);
    }
    Ok(quotient as u64)
}

} // verus!
