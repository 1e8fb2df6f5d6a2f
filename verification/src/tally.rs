//! Sums over the bets of a market.

use vstd::prelude::*;
use crate::state::bet::Bet;

verus! {

/// The sum of `weight` over all of `bets`.
pub open spec fn sum_over(bets: Seq<Bet>, weight: spec_fn(Bet) -> nat) -> nat
    decreases bets.len(),
{
    if bets.len() == 0 {
        0
    } else {
        sum_over(bets.drop_last(), weight) + weight(bets.last())
    }
}

/// One more bet adds its weight to the sum.
pub proof fn lemma_sum_push(bets: Seq<Bet>, bet: Bet, weight: spec_fn(Bet) -> nat)
    ensures
        sum_over(bets.push(bet), weight) == sum_over(bets, weight) + weight(bet),
{
    assert(bets.push(bet).drop_last() =~= bets);
}

/// Replacing one bet changes the sum by the difference of the two weights.
pub proof fn lemma_sum_update(bets: Seq<Bet>, i: int, bet: Bet, weight: spec_fn(Bet) -> nat)
    requires
        0 <= i < bets.len(),
    ensures
        sum_over(bets.update(i, bet), weight) + weight(bets[i]) == sum_over(bets, weight) + weight(
            bet,
        ),
    decreases bets.len(),
{
    let updated = bets.update(i, bet);
    if i == bets.len() - 1 {
        assert(updated.drop_last() =~= bets.drop_last());
    } else {
        assert(updated.drop_last() =~= bets.drop_last().update(i, bet));
        lemma_sum_update(bets.drop_last(), i, bet, weight);
    }
}

/// A sum is at least the weight of each of its bets.
pub proof fn lemma_sum_covers(bets: Seq<Bet>, i: int, weight: spec_fn(Bet) -> nat)
    requires
        0 <= i < bets.len(),
    ensures
        weight(bets[i]) <= sum_over(bets, weight),
    decreases bets.len(),
{
    if i < bets.len() - 1 {
        lemma_sum_covers(bets.drop_last(), i, weight);
    }
}

/// Where one weight is the sum of two others on every bet, so are the sums.
pub proof fn lemma_sum_splits(
    bets: Seq<Bet>,
    whole: spec_fn(Bet) -> nat,
    left: spec_fn(Bet) -> nat,
    right: spec_fn(Bet) -> nat,
)
    requires
        forall|i: int| 0 <= i < bets.len() ==> whole(#[trigger] bets[i]) == left(bets[i]) + right(bets[i]),
    ensures
        sum_over(bets, whole) == sum_over(bets, left) + sum_over(bets, right),
    decreases bets.len(),
{
    if bets.len() > 0 {
        let init = bets.drop_last();
        lemma_sum_splits(init, whole, left, right);
    }
}

/// Where one weight is `c` times a second plus `d` times a third on every bet,
/// so are the sums.
pub proof fn lemma_sum_combines(
    bets: Seq<Bet>,
    whole: spec_fn(Bet) -> nat,
    left: spec_fn(Bet) -> nat,
    c: nat,
    right: spec_fn(Bet) -> nat,
    d: nat,
)
    requires
        forall|i: int|
            0 <= i < bets.len() ==> whole(#[trigger] bets[i]) == left(bets[i]) * c + right(bets[i])
                * d,
    ensures
        sum_over(bets, whole) == sum_over(bets, left) * c + sum_over(bets, right) * d,
    decreases bets.len(),
{
    if bets.len() > 0 {
        let init = bets.drop_last();
        lemma_sum_combines(init, whole, left, c, right, d);
        let l0 = sum_over(init, left);
        let l1 = left(bets.last());
        let r0 = sum_over(init, right);
        let r1 = right(bets.last());
        assert(whole(bets.last()) == l1 * c + r1 * d);
        assert((l0 + l1) * c == l0 * c + l1 * c) by (nonlinear_arith);
        assert((r0 + r1) * d == r0 * d + r1 * d) by (nonlinear_arith);
    } else {
        assert(0 * c + 0 * d == 0) by (nonlinear_arith);
    }
}

/// Where one weight is at most another on every bet, so are the sums.
pub proof fn lemma_sum_monotonic(
    bets: Seq<Bet>,
    lower: spec_fn(Bet) -> nat,
    upper: spec_fn(Bet) -> nat,
)
    requires
        forall|i: int| 0 <= i < bets.len() ==> lower(#[trigger] bets[i]) <= upper(bets[i]),
    ensures
        sum_over(bets, lower) <= sum_over(bets, upper),
    decreases bets.len(),
{
    if bets.len() > 0 {
        let init = bets.drop_last();
        lemma_sum_monotonic(init, lower, upper);
    }
}

/// Where `small` times `c` is at most `large` times `d` on every bet, the same
/// holds of the sums.
pub proof fn lemma_sum_scaled(
    bets: Seq<Bet>,
    small: spec_fn(Bet) -> nat,
    c: nat,
    large: spec_fn(Bet) -> nat,
    d: nat,
)
    requires
        forall|i: int| 0 <= i < bets.len() ==> small(#[trigger] bets[i]) * c <= large(bets[i]) * d,
    ensures
        sum_over(bets, small) * c <= sum_over(bets, large) * d,
    decreases bets.len(),
{
    if bets.len() > 0 {
        let init = bets.drop_last();
        lemma_sum_scaled(init, small, c, large, d);
        let s0 = sum_over(init, small);
        let s1 = small(bets.last());
        let l0 = sum_over(init, large);
        let l1 = large(bets.last());
        assert((s0 + s1) * c == s0 * c + s1 * c) by (nonlinear_arith);
        assert((l0 + l1) * d == l0 * d + l1 * d) by (nonlinear_arith);
    } else {
        assert(sum_over(bets, small) * c == 0) by (nonlinear_arith)
            requires
                sum_over(bets, small) == 0,
        ;
    }
}

/// Where a weight is zero on every bet, the sum is zero.
pub proof fn lemma_sum_of_nothing(bets: Seq<Bet>, weight: spec_fn(Bet) -> nat)
    requires
        forall|i: int| 0 <= i < bets.len() ==> weight(#[trigger] bets[i]) == 0,
    ensures
        sum_over(bets, weight) == 0,
    decreases bets.len(),
{
    if bets.len() > 0 {
        let init = bets.drop_last();
        lemma_sum_of_nothing(init, weight);
    }
}

} // verus!
