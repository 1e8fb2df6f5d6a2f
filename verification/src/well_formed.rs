//! What holds of the book of a market at all times, and why every transition of
//! [`crate::model`] keeps it.

use vstd::prelude::*;
use crate::instructions::place_bet::funded_bet;
use crate::model::{stake_on, BookState, Operation};
use crate::state::market::Market;
use crate::state::market_resolution::MarketResolution;
use crate::state::pubkey::Pubkey;
use crate::state::state::Outcome;
use crate::tally::{lemma_sum_covers, lemma_sum_push, lemma_sum_update};

verus! {

/// In a well-formed book the bet of a bettor stands at one index only.
pub proof fn lemma_index_of_is_unique(book: BookState, bettor: Pubkey, i: int)
    requires
        book.wf(),
        0 <= i < book.bets.len(),
        book.bets[i].authority == bettor,
    ensures
        book.has_bet(bettor),
        book.index_of(bettor) == i,
        book.bet_of(bettor) == Some(book.bets[i]),
{
    // two bets of one bettor would stand at two indices
    let j = book.index_of(bettor);
    if j < i {
        assert(book.bets[j].authority != book.bets[i].authority);
    } else if i < j {
        assert(book.bets[i].authority != book.bets[j].authority);
    }
}

/// While a market is open, every wager lies in escrow.
pub proof fn lemma_open_book_is_funded(book: BookState)
    requires
        book.wf(),
        book.market.is_open(),
    ensures
        forall|i: int| 0 <= i < book.bets.len() ==> (#[trigger] book.bets[i]).is_funded(),
{
}

/// No wager is larger than the total of its side.
pub proof fn lemma_wager_is_part_of_pool(book: BookState, i: int)
    requires
        book.wf(),
        0 <= i < book.bets.len(),
    ensures
        0 < book.bets[i].amount <= book.market.pool(book.bets[i].wagered_outcome),
{
    lemma_sum_covers(book.bets, i, stake_on(book.bets[i].wagered_outcome));
}

/// A market that is open, with nothing wagered, opens a well-formed book.
pub proof fn lemma_opening_is_well_formed(market: Market)
    requires
        market.is_open(),
        market.yes_wagered == 0,
        market.no_wagered == 0,
    ensures
        BookState::opening(market).wf(),
        BookState::opening(market).escrow() == 0,
{
}

/// Placing a bet keeps the book well-formed.
pub proof fn lemma_place_bet_keeps_well_formed(
    book: BookState,
    signer: Pubkey,
    bump: u8,
    amount: u64,
    side: MarketResolution,
)
    requires
        book.wf(),
        book.place_bet(signer, bump, amount, side) is Ok,
    ensures
        book.place_bet(signer, bump, amount, side).unwrap().wf(),
{
    let bet = funded_bet(signer, bump, amount, side);
    lemma_sum_push(book.bets, bet, stake_on(MarketResolution::Yes));
    lemma_sum_push(book.bets, bet, stake_on(MarketResolution::No));
}

/// Ending a market keeps the book well-formed.
pub proof fn lemma_close_keeps_well_formed(book: BookState, signer: Pubkey, outcome: Outcome)
    requires
        book.wf(),
        book.close(signer, outcome) is Ok,
    ensures
        book.close(signer, outcome).unwrap().wf(),
{
}

/// Marking the bet of a bettor withdrawn keeps the book well-formed, where
/// the market was aborted or the bet was on the side that won.
pub proof fn lemma_withdrawal_keeps_well_formed(book: BookState, bettor: Pubkey)
    requires
        book.wf(),
        book.has_bet(bettor),
        book.market.is_aborted() || book.market.winner() == Some(
            book.bets[book.index_of(bettor)].wagered_outcome,
        ),
    ensures
        book.with_withdrawal(bettor).wf(),
{
    let next = book.with_withdrawal(bettor);
    let k = book.index_of(bettor);
    let after = book.bets[k].withdrawn();
    lemma_sum_update(book.bets, k, after, stake_on(MarketResolution::Yes));
    lemma_sum_update(book.bets, k, after, stake_on(MarketResolution::No));
    assert forall|i: int| 0 <= i < next.bets.len() && !(#[trigger] next.bets[i]).is_funded() implies {
        ||| next.market.is_aborted()
        ||| next.market.winner() == Some(next.bets[i].wagered_outcome)
    } by {
        if i != k {
            assert(!book.bets[i].is_funded());
        }
    }
}

/// Claiming a reward keeps the book well-formed.
pub proof fn lemma_claim_reward_keeps_well_formed(book: BookState, signer: Pubkey)
    requires
        book.wf(),
        book.claim_reward(signer) is Ok,
    ensures
        book.claim_reward(signer).unwrap().0.wf(),
{
    lemma_withdrawal_keeps_well_formed(book, signer);
}

/// Taking a wager back keeps the book well-formed.
pub proof fn lemma_withdraw_after_abort_keeps_well_formed(book: BookState, signer: Pubkey)
    requires
        book.wf(),
        book.withdraw_after_abort(signer) is Ok,
    ensures
        book.withdraw_after_abort(signer).unwrap().0.wf(),
{
    lemma_withdrawal_keeps_well_formed(book, signer);
}

/// Whatever is asked of a well-formed book, accepted or not, the book is
/// well-formed afterwards.
pub proof fn lemma_step_keeps_well_formed(book: BookState, operation: Operation)
    requires
        book.wf(),
    ensures
        book.step(operation).wf(),
{
    match operation {
        Operation::PlaceBet { signer, bump, amount, side } => {
            if book.place_bet(signer, bump, amount, side) is Ok {
                lemma_place_bet_keeps_well_formed(book, signer, bump, amount, side);
            }
        },
        Operation::Resolve { signer, resolution } => {
            if book.resolve(signer, resolution) is Ok {
                lemma_close_keeps_well_formed(book, signer, resolution.outcome());
            }
        },
        Operation::Abort { signer } => {
            if book.abort(signer) is Ok {
                lemma_close_keeps_well_formed(book, signer, Outcome::Aborted);
            }
        },
        Operation::ClaimReward { signer } => {
            if book.claim_reward(signer) is Ok {
                lemma_claim_reward_keeps_well_formed(book, signer);
            }
        },
        Operation::WithdrawAfterAbort { signer } => {
            if book.withdraw_after_abort(signer) is Ok {
                lemma_withdraw_after_abort_keeps_well_formed(book, signer);
            }
        },
    }
}

/// Whatever is asked of a well-formed book, accepted or not, one after the
/// other, the book is well-formed afterwards.
pub proof fn lemma_run_keeps_well_formed(book: BookState, operations: Seq<Operation>)
    requires
        book.wf(),
    ensures
        book.run(operations).wf(),
    decreases operations.len(),
{
    if operations.len() > 0 {
        lemma_run_keeps_well_formed(book, operations.drop_last());
        lemma_step_keeps_well_formed(book.run(operations.drop_last()), operations.last());
    }
}

} // verus!
