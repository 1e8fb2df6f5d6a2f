//! What holds of the book of every market: conservation, one bet per bettor,
//! one withdrawal per bet, the finality of a closed market, the authority's
//! privilege, and the bound on what escrow pays. All of it is proved of the
//! transitions in [`crate::model`], which the operations of this crate follow.

use vstd::prelude::*;
use vstd::arithmetic::div_mod::{lemma_fundamental_div_mod, lemma_mod_bound};
use vstd::arithmetic::mul::lemma_mul_is_commutative;
use crate::errors::ErrorCode;
use crate::instructions::create_market::{new_market, CreateMarketBumps};
use crate::instructions::place_bet::funded_bet;
use crate::model::{bet_on, new_book, payment, stake, stake_on, BookState, Operation};
use crate::payout::{lemma_reward_at_most_loser_pool, lemma_reward_rounds_down};
use crate::state::bet::Bet;
use crate::state::market_resolution::MarketResolution;
use crate::state::pubkey::Pubkey;
use crate::state::state::Outcome;
use crate::tally::{lemma_sum_combines, lemma_sum_covers, lemma_sum_monotonic};
use crate::tally::{lemma_sum_of_nothing, lemma_sum_scaled, lemma_sum_splits, lemma_sum_update};
use crate::tally::sum_over;
use crate::well_formed::{lemma_claim_reward_keeps_well_formed, lemma_index_of_is_unique};
use crate::well_formed::{lemma_open_book_is_funded, lemma_opening_is_well_formed};
use crate::well_formed::{lemma_place_bet_keeps_well_formed, lemma_run_keeps_well_formed};
use crate::well_formed::{lemma_step_keeps_well_formed, lemma_wager_is_part_of_pool};
use crate::well_formed::lemma_withdraw_after_abort_keeps_well_formed;

verus! {

/// Conservation: the two totals of a market add up to the sum of the wagers of
/// all bets on it, withdrawn or not.
pub proof fn lemma_conservation(book: BookState)
    requires
        book.wf(),
    ensures
        book.market.yes_wagered + book.market.no_wagered == book.total_staked(),
{
    lemma_sum_splits(
        book.bets,
        stake(),
        stake_on(MarketResolution::Yes),
        stake_on(MarketResolution::No),
    );
}

/// Conservation in every reachable state: whatever was asked of the book of a
/// market since the market was created, the book is well-formed, its totals
/// add up to the sum of the wagers of all bets, and escrow is solvent.
pub proof fn lemma_every_reachable_book_is_sound(
    signer: Pubkey,
    bumps: CreateMarketBumps,
    market_id: String,
    fee_bps: u16,
    question: String,
    operations: Seq<Operation>,
)
    ensures
        ({
            let book = new_book(signer, bumps, market_id, fee_bps, question).run(operations);
            &&& book.wf()
            &&& book.market.yes_wagered + book.market.no_wagered == book.total_staked()
            &&& 0 <= book.escrow()
        }),
    decreases operations.len(),
{
    let opened = new_book(signer, bumps, market_id, fee_bps, question);
    if operations.len() == 0 {
        lemma_opening_is_well_formed(new_market(signer, bumps, market_id, fee_bps, question));
    } else {
        lemma_every_reachable_book_is_sound(
            signer,
            bumps,
            market_id,
            fee_bps,
            question,
            operations.drop_last(),
        );
        lemma_step_keeps_well_formed(opened.run(operations.drop_last()), operations.last());
    }
    let book = opened.run(operations);
    lemma_conservation(book);
    lemma_escrow_is_solvent(book);
}

/// Single bet per bettor: whoever has a bet on a market is refused a second
/// one, whatever the amount and the side, and the bet that was accepted is
/// the bettor's bet from then on.
pub proof fn lemma_single_bet_per_bettor(
    book: BookState,
    signer: Pubkey,
    bump: u8,
    amount: u64,
    side: MarketResolution,
)
    requires
        book.wf(),
    ensures
        book.has_bet(signer) ==> book.place_bet(signer, bump, amount, side) is Err,
        book.place_bet(signer, bump, amount, side) matches Ok(next) ==> {
            &&& !book.has_bet(signer)
            &&& next.bet_of(signer) == Some(funded_bet(signer, bump, amount, side))
            &&& forall|again_bump: u8, again_amount: u64, again_side: MarketResolution|
                (#[trigger] next.place_bet(signer, again_bump, again_amount, again_side))
                    == Err::<BookState, ErrorCode>(ErrorCode::BetAlreadyExists)
        },
{
    if book.place_bet(signer, bump, amount, side) is Ok {
        let next = book.place_bet(signer, bump, amount, side).unwrap();
        lemma_place_bet_keeps_well_formed(book, signer, bump, amount, side);
        lemma_index_of_is_unique(next, signer, book.bets.len() as int);
    }
}

/// Single bet per bettor: whoever has a bet on a market keeps that bet, with
/// its wager and its side, and is refused every further bet on that market,
/// whatever else was asked of the book in between.
pub proof fn lemma_bettor_bets_once(
    book: BookState,
    bettor: Pubkey,
    operations: Seq<Operation>,
    bump: u8,
    amount: u64,
    side: MarketResolution,
)
    requires
        book.wf(),
        book.has_bet(bettor),
    ensures
        ({
            let first = book.bet_of(bettor).unwrap();
            let later = book.run(operations);
            &&& later.bet_of(bettor) == Some(first) || later.bet_of(bettor) == Some(
                first.withdrawn(),
            )
            &&& later.place_bet(bettor, bump, amount, side) is Err
        }),
    decreases operations.len(),
{
    if operations.len() > 0 {
        let before = book.run(operations.drop_last());
        lemma_bettor_bets_once(book, bettor, operations.drop_last(), bump, amount, side);
        lemma_run_keeps_well_formed(book, operations);
        let k = before.index_of(bettor);
        lemma_step_keeps_bets(before, operations.last(), k);
        lemma_index_of_is_unique(before.step(operations.last()), bettor, k);
    }
}

/// Exactly-once withdrawal: after a reward was claimed on a bet, the bet is
/// withdrawn, and the bettor's next claim fails with `BetIsNotFunded`; a
/// refund is not to be had on a resolved market either.
pub proof fn lemma_reward_is_claimed_once(book: BookState, signer: Pubkey)
    requires
        book.wf(),
        book.claim_reward(signer) is Ok,
    ensures
        ({
            let next = book.claim_reward(signer).unwrap().0;
            &&& book.bet_of(signer).unwrap().is_funded()
            &&& next.bet_of(signer) == Some(book.bet_of(signer).unwrap().withdrawn())
            &&& next.claim_reward(signer) == Err::<(BookState, u64), ErrorCode>(
                ErrorCode::BetIsNotFunded,
            )
            &&& next.withdraw_after_abort(signer) is Err
        }),
{
    let next = book.claim_reward(signer).unwrap().0;
    lemma_claim_reward_keeps_well_formed(book, signer);
    lemma_index_of_is_unique(next, signer, book.index_of(signer));
}

/// Exactly-once withdrawal: after a wager was taken back, the bet is
/// withdrawn, and the bettor's next request fails with `BetIsNotFunded`; a
/// reward is not to be had on an aborted market either.
pub proof fn lemma_wager_is_refunded_once(book: BookState, signer: Pubkey)
    requires
        book.wf(),
        book.withdraw_after_abort(signer) is Ok,
    ensures
        ({
            let next = book.withdraw_after_abort(signer).unwrap().0;
            &&& book.bet_of(signer).unwrap().is_funded()
            &&& next.bet_of(signer) == Some(book.bet_of(signer).unwrap().withdrawn())
            &&& next.withdraw_after_abort(signer) == Err::<(BookState, u64), ErrorCode>(
                ErrorCode::BetIsNotFunded,
            )
            &&& next.claim_reward(signer) is Err
        }),
{
    let next = book.withdraw_after_abort(signer).unwrap().0;
    lemma_withdraw_after_abort_keeps_well_formed(book, signer);
    lemma_index_of_is_unique(next, signer, book.index_of(signer));
}

/// Exactly-once withdrawal: on a bet that is withdrawn neither a reward nor a
/// refund is to be had.
pub proof fn lemma_withdrawn_bet_pays_nothing(book: BookState, signer: Pubkey)
    requires
        book.wf(),
        book.bet_of(signer) matches Some(bet) && !bet.is_funded(),
    ensures
        book.claim_reward(signer) is Err,
        book.market.winner() is Some ==> book.claim_reward(signer) == Err::<
            (BookState, u64),
            ErrorCode,
        >(ErrorCode::BetIsNotFunded),
        book.withdraw_after_abort(signer) is Err,
        book.market.is_aborted() ==> book.withdraw_after_abort(signer) == Err::<
            (BookState, u64),
            ErrorCode,
        >(ErrorCode::BetIsNotFunded),
{
}

/// Exactly-once withdrawal: a bet that is withdrawn stays withdrawn whatever
/// is asked of the book afterwards, by the bettor or by anybody else.
pub proof fn lemma_withdrawn_is_final(book: BookState, bettor: Pubkey, operations: Seq<Operation>)
    requires
        book.wf(),
        book.bet_of(bettor) matches Some(bet) && !bet.is_funded(),
    ensures
        book.run(operations).wf(),
        book.run(operations).bet_of(bettor) == book.bet_of(bettor),
    decreases operations.len(),
{
    if operations.len() > 0 {
        let before = book.run(operations.drop_last());
        lemma_withdrawn_is_final(book, bettor, operations.drop_last());
        lemma_step_keeps_well_formed(before, operations.last());
        let k = before.index_of(bettor);
        lemma_step_keeps_bets(before, operations.last(), k);
        lemma_index_of_is_unique(before.step(operations.last()), bettor, k);
    }
}

/// Exactly-once withdrawal: once a bettor has claimed the reward or taken the
/// wager back, neither is to be had on that bet again, whatever else was
/// asked of the book in between; the attempt that the status of the market
/// admits fails with `BetIsNotFunded`.
pub proof fn lemma_bet_is_withdrawn_once(
    book: BookState,
    bettor: Pubkey,
    operations: Seq<Operation>,
)
    requires
        book.wf(),
        book.claim_reward(bettor) is Ok || book.withdraw_after_abort(bettor) is Ok,
    ensures
        ({
            let paid = if book.claim_reward(bettor) is Ok {
                book.claim_reward(bettor).unwrap().0
            } else {
                book.withdraw_after_abort(bettor).unwrap().0
            };
            let later = paid.run(operations);
            &&& later.claim_reward(bettor) is Err
            &&& later.withdraw_after_abort(bettor) is Err
            &&& book.claim_reward(bettor) is Ok ==> later.claim_reward(bettor) == Err::<
                (BookState, u64),
                ErrorCode,
            >(ErrorCode::BetIsNotFunded)
            &&& book.withdraw_after_abort(bettor) is Ok ==> later.withdraw_after_abort(bettor)
                == Err::<(BookState, u64), ErrorCode>(ErrorCode::BetIsNotFunded)
        }),
{
    let paid = if book.claim_reward(bettor) is Ok {
        lemma_reward_is_claimed_once(book, bettor);
        lemma_claim_reward_keeps_well_formed(book, bettor);
        book.claim_reward(bettor).unwrap().0
    } else {
        lemma_wager_is_refunded_once(book, bettor);
        lemma_withdraw_after_abort_keeps_well_formed(book, bettor);
        book.withdraw_after_abort(bettor).unwrap().0
    };
    lemma_withdrawn_is_final(paid, bettor, operations);
    lemma_withdrawn_bet_pays_nothing(paid.run(operations), bettor);
    lemma_closed_market_stays_closed(
        paid,
        operations,
        bettor,
        0,
        0,
        MarketResolution::Yes,
    );
}

/// Terminal-state immutability: a market that was resolved or aborted
/// refuses every bet, every resolution and every abort.
pub proof fn lemma_closed_market_refuses(
    book: BookState,
    signer: Pubkey,
    bump: u8,
    amount: u64,
    side: MarketResolution,
    outcome: Outcome,
)
    requires
        !book.market.is_open(),
    ensures
        book.place_bet(signer, bump, amount, side) == Err::<BookState, ErrorCode>(
            ErrorCode::MarketIsClosed,
        ),
        book.resolve(signer, side) is Err,
        book.abort(signer) is Err,
        book.close(signer, outcome) is Err,
        signer == book.market.authority ==> book.close(signer, outcome) == Err::<
            BookState,
            ErrorCode,
        >(ErrorCode::MarketIsClosed),
{
}

/// Terminal-state immutability: once a market is resolved or aborted,
/// nothing that is asked of its book changes the market: its status and its
/// totals are frozen, and there are no new bets.
pub proof fn lemma_step_leaves_closed_market(book: BookState, operation: Operation)
    requires
        !book.market.is_open(),
    ensures
        book.step(operation).market == book.market,
        book.step(operation).bets.len() == book.bets.len(),
{
}

/// Terminal-state immutability: once a market is resolved or aborted it stays
/// as it is for good, with its status and its totals, and from then on every
/// bet, every resolution and every abort is refused.
pub proof fn lemma_closed_market_stays_closed(
    book: BookState,
    operations: Seq<Operation>,
    signer: Pubkey,
    bump: u8,
    amount: u64,
    side: MarketResolution,
)
    requires
        !book.market.is_open(),
    ensures
        book.run(operations).market == book.market,
        book.run(operations).bets.len() == book.bets.len(),
        book.run(operations).place_bet(signer, bump, amount, side) is Err,
        book.run(operations).resolve(signer, side) is Err,
        book.run(operations).abort(signer) is Err,
    decreases operations.len(),
{
    if operations.len() > 0 {
        lemma_closed_market_stays_closed(book, operations.drop_last(), signer, bump, amount, side);
        lemma_step_leaves_closed_market(book.run(operations.drop_last()), operations.last());
    }
}

/// Authorization: whoever is not the authority of a market can neither
/// resolve nor abort it, whatever the status of the market.
pub proof fn lemma_only_authority_closes(
    book: BookState,
    signer: Pubkey,
    resolution: MarketResolution,
)
    requires
        signer != book.market.authority,
    ensures
        book.resolve(signer, resolution) == Err::<BookState, ErrorCode>(ErrorCode::Unauthorized),
        book.abort(signer) == Err::<BookState, ErrorCode>(ErrorCode::Unauthorized),
{
}

/// Payout bound: in a resolved market the rewards that were claimed add up to
/// no more than the total of the side that lost.
pub proof fn lemma_payout_bound(book: BookState, winner: MarketResolution)
    requires
        book.wf(),
        book.market.winner() == Some(winner),
    ensures
        book.paid_out() <= book.market.pool(winner.opposite()),
{
    let winner_pool = book.market.pool(winner);
    let loser_pool = book.market.pool(winner.opposite());
    let paid = payment(book.market);
    let staked = stake_on(winner);
    assert forall|i: int| 0 <= i < book.bets.len() implies paid(#[trigger] book.bets[i])
        * winner_pool <= staked(book.bets[i]) * loser_pool by {
        let bet = book.bets[i];
        if !bet.is_funded() && bet.wagered_outcome == winner {
            lemma_wager_is_part_of_pool(book, i);
            lemma_reward_rounds_down(bet.amount as nat, winner_pool, loser_pool);
        } else {
            // nothing was paid on this bet
            assert(paid(bet) * winner_pool == 0) by (nonlinear_arith)
                requires
                    paid(bet) == 0,
            ;
            assert(0 <= staked(bet) * loser_pool) by (nonlinear_arith);
        }
    }
    lemma_sum_scaled(book.bets, paid, winner_pool, staked, loser_pool);
    assert(sum_over(book.bets, staked) == winner_pool);
    if winner_pool == 0 {
        assert forall|i: int| 0 <= i < book.bets.len() implies paid(#[trigger] book.bets[i])
            == 0 by {
            lemma_wager_is_part_of_pool(book, i);
        }
        lemma_sum_of_nothing(book.bets, paid);
    } else {
        let total = book.paid_out();
        assert(total <= loser_pool) by (nonlinear_arith)
            requires
                total * winner_pool <= winner_pool * loser_pool,
                winner_pool > 0,
        ;
    }
}

/// Rounding alone keeps the rewards below the total of the side that lost:
/// once every winner has claimed, what is left of that total is less than one
/// unit for each winning bet.
pub proof fn lemma_rounding_loss_is_small(book: BookState, winner: MarketResolution)
    requires
        book.wf(),
        book.market.winner() == Some(winner),
        book.market.pool(winner) > 0,
        forall|i: int|
            0 <= i < book.bets.len() && (#[trigger] book.bets[i]).wagered_outcome == winner
                ==> !book.bets[i].is_funded(),
    ensures
        book.market.pool(winner.opposite()) - book.paid_out() < book.bets_on(winner),
{
    let winner_pool = book.market.pool(winner);
    let loser_pool = book.market.pool(winner.opposite());
    let paid = payment(book.market);
    let staked = stake_on(winner);
    let counted = bet_on(winner);
    // what was paid on a bet, made up for what rounding can have taken
    let rounded_up = |bet: Bet| paid(bet) * winner_pool + counted(bet) * ((winner_pool - 1) as nat);
    assert forall|i: int| 0 <= i < book.bets.len() implies staked(#[trigger] book.bets[i])
        * loser_pool <= rounded_up(book.bets[i]) * 1 by {
        let bet = book.bets[i];
        if bet.wagered_outcome == winner {
            let product = (bet.amount * loser_pool) as int;
            lemma_fundamental_div_mod(product, winner_pool as int);
            lemma_mod_bound(product, winner_pool as int);
            lemma_mul_is_commutative(winner_pool as int, product / (winner_pool as int));
            assert(counted(bet) * ((winner_pool - 1) as nat) == winner_pool - 1) by (nonlinear_arith)
                requires
                    counted(bet) == 1,
                    winner_pool > 0,
            ;
        } else {
            assert(staked(bet) * loser_pool == 0) by (nonlinear_arith)
                requires
                    staked(bet) == 0,
            ;
        }
    }
    lemma_sum_scaled(book.bets, staked, loser_pool, rounded_up, 1);
    lemma_sum_combines(
        book.bets,
        rounded_up,
        paid,
        winner_pool,
        counted,
        (winner_pool - 1) as nat,
    );
    let total = book.paid_out();
    let winners = book.bets_on(winner);
    if winners == 0 {
        // then nobody has bet on the side that won, and its total is zero
        assert forall|i: int| 0 <= i < book.bets.len() implies staked(#[trigger] book.bets[i])
            == 0 by {
            lemma_sum_covers(book.bets, i, counted);
        }
        lemma_sum_of_nothing(book.bets, staked);
    }
    assert(winners * (winner_pool - 1) == winners * winner_pool - winners) by (nonlinear_arith);
    assert((total + winners) * winner_pool == total * winner_pool + winners * winner_pool)
        by (nonlinear_arith);
    assert(loser_pool < total + winners) by (nonlinear_arith)
        requires
            loser_pool * winner_pool < (total + winners) * winner_pool,
            winner_pool > 0,
    ;
}

/// While a market is open, and when it ends, escrow has paid nothing.
pub proof fn lemma_nothing_paid_while_funded(book: BookState)
    requires
        forall|i: int| 0 <= i < book.bets.len() ==> (#[trigger] book.bets[i]).is_funded(),
    ensures
        book.paid_out() == 0,
{
    lemma_sum_of_nothing(book.bets, payment(book.market));
}

/// Refunds are conserved: in an aborted market escrow never pays back more
/// than was deposited, and once every bettor has taken the wager back,
/// everything that was deposited has been returned.
pub proof fn lemma_refunds_return_deposits(book: BookState)
    requires
        book.wf(),
        book.market.is_aborted(),
    ensures
        book.paid_out() <= book.deposited(),
        (forall|i: int| 0 <= i < book.bets.len() ==> !(#[trigger] book.bets[i]).is_funded())
            ==> book.paid_out() == book.deposited(),
{
    lemma_conservation(book);
    lemma_sum_monotonic(book.bets, payment(book.market), stake());
    if forall|i: int| 0 <= i < book.bets.len() ==> !(#[trigger] book.bets[i]).is_funded() {
        lemma_sum_monotonic(book.bets, stake(), payment(book.market));
    }
}

/// Escrow is solvent: what was paid out of escrow never exceeds what was
/// moved into it.
pub proof fn lemma_escrow_is_solvent(book: BookState)
    requires
        book.wf(),
    ensures
        0 <= book.escrow(),
{
    if book.market.is_aborted() {
        lemma_refunds_return_deposits(book);
    } else if book.market.winner() is Some {
        lemma_payout_bound(book, book.market.winner().unwrap());
    } else {
        lemma_nothing_paid_while_funded(book);
    }
}

/// A bet moves its wager into escrow.
pub proof fn lemma_place_bet_fills_escrow(
    book: BookState,
    signer: Pubkey,
    bump: u8,
    amount: u64,
    side: MarketResolution,
)
    requires
        book.wf(),
        book.place_bet(signer, bump, amount, side) is Ok,
    ensures
        book.place_bet(signer, bump, amount, side).unwrap().escrow() == book.escrow() + amount,
{
    let next = book.place_bet(signer, bump, amount, side).unwrap();
    lemma_place_bet_keeps_well_formed(book, signer, bump, amount, side);
    lemma_open_book_is_funded(next);
    lemma_nothing_paid_while_funded(book);
    lemma_nothing_paid_while_funded(next);
}

/// Ending a market moves nothing.
pub proof fn lemma_close_moves_nothing(book: BookState, signer: Pubkey, outcome: Outcome)
    requires
        book.wf(),
        book.close(signer, outcome) is Ok,
    ensures
        book.close(signer, outcome).unwrap().escrow() == book.escrow(),
{
    let next = book.close(signer, outcome).unwrap();
    lemma_nothing_paid_while_funded(book);
    lemma_nothing_paid_while_funded(next);
}

/// A claim takes the reward out of escrow, which holds at least that much. In
/// a well-formed book the reward is at most the total of the side that lost,
/// so that computing it never overflows.
pub proof fn lemma_claim_reward_draws_on_escrow(book: BookState, signer: Pubkey)
    requires
        book.wf(),
    ensures
        book.claim_reward(signer) != Err::<(BookState, u64), ErrorCode>(ErrorCode::MathOverflow),
        book.claim_reward(signer) matches Ok(after) ==> {
            &&& after.0.escrow() == book.escrow() - after.1
            &&& after.1 <= book.escrow()
            &&& after.1 <= book.market.pool(book.bet_of(signer).unwrap().wagered_outcome.opposite())
        },
{
    if book.market.winner() is Some && book.has_bet(signer) {
        let k = book.index_of(signer);
        let bet = book.bets[k];
        lemma_wager_is_part_of_pool(book, k);
        lemma_reward_at_most_loser_pool(
            bet.amount as nat,
            book.market.pool(bet.wagered_outcome),
            book.market.pool(bet.wagered_outcome.opposite()),
        );
    }
    if book.claim_reward(signer) is Ok {
        let after = book.claim_reward(signer).unwrap();
        let k = book.index_of(signer);
        lemma_sum_update(book.bets, k, book.bets[k].withdrawn(), payment(book.market));
        lemma_claim_reward_keeps_well_formed(book, signer);
        lemma_escrow_is_solvent(after.0);
    }
}

/// A refund takes the bettor's own wager out of escrow, which holds at least
/// that much.
pub proof fn lemma_withdraw_after_abort_draws_on_escrow(book: BookState, signer: Pubkey)
    requires
        book.wf(),
        book.withdraw_after_abort(signer) is Ok,
    ensures
        ({
            let after = book.withdraw_after_abort(signer).unwrap();
            &&& after.1 == book.bet_of(signer).unwrap().amount
            &&& after.0.escrow() == book.escrow() - after.1
            &&& after.1 <= book.escrow()
        }),
{
    let after = book.withdraw_after_abort(signer).unwrap();
    let k = book.index_of(signer);
    lemma_sum_update(book.bets, k, book.bets[k].withdrawn(), payment(book.market));
    lemma_withdraw_after_abort_keeps_well_formed(book, signer);
    lemma_escrow_is_solvent(after.0);
}

/// What is fixed when a market is created stays fixed: its id, its authority,
/// its fee, its question and the derivation metadata.
pub proof fn lemma_step_keeps_identity(book: BookState, operation: Operation)
    ensures
        ({
            let next = book.step(operation).market;
            &&& next.market_id == book.market.market_id
            &&& next.authority == book.market.authority
            &&& next.fee_bps == book.market.fee_bps
            &&& next.question == book.market.question
            &&& next.bump == book.market.bump
            &&& next.market_dump == book.market.market_dump
            &&& next.escrow_bump == book.market.escrow_bump
            &&& next.escrow_authority_bump == book.market.escrow_authority_bump
        }),
{
}

/// The totals of a market never shrink, and only an accepted bet makes one
/// of them grow.
pub proof fn lemma_step_totals_never_shrink(book: BookState, operation: Operation)
    ensures
        book.market.yes_wagered <= book.step(operation).market.yes_wagered,
        book.market.no_wagered <= book.step(operation).market.no_wagered,
        !(operation is PlaceBet) ==> {
            &&& book.step(operation).market.yes_wagered == book.market.yes_wagered
            &&& book.step(operation).market.no_wagered == book.market.no_wagered
        },
{
}

/// No bet is ever removed or altered: whatever is asked of a book, each bet
/// stays where it is, with its bettor, its wager and its side, and the only
/// thing that can happen to it is that it goes from funded to withdrawn.
pub proof fn lemma_step_keeps_bets(book: BookState, operation: Operation, i: int)
    requires
        0 <= i < book.bets.len(),
    ensures
        i < book.step(operation).bets.len(),
        book.step(operation).bets[i] == book.bets[i] || (book.bets[i].is_funded()
            && book.step(operation).bets[i] == book.bets[i].withdrawn()),
{
}

} // verus!
