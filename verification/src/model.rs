//! The book of one market as a mathematical value: the market, the bets on
//! it, and the transitions between such values.

use vstd::prelude::*;
use crate::errors::ErrorCode;
use crate::instructions::claim_reward::claim;
use crate::instructions::create_market::{new_market, CreateMarketBumps};
use crate::instructions::place_bet::{admission, funded_bet};
use crate::instructions::resolve_market::may_close;
use crate::instructions::withdraw_after_abort::refund;
use crate::payout::reward_of;
use crate::state::bet::Bet;
use crate::state::market::Market;
use crate::state::market_resolution::MarketResolution;
use crate::state::pubkey::Pubkey;
use crate::state::state::Outcome;
use crate::tally::sum_over;

verus! {

/// The wager of a bet, counted where the bet is on `side`.
pub open spec fn stake_on(side: MarketResolution) -> spec_fn(Bet) -> nat {
    |bet: Bet|
        if bet.wagered_outcome == side {
            bet.amount as nat
        } else {
            0
        }
}

/// The wager of a bet.
pub open spec fn stake() -> spec_fn(Bet) -> nat {
    |bet: Bet| bet.amount as nat
}

/// One for each bet on `side`.
pub open spec fn bet_on(side: MarketResolution) -> spec_fn(Bet) -> nat {
    |bet: Bet|
        if bet.wagered_outcome == side {
            1nat
        } else {
            0nat
        }
}

/// What escrow has paid on `bet` in `market`: nothing while the bet is funded;
/// after the withdrawal, the wager if the market was aborted, the reward if
/// the bet was on the side that won.
pub open spec fn paid_on(market: Market, bet: Bet) -> nat {
    let side = bet.wagered_outcome;
    if bet.is_funded() {
        0
    } else if market.is_aborted() {
        bet.amount as nat
    } else if market.winner() == Some(side) {
        reward_of(bet.amount as nat, market.pool(side), market.pool(side.opposite()))
    } else {
        0
    }
}

/// What escrow has paid on a bet in `market`.
pub open spec fn payment(market: Market) -> spec_fn(Bet) -> nat {
    |bet: Bet| paid_on(market, bet)
}

/// A call that may change the book of a market.
pub enum Operation {
    PlaceBet { signer: Pubkey, bump: u8, amount: u64, side: MarketResolution },
    Resolve { signer: Pubkey, resolution: MarketResolution },
    Abort { signer: Pubkey },
    ClaimReward { signer: Pubkey },
    WithdrawAfterAbort { signer: Pubkey },
}

/// A market together with the bets that were placed on it, in the order in
/// which they were placed.
pub struct BookState {
    pub market: Market,
    pub bets: Seq<Bet>,
}

impl BookState {
    /// The book of a market on which nobody has bet yet.
    pub open spec fn opening(market: Market) -> BookState {
        BookState { market, bets: Seq::empty() }
    }

    /// Whether `bettor` has a bet on this market.
    pub open spec fn has_bet(self, bettor: Pubkey) -> bool {
        exists|i: int| 0 <= i < self.bets.len() && (#[trigger] self.bets[i]).authority == bettor
    }

    /// Where the bet of `bettor` stands, if there is one.
    pub open spec fn index_of(self, bettor: Pubkey) -> int {
        choose|i: int| 0 <= i < self.bets.len() && (#[trigger] self.bets[i]).authority == bettor
    }

    /// The bet of `bettor`, if there is one.
    pub open spec fn bet_of(self, bettor: Pubkey) -> Option<Bet> {
        if self.has_bet(bettor) {
            Some(self.bets[self.index_of(bettor)])
        } else {
            None
        }
    }

    /// The sum of the wagers of all bets, withdrawn or not.
    pub open spec fn total_staked(self) -> nat {
        sum_over(self.bets, stake())
    }

    /// How many bets are on `side`.
    pub open spec fn bets_on(self, side: MarketResolution) -> nat {
        sum_over(self.bets, bet_on(side))
    }

    /// Everything that was moved into escrow.
    pub open spec fn deposited(self) -> nat {
        (self.market.yes_wagered + self.market.no_wagered) as nat
    }

    /// Everything that was moved out of escrow.
    pub open spec fn paid_out(self) -> nat {
        sum_over(self.bets, payment(self.market))
    }

    /// What escrow holds for this market.
    pub open spec fn escrow(self) -> int {
        self.deposited() - self.paid_out()
    }

    /// What holds of every book that was opened empty and changed by the
    /// transitions below alone.
    pub open spec fn wf(self) -> bool {
        // the market is open, or closed with a result
        &&& self.market.is_closed == (self.market.outcome is Some)
        // nobody has two bets
        &&& forall|i: int, j: int|
            0 <= i < j < self.bets.len() ==> (#[trigger] self.bets[i]).authority != (
            #[trigger] self.bets[j]).authority
        // nobody has bet nothing
        &&& forall|i: int| 0 <= i < self.bets.len() ==> (#[trigger] self.bets[i]).amount > 0
        // the totals of the market are the sums of the wagers, side by side
        &&& self.market.yes_wagered == sum_over(self.bets, stake_on(MarketResolution::Yes))
        &&& self.market.no_wagered == sum_over(self.bets, stake_on(MarketResolution::No))
        // only a refund or a reward has taken a wager out of escrow
        &&& forall|i: int|
            0 <= i < self.bets.len() && !(#[trigger] self.bets[i]).is_funded() ==> {
                ||| self.market.is_aborted()
                ||| self.market.winner() == Some(self.bets[i].wagered_outcome)
            }
    }

    /// A bettor wagers `amount` on `side`.
    pub open spec fn place_bet(
        self,
        signer: Pubkey,
        bump: u8,
        amount: u64,
        side: MarketResolution,
    ) -> Result<BookState, ErrorCode> {
        if !self.market.is_open() {
            Err(ErrorCode::MarketIsClosed)
        } else if self.has_bet(signer) {
            Err(ErrorCode::BetAlreadyExists)
        } else {
            match admission(self.market, amount, side) {
                Ok(()) => Ok(
                    BookState {
                        market: self.market.with_wager(side, amount),
                        bets: self.bets.push(funded_bet(signer, bump, amount, side)),
                    },
                ),
                Err(e) => Err(e),
            }
        }
    }

    /// The authority ends the market with `outcome`.
    pub open spec fn close(self, signer: Pubkey, outcome: Outcome) -> Result<BookState, ErrorCode> {
        match may_close(self.market, signer) {
            Ok(()) => Ok(BookState { market: self.market.closed_with(outcome), bets: self.bets }),
            Err(e) => Err(e),
        }
    }

    /// The authority resolves the market to `resolution`.
    pub open spec fn resolve(self, signer: Pubkey, resolution: MarketResolution) -> Result<
        BookState,
        ErrorCode,
    > {
        self.close(signer, resolution.outcome())
    }

    /// The authority aborts the market.
    pub open spec fn abort(self, signer: Pubkey) -> Result<BookState, ErrorCode> {
        self.close(signer, Outcome::Aborted)
    }

    /// This book once the bet of `bettor` is withdrawn.
    pub open spec fn with_withdrawal(self, bettor: Pubkey) -> BookState {
        let i = self.index_of(bettor);
        BookState { market: self.market, bets: self.bets.update(i, self.bets[i].withdrawn()) }
    }

    /// A bettor claims the reward: the book afterwards, and what escrow pays.
    pub open spec fn claim_reward(self, signer: Pubkey) -> Result<(BookState, u64), ErrorCode> {
        if self.market.winner() is None {
            Err(ErrorCode::MarketIsNotResolved)
        } else {
            match self.bet_of(signer) {
                None => Err(ErrorCode::BetIsNotFunded),
                Some(bet) => match claim(self.market, bet, signer) {
                    Ok(reward) => Ok((self.with_withdrawal(signer), reward)),
                    Err(e) => Err(e),
                },
            }
        }
    }

    /// A bettor takes the wager back: the book afterwards, and what escrow
    /// pays.
    pub open spec fn withdraw_after_abort(self, signer: Pubkey) -> Result<
        (BookState, u64),
        ErrorCode,
    > {
        if !self.market.is_aborted() {
            Err(ErrorCode::MarketIsNotAborted)
        } else {
            match self.bet_of(signer) {
                None => Err(ErrorCode::BetIsNotFunded),
                Some(bet) => match refund(self.market, bet, signer) {
                    Ok(wager) => Ok((self.with_withdrawal(signer), wager)),
                    Err(e) => Err(e),
                },
            }
        }
    }

    /// The book after `operation`: changed as the operation says where it is
    /// accepted, unchanged where it is rejected.
    pub open spec fn step(self, operation: Operation) -> BookState {
        match operation {
            Operation::PlaceBet { signer, bump, amount, side } => match self.place_bet(
                signer,
                bump,
                amount,
                side,
            ) {
                Ok(next) => next,
                Err(_) => self,
            },
            Operation::Resolve { signer, resolution } => match self.resolve(signer, resolution) {
                Ok(next) => next,
                Err(_) => self,
            },
            Operation::Abort { signer } => match self.abort(signer) {
                Ok(next) => next,
                Err(_) => self,
            },
            Operation::ClaimReward { signer } => match self.claim_reward(signer) {
                Ok(after) => after.0,
                Err(_) => self,
            },
            Operation::WithdrawAfterAbort { signer } => match self.withdraw_after_abort(signer) {
                Ok(after) => after.0,
                Err(_) => self,
            },
        }
    }

    /// The book after all of `operations`, one after the other.
    pub open spec fn run(self, operations: Seq<Operation>) -> BookState
        decreases operations.len(),
    {
        if operations.len() == 0 {
            self
        } else {
            self.run(operations.drop_last()).step(operations.last())
        }
    }
}

/// The book of the market that `signer` creates.
pub open spec fn new_book(
    signer: Pubkey,
    bumps: CreateMarketBumps,
    market_id: String,
    fee_bps: u16,
    question: String,
) -> BookState {
    BookState::opening(new_market(signer, bumps, market_id, fee_bps, question))
}

} // verus!
