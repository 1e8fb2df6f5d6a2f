//! The book of one market: the market and the bets on it, kept together so
//! that nobody bets twice and the totals always match the wagers.

use vstd::prelude::*;
use crate::errors::ErrorCode;
use crate::instructions::abort_market;
use crate::instructions::claim_reward;
use crate::instructions::create_market;
use crate::instructions::create_market::CreateMarketBumps;
use crate::instructions::place_bet;
use crate::instructions::resolve_market;
use crate::instructions::withdraw_after_abort;
use crate::laws::{lemma_claim_reward_draws_on_escrow, lemma_close_moves_nothing};
use crate::laws::{lemma_place_bet_fills_escrow, lemma_withdraw_after_abort_draws_on_escrow};
use crate::model::{new_book, BookState};
use crate::state::bet::Bet;
use crate::state::escrow_authority::EscrowAuthority;
use crate::state::market::Market;
use crate::state::market_resolution::MarketResolution;
use crate::state::pubkey::Pubkey;
use crate::state::state::Outcome;
use crate::well_formed::{lemma_claim_reward_keeps_well_formed, lemma_close_keeps_well_formed};
use crate::well_formed::{lemma_index_of_is_unique, lemma_opening_is_well_formed};
use crate::well_formed::lemma_place_bet_keeps_well_formed;
use crate::well_formed::lemma_withdraw_after_abort_keeps_well_formed;

verus! {

/// A market and the bets on it.
#[derive(Clone, Debug)]
pub struct MarketBook {
    market: Market,
    bets: Vec<Bet>,
}

impl View for MarketBook {
    type V = BookState;

    closed spec fn view(&self) -> BookState {
        BookState { market: self.market, bets: self.bets@ }
    }
}

impl MarketBook {
    /// What holds of every book that this module hands out.
    pub open spec fn wf(&self) -> bool {
        self@.wf()
    }

    /// Opens the book of a new market on behalf of `signer`, who becomes its
    /// authority. The market is open and nothing is wagered. With the book
    /// comes the record of the authority over the market's escrow pool.
    pub fn open(
        signer: Pubkey,
        bumps: CreateMarketBumps,
        market_id: String,
        fee_bps: u16,
        question: String,
    ) -> (opened: (MarketBook, EscrowAuthority))
        ensures
            opened.0.wf(),
            opened.0@ == new_book(signer, bumps, market_id, fee_bps, question),
            opened.0@.escrow() == 0,
            opened.1 == (EscrowAuthority { bump: bumps.escrow_authority }),
    {
        let (market, escrow_authority) = create_market::handler(
            signer,
            bumps,
            market_id,
            fee_bps,
            question,
        );
        proof {
            lemma_opening_is_well_formed(market);
        }
        (MarketBook { market, bets: Vec::new() }, escrow_authority)
    }

    /// The market of this book.
    pub fn market(&self) -> (market: &Market)
        ensures
            *market == self@.market,
    {
        &self.market
    }

    /// The bets on the market, in the order in which they were placed.
    pub fn bets(&self) -> (bets: &Vec<Bet>)
        ensures
            bets@ == self@.bets,
    {
        &self.bets
    }

    /// The bet of `bettor`, if there is one.
    pub fn bet(&self, bettor: &Pubkey) -> (bet: Option<Bet>)
        requires
            self.wf(),
        ensures
            bet == self@.bet_of(*bettor),
    {
        match self.position(bettor) {
            Some(i) => Some(self.bets[i]),
            None => None,
        }
    }

    /// Where the bet of `bettor` stands, if there is one.
    fn position(&self, bettor: &Pubkey) -> (found: Option<usize>)
        requires
            self.wf(),
        ensures
            match found {
                Some(i) => self@.has_bet(*bettor) && i == self@.index_of(*bettor) && i
                    < self@.bets.len(),
                None => !self@.has_bet(*bettor),
            },
    {
        let mut i: usize = 0;
        while i < self.bets.len()
            invariant
                i <= self.bets@.len(),
                self.wf(),
                forall|j: int| 0 <= j < i ==> (#[trigger] self.bets@[j]).authority != *bettor,
            decreases self.bets@.len() - i,
        {
            if self.bets[i].authority == *bettor {
                proof {
                    lemma_index_of_is_unique(self@, *bettor, i as int);
                }
                return Some(i);
            }
            i += 1;
        }
        None
    }

    /// Places the bet of `signer`: `amount` on `wagered_outcome`.
    ///
    /// The bet is accepted where the market is open, `signer` has no bet on
    /// it yet, `amount` is not zero and the total of the side stays within 64
    /// bits. The caller then has to move `amount` from the bettor into escrow.
    /// A rejected bet leaves the book as it was.
    pub fn place_bet(
        &mut self,
        signer: Pubkey,
        bump: u8,
        amount: u64,
        wagered_outcome: MarketResolution,
    ) -> (res: Result<(), ErrorCode>)
        requires
            old(self).wf(),
        ensures
            final(self).wf(),
            match old(self)@.place_bet(signer, bump, amount, wagered_outcome) {
                Ok(next) => {
                    &&& res is Ok
                    &&& final(self)@ == next
                    &&& final(self)@.escrow() == old(self)@.escrow() + amount
                },
                Err(e) => res == Err::<(), ErrorCode>(e) && final(self)@ == old(self)@,
            },
    {
        if self.market.is_closed || self.market.outcome.is_some() {
            return Err(ErrorCode::MarketIsClosed);
        }
        if self.position(&signer).is_some() {
            return Err(ErrorCode::BetAlreadyExists);
        }
        let bet = place_bet::handler(&mut self.market, signer, bump, amount, wagered_outcome)?;
        self.bets.push(bet);
        proof {
            lemma_place_bet_keeps_well_formed(old(self)@, signer, bump, amount, wagered_outcome);
            lemma_place_bet_fills_escrow(old(self)@, signer, bump, amount, wagered_outcome);
        }
        Ok(())
    }

    /// Resolves the market to `resolution` on behalf of `signer`.
    ///
    /// Only the authority is heard, and only while the market is open. A
    /// rejected call leaves the book as it was.
    pub fn resolve(&mut self, signer: &Pubkey, resolution: MarketResolution) -> (res: Result<
        (),
        ErrorCode,
    >)
        requires
            old(self).wf(),
        ensures
            final(self).wf(),
            match old(self)@.resolve(*signer, resolution) {
                Ok(next) => {
                    &&& res is Ok
                    &&& final(self)@ == next
                    &&& final(self)@.escrow() == old(self)@.escrow()
                },
                Err(e) => res == Err::<(), ErrorCode>(e) && final(self)@ == old(self)@,
            },
    {
        resolve_market::handler(&mut self.market, signer, resolution)?;
        proof {
            lemma_close_keeps_well_formed(old(self)@, *signer, resolution.outcome());
            lemma_close_moves_nothing(old(self)@, *signer, resolution.outcome());
        }
        Ok(())
    }

    /// Aborts the market on behalf of `signer`.
    ///
    /// Only the authority is heard, and only while the market is open. A
    /// rejected call leaves the book as it was.
    pub fn abort(&mut self, signer: &Pubkey) -> (res: Result<(), ErrorCode>)
        requires
            old(self).wf(),
        ensures
            final(self).wf(),
            match old(self)@.abort(*signer) {
                Ok(next) => {
                    &&& res is Ok
                    &&& final(self)@ == next
                    &&& final(self)@.escrow() == old(self)@.escrow()
                },
                Err(e) => res == Err::<(), ErrorCode>(e) && final(self)@ == old(self)@,
            },
    {
        abort_market::handler(&mut self.market, signer)?;
        proof {
            lemma_close_keeps_well_formed(old(self)@, *signer, Outcome::Aborted);
            lemma_close_moves_nothing(old(self)@, *signer, Outcome::Aborted);
        }
        Ok(())
    }

    /// Settles the claim of `signer` on the reward.
    ///
    /// The claim is accepted where the market is resolved and `signer` has a
    /// funded bet on the side that won. The result is the reward, which the
    /// caller then has to move from escrow to the bettor; escrow holds at
    /// least that much. A rejected claim leaves the book as it was.
    pub fn claim_reward(&mut self, signer: &Pubkey) -> (res: Result<u64, ErrorCode>)
        requires
            old(self).wf(),
        ensures
            final(self).wf(),
            match old(self)@.claim_reward(*signer) {
                Ok(after) => {
                    &&& res == Ok::<u64, ErrorCode>(after.1)
                    &&& final(self)@ == after.0
                    &&& after.1 <= old(self)@.escrow()
                    &&& final(self)@.escrow() == old(self)@.escrow() - after.1
                },
                Err(e) => res == Err::<u64, ErrorCode>(e) && final(self)@ == old(self)@,
            },
            res != Err::<u64, ErrorCode>(ErrorCode::MathOverflow),
    {
        proof {
            lemma_claim_reward_draws_on_escrow(self@, *signer);
        }
        match (self.market.is_closed, self.market.outcome) {
            (true, Some(Outcome::Yes)) | (true, Some(Outcome::No)) => {},
            _ => { return Err(ErrorCode::MarketIsNotResolved); },
        }
        let i = match self.position(signer) {
            Some(i) => i,
            None => { return Err(ErrorCode::BetIsNotFunded); },
        };
        let mut bet = self.bets[i];
        let reward = claim_reward::handler(&self.market, &mut bet, signer)?;
        self.bets.set(i, bet);
        proof {
            lemma_claim_reward_keeps_well_formed(old(self)@, *signer);
        }
        Ok(reward)
    }

    /// Settles the request of `signer` for the wager of an aborted market.
    ///
    /// The request is accepted where the market is aborted and `signer` has a
    /// funded bet. The result is the bettor's own wager, which the caller then
    /// has to move from escrow to the bettor; escrow holds at least that much.
    /// A rejected request leaves the book as it was.
    pub fn withdraw_after_abort(&mut self, signer: &Pubkey) -> (res: Result<u64, ErrorCode>)
        requires
            old(self).wf(),
        ensures
            final(self).wf(),
            match old(self)@.withdraw_after_abort(*signer) {
                Ok(after) => {
                    &&& res == Ok::<u64, ErrorCode>(after.1)
                    &&& final(self)@ == after.0
                    &&& after.1 <= old(self)@.escrow()
                    &&& final(self)@.escrow() == old(self)@.escrow() - after.1
                },
                Err(e) => res == Err::<u64, ErrorCode>(e) && final(self)@ == old(self)@,
            },
    {
        match (self.market.is_closed, self.market.outcome) {
            (true, Some(Outcome::Aborted)) => {},
            _ => { return Err(ErrorCode::MarketIsNotAborted); },
        }
        let i = match self.position(signer) {
            Some(i) => i,
            None => { return Err(ErrorCode::BetIsNotFunded); },
        };
        let mut bet = self.bets[i];
        let wager = withdraw_after_abort::handler(&self.market, &mut bet, signer)?;
        self.bets.set(i, bet);
        proof {
            lemma_withdraw_after_abort_keeps_well_formed(old(self)@, *signer);
            lemma_withdraw_after_abort_draws_on_escrow(old(self)@, *signer);
        }
        Ok(wager)
    }
}

} // verus!
