//! A binary-outcome prediction market: participants wager on "Yes" or "No",
//! an authority resolves or aborts the market, and bettors withdraw from a
//! shared escrow pool according to a proportional payout rule.
//!
//! The [`Ledger`] holds all markets, each with the bets on it. The functions
//! of this module are its operations. None of them moves value itself: each
//! says what is to be moved into or out of escrow, and the caller has to apply
//! that transfer and the change of the ledger together or not at all.

use vstd::prelude::*;

pub mod book;
pub mod errors;
pub mod instructions;
pub mod laws;
pub mod model;
pub mod payout;
pub mod registry;
pub mod state;
pub mod tally;
pub mod well_formed;

pub use book::MarketBook;
pub use errors::ErrorCode;
pub use instructions::create_market::CreateMarketBumps;
pub use model::BookState;
use model::new_book;
pub use state::{Bet, BetEscrowFundsStatus, EscrowAuthority, Market, MarketResolution, Outcome};
pub use state::Pubkey;

use registry::{by_id, ids_are_distinct, lemma_by_id_len, lemma_by_id_push, lemma_by_id_update};
use registry::lemma_found_by_id;

verus! {

/// All markets with their books.
#[derive(Clone, Debug)]
pub struct Ledger {
    books: Vec<MarketBook>,
}

impl Ledger {
    /// The books in the order in which their markets were created.
    pub closed spec fn books(&self) -> Seq<BookState> {
        Seq::new(self.books@.len(), |i: int| self.books@[i]@)
    }

    /// What holds of every ledger that this module hands out: every book is
    /// well-formed, and no two markets have the same id.
    pub open spec fn wf(&self) -> bool {
        &&& forall|i: int| 0 <= i < self.books().len() ==> (#[trigger] self.books()[i]).wf()
        &&& ids_are_distinct(self.books())
    }

    /// A ledger without markets.
    pub fn new() -> (ledger: Ledger)
        ensures
            ledger.wf(),
            ledger@ == Map::<Seq<char>, BookState>::empty(),
    {
        Ledger { books: Vec::new() }
    }

    /// In a well-formed ledger every market is found under its own id, and
    /// its book is well-formed.
    pub proof fn lemma_every_book_is_well_formed(&self, id: Seq<char>)
        requires
            self.wf(),
            self@.contains_key(id),
        ensures
            self@[id].wf(),
            self@[id].market.market_id@ == id,
    {
    }

    /// The book of the market with this id, if there is one.
    pub fn book(&self, market_id: &String) -> (book: Option<&MarketBook>)
        requires
            self.wf(),
        ensures
            match book {
                Some(book) => {
                    &&& self@.contains_key(market_id@)
                    &&& book@ == self@[market_id@]
                    &&& book.wf()
                },
                None => !self@.contains_key(market_id@),
            },
    {
        match self.position(market_id) {
            Some(i) => Some(&self.books[i]),
            None => None,
        }
    }

    /// How many markets there are.
    pub fn len(&self) -> (len: usize)
        requires
            self.wf(),
        ensures
            len == self@.len(),
            self@.dom().finite(),
    {
        proof {
            lemma_by_id_len(self.books());
        }
        self.books.len()
    }

    /// Where one book of `before` has taken a new state, of the same market
    /// and well-formed, and all others are as they were, the ledger is
    /// well-formed, and the entry of that market alone is new.
    proof fn lemma_one_book_changed(&self, before: Ledger, i: int)
        requires
            before.wf(),
            0 <= i < before.books@.len(),
            self.books@.len() == before.books@.len(),
            forall|j: int| 0 <= j < self.books@.len() && j != i ==> self.books@[j] == before.books@[j],
            self.books@[i].wf(),
            self.books@[i]@.market.market_id == before.books@[i]@.market.market_id,
        ensures
            self.wf(),
            self@ == before@.insert(before.books@[i]@.market.market_id@, self.books@[i]@),
    {
        assert(self.books() =~= before.books().update(i, self.books@[i]@));
        lemma_by_id_update(before.books(), i, self.books@[i]@);
    }

    /// Where the book of the market with this id stands, if there is one.
    fn position(&self, market_id: &String) -> (found: Option<usize>)
        requires
            self.wf(),
        ensures
            match found {
                Some(i) => {
                    &&& i < self.books@.len()
                    &&& self@.contains_key(market_id@)
                    &&& self@[market_id@] == self.books@[i as int]@
                },
                None => !self@.contains_key(market_id@),
            },
    {
        let mut i: usize = 0;
        while i < self.books.len()
            invariant
                i <= self.books@.len(),
                self.wf(),
                forall|j: int|
                    0 <= j < i ==> (#[trigger] self.books()[j]).market.market_id@ != market_id@,
            decreases self.books@.len() - i,
        {
            if self.books[i].market().market_id == *market_id {
                proof {
                    lemma_found_by_id(self.books(), i as int);
                }
                return Some(i);
            }
            i += 1;
        }
        None
    }
}

impl View for Ledger {
    type V = Map<Seq<char>, BookState>;

    /// The books by the ids of their markets.
    open spec fn view(&self) -> Map<Seq<char>, BookState> {
        by_id(self.books())
    }
}

/// Creates the market `market_id` on behalf of `signer`, who becomes its
/// authority. The market is open and nothing is wagered.
///
/// Fails with `MarketAlreadyExists` where the id is in use, and then changes
/// nothing. On success the result is the record of the authority over the
/// escrow pool of the new market; no other market is changed.
pub fn create_market(
    ledger: &mut Ledger,
    signer: Pubkey,
    bumps: CreateMarketBumps,
    market_id: String,
    fee_bps: u16,
    question: String,
) -> (res: Result<EscrowAuthority, ErrorCode>)
    requires
        old(ledger).wf(),
    ensures
        final(ledger).wf(),
        old(ledger)@.contains_key(market_id@) ==> {
            &&& res == Err::<EscrowAuthority, ErrorCode>(ErrorCode::MarketAlreadyExists)
            &&& final(ledger)@ == old(ledger)@
        },
        !old(ledger)@.contains_key(market_id@) ==> {
            &&& res == Ok::<EscrowAuthority, ErrorCode>(
                EscrowAuthority { bump: bumps.escrow_authority },
            )
            &&& final(ledger)@ == old(ledger)@.insert(
                market_id@,
                new_book(signer, bumps, market_id, fee_bps, question),
            )
        },
{
    if ledger.position(&market_id).is_some() {
        return Err(ErrorCode::MarketAlreadyExists);
    }
    let (book, escrow_authority) = MarketBook::open(signer, bumps, market_id, fee_bps, question);
    ledger.books.push(book);
    proof {
        assert(ledger.books() =~= old(ledger).books().push(book@));
        lemma_by_id_push(old(ledger).books(), book@);
    }
    Ok(escrow_authority)
}

/// Places the bet of `signer` on the market `market_id`: `amount` on
/// `wagered_outcome`.
///
/// The bet is accepted where the market exists and is open, `signer` has no
/// bet on it yet, `amount` is not zero and the total of the side stays within
/// 64 bits. The caller then has to move `amount` from the bettor into escrow.
/// A rejected bet leaves the ledger as it was; an accepted one changes the
/// book of this market and no other.
pub fn place_bet(
    ledger: &mut Ledger,
    signer: Pubkey,
    bump: u8,
    market_id: String,
    amount: u64,
    wagered_outcome: MarketResolution,
) -> (res: Result<(), ErrorCode>)
    requires
        old(ledger).wf(),
    ensures
        final(ledger).wf(),
        !old(ledger)@.contains_key(market_id@) ==> {
            &&& res == Err::<(), ErrorCode>(ErrorCode::MarketNotFound)
            &&& final(ledger)@ == old(ledger)@
        },
        old(ledger)@.contains_key(market_id@) ==> match old(ledger)@[market_id@].place_bet(
            signer,
            bump,
            amount,
            wagered_outcome,
        ) {
            Ok(next) => {
                &&& res is Ok
                &&& final(ledger)@ == old(ledger)@.insert(market_id@, next)
                &&& next.escrow() == old(ledger)@[market_id@].escrow() + amount
            },
            Err(e) => res == Err::<(), ErrorCode>(e) && final(ledger)@ == old(ledger)@,
        },
{
    let i = match ledger.position(&market_id) {
        Some(i) => i,
        None => { return Err(ErrorCode::MarketNotFound); },
    };
    let res = ledger.books[i].place_bet(signer, bump, amount, wagered_outcome);
    proof {
        ledger.lemma_one_book_changed(*old(ledger), i as int);
    }
    res
}

/// Resolves the market `market_id` to `resolution` on behalf of `signer`.
///
/// Only the authority of the market is heard, and only while the market is
/// open. A rejected call leaves the ledger as it was; an accepted one changes
/// the book of this market and no other.
pub fn resolve_market(
    ledger: &mut Ledger,
    signer: Pubkey,
    market_id: String,
    resolution: MarketResolution,
) -> (res: Result<(), ErrorCode>)
    requires
        old(ledger).wf(),
    ensures
        final(ledger).wf(),
        !old(ledger)@.contains_key(market_id@) ==> {
            &&& res == Err::<(), ErrorCode>(ErrorCode::MarketNotFound)
            &&& final(ledger)@ == old(ledger)@
        },
        old(ledger)@.contains_key(market_id@) ==> match old(ledger)@[market_id@].resolve(
            signer,
            resolution,
        ) {
            Ok(next) => {
                &&& res is Ok
                &&& final(ledger)@ == old(ledger)@.insert(market_id@, next)
                &&& next.escrow() == old(ledger)@[market_id@].escrow()
            },
            Err(e) => res == Err::<(), ErrorCode>(e) && final(ledger)@ == old(ledger)@,
        },
{
    let i = match ledger.position(&market_id) {
        Some(i) => i,
        None => { return Err(ErrorCode::MarketNotFound); },
    };
    let res = ledger.books[i].resolve(&signer, resolution);
    proof {
        ledger.lemma_one_book_changed(*old(ledger), i as int);
    }
    res
}

/// Aborts the market `market_id` on behalf of `signer`.
///
/// Only the authority of the market is heard, and only while the market is
/// open. A rejected call leaves the ledger as it was; an accepted one changes
/// the book of this market and no other.
pub fn abort_market(ledger: &mut Ledger, signer: Pubkey, market_id: String) -> (res: Result<
    (),
    ErrorCode,
>)
    requires
        old(ledger).wf(),
    ensures
        final(ledger).wf(),
        !old(ledger)@.contains_key(market_id@) ==> {
            &&& res == Err::<(), ErrorCode>(ErrorCode::MarketNotFound)
            &&& final(ledger)@ == old(ledger)@
        },
        old(ledger)@.contains_key(market_id@) ==> match old(ledger)@[market_id@].abort(signer) {
            Ok(next) => {
                &&& res is Ok
                &&& final(ledger)@ == old(ledger)@.insert(market_id@, next)
                &&& next.escrow() == old(ledger)@[market_id@].escrow()
            },
            Err(e) => res == Err::<(), ErrorCode>(e) && final(ledger)@ == old(ledger)@,
        },
{
    let i = match ledger.position(&market_id) {
        Some(i) => i,
        None => { return Err(ErrorCode::MarketNotFound); },
    };
    let res = ledger.books[i].abort(&signer);
    proof {
        ledger.lemma_one_book_changed(*old(ledger), i as int);
    }
    res
}

/// Settles the claim of `signer` on the reward of the market `market_id`.
///
/// The claim is accepted where the market is resolved and `signer` has a
/// funded bet on the side that won. The result is the reward, which the caller
/// then has to move from escrow to the bettor; the escrow of this market
/// holds at least that much. A rejected claim leaves the ledger as it was; an
/// accepted one changes the book of this market and no other.
pub fn claim_reward(ledger: &mut Ledger, signer: Pubkey, market_id: String) -> (res: Result<
    u64,
    ErrorCode,
>)
    requires
        old(ledger).wf(),
    ensures
        final(ledger).wf(),
        !old(ledger)@.contains_key(market_id@) ==> {
            &&& res == Err::<u64, ErrorCode>(ErrorCode::MarketNotFound)
            &&& final(ledger)@ == old(ledger)@
        },
        old(ledger)@.contains_key(market_id@) ==> match old(ledger)@[market_id@].claim_reward(
            signer,
        ) {
            Ok(after) => {
                &&& res == Ok::<u64, ErrorCode>(after.1)
                &&& final(ledger)@ == old(ledger)@.insert(market_id@, after.0)
                &&& after.1 <= old(ledger)@[market_id@].escrow()
                &&& after.0.escrow() == old(ledger)@[market_id@].escrow() - after.1
            },
            Err(e) => res == Err::<u64, ErrorCode>(e) && final(ledger)@ == old(ledger)@,
        },
        res != Err::<u64, ErrorCode>(ErrorCode::MathOverflow),
{
    let i = match ledger.position(&market_id) {
        Some(i) => i,
        None => { return Err(ErrorCode::MarketNotFound); },
    };
    let res = ledger.books[i].claim_reward(&signer);
    proof {
        ledger.lemma_one_book_changed(*old(ledger), i as int);
    }
    res
}

/// Settles the request of `signer` for the wager on the aborted market
/// `market_id`.
///
/// The request is accepted where the market is aborted and `signer` has a
/// funded bet on it. The result is the bettor's own wager, which the caller
/// then has to move from escrow to the bettor; the escrow of this market
/// holds at least that much. A rejected request leaves the ledger as it was;
/// an accepted one changes the book of this market and no other.
pub fn withdraw_after_abort(ledger: &mut Ledger, signer: Pubkey, market_id: String) -> (res:
    Result<u64, ErrorCode>)
    requires
        old(ledger).wf(),
    ensures
        final(ledger).wf(),
        !old(ledger)@.contains_key(market_id@) ==> {
            &&& res == Err::<u64, ErrorCode>(ErrorCode::MarketNotFound)
            &&& final(ledger)@ == old(ledger)@
        },
        old(ledger)@.contains_key(market_id@) ==> match old(
            ledger,
        )@[market_id@].withdraw_after_abort(signer) {
            Ok(after) => {
                &&& res == Ok::<u64, ErrorCode>(after.1)
                &&& final(ledger)@ == old(ledger)@.insert(market_id@, after.0)
                &&& after.1 <= old(ledger)@[market_id@].escrow()
                &&& after.0.escrow() == old(ledger)@[market_id@].escrow() - after.1
            },
            Err(e) => res == Err::<u64, ErrorCode>(e) && final(ledger)@ == old(ledger)@,
        },
{
    let i = match ledger.position(&market_id) {
        Some(i) => i,
        None => { return Err(ErrorCode::MarketNotFound); },
    };
    let res = ledger.books[i].withdraw_after_abort(&signer);
    proof {
        ledger.lemma_one_book_changed(*old(ledger), i as int);
    }
    res
}

} // verus!
