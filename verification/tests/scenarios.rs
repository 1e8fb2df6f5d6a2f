use sol_pred_market::{
    abort_market, claim_reward, create_market, place_bet, resolve_market, withdraw_after_abort,
};
use sol_pred_market::{
    BetEscrowFundsStatus, CreateMarketBumps, ErrorCode, EscrowAuthority, Ledger, MarketResolution,
    Outcome, Pubkey,
};

fn who(n: u8) -> Pubkey {
    Pubkey::new_from_array([n; 32])
}

fn id() -> String {
    String::from("rain-tomorrow")
}

fn bumps() -> CreateMarketBumps {
    CreateMarketBumps { market: 254, escrow_authority: 253, escrow: 252 }
}

/// A market of authority 1 on which bettor 2 has 100 on Yes and bettor 3 has
/// 300 on No.
fn market_with_two_bets() -> Ledger {
    let mut ledger = Ledger::new();
    let created = create_market(&mut ledger, who(1), bumps(), id(), 0, String::from("Will it rain?"));
    assert_eq!(created, Ok(EscrowAuthority { bump: 253 }));
    assert_eq!(place_bet(&mut ledger, who(2), 7, id(), 100, MarketResolution::Yes), Ok(()));
    assert_eq!(place_bet(&mut ledger, who(3), 8, id(), 300, MarketResolution::No), Ok(()));
    ledger
}

#[test]
fn winner_claims_share_of_losing_pool() {
    let mut ledger = market_with_two_bets();
    {
        let market = ledger.book(&id()).unwrap().market();
        assert_eq!(market.yes_wagered, 100);
        assert_eq!(market.no_wagered, 300);
        assert_eq!(market.outcome, None);
        assert!(!market.is_closed);
    }
    assert_eq!(resolve_market(&mut ledger, who(1), id(), MarketResolution::Yes), Ok(()));
    assert_eq!(ledger.book(&id()).unwrap().market().outcome, Some(Outcome::Yes));

    // winner_pool = 100, loser_pool = 300, reward = floor(100 * 300 / 100)
    assert_eq!(claim_reward(&mut ledger, who(2), id()), Ok(300));

    let bet = ledger.book(&id()).unwrap().bet(&who(2)).unwrap();
    assert_eq!(bet.escrow_funds_status, BetEscrowFundsStatus::Withdrawn);
    assert_eq!(bet.amount, 100);
    assert_eq!(bet.wagered_outcome, MarketResolution::Yes);
}

#[test]
fn loser_cannot_claim() {
    let mut ledger = market_with_two_bets();
    assert_eq!(resolve_market(&mut ledger, who(1), id(), MarketResolution::Yes), Ok(()));
    assert_eq!(claim_reward(&mut ledger, who(2), id()), Ok(300));

    assert_eq!(claim_reward(&mut ledger, who(3), id()), Err(ErrorCode::WagerAndOutcomeDoNotMatch));

    let bet = ledger.book(&id()).unwrap().bet(&who(3)).unwrap();
    assert_eq!(bet.escrow_funds_status, BetEscrowFundsStatus::Funded);
}

#[test]
fn refund_is_own_wager_and_paid_once() {
    let mut ledger = Ledger::new();
    create_market(&mut ledger, who(1), bumps(), id(), 0, String::from("Will it rain?")).unwrap();
    assert_eq!(place_bet(&mut ledger, who(2), 7, id(), 100, MarketResolution::Yes), Ok(()));
    // a second bettor on the same side: the refund must not be the side's total
    assert_eq!(place_bet(&mut ledger, who(3), 8, id(), 40, MarketResolution::Yes), Ok(()));
    assert_eq!(abort_market(&mut ledger, who(1), id()), Ok(()));
    assert_eq!(ledger.book(&id()).unwrap().market().outcome, Some(Outcome::Aborted));

    assert_eq!(withdraw_after_abort(&mut ledger, who(2), id()), Ok(100));
    let bet = ledger.book(&id()).unwrap().bet(&who(2)).unwrap();
    assert_eq!(bet.escrow_funds_status, BetEscrowFundsStatus::Withdrawn);

    assert_eq!(withdraw_after_abort(&mut ledger, who(2), id()), Err(ErrorCode::BetIsNotFunded));
}

#[test]
fn stranger_cannot_resolve() {
    let mut ledger = market_with_two_bets();
    let before = ledger.book(&id()).unwrap().market().clone();

    assert_eq!(
        resolve_market(&mut ledger, who(9), id(), MarketResolution::No),
        Err(ErrorCode::Unauthorized)
    );

    let after = ledger.book(&id()).unwrap().market();
    assert_eq!(*after, before);
    assert_eq!(after.outcome, None);
    assert!(!after.is_closed);
    // the market is still open: it takes a bet
    assert_eq!(place_bet(&mut ledger, who(4), 1, id(), 5, MarketResolution::No), Ok(()));
}
