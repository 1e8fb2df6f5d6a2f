use sol_pred_market::instructions::{
    abort_market, claim_reward, create_market, place_bet, resolve_market, withdraw_after_abort,
};
use sol_pred_market::{
    Bet, BetEscrowFundsStatus, CreateMarketBumps, ErrorCode, EscrowAuthority, Market,
    MarketResolution, Outcome, Pubkey,
};

fn key(n: u8) -> Pubkey {
    Pubkey::new_from_array([n; 32])
}

fn open_market(yes: u64, no: u64) -> Market {
    Market {
        authority: key(1),
        bump: 255,
        fee_bps: 30,
        market_id: String::from("m"),
        question: String::from("q"),
        is_closed: false,
        outcome: None,
        yes_wagered: yes,
        no_wagered: no,
        market_dump: 0,
        escrow_bump: 254,
        escrow_authority_bump: 253,
    }
}

fn closed_market(yes: u64, no: u64, outcome: Outcome) -> Market {
    let mut market = open_market(yes, no);
    market.is_closed = true;
    market.outcome = Some(outcome);
    market
}

fn funded(owner: u8, amount: u64, side: MarketResolution) -> Bet {
    Bet {
        authority: key(owner),
        bump: 9,
        amount,
        wagered_outcome: side,
        escrow_funds_status: BetEscrowFundsStatus::Funded,
    }
}

#[test]
fn pubkey_keeps_its_bytes() {
    let mut bytes = [0u8; 32];
    for (i, b) in bytes.iter_mut().enumerate() {
        *b = i as u8;
    }
    assert_eq!(Pubkey::new_from_array(bytes).to_bytes(), bytes);
}

#[test]
fn pubkeys_are_equal_when_all_bytes_are() {
    let mut bytes = [3u8; 32];
    assert!(Pubkey::new_from_array(bytes) == key(3));
    bytes[31] = 4;
    assert!(Pubkey::new_from_array(bytes) != key(3));
    bytes[31] = 3;
    bytes[0] = 4;
    assert!(Pubkey::new_from_array(bytes) != key(3));
}

#[test]
fn resolution_maps_to_outcome() {
    assert_eq!(MarketResolution::Yes.to_outcome(), Outcome::Yes);
    assert_eq!(MarketResolution::No.to_outcome(), Outcome::No);
}

#[test]
fn record_sizes() {
    assert_eq!(Bet::LEN, 43);
    assert_eq!(EscrowAuthority::LEN, 8);
    assert_eq!(Market::LEN, 136);
}

#[test]
fn authorize_admits_only_the_authority() {
    let market = open_market(0, 0);
    assert_eq!(market.authorize(&key(1)), Ok(()));
    assert_eq!(market.authorize(&key(2)), Err(ErrorCode::Unauthorized));
}

#[test]
fn create_market_fills_the_record() {
    let bumps = CreateMarketBumps { market: 250, escrow_authority: 251, escrow: 252 };
    let (market, escrow_authority) =
        create_market::handler(key(5), bumps, String::from("id-1"), 125, String::from("Heads?"));
    assert_eq!(
        market,
        Market {
            authority: key(5),
            bump: 250,
            fee_bps: 125,
            market_id: String::from("id-1"),
            question: String::from("Heads?"),
            is_closed: false,
            outcome: None,
            yes_wagered: 0,
            no_wagered: 0,
            market_dump: 0,
            escrow_bump: 252,
            escrow_authority_bump: 251,
        }
    );
    assert_eq!(escrow_authority, EscrowAuthority { bump: 251 });
}

#[test]
fn place_bet_creates_funded_bet_and_adds_to_side() {
    let mut market = open_market(10, 20);
    let bet = place_bet::handler(&mut market, key(2), 77, 5, MarketResolution::No);
    assert_eq!(
        bet,
        Ok(Bet {
            authority: key(2),
            bump: 77,
            amount: 5,
            wagered_outcome: MarketResolution::No,
            escrow_funds_status: BetEscrowFundsStatus::Funded,
        })
    );
    assert_eq!(market, open_market(10, 25));

    let bet = place_bet::handler(&mut market, key(3), 78, 1, MarketResolution::Yes);
    assert_eq!(bet.map(|b| b.amount), Ok(1));
    assert_eq!(market, open_market(11, 25));
}

#[test]
fn place_bet_on_closed_market_is_rejected() {
    for outcome in [Outcome::Yes, Outcome::No, Outcome::Aborted] {
        let mut market = closed_market(10, 20, outcome);
        let res = place_bet::handler(&mut market, key(2), 0, 5, MarketResolution::Yes);
        assert_eq!(res, Err(ErrorCode::MarketIsClosed));
        assert_eq!(market, closed_market(10, 20, outcome));
    }
}

#[test]
fn place_bet_closed_takes_precedence_over_zero_amount() {
    let mut market = closed_market(10, 20, Outcome::Yes);
    let res = place_bet::handler(&mut market, key(2), 0, 0, MarketResolution::Yes);
    assert_eq!(res, Err(ErrorCode::MarketIsClosed));
}

#[test]
fn place_bet_of_zero_is_rejected() {
    let mut market = open_market(10, 20);
    let res = place_bet::handler(&mut market, key(2), 0, 0, MarketResolution::Yes);
    assert_eq!(res, Err(ErrorCode::AmountIsZero));
    assert_eq!(market, open_market(10, 20));
}

#[test]
fn place_bet_that_overflows_the_side_is_rejected() {
    let mut market = open_market(u64::MAX - 4, 20);
    let res = place_bet::handler(&mut market, key(2), 0, 5, MarketResolution::Yes);
    assert_eq!(res, Err(ErrorCode::MathOverflow));
    assert_eq!(market, open_market(u64::MAX - 4, 20));
    // the other side has room, and this side has room for less
    assert!(place_bet::handler(&mut market, key(2), 0, 5, MarketResolution::No).is_ok());
    assert!(place_bet::handler(&mut market, key(3), 0, 4, MarketResolution::Yes).is_ok());
    assert_eq!(market, open_market(u64::MAX, 25));
}

#[test]
fn resolve_sets_the_outcome() {
    let mut market = open_market(10, 20);
    assert_eq!(resolve_market::handler(&mut market, &key(1), MarketResolution::No), Ok(()));
    assert_eq!(market, closed_market(10, 20, Outcome::No));

    let mut market = open_market(10, 20);
    assert_eq!(resolve_market::handler(&mut market, &key(1), MarketResolution::Yes), Ok(()));
    assert_eq!(market, closed_market(10, 20, Outcome::Yes));
}

#[test]
fn abort_sets_the_outcome() {
    let mut market = open_market(10, 20);
    assert_eq!(abort_market::handler(&mut market, &key(1)), Ok(()));
    assert_eq!(market, closed_market(10, 20, Outcome::Aborted));
}

#[test]
fn resolve_and_abort_by_stranger_are_unauthorized() {
    let mut market = open_market(10, 20);
    assert_eq!(
        resolve_market::handler(&mut market, &key(2), MarketResolution::No),
        Err(ErrorCode::Unauthorized)
    );
    assert_eq!(abort_market::handler(&mut market, &key(2)), Err(ErrorCode::Unauthorized));
    assert_eq!(market, open_market(10, 20));
}

#[test]
fn stranger_is_unauthorized_on_closed_market_too() {
    let mut market = closed_market(10, 20, Outcome::Aborted);
    assert_eq!(
        resolve_market::handler(&mut market, &key(2), MarketResolution::No),
        Err(ErrorCode::Unauthorized)
    );
    assert_eq!(abort_market::handler(&mut market, &key(2)), Err(ErrorCode::Unauthorized));
    assert_eq!(market, closed_market(10, 20, Outcome::Aborted));
}

#[test]
fn resolve_and_abort_of_closed_market_are_rejected() {
    for outcome in [Outcome::Yes, Outcome::No, Outcome::Aborted] {
        let mut market = closed_market(10, 20, outcome);
        assert_eq!(
            resolve_market::handler(&mut market, &key(1), MarketResolution::No),
            Err(ErrorCode::MarketIsClosed)
        );
        assert_eq!(abort_market::handler(&mut market, &key(1)), Err(ErrorCode::MarketIsClosed));
        assert_eq!(market, closed_market(10, 20, outcome));
    }
}

#[test]
fn market_with_inconsistent_status_is_frozen() {
    // closed without a result
    let mut market = open_market(10, 20);
    market.is_closed = true;
    let frozen = market.clone();
    let mut bet = funded(2, 10, MarketResolution::Yes);
    assert_eq!(
        place_bet::handler(&mut market, key(3), 0, 1, MarketResolution::Yes),
        Err(ErrorCode::MarketIsClosed)
    );
    assert_eq!(abort_market::handler(&mut market, &key(1)), Err(ErrorCode::MarketIsClosed));
    assert_eq!(
        claim_reward::handler(&market, &mut bet, &key(2)),
        Err(ErrorCode::MarketIsNotResolved)
    );
    assert_eq!(
        withdraw_after_abort::handler(&market, &mut bet, &key(2)),
        Err(ErrorCode::MarketIsNotAborted)
    );
    assert_eq!(market, frozen);

    // a result without being closed
    let mut market = open_market(10, 20);
    market.outcome = Some(Outcome::Yes);
    let frozen = market.clone();
    assert_eq!(
        place_bet::handler(&mut market, key(3), 0, 1, MarketResolution::Yes),
        Err(ErrorCode::MarketIsClosed)
    );
    assert_eq!(
        resolve_market::handler(&mut market, &key(1), MarketResolution::Yes),
        Err(ErrorCode::MarketIsClosed)
    );
    assert_eq!(
        claim_reward::handler(&market, &mut bet, &key(2)),
        Err(ErrorCode::MarketIsNotResolved)
    );
    assert_eq!(market, frozen);
    assert_eq!(bet, funded(2, 10, MarketResolution::Yes));
}

#[test]
fn claim_pays_share_and_marks_withdrawn() {
    let market = closed_market(100, 300, Outcome::Yes);
    let mut bet = funded(2, 100, MarketResolution::Yes);
    assert_eq!(claim_reward::handler(&market, &mut bet, &key(2)), Ok(300));
    assert_eq!(bet.escrow_funds_status, BetEscrowFundsStatus::Withdrawn);
    assert_eq!(bet.amount, 100);
    assert_eq!(bet.authority, key(2));

    // the same market resolved the other way: the pools change places
    let market = closed_market(100, 300, Outcome::No);
    let mut bet = funded(3, 150, MarketResolution::No);
    assert_eq!(claim_reward::handler(&market, &mut bet, &key(3)), Ok(50));
    assert_eq!(bet.escrow_funds_status, BetEscrowFundsStatus::Withdrawn);
}

#[test]
fn claim_by_stranger_is_unauthorized() {
    let market = closed_market(100, 300, Outcome::Yes);
    let mut bet = funded(2, 100, MarketResolution::Yes);
    assert_eq!(claim_reward::handler(&market, &mut bet, &key(3)), Err(ErrorCode::Unauthorized));
    assert_eq!(bet, funded(2, 100, MarketResolution::Yes));
}

#[test]
fn claim_on_unresolved_market_is_rejected() {
    let mut bet = funded(2, 100, MarketResolution::Yes);
    let open = open_market(100, 300);
    assert_eq!(
        claim_reward::handler(&open, &mut bet, &key(2)),
        Err(ErrorCode::MarketIsNotResolved)
    );
    let aborted = closed_market(100, 300, Outcome::Aborted);
    assert_eq!(
        claim_reward::handler(&aborted, &mut bet, &key(2)),
        Err(ErrorCode::MarketIsNotResolved)
    );
    assert_eq!(bet, funded(2, 100, MarketResolution::Yes));
}

#[test]
fn claim_on_withdrawn_bet_is_rejected() {
    let market = closed_market(100, 300, Outcome::Yes);
    let mut bet = funded(2, 100, MarketResolution::Yes);
    bet.escrow_funds_status = BetEscrowFundsStatus::Withdrawn;
    let before = bet;
    assert_eq!(claim_reward::handler(&market, &mut bet, &key(2)), Err(ErrorCode::BetIsNotFunded));
    assert_eq!(bet, before);
}

#[test]
fn claim_on_losing_side_is_rejected() {
    let market = closed_market(100, 300, Outcome::Yes);
    let mut bet = funded(3, 300, MarketResolution::No);
    assert_eq!(
        claim_reward::handler(&market, &mut bet, &key(3)),
        Err(ErrorCode::WagerAndOutcomeDoNotMatch)
    );
    assert_eq!(bet, funded(3, 300, MarketResolution::No));
}

#[test]
fn claim_whose_reward_does_not_fit_is_rejected() {
    // records that no book would hold: the wager exceeds its own side
    let market = closed_market(1, u64::MAX, Outcome::Yes);
    let mut bet = funded(2, 2, MarketResolution::Yes);
    assert_eq!(claim_reward::handler(&market, &mut bet, &key(2)), Err(ErrorCode::MathOverflow));
    assert_eq!(bet, funded(2, 2, MarketResolution::Yes));

    let market = closed_market(0, 5, Outcome::Yes);
    assert_eq!(claim_reward::handler(&market, &mut bet, &key(2)), Err(ErrorCode::MathOverflow));
    assert_eq!(bet, funded(2, 2, MarketResolution::Yes));
}

#[test]
fn refund_returns_the_wager_and_marks_withdrawn() {
    let market = closed_market(140, 300, Outcome::Aborted);
    let mut bet = funded(2, 100, MarketResolution::Yes);
    assert_eq!(withdraw_after_abort::handler(&market, &mut bet, &key(2)), Ok(100));
    assert_eq!(bet.escrow_funds_status, BetEscrowFundsStatus::Withdrawn);
    assert_eq!(
        withdraw_after_abort::handler(&market, &mut bet, &key(2)),
        Err(ErrorCode::BetIsNotFunded)
    );
}

#[test]
fn refund_by_stranger_is_unauthorized() {
    let market = closed_market(140, 300, Outcome::Aborted);
    let mut bet = funded(2, 100, MarketResolution::Yes);
    assert_eq!(
        withdraw_after_abort::handler(&market, &mut bet, &key(1)),
        Err(ErrorCode::Unauthorized)
    );
    assert_eq!(bet, funded(2, 100, MarketResolution::Yes));
}

#[test]
fn refund_from_market_that_is_not_aborted_is_rejected() {
    let mut bet = funded(2, 100, MarketResolution::Yes);
    for market in [
        open_market(100, 0),
        closed_market(100, 0, Outcome::Yes),
        closed_market(100, 0, Outcome::No),
    ] {
        assert_eq!(
            withdraw_after_abort::handler(&market, &mut bet, &key(2)),
            Err(ErrorCode::MarketIsNotAborted)
        );
    }
    assert_eq!(bet, funded(2, 100, MarketResolution::Yes));
}
