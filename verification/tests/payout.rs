use sol_pred_market::payout::reward;
use sol_pred_market::ErrorCode;

#[test]
fn reward_is_share_of_losing_pool() {
    assert_eq!(reward(100, 100, 300), Ok(300));
    assert_eq!(reward(100, 400, 300), Ok(75));
    assert_eq!(reward(25, 100, 40), Ok(10));
}

#[test]
fn reward_rounds_down() {
    // 1 * 10 / 3 = 3.33..
    assert_eq!(reward(1, 3, 10), Ok(3));
    // 2 * 10 / 3 = 6.66..
    assert_eq!(reward(2, 3, 10), Ok(6));
    // 7 * 1 / 8 = 0.875
    assert_eq!(reward(7, 8, 1), Ok(0));
}

#[test]
fn reward_is_zero_when_nobody_lost() {
    assert_eq!(reward(50, 80, 0), Ok(0));
}

#[test]
fn reward_of_nothing_is_nothing() {
    assert_eq!(reward(0, 5, 7), Ok(0));
}

#[test]
fn reward_product_is_taken_wide() {
    // the product does not fit 64 bits, the quotient does
    assert_eq!(reward(u64::MAX, u64::MAX, u64::MAX), Ok(u64::MAX));
    assert_eq!(reward(1 << 40, 1 << 41, 1 << 40), Ok(1 << 39));
    assert_eq!(reward(u64::MAX, u64::MAX, 2), Ok(2));
}

#[test]
fn reward_fails_when_quotient_does_not_fit() {
    assert_eq!(reward(2, 1, u64::MAX), Err(ErrorCode::MathOverflow));
    assert_eq!(reward(u64::MAX, 1, u64::MAX), Err(ErrorCode::MathOverflow));
    // the largest quotient that fits, and the smallest that does not
    assert_eq!(reward(1, 1, u64::MAX), Ok(u64::MAX));
    assert_eq!(reward(1 << 32, 1, 1 << 32), Err(ErrorCode::MathOverflow));
}

#[test]
fn reward_fails_on_empty_winning_pool() {
    assert_eq!(reward(1, 0, 5), Err(ErrorCode::MathOverflow));
    assert_eq!(reward(0, 0, 0), Err(ErrorCode::MathOverflow));
}
