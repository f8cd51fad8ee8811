use option_escrow::economics::{
    mark_to_market, required_deposit, scaled_difference, settlement, MarkToMarket, Settlement,
    SIDE_BUY, SIDE_SELL,
};
use option_escrow::error::{checked_difference, checked_product, checked_sum, EscrowError};
use soroban_sdk::Env;

#[test]
fn seller_posts_strike_less_premium_per_unit() {
    assert_eq!(required_deposit(SIDE_SELL, 100, 10, 10), Ok(900));
    assert_eq!(required_deposit(SIDE_SELL, 100, 100, 10), Ok(0));
    assert_eq!(required_deposit(SIDE_SELL, 100, 120, 10), Ok(-200));
    assert_eq!(required_deposit(SIDE_SELL, 100, 10, 0), Ok(0));
}

#[test]
fn buyer_posts_premium_per_unit() {
    assert_eq!(required_deposit(SIDE_BUY, 100, 10, 10), Ok(100));
    assert_eq!(required_deposit(SIDE_BUY, 100, 7, 3), Ok(21));
    assert_eq!(required_deposit(SIDE_BUY, 100, 0, 10), Ok(0));
}

#[test]
fn deposit_of_an_unknown_side_is_refused() {
    assert_eq!(required_deposit(2, 100, 10, 10), Err(EscrowError::InvalidSide));
    assert_eq!(required_deposit(u32::MAX, 100, 10, 10), Err(EscrowError::InvalidSide));
}

#[test]
fn deposit_that_does_not_fit_overflows() {
    assert_eq!(required_deposit(SIDE_BUY, 100, i128::MAX, 2), Err(EscrowError::ArithmeticOverflow));
    assert_eq!(required_deposit(SIDE_SELL, i128::MAX, -1, 1), Err(EscrowError::ArithmeticOverflow));
    assert_eq!(required_deposit(SIDE_SELL, i128::MAX, 0, 2), Err(EscrowError::ArithmeticOverflow));
    assert_eq!(required_deposit(SIDE_SELL, i128::MAX, 0, 1), Ok(i128::MAX));
}

#[test]
fn mark_to_market_of_the_reference_trade() {
    let m = mark_to_market(100, 10, 10, 50).unwrap();
    assert_eq!(
        m,
        MarkToMarket {
            buyer_obligation: 900,
            seller_obligation: -900,
            buyer_payout: -500,
            seller_payout: 500,
        }
    );
}

#[test]
fn mark_to_market_overflow() {
    assert_eq!(mark_to_market(i128::MAX, -1, 1, 0), Err(EscrowError::ArithmeticOverflow));
    assert_eq!(mark_to_market(100, 10, i128::MAX, 50), Err(EscrowError::ArithmeticOverflow));
    assert_eq!(mark_to_market(i128::MIN, 0, 0, 0), Err(EscrowError::ArithmeticOverflow));
}

#[test]
fn mark_to_market_is_reported_in_order() {
    let env = Env::default();
    let m = mark_to_market(100, 10, 10, 50).unwrap();
    let v = m.to_host_vec(&env);
    assert_eq!(v.len(), 4);
    assert_eq!(v.get(0), Some(900));
    assert_eq!(v.get(1), Some(-900));
    assert_eq!(v.get(2), Some(-500));
    assert_eq!(v.get(3), Some(500));
    assert_eq!(v.get(4), None);
}

#[test]
fn claims_out_of_the_money() {
    // The put expires worthless: the buyer gets the premium back on top of
    // the deposit formula, the seller the deposit plus the premium.
    let s = settlement(100, 150, 10, 10, 100, 900).unwrap();
    assert_eq!(s, Settlement { put_price: 0, buyer_payout: 200, seller_payout: 1000 });
}

#[test]
fn claims_in_the_money() {
    let s = settlement(100, 50, 10, 10, 100, 900).unwrap();
    assert_eq!(s, Settlement { put_price: 50, buyer_payout: -300, seller_payout: 500 });
}

#[test]
fn claims_at_the_strike() {
    let s = settlement(100, 100, 10, 10, 100, 900).unwrap();
    assert_eq!(s, Settlement { put_price: 0, buyer_payout: 200, seller_payout: 1000 });
}

#[test]
fn settlement_at_the_trade_price_moves_nothing() {
    let s = settlement(100, 90, 10, 10, 100, 900).unwrap();
    assert_eq!(s, Settlement { put_price: 10, buyer_payout: 100, seller_payout: 900 });
}

#[test]
fn claims_refuse_a_negative_price() {
    assert_eq!(settlement(100, -1, 10, 10, 100, 900), Err(EscrowError::InvalidPrice));
}

#[test]
fn settlement_overflow() {
    assert_eq!(settlement(100, 150, 10, i128::MAX, 0, 0), Err(EscrowError::ArithmeticOverflow));
    assert_eq!(settlement(100, 150, 1, 1, i128::MAX, 0), Err(EscrowError::ArithmeticOverflow));
    assert_eq!(settlement(100, 150, 1, 1, 0, i128::MAX), Err(EscrowError::ArithmeticOverflow));
    assert_eq!(settlement(i128::MAX, 0, -1, 0, 0, 0), Err(EscrowError::ArithmeticOverflow));
}

#[test]
fn scaled_difference_values() {
    assert_eq!(scaled_difference(10, 100, 10), Ok(900));
    assert_eq!(scaled_difference(-3, 5, 7), Ok(6));
    assert_eq!(scaled_difference(0, i128::MAX, -1), Err(EscrowError::ArithmeticOverflow));
    assert_eq!(scaled_difference(2, i128::MAX, 0), Err(EscrowError::ArithmeticOverflow));
}

#[test]
fn checked_arithmetic() {
    assert_eq!(checked_difference(5, 7), Ok(-2));
    assert_eq!(checked_difference(i128::MIN, 1), Err(EscrowError::ArithmeticOverflow));
    assert_eq!(checked_sum(5, 7), Ok(12));
    assert_eq!(checked_sum(i128::MAX, 1), Err(EscrowError::ArithmeticOverflow));
    assert_eq!(checked_product(5, 7), Ok(35));
    assert_eq!(checked_product(i128::MIN, -1), Err(EscrowError::ArithmeticOverflow));
}
