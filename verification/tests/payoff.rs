use option_escrow::error::EscrowError;
use option_escrow::payoff::{
    butterfly_px, call_px, call_sprd_px, condor_px, put_px, put_sprd_px, straddle_px, strangle_px,
};

#[test]
fn put_pays_distance_below_strike() {
    assert_eq!(put_px(100, 0), Ok(100));
    assert_eq!(put_px(100, 150), Ok(0));
    assert_eq!(put_px(100, 100), Ok(0));
    assert_eq!(put_px(100, 99), Ok(1));
    assert_eq!(put_px(100, 40), Ok(60));
}

#[test]
fn put_is_never_negative() {
    for strike in [-50i128, 0, 1, 100, i128::MAX] {
        for price in [0i128, 1, 99, 100, 101, i128::MAX] {
            let paid = put_px(strike, price).unwrap();
            assert!(paid >= 0);
            if price >= strike {
                assert_eq!(paid, 0);
            } else {
                assert_eq!(paid, strike - price);
            }
        }
    }
}

#[test]
fn put_with_extreme_strikes() {
    assert_eq!(put_px(i128::MAX, 0), Ok(i128::MAX));
    assert_eq!(put_px(i128::MIN, 0), Ok(0));
    assert_eq!(put_px(i128::MAX, i128::MAX), Ok(0));
}

#[test]
fn call_pays_distance_above_strike() {
    assert_eq!(call_px(100, 150), Ok(50));
    assert_eq!(call_px(100, 100), Ok(0));
    assert_eq!(call_px(100, 0), Ok(0));
    assert_eq!(call_px(-10, 5), Ok(15));
}

#[test]
fn call_overflows_on_far_negative_strike() {
    assert_eq!(call_px(-1, i128::MAX), Err(EscrowError::ArithmeticOverflow));
    assert_eq!(call_px(i128::MIN, 0), Err(EscrowError::ArithmeticOverflow));
    assert_eq!(call_px(0, i128::MAX), Ok(i128::MAX));
}

#[test]
fn call_spread_values() {
    assert_eq!(call_sprd_px(90, 110, 80), Ok(0));
    assert_eq!(call_sprd_px(90, 110, 90), Ok(0));
    assert_eq!(call_sprd_px(90, 110, 100), Ok(10));
    assert_eq!(call_sprd_px(90, 110, 110), Ok(20));
    assert_eq!(call_sprd_px(90, 110, 500), Ok(20));
    assert_eq!(call_sprd_px(100, 100, 100), Ok(0));
}

#[test]
fn call_spread_is_monotone_and_bounded() {
    let (k1, k2) = (90i128, 110i128);
    let mut last = 0i128;
    for price in 0..200i128 {
        let paid = call_sprd_px(k1, k2, price).unwrap();
        assert!(paid >= last);
        assert!(paid >= 0 && paid <= k2 - k1);
        last = paid;
    }
    assert_eq!(last, 20);
}

#[test]
fn put_spread_values() {
    assert_eq!(put_sprd_px(90, 110, 120), Ok(0));
    assert_eq!(put_sprd_px(90, 110, 110), Ok(0));
    assert_eq!(put_sprd_px(90, 110, 100), Ok(10));
    assert_eq!(put_sprd_px(90, 110, 90), Ok(20));
    assert_eq!(put_sprd_px(90, 110, 0), Ok(20));
}

#[test]
fn spreads_add_up_to_the_width() {
    for price in 0..200i128 {
        let c = call_sprd_px(90, 110, price).unwrap();
        let p = put_sprd_px(90, 110, price).unwrap();
        assert_eq!(c + p, 20);
    }
}

#[test]
fn butterfly_values() {
    assert_eq!(butterfly_px(90, 100, 110, 100), Ok(10));
    assert_eq!(butterfly_px(90, 100, 110, 80), Ok(0));
    assert_eq!(butterfly_px(90, 100, 110, 120), Ok(0));
    assert_eq!(butterfly_px(90, 100, 110, 90), Ok(0));
    assert_eq!(butterfly_px(90, 100, 110, 110), Ok(0));
    assert_eq!(butterfly_px(90, 100, 110, 95), Ok(5));
    assert_eq!(butterfly_px(90, 100, 110, 105), Ok(5));
    assert_eq!(butterfly_px(90, 100, 110, 101), Ok(9));
}

#[test]
fn butterfly_with_uneven_wings() {
    assert_eq!(butterfly_px(90, 100, 120, 100), Ok(10));
    assert_eq!(butterfly_px(90, 100, 120, 101), Ok(19));
    assert_eq!(butterfly_px(90, 100, 120, 119), Ok(1));
}

#[test]
fn condor_values() {
    assert_eq!(condor_px(80, 90, 110, 125, 50), Ok(10));
    assert_eq!(condor_px(80, 90, 110, 125, 80), Ok(10));
    assert_eq!(condor_px(80, 90, 110, 125, 85), Ok(5));
    assert_eq!(condor_px(80, 90, 110, 125, 90), Ok(0));
    assert_eq!(condor_px(80, 90, 110, 125, 100), Ok(0));
    assert_eq!(condor_px(80, 90, 110, 125, 110), Ok(0));
    assert_eq!(condor_px(80, 90, 110, 125, 120), Ok(10));
    assert_eq!(condor_px(80, 90, 110, 125, 125), Ok(15));
    assert_eq!(condor_px(80, 90, 110, 125, 300), Ok(15));
}

#[test]
fn strangle_values() {
    assert_eq!(strangle_px(90, 110, 70), Ok(20));
    assert_eq!(strangle_px(90, 110, 90), Ok(0));
    assert_eq!(strangle_px(90, 110, 100), Ok(0));
    assert_eq!(strangle_px(90, 110, 110), Ok(0));
    assert_eq!(strangle_px(90, 110, 135), Ok(25));
}

#[test]
fn straddle_values() {
    assert_eq!(straddle_px(100, 70), Ok(30));
    assert_eq!(straddle_px(100, 100), Ok(0));
    assert_eq!(straddle_px(100, 130), Ok(30));
    assert_eq!(straddle_px(-5, 0), Ok(5));
}

#[test]
fn straddle_is_put_plus_call() {
    for price in 0..200i128 {
        let s = straddle_px(100, price).unwrap();
        assert_eq!(s, put_px(100, price).unwrap() + call_px(100, price).unwrap());
    }
}

#[test]
fn negative_price_is_refused_by_every_shape() {
    assert_eq!(put_px(100, -1), Err(EscrowError::InvalidPrice));
    assert_eq!(call_px(100, -1), Err(EscrowError::InvalidPrice));
    assert_eq!(call_sprd_px(90, 110, -1), Err(EscrowError::InvalidPrice));
    assert_eq!(put_sprd_px(90, 110, -1), Err(EscrowError::InvalidPrice));
    assert_eq!(butterfly_px(90, 100, 110, -1), Err(EscrowError::InvalidPrice));
    assert_eq!(condor_px(80, 90, 110, 120, -1), Err(EscrowError::InvalidPrice));
    assert_eq!(strangle_px(90, 110, -1), Err(EscrowError::InvalidPrice));
    assert_eq!(straddle_px(100, i128::MIN), Err(EscrowError::InvalidPrice));
}

#[test]
fn negative_price_comes_before_strike_order() {
    assert_eq!(call_sprd_px(110, 90, -1), Err(EscrowError::InvalidPrice));
    assert_eq!(condor_px(4, 3, 2, 1, -1), Err(EscrowError::InvalidPrice));
}

#[test]
fn strikes_out_of_order_are_refused() {
    assert_eq!(call_sprd_px(110, 90, 100), Err(EscrowError::InvalidStrikeOrdering));
    assert_eq!(put_sprd_px(110, 90, 100), Err(EscrowError::InvalidStrikeOrdering));
    assert_eq!(butterfly_px(100, 90, 110, 100), Err(EscrowError::InvalidStrikeOrdering));
    assert_eq!(butterfly_px(90, 110, 100, 100), Err(EscrowError::InvalidStrikeOrdering));
    assert_eq!(condor_px(90, 80, 110, 120, 100), Err(EscrowError::InvalidStrikeOrdering));
    assert_eq!(condor_px(80, 110, 90, 120, 100), Err(EscrowError::InvalidStrikeOrdering));
    assert_eq!(condor_px(80, 90, 120, 110, 100), Err(EscrowError::InvalidStrikeOrdering));
    assert_eq!(strangle_px(110, 90, 100), Err(EscrowError::InvalidStrikeOrdering));
}

#[test]
fn widths_that_do_not_fit_overflow() {
    assert_eq!(call_sprd_px(i128::MIN, i128::MAX, i128::MAX), Err(EscrowError::ArithmeticOverflow));
    assert_eq!(call_sprd_px(i128::MIN, i128::MAX, 0), Err(EscrowError::ArithmeticOverflow));
    assert_eq!(put_sprd_px(i128::MIN, i128::MAX, 0), Ok(i128::MAX));
    assert_eq!(put_sprd_px(i128::MIN, 10, 0), Ok(10));
    assert_eq!(put_sprd_px(-5, 10, 0), Ok(10));
    assert_eq!(butterfly_px(i128::MIN, 10, 20, 5), Err(EscrowError::ArithmeticOverflow));
    assert_eq!(condor_px(i128::MIN, 0, 10, 20, 0), Ok(0));
    assert_eq!(condor_px(-2, i128::MAX, i128::MAX, i128::MAX, 0), Ok(i128::MAX));
    assert_eq!(strangle_px(i128::MIN, -1, i128::MAX), Err(EscrowError::ArithmeticOverflow));
    assert_eq!(straddle_px(-1, i128::MAX), Err(EscrowError::ArithmeticOverflow));
}
