//! Payoff functions: each maps a strike structure and a market price to the
//! magnitude paid at that price.
//!
//! Every function refuses a negative market price, then strikes that are not
//! in non-decreasing order, and returns the payoff otherwise. The payoff of a
//! shape is given by a spec function over the integers; the executable
//! function returns exactly that value, or an overflow where it cannot be
//! represented.

use crate::error::{checked_difference, fits, represent, EscrowError};
use vstd::prelude::*;

verus! {

/// Put struck at `strike`: nothing at or above the strike, the distance to
/// the strike below it.
pub open spec fn put_value(strike: int, price: int) -> int {
    if price >= strike {
        0
    } else {
        strike - price
    }
}

/// Call struck at `strike`: nothing at or below the strike, the distance to
/// the strike above it.
pub open spec fn call_value(strike: int, price: int) -> int {
    if price <= strike {
        0
    } else {
        price - strike
    }
}

/// Call spread between `k1` and `k2`: nothing at or below `k1`, the width
/// `k2 - k1` at or above `k2`, and `price - k1` in between.
pub open spec fn call_spread_value(k1: int, k2: int, price: int) -> int {
    if price <= k1 {
        0
    } else if price >= k2 {
        k2 - k1
    } else {
        price - k1
    }
}

/// Put spread between `k1` and `k2`: nothing at or above `k2`, the width
/// `k2 - k1` at or below `k1`, and `k2 - price` in between.
pub open spec fn put_spread_value(k1: int, k2: int, price: int) -> int {
    if price >= k2 {
        0
    } else if price <= k1 {
        k2 - k1
    } else {
        k2 - price
    }
}

/// Butterfly over `k1`, `k2`, `k3`: nothing outside the open interval from
/// `k1` to `k3`, rising as `price - k1` up to `k2` and falling as
/// `k3 - price` beyond it.
pub open spec fn butterfly_value(k1: int, k2: int, k3: int, price: int) -> int {
    if price <= k1 || price >= k3 {
        0
    } else if price <= k2 {
        price - k1
    } else {
        k3 - price
    }
}

/// Condor over `k1` to `k4`: the plateau `k2 - k1` at or below `k1`, the
/// plateau `k4 - k3` at or above `k4`, nothing between `k2` and `k3`, and the
/// distance to the nearer inner strike on the two ramps.
pub open spec fn condor_value(k1: int, k2: int, k3: int, k4: int, price: int) -> int {
    if price <= k1 {
        k2 - k1
    } else if price >= k4 {
        k4 - k3
    } else if price <= k2 {
        k2 - price
    } else if price >= k3 {
        price - k3
    } else {
        0
    }
}

/// Strangle between `k1` and `k2`: nothing inside the interval, the distance
/// to the bound that was crossed outside it.
pub open spec fn strangle_value(k1: int, k2: int, price: int) -> int {
    if price < k1 {
        k1 - price
    } else if price > k2 {
        price - k2
    } else {
        0
    }
}

/// Straddle at `strike`: the distance between price and strike.
pub open spec fn straddle_value(strike: int, price: int) -> int {
    if price >= strike {
        price - strike
    } else {
        strike - price
    }
}

/// What a payoff function returns for a market price `price`, strikes that
/// are `ordered` or not, and a payoff of `value`.
pub open spec fn payoff_outcome(price: int, ordered: bool, value: int) -> Result<i128, EscrowError> {
    if price < 0 {
        Err(EscrowError::InvalidPrice)
    } else if !ordered {
        Err(EscrowError::InvalidStrikeOrdering)
    } else {
        represent(value)
    }
}

/// Payoff of a put. With a price that is not negative the payoff always fits,
/// so a negative price is the only refusal.
pub fn put_px(strk_px: i128, px: i128) -> (r: Result<i128, EscrowError>)
    ensures
        r == payoff_outcome(px as int, true, put_value(strk_px as int, px as int)),
        px >= 0 ==> r is Ok && r->Ok_0 >= 0,
        px >= 0 && px >= strk_px ==> r == Ok::<i128, EscrowError>(0),
{
    if px < 0 {
        return Err(EscrowError::InvalidPrice);
    }
    if px >= strk_px {
        return Ok(0);
    }
    Ok(strk_px - px)
}

/// Payoff of a call.
pub fn call_px(strk_px: i128, px: i128) -> (r: Result<i128, EscrowError>)
    ensures
        r == payoff_outcome(px as int, true, call_value(strk_px as int, px as int)),
{
    if px < 0 {
        return Err(EscrowError::InvalidPrice);
    }
    if px <= strk_px {
        return Ok(0);
    }
    checked_difference(px, strk_px)
}

/// Payoff of a call spread.
pub fn call_sprd_px(strk1_px: i128, strk2_px: i128, px: i128) -> (r: Result<i128, EscrowError>)
    ensures
        r == payoff_outcome(
            px as int,
            strk1_px <= strk2_px,
            call_spread_value(strk1_px as int, strk2_px as int, px as int),
        ),
        r is Ok ==> 0 <= r->Ok_0 <= strk2_px - strk1_px,
{
    if px < 0 {
        return Err(EscrowError::InvalidPrice);
    }
    if strk1_px > strk2_px {
        return Err(EscrowError::InvalidStrikeOrdering);
    }
    if px <= strk1_px {
        return Ok(0);
    }
    if px >= strk2_px {
        return checked_difference(strk2_px, strk1_px);
    }
    checked_difference(px, strk1_px)
}

/// Payoff of a put spread.
pub fn put_sprd_px(strk1_px: i128, strk2_px: i128, px: i128) -> (r: Result<i128, EscrowError>)
    ensures
        r == payoff_outcome(
            px as int,
            strk1_px <= strk2_px,
            put_spread_value(strk1_px as int, strk2_px as int, px as int),
        ),
{
    if px < 0 {
        return Err(EscrowError::InvalidPrice);
    }
    if strk1_px > strk2_px {
        return Err(EscrowError::InvalidStrikeOrdering);
    }
    if px >= strk2_px {
        return Ok(0);
    }
    if px <= strk1_px {
        return checked_difference(strk2_px, strk1_px);
    }
    Ok(strk2_px - px)
}

/// Payoff of a butterfly.
pub fn butterfly_px(strk1_px: i128, strk2_px: i128, strk3_px: i128, px: i128) -> (r: Result<i128, EscrowError>)
    ensures
        r == payoff_outcome(
            px as int,
            strk1_px <= strk2_px <= strk3_px,
            butterfly_value(strk1_px as int, strk2_px as int, strk3_px as int, px as int),
        ),
{
    if px < 0 {
        return Err(EscrowError::InvalidPrice);
    }
    if strk1_px > strk2_px {
        return Err(EscrowError::InvalidStrikeOrdering);
    }
    if strk2_px > strk3_px {
        return Err(EscrowError::InvalidStrikeOrdering);
    }
    if px <= strk1_px {
        return Ok(0);
    }
    if px >= strk3_px {
        return Ok(0);
    }
    if px <= strk2_px {
        return checked_difference(px, strk1_px);
    }
    Ok(strk3_px - px)
}

/// Payoff of a condor.
pub fn condor_px(strk1_px: i128, strk2_px: i128, strk3_px: i128, strk4_px: i128, px: i128) -> (r: Result<i128, EscrowError>)
    ensures
        r == payoff_outcome(
            px as int,
            strk1_px <= strk2_px <= strk3_px <= strk4_px,
            condor_value(
                strk1_px as int,
                strk2_px as int,
                strk3_px as int,
                strk4_px as int,
                px as int,
            ),
        ),
{
    if px < 0 {
        return Err(EscrowError::InvalidPrice);
    }
    if strk1_px > strk2_px {
        return Err(EscrowError::InvalidStrikeOrdering);
    }
    if strk2_px > strk3_px {
        return Err(EscrowError::InvalidStrikeOrdering);
    }
    if strk3_px > strk4_px {
        return Err(EscrowError::InvalidStrikeOrdering);
    }
    if px <= strk1_px {
        return checked_difference(strk2_px, strk1_px);
    }
    if px >= strk4_px {
        return checked_difference(strk4_px, strk3_px);
    }
    if px <= strk2_px {
        return Ok(strk2_px - px);
    }
    if px >= strk3_px {
        return checked_difference(px, strk3_px);
    }
    Ok(0)
}

/// Payoff of a strangle.
pub fn strangle_px(strk1_px: i128, strk2_px: i128, px: i128) -> (r: Result<i128, EscrowError>)
    ensures
        r == payoff_outcome(
            px as int,
            strk1_px <= strk2_px,
            strangle_value(strk1_px as int, strk2_px as int, px as int),
        ),
{
    if px < 0 {
        return Err(EscrowError::InvalidPrice);
    }
    if strk1_px > strk2_px {
        return Err(EscrowError::InvalidStrikeOrdering);
    }
    if px < strk1_px {
        return Ok(strk1_px - px);
    }
    if px > strk2_px {
        return checked_difference(px, strk2_px);
    }
    Ok(0)
}

/// Payoff of a straddle.
pub fn straddle_px(strk1_px: i128, px: i128) -> (r: Result<i128, EscrowError>)
    ensures
        r == payoff_outcome(px as int, true, straddle_value(strk1_px as int, px as int)),
{
    if px < 0 {
        return Err(EscrowError::InvalidPrice);
    }
    if px >= strk1_px {
        checked_difference(px, strk1_px)
    } else {
        Ok(strk1_px - px)
    }
}

/// No payoff is negative when the strikes are in order.
pub proof fn lemma_payoffs_are_not_negative(k1: int, k2: int, k3: int, k4: int, price: int)
    requires
        k1 <= k2 <= k3 <= k4,
    ensures
        put_value(k1, price) >= 0,
        call_value(k1, price) >= 0,
        call_spread_value(k1, k2, price) >= 0,
        put_spread_value(k1, k2, price) >= 0,
        butterfly_value(k1, k2, k3, price) >= 0,
        condor_value(k1, k2, k3, k4, price) >= 0,
        strangle_value(k1, k2, price) >= 0,
        straddle_value(k1, price) >= 0,
{
}

/// A put pays nothing at or above its strike, and never a negative amount;
/// for a price that is not negative `put_px` returns that amount.
pub proof fn lemma_put_floor(strike: i128, price: i128)
    requires
        price >= 0,
    ensures
        put_value(strike as int, price as int) >= 0,
        price >= strike ==> put_value(strike as int, price as int) == 0,
        payoff_outcome(price as int, true, put_value(strike as int, price as int)) is Ok,
        payoff_outcome(price as int, true, put_value(strike as int, price as int))->Ok_0
            == put_value(strike as int, price as int),
{
}

/// A call spread never pays less at a higher price.
pub proof fn lemma_call_spread_monotone(k1: int, k2: int, lower: int, higher: int)
    requires
        k1 <= k2,
        lower <= higher,
    ensures
        call_spread_value(k1, k2, lower) <= call_spread_value(k1, k2, higher),
{
}

/// A call spread pays between nothing and its width.
pub proof fn lemma_call_spread_bounded(k1: int, k2: int, price: int)
    requires
        k1 <= k2,
    ensures
        0 <= call_spread_value(k1, k2, price) <= k2 - k1,
{
}

/// A put spread never pays more at a higher price, and pays between nothing
/// and its width.
pub proof fn lemma_put_spread_monotone_bounded(k1: int, k2: int, lower: int, higher: int)
    requires
        k1 <= k2,
        lower <= higher,
    ensures
        put_spread_value(k1, k2, lower) >= put_spread_value(k1, k2, higher),
        0 <= put_spread_value(k1, k2, lower) <= k2 - k1,
{
}

/// A call spread is a call bought at the lower strike and sold at the higher
/// one; a put spread is a put bought at the higher strike and sold at the
/// lower one; together they pay the width at every price.
pub proof fn lemma_spreads_from_single_options(k1: int, k2: int, price: int)
    requires
        k1 <= k2,
    ensures
        call_spread_value(k1, k2, price) == call_value(k1, price) - call_value(k2, price),
        put_spread_value(k1, k2, price) == put_value(k2, price) - put_value(k1, price),
        call_spread_value(k1, k2, price) + put_spread_value(k1, k2, price) == k2 - k1,
{
}

/// A straddle is a put and a call at one strike, and a strangle is a put at
/// the lower strike and a call at the higher one.
pub proof fn lemma_straddle_and_strangle(k1: int, k2: int, price: int)
    requires
        k1 <= k2,
    ensures
        straddle_value(k1, price) == put_value(k1, price) + call_value(k1, price),
        strangle_value(k1, k2, price) == put_value(k1, price) + call_value(k2, price),
{
}

} // verus!
