//! Trade economics: the collateral each side posts, the mark-to-market of an
//! open trade, and the payouts at settlement.
//!
//! Every amount is an exact integer expression over the inputs. A function
//! returns it where that expression and each difference and product inside it
//! can be represented, and an overflow otherwise.

use crate::error::{checked_difference, checked_product, checked_sum, fits, EscrowError};
use crate::host::{host_items, host_vec_new, host_vec_push_back};
use crate::payoff::{put_px, put_value};
use vstd::prelude::*;

verus! {

/// The side of a trade that sold the option.
pub const SIDE_SELL: u32 = 0;

/// The side of a trade that bought the option.
pub const SIDE_BUY: u32 = 1;

/// Collateral owed by the seller: the most the put can cost the seller, the
/// strike less the premium received, for each unit.
pub open spec fn seller_deposit_value(strike: int, price: int, qty: int) -> int {
    (strike - price) * qty
}

/// Collateral owed by the buyer: the premium for each unit.
pub open spec fn buyer_deposit_value(price: int, qty: int) -> int {
    price * qty
}

/// What `required_deposit` returns.
pub open spec fn required_deposit_outcome(side: u32, strike: int, price: int, qty: int) -> Result<
    i128,
    EscrowError,
> {
    if side == SIDE_SELL {
        if fits(strike - price) && fits(seller_deposit_value(strike, price, qty)) {
            Ok(seller_deposit_value(strike, price, qty) as i128)
        } else {
            Err(EscrowError::ArithmeticOverflow)
        }
    } else if side == SIDE_BUY {
        if fits(buyer_deposit_value(price, qty)) {
            Ok(buyer_deposit_value(price, qty) as i128)
        } else {
            Err(EscrowError::ArithmeticOverflow)
        }
    } else {
        Err(EscrowError::InvalidSide)
    }
}

/// The collateral that `side` posts for `qty` units traded at `price` on a
/// contract struck at `strike`.
pub fn required_deposit(side: u32, strike: i128, price: i128, qty: i128) -> (r: Result<i128, EscrowError>)
    ensures
        r == required_deposit_outcome(side, strike as int, price as int, qty as int),
{
    if side == SIDE_SELL {
        match checked_difference(strike, price) {
            Ok(risk) => checked_product(risk, qty),
            Err(e) => Err(e),
        }
    } else if side == SIDE_BUY {
        checked_product(price, qty)
    } else {
        Err(EscrowError::InvalidSide)
    }
}

/// An informational valuation of an open trade at a market price.
#[derive(Clone, Copy, Debug, PartialEq, Eq, Structural)]
pub struct MarkToMarket {
    /// `qty * (strike - trade_price)`.
    pub buyer_obligation: i128,
    /// `qty * (trade_price - strike)`.
    pub seller_obligation: i128,
    /// `qty * (market_price - strike)`.
    pub buyer_payout: i128,
    /// `qty * (strike - market_price)`.
    pub seller_payout: i128,
}

/// Whether the four amounts of a valuation, and the differences they are
/// built from, can be represented.
pub open spec fn mark_to_market_fits(strike: int, trade_price: int, qty: int, market_price: int) -> bool {
    &&& fits(strike - trade_price)
    &&& fits(trade_price - strike)
    &&& fits(market_price - strike)
    &&& fits(strike - market_price)
    &&& fits(qty * (strike - trade_price))
    &&& fits(qty * (trade_price - strike))
    &&& fits(qty * (market_price - strike))
    &&& fits(qty * (strike - market_price))
}

/// What `mark_to_market` returns.
pub open spec fn mark_to_market_outcome(strike: int, trade_price: int, qty: int, market_price: int) -> Result<
    MarkToMarket,
    EscrowError,
> {
    if mark_to_market_fits(strike, trade_price, qty, market_price) {
        Ok(
            MarkToMarket {
                buyer_obligation: (qty * (strike - trade_price)) as i128,
                seller_obligation: (qty * (trade_price - strike)) as i128,
                buyer_payout: (qty * (market_price - strike)) as i128,
                seller_payout: (qty * (strike - market_price)) as i128,
            },
        )
    } else {
        Err(EscrowError::ArithmeticOverflow)
    }
}

/// Values a trade of `qty` units made at `trade_price`, on a contract struck
/// at `strike`, with the market at `market_price`.
pub fn mark_to_market(strike: i128, trade_price: i128, qty: i128, market_price: i128) -> (r: Result<MarkToMarket, EscrowError>)
    ensures
        r == mark_to_market_outcome(
            strike as int,
            trade_price as int,
            qty as int,
            market_price as int,
        ),
{
    let buyer_obligation: i128 = match scaled_difference(qty, strike, trade_price) {
        Ok(v) => v,
        Err(e) => { return Err(e); },
    };
    let seller_obligation: i128 = match scaled_difference(qty, trade_price, strike) {
        Ok(v) => v,
        Err(e) => { return Err(e); },
    };
    let buyer_payout: i128 = match scaled_difference(qty, market_price, strike) {
        Ok(v) => v,
        Err(e) => { return Err(e); },
    };
    let seller_payout: i128 = match scaled_difference(qty, strike, market_price) {
        Ok(v) => v,
        Err(e) => { return Err(e); },
    };
    Ok(MarkToMarket { buyer_obligation, seller_obligation, buyer_payout, seller_payout })
}

/// `qty * (a - b)`, or an overflow where the difference or the product
/// cannot be represented.
pub fn scaled_difference(qty: i128, a: i128, b: i128) -> (r: Result<i128, EscrowError>)
    ensures
        r == (if fits(a - b) && fits(qty * (a - b)) {
            Ok::<i128, EscrowError>((qty * (a - b)) as i128)
        } else {
            Err::<i128, EscrowError>(EscrowError::ArithmeticOverflow)
        }),
{
    match checked_difference(a, b) {
        Ok(d) => checked_product(qty, d),
        Err(e) => Err(e),
    }
}

impl MarkToMarket {
    /// The four amounts in the order in which they are reported.
    pub open spec fn entries(self) -> Seq<Option<i128>> {
        seq![
            Some(self.buyer_obligation),
            Some(self.seller_obligation),
            Some(self.buyer_payout),
            Some(self.seller_payout),
        ]
    }

    /// Writes the four amounts into a fresh sequence of the host.
    pub fn to_host_vec(&self, env: &soroban_sdk::Env) -> (v: soroban_sdk::Vec<i128>)
        ensures
            host_items(v) == self.entries(),
    {
        let mut v = host_vec_new(env);
        host_vec_push_back(&mut v, self.buyer_obligation);
        host_vec_push_back(&mut v, self.seller_obligation);
        host_vec_push_back(&mut v, self.buyer_payout);
        host_vec_push_back(&mut v, self.seller_payout);
        assert(host_items(v) =~= self.entries());
        v
    }
}

/// What each side may claim at settlement.
#[derive(Clone, Copy, Debug, PartialEq, Eq, Structural)]
pub struct Settlement {
    /// The put payoff at the settlement price.
    pub put_price: i128,
    /// `buyer_deposit - qty * (put_price - trade_price)`.
    pub buyer_payout: i128,
    /// `seller_deposit + qty * (trade_price - put_price)`.
    pub seller_payout: i128,
}

/// The buyer's claim: the deposit less the buyer's settlement delta
/// `qty * (put_price - trade_price)`.
pub open spec fn buyer_payout_value(buyer_deposit: int, qty: int, put_price: int, trade_price: int) -> int {
    buyer_deposit - qty * (put_price - trade_price)
}

/// The seller's claim: the deposit plus the seller's settlement delta
/// `qty * (trade_price - put_price)`.
pub open spec fn seller_payout_value(seller_deposit: int, qty: int, put_price: int, trade_price: int) -> int {
    seller_deposit + qty * (trade_price - put_price)
}

/// Whether both claims, and the differences and products they are built
/// from, can be represented.
pub open spec fn settlement_fits(
    put_price: int,
    trade_price: int,
    qty: int,
    buyer_deposit: int,
    seller_deposit: int,
) -> bool {
    &&& fits(put_price - trade_price)
    &&& fits(trade_price - put_price)
    &&& fits(qty * (put_price - trade_price))
    &&& fits(qty * (trade_price - put_price))
    &&& fits(buyer_payout_value(buyer_deposit, qty, put_price, trade_price))
    &&& fits(seller_payout_value(seller_deposit, qty, put_price, trade_price))
}

/// What `settlement` returns.
pub open spec fn settlement_outcome(
    strike: int,
    market_price: int,
    trade_price: int,
    qty: int,
    buyer_deposit: int,
    seller_deposit: int,
) -> Result<Settlement, EscrowError> {
    let put_price = put_value(strike, market_price);
    if market_price < 0 {
        Err(EscrowError::InvalidPrice)
    } else if settlement_fits(put_price, trade_price, qty, buyer_deposit, seller_deposit) {
        Ok(
            Settlement {
                put_price: put_price as i128,
                buyer_payout: buyer_payout_value(buyer_deposit, qty, put_price, trade_price) as i128,
                seller_payout: seller_payout_value(seller_deposit, qty, put_price, trade_price) as i128,
            },
        )
    } else {
        Err(EscrowError::ArithmeticOverflow)
    }
}

/// Computes what each side may claim when the put struck at `strike`
/// settles at `market_price`.
pub fn settlement(
    strike: i128,
    market_price: i128,
    trade_price: i128,
    qty: i128,
    buyer_deposit: i128,
    seller_deposit: i128,
) -> (r: Result<Settlement, EscrowError>)
    ensures
        r == settlement_outcome(
            strike as int,
            market_price as int,
            trade_price as int,
            qty as int,
            buyer_deposit as int,
            seller_deposit as int,
        ),
{
    let put_price: i128 = match put_px(strike, market_price) {
        Ok(v) => v,
        Err(e) => { return Err(e); },
    };
    let buyer_settle: i128 = match scaled_difference(qty, put_price, trade_price) {
        Ok(v) => v,
        Err(e) => { return Err(e); },
    };
    let seller_settle: i128 = match scaled_difference(qty, trade_price, put_price) {
        Ok(v) => v,
        Err(e) => { return Err(e); },
    };
    let buyer_payout: i128 = match checked_difference(buyer_deposit, buyer_settle) {
        Ok(v) => v,
        Err(e) => { return Err(e); },
    };
    let seller_payout: i128 = match checked_sum(seller_deposit, seller_settle) {
        Ok(v) => v,
        Err(e) => { return Err(e); },
    };
    Ok(Settlement { put_price, buyer_payout, seller_payout })
}

} // verus!
