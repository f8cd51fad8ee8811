//! The reasons an operation is refused.

use vstd::prelude::*;

verus! {

/// Why an operation was refused. A refused operation changes nothing.
#[derive(Clone, Copy, Debug, PartialEq, Eq, Structural)]
pub enum EscrowError {
    /// The instance has not been initialized, or no contract is listed yet.
    NotInitialized,
    /// The instance was initialized before.
    AlreadyInitialized,
    /// The caller is not the administrator, or not a party to the trade.
    Unauthorized,
    /// The claimant is neither the buyer, the seller nor the administrator.
    UnauthorizedClaimant,
    /// A listing parameter or a gate level is out of range.
    InvalidParameter,
    /// The trade price is not quoted in the decimals of the listed contract.
    DecimalsMismatch,
    /// The expiration instant has been reached; funding is closed.
    Expired,
    /// The expiration instant has not been reached; settlement is closed.
    NotYetExpired,
    /// Another trade is already bound to this instance.
    TradeIdConflict,
    /// The side has already posted its collateral.
    DepositAlreadyExists,
    /// The side is neither seller nor buyer.
    InvalidSide,
    /// The stored oracle snapshot carries no valid settlement price.
    NoSettlementPrice,
    /// The payout computed for the claimant is below zero.
    NegativePayout,
    /// The operational gate is closed at the level this operation needs.
    OperationalGateClosed,
    /// The market price is negative.
    InvalidPrice,
    /// The strikes are not in non-decreasing order.
    InvalidStrikeOrdering,
    /// A difference or product leaves the range of a signed 128-bit integer.
    ArithmeticOverflow,
    /// The oracle answered with fewer than four entries, or with an entry
    /// that is not a number.
    MalformedOracleData,
    /// The oracle has not been given a quote yet.
    NoQuote,
}

/// Whether `x` is a value of a signed 128-bit integer.
pub open spec fn fits(x: int) -> bool {
    i128::MIN <= x <= i128::MAX
}

/// The outcome of a computation whose exact value is `x`: the value where it
/// can be represented, an overflow otherwise.
pub open spec fn represent(x: int) -> Result<i128, EscrowError> {
    if fits(x) {
        Ok(x as i128)
    } else {
        Err(EscrowError::ArithmeticOverflow)
    }
}

/// `a - b`, or an overflow.
pub fn checked_difference(a: i128, b: i128) -> (r: Result<i128, EscrowError>)
    ensures
        r == represent(a - b),
{
    match a.checked_sub(b) {
        Some(d) => Ok(d),
        None => Err(EscrowError::ArithmeticOverflow),
    }
}

/// `a + b`, or an overflow.
pub fn checked_sum(a: i128, b: i128) -> (r: Result<i128, EscrowError>)
    ensures
        r == represent(a + b),
{
    match a.checked_add(b) {
        Some(d) => Ok(d),
        None => Err(EscrowError::ArithmeticOverflow),
    }
}

/// `a * b`, or an overflow.
pub fn checked_product(a: i128, b: i128) -> (r: Result<i128, EscrowError>)
    ensures
        r == represent(a * b),
{
    match a.checked_mul(b) {
        Some(d) => Ok(d),
        None => Err(EscrowError::ArithmeticOverflow),
    }
}

} // verus!
