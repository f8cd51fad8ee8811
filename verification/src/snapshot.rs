//! The oracle snapshot: the last price report taken over from the oracle.

use crate::error::EscrowError;
use crate::host::{host_items, host_vec_try_get};
use vstd::prelude::*;

verus! {

/// The value of the validity flags that marks a report as carrying a valid
/// settlement price.
pub const SETTLEMENT_PRICE_VALID: i128 = 1;

/// A price report: the four numbers an oracle answers with, in its order.
#[derive(Clone, Copy, Debug, PartialEq, Eq, Structural)]
pub struct OracleSnapshot {
    /// The underlying asset, as the oracle numbers it.
    pub symbol: i128,
    /// The market price of the underlying.
    pub price: i128,
    /// The instant the oracle attaches to the price.
    pub timestamp: i128,
    /// The validity flags.
    pub flags: i128,
}

impl OracleSnapshot {
    /// The snapshot of an instance that has taken no report yet: all zero,
    /// and so without a valid settlement price.
    pub open spec fn empty() -> OracleSnapshot {
        OracleSnapshot { symbol: 0, price: 0, timestamp: 0, flags: 0 }
    }

    /// Whether the report carries a valid settlement price.
    pub open spec fn has_settlement_price(self) -> bool {
        self.flags == SETTLEMENT_PRICE_VALID
    }

    /// The snapshot that an oracle's answer stands for: its first four
    /// entries, each of which must be a number. Entries beyond the fourth
    /// are not looked at.
    pub open spec fn decode(items: Seq<Option<i128>>) -> Result<OracleSnapshot, EscrowError> {
        if items.len() >= 4 && items[0] is Some && items[1] is Some && items[2] is Some
            && items[3] is Some {
            Ok(
                OracleSnapshot {
                    symbol: items[0].unwrap(),
                    price: items[1].unwrap(),
                    timestamp: items[2].unwrap(),
                    flags: items[3].unwrap(),
                },
            )
        } else {
            Err(EscrowError::MalformedOracleData)
        }
    }

    /// The snapshot that holds no report.
    pub fn new() -> (s: OracleSnapshot)
        ensures
            s == OracleSnapshot::empty(),
            !s.has_settlement_price(),
    {
        OracleSnapshot { symbol: 0, price: 0, timestamp: 0, flags: 0 }
    }

    /// Tests whether the report carries a valid settlement price.
    pub fn is_settlement_price(&self) -> (valid: bool)
        ensures
            valid == self.has_settlement_price(),
    {
        self.flags == SETTLEMENT_PRICE_VALID
    }

    /// Reads a snapshot out of an oracle's answer.
    pub fn read(oracle_data: &soroban_sdk::Vec<i128>) -> (r: Result<OracleSnapshot, EscrowError>)
        ensures
            r == OracleSnapshot::decode(host_items(*oracle_data)),
    {
        let symbol: i128 = match read_entry(oracle_data, 0) {
            Ok(x) => x,
            Err(e) => { return Err(e); },
        };
        let price: i128 = match read_entry(oracle_data, 1) {
            Ok(x) => x,
            Err(e) => { return Err(e); },
        };
        let timestamp: i128 = match read_entry(oracle_data, 2) {
            Ok(x) => x,
            Err(e) => { return Err(e); },
        };
        let flags: i128 = match read_entry(oracle_data, 3) {
            Ok(x) => x,
            Err(e) => { return Err(e); },
        };
        Ok(OracleSnapshot { symbol, price, timestamp, flags })
    }
}

/// The number at position `i` of an oracle's answer, if there is one.
pub open spec fn entry(items: Seq<Option<i128>>, i: u32) -> Result<i128, EscrowError> {
    if i < items.len() && items[i as int] is Some {
        Ok(items[i as int].unwrap())
    } else {
        Err(EscrowError::MalformedOracleData)
    }
}

/// Reads the number at position `i` of an oracle's answer.
pub fn read_entry(oracle_data: &soroban_sdk::Vec<i128>, i: u32) -> (r: Result<i128, EscrowError>)
    ensures
        r == entry(host_items(*oracle_data), i),
{
    match host_vec_try_get(oracle_data, i) {
        Ok(Some(x)) => Ok(x),
        Ok(None) => Err(EscrowError::MalformedOracleData),
        Err(_) => Err(EscrowError::MalformedOracleData),
    }
}

} // verus!
