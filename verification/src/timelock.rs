//! The time gate: a bound on the ledger time, and the test whether a given
//! instant meets it.

use crate::host::ledger_timestamp;
use vstd::prelude::*;

verus! {

/// The side of its timestamp on which a bound is met.
#[derive(Clone, Copy, Debug, PartialEq, Eq, Structural)]
pub enum TimeBoundKind {
    /// Met up to and including the timestamp.
    Before,
    /// Met from the timestamp on.
    After,
}

/// A bound on the ledger time. An expiration at `t` is the bound
/// `After` `t`.
#[derive(Clone, Copy, Debug, PartialEq, Eq, Structural)]
pub struct TimeBound {
    pub kind: TimeBoundKind,
    pub timestamp: u64,
}

impl TimeBound {
    /// Whether the instant `now` meets the bound.
    pub open spec fn satisfied(self, now: u64) -> bool {
        match self.kind {
            TimeBoundKind::Before => now <= self.timestamp,
            TimeBoundKind::After => now >= self.timestamp,
        }
    }

    /// The bound that an expiration at `timestamp` stands for.
    pub fn expiring_at(timestamp: u64) -> (bound: TimeBound)
        ensures
            bound == (TimeBound { kind: TimeBoundKind::After, timestamp }),
    {
        TimeBound { kind: TimeBoundKind::After, timestamp }
    }

    /// Tests the bound against the instant `now`.
    pub fn check(&self, now: u64) -> (met: bool)
        ensures
            met == self.satisfied(now),
    {
        match self.kind {
            TimeBoundKind::Before => now <= self.timestamp,
            TimeBoundKind::After => now >= self.timestamp,
        }
    }
}

/// Tests the bound against the close time of the current ledger.
///
/// The ledger time is whatever the host reports, so the result is the test
/// of the bound at some instant; `TimeBound::check` is the same test at a
/// given one.
pub fn check_time_bound(env: &soroban_sdk::Env, time_bound: &TimeBound) -> (met: bool)
    ensures
        exists|now: u64| met == time_bound.satisfied(now),
        time_bound.kind == TimeBoundKind::After && time_bound.timestamp == 0 ==> met,
        time_bound.kind == TimeBoundKind::Before && time_bound.timestamp == u64::MAX ==> met,
{
    let now: u64 = ledger_timestamp(env);
    let met = time_bound.check(now);
    assert(met == time_bound.satisfied(now));
    met
}

/// A bound of either kind is met at its own timestamp, and at every other
/// instant exactly one of `Before` and `After` that timestamp is met.
pub proof fn lemma_before_after_split(timestamp: u64, now: u64)
    ensures
        now == timestamp ==> (TimeBound { kind: TimeBoundKind::Before, timestamp }).satisfied(now)
            && (TimeBound { kind: TimeBoundKind::After, timestamp }).satisfied(now),
        now != timestamp ==> ((TimeBound { kind: TimeBoundKind::Before, timestamp }).satisfied(now)
            != (TimeBound { kind: TimeBoundKind::After, timestamp }).satisfied(now)),
{
}

/// Once an `After` bound is met it stays met.
pub proof fn lemma_after_is_monotone(bound: TimeBound, earlier: u64, later: u64)
    requires
        bound.kind == TimeBoundKind::After,
        earlier <= later,
        bound.satisfied(earlier),
    ensures
        bound.satisfied(later),
{
}

} // verus!
