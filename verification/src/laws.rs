//! Laws of the escrow instance that relate several operations, each proved
//! from the outcomes the operations are specified by.

use crate::contract::{
    ContractDefinition,
    OptionContract,
    OptionDef,
    Transfer,
    TransferKind,
    GATE_OPEN,
};
use crate::error::EscrowError;
use crate::identity::Identity;
use crate::snapshot::OracleSnapshot;
use crate::timelock::{TimeBound, TimeBoundKind};
use vstd::prelude::*;

verus! {

/// A side funds once. After a funding that recorded a deposit other than
/// zero, a second funding of the same side for the same trade, made before
/// expiration in the listed decimals, is refused because the deposit exists,
/// whoever makes it and whatever its price and quantity.
pub proof fn lemma_funding_is_one_shot(
    c: OptionContract,
    side: u32,
    decimals: u32,
    trade_id: u64,
    now: u64,
    counter_party: Identity,
    token: Identity,
    price: i128,
    qty: i128,
    later: u64,
    second_party: Identity,
    second_token: Identity,
    second_price: i128,
    second_qty: i128,
)
    requires
        c.trade_outcome(now, counter_party, token, side, price, decimals, qty, trade_id) is Ok,
        c.trade_outcome(now, counter_party, token, side, price, decimals, qty, trade_id)->Ok_0.0.amount
            != 0,
        !c.definition.unwrap().exp.satisfied(later),
    ensures
        c.trade_outcome(now, counter_party, token, side, price, decimals, qty, trade_id)->Ok_0.1.trade_outcome(
            later,
            second_party,
            second_token,
            side,
            second_price,
            decimals,
            second_qty,
            trade_id,
        ) == Err::<(Transfer, OptionContract), EscrowError>(
            EscrowError::DepositAlreadyExists,
        ),
{
}

/// An instance is bound to one trade. Once a trade id other than zero is
/// recorded, funding under another id is refused as a conflict, on an open
/// listed contract before expiration and in the listed decimals.
pub proof fn lemma_other_trade_is_refused(
    c: OptionContract,
    now: u64,
    counter_party: Identity,
    token: Identity,
    side: u32,
    price: i128,
    decimals: u32,
    qty: i128,
    trade_id: u64,
)
    requires
        c.listed(),
        c.killswitch == GATE_OPEN,
        !c.definition.unwrap().exp.satisfied(now),
        decimals == c.definition.unwrap().decimals,
        c.trade_id != 0,
        trade_id != c.trade_id,
    ensures
        c.trade_outcome(now, counter_party, token, side, price, decimals, qty, trade_id) == Err::<
            (Transfer, OptionContract),
            EscrowError,
        >(EscrowError::TradeIdConflict),
{
}

/// Expiration parts funding from settlement. On an open listed contract,
/// funding from the expiration instant on is refused as expired, and
/// settling before that instant is refused as not yet expired; at no instant
/// are both open.
pub proof fn lemma_expiration_parts_funding_from_settlement(
    c: OptionContract,
    now: u64,
    counter_party: Identity,
    token: Identity,
    side: u32,
    price: i128,
    decimals: u32,
    qty: i128,
    trade_id: u64,
)
    requires
        c.wf(),
        c.listed(),
        c.killswitch == GATE_OPEN,
    ensures
        now >= c.definition.unwrap().exp.timestamp ==> c.trade_outcome(
            now,
            counter_party,
            token,
            side,
            price,
            decimals,
            qty,
            trade_id,
        ) == Err::<(Transfer, OptionContract), EscrowError>(EscrowError::Expired),
        now < c.definition.unwrap().exp.timestamp ==> c.settle_outcome(now, counter_party) == Err::<
            Option<Transfer>,
            EscrowError,
        >(EscrowError::NotYetExpired),
        !(c.trade_outcome(now, counter_party, token, side, price, decimals, qty, trade_id) is Ok
            && c.settle_outcome(now, counter_party) is Ok),
{
}

/// Settlement needs a valid settlement price. While the snapshot carries
/// none, no settlement succeeds, and a participant who settles an open
/// listed contract after expiration is refused for want of that price.
pub proof fn lemma_settlement_needs_price(c: OptionContract, now: u64, claimant: Identity)
    requires
        !c.snapshot.has_settlement_price(),
    ensures
        c.settle_outcome(now, claimant) is Err,
        c.listed() && c.killswitch == GATE_OPEN && c.definition.unwrap().exp.satisfied(now)
            && c.is_participant(claimant) ==> c.settle_outcome(now, claimant) == Err::<
            Option<Transfer>,
            EscrowError,
        >(EscrowError::NoSettlementPrice),
{
}

/// A listing starts without a settlement price: whatever snapshot was held
/// before, the newly listed contract holds the empty one.
pub proof fn lemma_listing_clears_price(
    c: OptionContract,
    now: u64,
    opt_type: u32,
    strike: i128,
    decimals: u32,
    exp: u64,
    oracle: Identity,
    token: Identity,
    admin: Identity,
)
    requires
        c.list_outcome(now, opt_type, strike, decimals, exp, oracle, token, admin) is Ok,
    ensures
        !c.list_outcome(
            now,
            opt_type,
            strike,
            decimals,
            exp,
            oracle,
            token,
            admin,
        )->Ok_0.1.snapshot.has_settlement_price(),
{
}

/// What is listed is what `specs` reports: after a listing that succeeded,
/// the terms read back are the strike, expiration, option type and decimals
/// that were listed, with the token given as collateral and underlying, and
/// no market price yet.
pub proof fn lemma_specs_after_list(
    c: OptionContract,
    now: u64,
    opt_type: u32,
    strike: i128,
    decimals: u32,
    exp: u64,
    oracle: Identity,
    token: Identity,
    admin: Identity,
)
    requires
        c.list_outcome(now, opt_type, strike, decimals, exp, oracle, token, admin) is Ok,
    ensures
        c.list_outcome(
            now,
            opt_type,
            strike,
            decimals,
            exp,
            oracle,
            token,
            admin,
        )->Ok_0.1.specs_outcome() == Ok::<OptionDef, EscrowError>(
            OptionDef {
                collateral_token: token,
                underlying_token: token,
                strike,
                mkt_price: 0,
                exp: TimeBound { kind: TimeBoundKind::After, timestamp: exp },
                opt_type,
                decimals,
            },
        ),
        c.list_outcome(now, opt_type, strike, decimals, exp, oracle, token, admin)->Ok_0.1.definition
            == Some(
            ContractDefinition {
                opt_type,
                strike,
                decimals,
                exp: TimeBound { kind: TimeBoundKind::After, timestamp: exp },
                oracle,
                token,
                admin,
            },
        ),
{
}

/// Refreshing the price is idempotent: taking over the same answer of the
/// oracle a second time returns the same snapshot and leaves the instance as
/// the first refresh left it.
pub proof fn lemma_refresh_is_idempotent(c: OptionContract, items: Seq<Option<i128>>)
    requires
        c.refresh_outcome(items) is Ok,
    ensures
        c.refresh_outcome(items)->Ok_0.1.refresh_outcome(items) == c.refresh_outcome(items),
        c.refresh_outcome(items)->Ok_0.1.snapshot == c.refresh_outcome(items)->Ok_0.0,
{
}

/// A refresh touches the snapshot only: the terms, the kill switch, the parties,
/// the deposits and the trade stay as they were.
pub proof fn lemma_refresh_keeps_the_trade(c: OptionContract, items: Seq<Option<i128>>)
    requires
        c.refresh_outcome(items) is Ok,
    ensures
        c.refresh_outcome(items)->Ok_0.1 == (OptionContract {
            snapshot: OracleSnapshot::decode(items)->Ok_0,
            ..c
        }),
{
}

/// What settlement pays is never negative and never nothing: a payout that
/// is returned is a positive amount of the listed token, to the claimant.
pub proof fn lemma_payout_is_positive(c: OptionContract, now: u64, claimant: Identity)
    requires
        c.settle_outcome(now, claimant) is Ok,
        c.settle_outcome(now, claimant)->Ok_0 is Some,
    ensures
        c.settle_outcome(now, claimant)->Ok_0.unwrap().amount > 0,
        c.settle_outcome(now, claimant)->Ok_0.unwrap().party == claimant,
        c.settle_outcome(now, claimant)->Ok_0.unwrap().token == c.definition.unwrap().token,
        c.settle_outcome(now, claimant)->Ok_0.unwrap().kind == TransferKind::Payout,
{
}

} // verus!
