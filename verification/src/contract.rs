//! The escrow instance: listing, funding, price refresh, mark-to-market and
//! settlement of one put option between a buyer and a seller.
//!
//! The instance is a plain value. Each operation is given by a spec function
//! that maps the instance before the call, and the inputs, to the outcome:
//! the result together with the instance after the call, or the refusal. A
//! refused operation leaves the instance as it was.
//!
//! Moving collateral is not done here. Funding and settlement return the
//! transfer that has to be carried out; whoever applies an operation carries
//! it out and keeps the new instance only if the transfer went through.

use crate::economics::{
    mark_to_market,
    mark_to_market_outcome,
    required_deposit,
    required_deposit_outcome,
    settlement,
    settlement_outcome,
    MarkToMarket,
    SIDE_BUY,
    SIDE_SELL,
};
use crate::error::EscrowError;
use crate::host::{host_items, ledger_timestamp};
use crate::identity::Identity;
use crate::snapshot::OracleSnapshot;
use crate::timelock::{TimeBound, TimeBoundKind};
use vstd::prelude::*;

verus! {

/// Option type bit: may be exercised at any time up to expiration.
pub const AMERICAN: u32 = 1;

/// Option type bit: may be exercised at expiration only.
pub const EUROPEAN: u32 = 2;

/// Option type bit: call.
pub const CALL: u32 = 4;

/// Option type bit: put.
pub const PUT: u32 = 8;

/// Option type bit: binary payoff.
pub const BINARY: u32 = 16;

/// Option type bit: call spread.
pub const CALL_SPRD: u32 = 32;

/// Option type bit: put spread.
pub const PUT_SPRD: u32 = 64;

/// Gate level at which every operation is open.
pub const GATE_OPEN: u32 = 0;

/// Gate level at which listing, funding and settlement are closed.
pub const GATE_NO_WRITES: u32 = 1;

/// Gate level at which reading is closed as well.
pub const GATE_CLOSED: u32 = 2;

/// Whether `opt_type` is the one option type that can be listed: a European
/// put.
pub open spec fn supported_option_type(opt_type: u32) -> bool {
    opt_type == (PUT | EUROPEAN)
}

/// The European put is the option type 10, and no other type is supported.
pub proof fn lemma_supported_option_type(opt_type: u32)
    ensures
        supported_option_type(opt_type) <==> opt_type == 10,
{
    assert((PUT | EUROPEAN) == 10u32) by (bit_vector)
        requires
            PUT == 8u32,
            EUROPEAN == 2u32,
    ;
}

/// The terms fixed when a contract is listed.
#[derive(Clone, Copy, Debug, PartialEq, Eq, Structural)]
pub struct ContractDefinition {
    /// The option type bits.
    pub opt_type: u32,
    /// The strike price, in `decimals` decimals.
    pub strike: i128,
    /// The number of decimals of the strike and of every trade price.
    pub decimals: u32,
    /// The expiration, as the bound that is met from that instant on.
    pub exp: TimeBound,
    /// The oracle that reports the price of the underlying.
    pub oracle: Identity,
    /// The token in which collateral is posted and paid out.
    pub token: Identity,
    /// The administrator.
    pub admin: Identity,
}

impl ContractDefinition {
    /// What listing guarantees of the terms: a positive strike, a European
    /// put, and an expiration that is met from its instant on.
    pub open spec fn wf(self) -> bool {
        &&& self.strike > 0
        &&& supported_option_type(self.opt_type)
        &&& self.exp.kind == TimeBoundKind::After
    }
}

/// The terms of the listed contract as `specs` reports them.
#[derive(Clone, Copy, Debug, PartialEq, Eq, Structural)]
pub struct OptionDef {
    pub collateral_token: Identity,
    pub underlying_token: Identity,
    pub strike: i128,
    pub mkt_price: i128,
    pub exp: TimeBound,
    pub opt_type: u32,
    pub decimals: u32,
}

/// The way collateral moves.
#[derive(Clone, Copy, Debug, PartialEq, Eq, Structural)]
pub enum TransferKind {
    /// From the party into the custody of the contract.
    Deposit,
    /// Out of the custody of the contract to the party.
    Payout,
}

/// A movement of collateral that an operation asks for.
#[derive(Clone, Copy, Debug, PartialEq, Eq, Structural)]
pub struct Transfer {
    /// The token to move.
    pub token: Identity,
    /// The direction.
    pub kind: TransferKind,
    /// The party that pays a deposit or receives a payout.
    pub party: Identity,
    /// The amount to move.
    pub amount: i128,
}

/// One escrow instance.
#[derive(Clone, Copy, Debug, PartialEq, Eq)]
pub struct OptionContract {
    /// Whether the instance has been initialized.
    pub initialized: bool,
    /// The level of the operational gate.
    pub killswitch: u32,
    /// The listed contract, once there is one.
    pub definition: Option<ContractDefinition>,
    /// The seller, once the seller has funded.
    pub seller: Option<Identity>,
    /// The collateral the seller has posted; zero before funding.
    pub seller_deposit: i128,
    /// The buyer, once the buyer has funded.
    pub buyer: Option<Identity>,
    /// The collateral the buyer has posted; zero before funding.
    pub buyer_deposit: i128,
    /// The trade this instance is bound to; zero while it is bound to none.
    pub trade_id: u64,
    /// The price of the trade.
    pub trade_px: i128,
    /// The quantity of the trade.
    pub trade_qty: i128,
    /// The last report taken over from the oracle.
    pub snapshot: OracleSnapshot,
}

/// Whether `r` and `after` are what an operation with the given `outcome`
/// leaves behind when it started from `before`: the result and the new
/// instance on success, the refusal and the old instance otherwise.
pub open spec fn applies<T>(
    outcome: Result<(T, OptionContract), EscrowError>,
    before: OptionContract,
    r: Result<T, EscrowError>,
    after: OptionContract,
) -> bool {
    match outcome {
        Ok((value, next)) => r == Ok::<T, EscrowError>(value) && after == next,
        Err(e) => r == Err::<T, EscrowError>(e) && after == before,
    }
}

impl OptionContract {
    /// The instance before it is initialized.
    pub open spec fn blank() -> OptionContract {
        OptionContract {
            initialized: false,
            killswitch: 0,
            definition: None,
            seller: None,
            seller_deposit: 0,
            buyer: None,
            buyer_deposit: 0,
            trade_id: 0,
            trade_px: 0,
            trade_qty: 0,
            snapshot: OracleSnapshot::empty(),
        }
    }

    /// What every operation keeps true of an instance: the kill switch is at one of
    /// its three levels, and a listed contract has well-formed terms and an
    /// initialized instance.
    pub open spec fn wf(self) -> bool {
        &&& self.killswitch <= GATE_CLOSED
        &&& self.definition is Some ==> self.initialized && self.definition.unwrap().wf()
    }

    /// Whether a contract is listed.
    pub open spec fn listed(self) -> bool {
        self.initialized && self.definition is Some
    }

    /// Whether `who` is the administrator.
    pub open spec fn is_admin(self, who: Identity) -> bool {
        self.definition is Some && self.definition.unwrap().admin == who
    }

    /// Whether `who` is the administrator, the buyer or the seller.
    pub open spec fn is_participant(self, who: Identity) -> bool {
        self.is_admin(who) || who.held_by(self.buyer) || who.held_by(self.seller)
    }

    /// The instance after `init`.
    pub open spec fn initialized_from(self) -> OptionContract {
        OptionContract { initialized: true, killswitch: GATE_OPEN, ..self }
    }

    /// The outcome of `killswitch`.
    pub open spec fn killswitch_outcome(self, admin_user: Identity, level: u32) -> Result<
        (u32, OptionContract),
        EscrowError,
    > {
        if !self.initialized {
            Err(EscrowError::NotInitialized)
        } else if !self.is_admin(admin_user) {
            Err(EscrowError::Unauthorized)
        } else if level > GATE_CLOSED {
            Err(EscrowError::InvalidParameter)
        } else {
            Ok((level, OptionContract { killswitch: level, ..self }))
        }
    }

    /// The outcome of `list` at the instant `now`.
    pub open spec fn list_outcome(
        self,
        now: u64,
        opt_type: u32,
        strike: i128,
        decimals: u32,
        exp: u64,
        oracle: Identity,
        token: Identity,
        admin: Identity,
    ) -> Result<(u32, OptionContract), EscrowError> {
        if !self.initialized {
            Err(EscrowError::NotInitialized)
        } else if self.killswitch > GATE_OPEN {
            Err(EscrowError::OperationalGateClosed)
        } else if self.definition is Some && !self.is_admin(admin) {
            Err(EscrowError::Unauthorized)
        } else if !supported_option_type(opt_type) || strike <= 0 || exp <= now {
            Err(EscrowError::InvalidParameter)
        } else {
            Ok(
                (
                    0u32,
                    OptionContract {
                        initialized: true,
                        killswitch: self.killswitch,
                        definition: Some(
                            ContractDefinition {
                                opt_type,
                                strike,
                                decimals,
                                exp: TimeBound { kind: TimeBoundKind::After, timestamp: exp },
                                oracle,
                                token,
                                admin,
                            },
                        ),
                        seller: None,
                        seller_deposit: 0,
                        buyer: None,
                        buyer_deposit: 0,
                        trade_id: 0,
                        trade_px: 0,
                        trade_qty: 0,
                        snapshot: OracleSnapshot::empty(),
                    },
                ),
            )
        }
    }

    /// The outcome of `specs`.
    pub open spec fn specs_outcome(self) -> Result<OptionDef, EscrowError> {
        if !self.listed() {
            Err(EscrowError::NotInitialized)
        } else if self.killswitch > GATE_NO_WRITES {
            Err(EscrowError::OperationalGateClosed)
        } else {
            let d = self.definition.unwrap();
            Ok(
                OptionDef {
                    collateral_token: d.token,
                    underlying_token: d.token,
                    strike: d.strike,
                    mkt_price: self.snapshot.price,
                    exp: d.exp,
                    opt_type: d.opt_type,
                    decimals: d.decimals,
                },
            )
        }
    }

    /// The deposit `side` holds; zero for a side that is neither seller nor
    /// buyer.
    pub open spec fn deposit_of(self, side: u32) -> i128 {
        if side == SIDE_SELL {
            self.seller_deposit
        } else if side == SIDE_BUY {
            self.buyer_deposit
        } else {
            0
        }
    }

    /// The instance after `side` has funded `amount` as `counter_party`, in
    /// the trade `trade_id` of `qty` units at `price`.
    pub open spec fn funded(
        self,
        side: u32,
        counter_party: Identity,
        amount: i128,
        price: i128,
        qty: i128,
        trade_id: u64,
    ) -> OptionContract {
        if side == SIDE_SELL {
            OptionContract {
                seller: Some(counter_party),
                seller_deposit: amount,
                trade_id,
                trade_px: price,
                trade_qty: qty,
                ..self
            }
        } else {
            OptionContract {
                buyer: Some(counter_party),
                buyer_deposit: amount,
                trade_id,
                trade_px: price,
                trade_qty: qty,
                ..self
            }
        }
    }

    /// The outcome of `trade` at the instant `now`.
    ///
    /// The refusals come in this order: no listed contract, a closed gate,
    /// expiration reached, other decimals than the listed ones, another
    /// trade bound to the instance, a side that is neither seller nor buyer,
    /// a side that has funded already, a deposit that cannot be represented.
    pub open spec fn trade_outcome(
        self,
        now: u64,
        counter_party: Identity,
        token: Identity,
        side: u32,
        price: i128,
        decimals: u32,
        qty: i128,
        trade_id: u64,
    ) -> Result<(Transfer, OptionContract), EscrowError> {
        if !self.listed() {
            Err(EscrowError::NotInitialized)
        } else if self.killswitch > GATE_OPEN {
            Err(EscrowError::OperationalGateClosed)
        } else if self.definition.unwrap().exp.satisfied(now) {
            Err(EscrowError::Expired)
        } else if decimals != self.definition.unwrap().decimals {
            Err(EscrowError::DecimalsMismatch)
        } else if self.trade_id != 0 && trade_id != self.trade_id {
            Err(EscrowError::TradeIdConflict)
        } else if side != SIDE_SELL && side != SIDE_BUY {
            Err(EscrowError::InvalidSide)
        } else if self.deposit_of(side) != 0 {
            Err(EscrowError::DepositAlreadyExists)
        } else {
            match required_deposit_outcome(
                side,
                self.definition.unwrap().strike as int,
                price as int,
                qty as int,
            ) {
                Ok(amount) => Ok(
                    (
                        Transfer {
                            token,
                            kind: TransferKind::Deposit,
                            party: counter_party,
                            amount,
                        },
                        self.funded(side, counter_party, amount, price, qty, trade_id),
                    ),
                ),
                Err(e) => Err(e),
            }
        }
    }

    /// The outcome of `upd_px` on an oracle's answer that holds `items`.
    pub open spec fn refresh_outcome(self, items: Seq<Option<i128>>) -> Result<
        (OracleSnapshot, OptionContract),
        EscrowError,
    > {
        if !self.listed() {
            Err(EscrowError::NotInitialized)
        } else {
            match OracleSnapshot::decode(items) {
                Ok(snapshot) => Ok((snapshot, OptionContract { snapshot, ..self })),
                Err(e) => Err(e),
            }
        }
    }

    /// The outcome of `mtm` for `user` on an oracle's answer that holds
    /// `items`.
    pub open spec fn mtm_outcome(self, user: Identity, items: Seq<Option<i128>>) -> Result<
        (MarkToMarket, OptionContract),
        EscrowError,
    > {
        if !self.listed() {
            Err(EscrowError::NotInitialized)
        } else if self.killswitch > GATE_NO_WRITES {
            Err(EscrowError::OperationalGateClosed)
        } else if !self.is_participant(user) {
            Err(EscrowError::Unauthorized)
        } else {
            match OracleSnapshot::decode(items) {
                Ok(snapshot) => match mark_to_market_outcome(
                    self.definition.unwrap().strike as int,
                    self.trade_px as int,
                    self.trade_qty as int,
                    snapshot.price as int,
                ) {
                    Ok(report) => Ok((report, OptionContract { snapshot, ..self })),
                    Err(e) => Err(e),
                },
                Err(e) => Err(e),
            }
        }
    }

    /// What `claimant` is paid out of a settlement whose claims are
    /// `buyer_payout` and `seller_payout`: the seller's claim where the
    /// claimant is the seller and that claim is positive, else the buyer's
    /// claim where the claimant is the buyer and that claim is positive,
    /// else nothing.
    pub open spec fn payout_to(self, claimant: Identity, buyer_payout: i128, seller_payout: i128) -> i128 {
        if claimant.held_by(self.seller) && seller_payout > 0 {
            seller_payout
        } else if claimant.held_by(self.buyer) && buyer_payout > 0 {
            buyer_payout
        } else {
            0
        }
    }

    /// The outcome of `settle` for `claimant` at the instant `now`: the
    /// payout to carry out, or none where nothing is due.
    ///
    /// The refusals come in this order: no listed contract, a closed gate,
    /// expiration not reached, a claimant who is no participant, no valid
    /// settlement price, a negative settlement price, claims that cannot be
    /// represented, a negative claim of the claimant.
    pub open spec fn settle_outcome(self, now: u64, claimant: Identity) -> Result<
        Option<Transfer>,
        EscrowError,
    > {
        if !self.listed() {
            Err(EscrowError::NotInitialized)
        } else if self.killswitch > GATE_OPEN {
            Err(EscrowError::OperationalGateClosed)
        } else if !self.definition.unwrap().exp.satisfied(now) {
            Err(EscrowError::NotYetExpired)
        } else if !self.is_participant(claimant) {
            Err(EscrowError::UnauthorizedClaimant)
        } else if !self.snapshot.has_settlement_price() {
            Err(EscrowError::NoSettlementPrice)
        } else {
            match settlement_outcome(
                self.definition.unwrap().strike as int,
                self.snapshot.price as int,
                self.trade_px as int,
                self.trade_qty as int,
                self.buyer_deposit as int,
                self.seller_deposit as int,
            ) {
                Ok(s) => if (claimant.held_by(self.buyer) && s.buyer_payout < 0) || (
                claimant.held_by(self.seller) && s.seller_payout < 0) {
                    Err(EscrowError::NegativePayout)
                } else if self.payout_to(claimant, s.buyer_payout, s.seller_payout) > 0 {
                    Ok(
                        Some(
                            Transfer {
                                token: self.definition.unwrap().token,
                                kind: TransferKind::Payout,
                                party: claimant,
                                amount: self.payout_to(claimant, s.buyer_payout, s.seller_payout),
                            },
                        ),
                    )
                } else {
                    Ok(None)
                },
                Err(e) => Err(e),
            }
        }
    }

    /// An instance that has not been initialized.
    pub fn new() -> (c: OptionContract)
        ensures
            c == OptionContract::blank(),
            c.wf(),
    {
        OptionContract {
            initialized: false,
            killswitch: 0,
            definition: None,
            seller: None,
            seller_deposit: 0,
            buyer: None,
            buyer_deposit: 0,
            trade_id: 0,
            trade_px: 0,
            trade_qty: 0,
            snapshot: OracleSnapshot::new(),
        }
    }

    /// Marks the instance initialized and sets the kill switch to fully open.
    pub fn init(&mut self)
        ensures
            *final(self) == old(self).initialized_from(),
            old(self).wf() ==> final(self).wf(),
    {
        self.initialized = true;
        self.killswitch = GATE_OPEN;
    }

    /// Tests whether `who` is the administrator.
    pub fn admin_is(&self, who: Identity) -> (r: bool)
        ensures
            r == self.is_admin(who),
    {
        match self.definition {
            Some(d) => d.admin == who,
            None => false,
        }
    }

    /// Tests whether `who` is the administrator, the buyer or the seller.
    pub fn participant_is(&self, who: Identity) -> (r: bool)
        ensures
            r == self.is_participant(who),
    {
        self.admin_is(who) || who.is_held_by(&self.buyer) || who.is_held_by(&self.seller)
    }

    /// Sets the operational gate to `killswitch` on behalf of the
    /// administrator `admin_user`, and returns the new level.
    pub fn killswitch(&mut self, admin_user: Identity, killswitch: u32) -> (r: Result<u32, EscrowError>)
        ensures
            applies(
                old(self).killswitch_outcome(admin_user, killswitch),
                *old(self),
                r,
                *final(self),
            ),
            old(self).wf() ==> final(self).wf(),
    {
        if !self.initialized {
            return Err(EscrowError::NotInitialized);
        }
        if !self.admin_is(admin_user) {
            return Err(EscrowError::Unauthorized);
        }
        if killswitch > GATE_CLOSED {
            return Err(EscrowError::InvalidParameter);
        }
        self.killswitch = killswitch;
        Ok(killswitch)
    }

    /// Lists a contract at the instant `now`: a European put struck at
    /// `strike` that expires at `exp`. Returns the status 0.
    ///
    /// The first listing makes `admin` the administrator; a later one is
    /// open to that administrator only. Listing clears both deposits, the
    /// trade and the oracle snapshot.
    pub fn list_at(
        &mut self,
        now: u64,
        opt_type: u32,
        strike: i128,
        decimals: u32,
        exp: u64,
        oracle: Identity,
        token: Identity,
        admin: Identity,
    ) -> (r: Result<u32, EscrowError>)
        ensures
            applies(
                old(self).list_outcome(now, opt_type, strike, decimals, exp, oracle, token, admin),
                *old(self),
                r,
                *final(self),
            ),
            old(self).wf() ==> final(self).wf(),
    {
        if !self.initialized {
            return Err(EscrowError::NotInitialized);
        }
        if self.killswitch > GATE_OPEN {
            return Err(EscrowError::OperationalGateClosed);
        }
        if self.definition.is_some() && !self.admin_is(admin) {
            return Err(EscrowError::Unauthorized);
        }
        if opt_type != (PUT | EUROPEAN) || strike <= 0 || exp <= now {
            return Err(EscrowError::InvalidParameter);
        }
        self.definition = Some(
            ContractDefinition {
                opt_type,
                strike,
                decimals,
                exp: TimeBound::expiring_at(exp),
                oracle,
                token,
                admin,
            },
        );
        self.seller = None;
        self.seller_deposit = 0;
        self.buyer = None;
        self.buyer_deposit = 0;
        self.trade_id = 0;
        self.trade_px = 0;
        self.trade_qty = 0;
        self.snapshot = OracleSnapshot::new();
        Ok(0)
    }

    /// Lists a contract at the close time of the current ledger; see
    /// `list_at`.
    pub fn list(
        &mut self,
        env: &soroban_sdk::Env,
        opt_type: u32,
        strike: i128,
        decimals: u32,
        exp: u64,
        oracle: Identity,
        token: Identity,
        admin: Identity,
    ) -> (r: Result<u32, EscrowError>)
        ensures
            exists|now: u64|
                applies(
                    #[trigger] old(self).list_outcome(
                        now,
                        opt_type,
                        strike,
                        decimals,
                        exp,
                        oracle,
                        token,
                        admin,
                    ),
                    *old(self),
                    r,
                    *final(self),
                ),
            old(self).wf() ==> final(self).wf(),
    {
        let now: u64 = ledger_timestamp(env);
        self.list_at(now, opt_type, strike, decimals, exp, oracle, token, admin)
    }

    /// The terms of the listed contract, with the market price of the last
    /// oracle snapshot.
    pub fn specs(&self) -> (r: Result<OptionDef, EscrowError>)
        ensures
            r == self.specs_outcome(),
    {
        if !self.initialized {
            return Err(EscrowError::NotInitialized);
        }
        match self.definition {
            None => Err(EscrowError::NotInitialized),
            Some(d) => {
                if self.killswitch > GATE_NO_WRITES {
                    return Err(EscrowError::OperationalGateClosed);
                }
                Ok(
                    OptionDef {
                        collateral_token: d.token,
                        underlying_token: d.token,
                        strike: d.strike,
                        mkt_price: self.snapshot.price,
                        exp: d.exp,
                        opt_type: d.opt_type,
                        decimals: d.decimals,
                    },
                )
            },
        }
    }

    /// The oracle of the listed contract.
    pub fn oracle(&self) -> (r: Result<Identity, EscrowError>)
        ensures
            r == (if self.listed() {
                Ok::<Identity, EscrowError>(self.definition.unwrap().oracle)
            } else {
                Err::<Identity, EscrowError>(EscrowError::NotInitialized)
            }),
    {
        if !self.initialized {
            return Err(EscrowError::NotInitialized);
        }
        match self.definition {
            None => Err(EscrowError::NotInitialized),
            Some(d) => Ok(d.oracle),
        }
    }

    /// Funds one side of the trade at the instant `now`.
    ///
    /// `counter_party` posts, as seller (`side` 0) or buyer (`side` 1), the
    /// collateral for `qty` units traded at `price`. On success the deposit,
    /// the party, the trade id and the trade's price and quantity are
    /// recorded, and the transfer of the deposit from the party into custody
    /// is returned, in the token given. The amount is what the formula
    /// yields, whatever its sign.
    pub fn trade_at(
        &mut self,
        now: u64,
        counter_party: Identity,
        token: Identity,
        side: u32,
        price: i128,
        decimals: u32,
        qty: i128,
        trade_id: u64,
    ) -> (r: Result<Transfer, EscrowError>)
        ensures
            applies(
                old(self).trade_outcome(
                    now,
                    counter_party,
                    token,
                    side,
                    price,
                    decimals,
                    qty,
                    trade_id,
                ),
                *old(self),
                r,
                *final(self),
            ),
            old(self).wf() ==> final(self).wf(),
    {
        if !self.initialized {
            return Err(EscrowError::NotInitialized);
        }
        let d: ContractDefinition = match self.definition {
            None => { return Err(EscrowError::NotInitialized); },
            Some(d) => d,
        };
        if self.killswitch > GATE_OPEN {
            return Err(EscrowError::OperationalGateClosed);
        }
        if d.exp.check(now) {
            return Err(EscrowError::Expired);
        }
        if decimals != d.decimals {
            return Err(EscrowError::DecimalsMismatch);
        }
        if self.trade_id != 0 && trade_id != self.trade_id {
            return Err(EscrowError::TradeIdConflict);
        }
        if side != SIDE_SELL && side != SIDE_BUY {
            return Err(EscrowError::InvalidSide);
        }
        let held: i128 = if side == SIDE_SELL {
            self.seller_deposit
        } else {
            self.buyer_deposit
        };
        if held != 0 {
            return Err(EscrowError::DepositAlreadyExists);
        }
        let amount: i128 = match required_deposit(side, d.strike, price, qty) {
            Ok(a) => a,
            Err(e) => { return Err(e); },
        };
        if side == SIDE_SELL {
            self.seller = Some(counter_party);
            self.seller_deposit = amount;
        } else {
            self.buyer = Some(counter_party);
            self.buyer_deposit = amount;
        }
        self.trade_id = trade_id;
        self.trade_px = price;
        self.trade_qty = qty;
        Ok(Transfer { token, kind: TransferKind::Deposit, party: counter_party, amount })
    }

    /// Funds one side of the trade at the close time of the current ledger;
    /// see `trade_at`.
    pub fn trade(
        &mut self,
        env: &soroban_sdk::Env,
        counter_party: Identity,
        token: Identity,
        side: u32,
        price: i128,
        decimals: u32,
        qty: i128,
        trade_id: u64,
    ) -> (r: Result<Transfer, EscrowError>)
        ensures
            exists|now: u64|
                applies(
                    #[trigger] old(self).trade_outcome(
                        now,
                        counter_party,
                        token,
                        side,
                        price,
                        decimals,
                        qty,
                        trade_id,
                    ),
                    *old(self),
                    r,
                    *final(self),
                ),
            old(self).wf() ==> final(self).wf(),
    {
        let now: u64 = ledger_timestamp(env);
        self.trade_at(now, counter_party, token, side, price, decimals, qty, trade_id)
    }

    /// Takes over an oracle's answer as the new snapshot, in place of the
    /// one held before, and returns it.
    pub fn upd_px(&mut self, oracle_data: &soroban_sdk::Vec<i128>) -> (r: Result<OracleSnapshot, EscrowError>)
        ensures
            applies(
                old(self).refresh_outcome(host_items(*oracle_data)),
                *old(self),
                r,
                *final(self),
            ),
            old(self).wf() ==> final(self).wf(),
    {
        if !self.initialized || self.definition.is_none() {
            return Err(EscrowError::NotInitialized);
        }
        let snapshot: OracleSnapshot = match OracleSnapshot::read(oracle_data) {
            Ok(s) => s,
            Err(e) => { return Err(e); },
        };
        self.snapshot = snapshot;
        Ok(snapshot)
    }

    /// Takes over an oracle's answer as `upd_px` does and values the trade
    /// at its price, for the administrator, the buyer or the seller.
    pub fn mark(&mut self, user: Identity, oracle_data: &soroban_sdk::Vec<i128>) -> (r: Result<MarkToMarket, EscrowError>)
        ensures
            applies(
                old(self).mtm_outcome(user, host_items(*oracle_data)),
                *old(self),
                r,
                *final(self),
            ),
            old(self).wf() ==> final(self).wf(),
    {
        if !self.initialized {
            return Err(EscrowError::NotInitialized);
        }
        let d: ContractDefinition = match self.definition {
            None => { return Err(EscrowError::NotInitialized); },
            Some(d) => d,
        };
        if self.killswitch > GATE_NO_WRITES {
            return Err(EscrowError::OperationalGateClosed);
        }
        if !self.participant_is(user) {
            return Err(EscrowError::Unauthorized);
        }
        let snapshot: OracleSnapshot = match OracleSnapshot::read(oracle_data) {
            Ok(s) => s,
            Err(e) => { return Err(e); },
        };
        let report: MarkToMarket = match mark_to_market(
            d.strike,
            self.trade_px,
            self.trade_qty,
            snapshot.price,
        ) {
            Ok(m) => m,
            Err(e) => { return Err(e); },
        };
        self.snapshot = snapshot;
        Ok(report)
    }

    /// The mark-to-market of `mark`, reported as the host sequence of buyer
    /// obligation, seller obligation, buyer payout and seller payout.
    pub fn mtm(
        &mut self,
        env: &soroban_sdk::Env,
        user: Identity,
        oracle_data: &soroban_sdk::Vec<i128>,
    ) -> (r: Result<soroban_sdk::Vec<i128>, EscrowError>)
        ensures
            match old(self).mtm_outcome(user, host_items(*oracle_data)) {
                Ok((report, next)) => r is Ok && host_items(r.unwrap()) == report.entries()
                    && *final(self) == next,
                Err(e) => r is Err && r->Err_0 == e && *final(self) == *old(self),
            },
            old(self).wf() ==> final(self).wf(),
    {
        match self.mark(user, oracle_data) {
            Ok(report) => Ok(report.to_host_vec(env)),
            Err(e) => Err(e),
        }
    }

    /// Settles for `claimant` at the instant `now`: returns the payout to
    /// carry out from custody to the claimant, or none where nothing is due.
    /// The instance stays as it is; the deposits are not cleared.
    pub fn settle_at(&self, now: u64, counter_party: Identity) -> (r: Result<Option<Transfer>, EscrowError>)
        ensures
            r == self.settle_outcome(now, counter_party),
    {
        if !self.initialized {
            return Err(EscrowError::NotInitialized);
        }
        let d: ContractDefinition = match self.definition {
            None => { return Err(EscrowError::NotInitialized); },
            Some(d) => d,
        };
        if self.killswitch > GATE_OPEN {
            return Err(EscrowError::OperationalGateClosed);
        }
        if !d.exp.check(now) {
            return Err(EscrowError::NotYetExpired);
        }
        if !self.participant_is(counter_party) {
            return Err(EscrowError::UnauthorizedClaimant);
        }
        if !self.snapshot.is_settlement_price() {
            return Err(EscrowError::NoSettlementPrice);
        }
        let s = match settlement(
            d.strike,
            self.snapshot.price,
            self.trade_px,
            self.trade_qty,
            self.buyer_deposit,
            self.seller_deposit,
        ) {
            Ok(s) => s,
            Err(e) => { return Err(e); },
        };
        let mut payout: i128 = 0;
        if counter_party.is_held_by(&self.buyer) {
            if s.buyer_payout < 0 {
                return Err(EscrowError::NegativePayout);
            }
            if s.buyer_payout > 0 {
                payout = s.buyer_payout;
            }
        }
        if counter_party.is_held_by(&self.seller) {
            if s.seller_payout < 0 {
                return Err(EscrowError::NegativePayout);
            }
            if s.seller_payout > 0 {
                payout = s.seller_payout;
            }
        }
        if payout > 0 {
            Ok(
                Some(
                    Transfer {
                        token: d.token,
                        kind: TransferKind::Payout,
                        party: counter_party,
                        amount: payout,
                    },
                ),
            )
        } else {
            Ok(None)
        }
    }

    /// Settles for `claimant` at the close time of the current ledger; see
    /// `settle_at`.
    pub fn settle(&self, env: &soroban_sdk::Env, counter_party: Identity) -> (r: Result<Option<Transfer>, EscrowError>)
        ensures
            exists|now: u64| r == #[trigger] self.settle_outcome(now, counter_party),
    {
        let now: u64 = ledger_timestamp(env);
        self.settle_at(now, counter_party)
    }
}

} // verus!
