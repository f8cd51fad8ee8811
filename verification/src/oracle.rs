//! The price oracle: it keeps the latest quote its price pump has pushed and
//! answers with it on request.

use crate::error::EscrowError;
use crate::host::{host_items, host_vec_new, host_vec_push_back};
use crate::identity::Identity;
use crate::snapshot::OracleSnapshot;
use vstd::prelude::*;

verus! {

/// A quote as the price pump pushes it.
#[derive(Clone, Copy, Debug, PartialEq, Eq, Structural)]
pub struct UpdData {
    /// The asset the quote is for, as the oracle numbers it.
    pub token: i128,
    /// The price of the asset.
    pub price: i128,
    /// The instant of the price.
    pub timestamp: i128,
    /// The validity flags.
    pub flags: i128,
    /// The number of decimals of the price.
    pub decimals: u32,
}

impl UpdData {
    /// The five numbers the oracle answers with for this quote: asset,
    /// price, instant, flags and decimals.
    pub open spec fn entries(self) -> Seq<Option<i128>> {
        seq![
            Some(self.token),
            Some(self.price),
            Some(self.timestamp),
            Some(self.flags),
            Some(self.decimals as i128),
        ]
    }

    /// The snapshot an escrow instance takes from this quote.
    pub open spec fn snapshot(self) -> OracleSnapshot {
        OracleSnapshot {
            symbol: self.token,
            price: self.price,
            timestamp: self.timestamp,
            flags: self.flags,
        }
    }

    /// Writes the five numbers into a fresh sequence of the host.
    pub fn to_host_vec(&self, env: &soroban_sdk::Env) -> (v: soroban_sdk::Vec<i128>)
        ensures
            host_items(v) == self.entries(),
    {
        let mut v = host_vec_new(env);
        host_vec_push_back(&mut v, self.token);
        host_vec_push_back(&mut v, self.price);
        host_vec_push_back(&mut v, self.timestamp);
        host_vec_push_back(&mut v, self.flags);
        host_vec_push_back(&mut v, self.decimals as i128);
        assert(host_items(v) =~= self.entries());
        v
    }
}

/// The 32 bytes of a SHA-256 digest, as two big-endian halves.
#[derive(Clone, Copy, Debug, PartialEq, Eq, Structural)]
pub struct Digest {
    pub hi: u128,
    pub lo: u128,
}

/// One oracle instance.
#[derive(Clone, Copy, Debug, PartialEq, Eq)]
pub struct OracleContract {
    /// Whether the instance has been initialized.
    pub initialized: bool,
    /// The latest quote, once one has been pushed.
    pub quote: Option<UpdData>,
    /// The one identity that may push quotes, once it has been set.
    pub pxpump_user: Option<Identity>,
    /// The digest of the price pump's code, once it has been set.
    pub pxpump_hash: Option<Digest>,
}

impl OracleContract {
    /// The instance before it is initialized.
    pub open spec fn blank() -> OracleContract {
        OracleContract { initialized: false, quote: None, pxpump_user: None, pxpump_hash: None }
    }

    /// The outcome of `update` when `caller` pushes `quote`.
    pub open spec fn update_outcome(self, caller: Identity, quote: UpdData) -> Result<
        OracleContract,
        EscrowError,
    > {
        if !self.initialized {
            Err(EscrowError::NotInitialized)
        } else if !caller.held_by(self.pxpump_user) {
            Err(EscrowError::Unauthorized)
        } else {
            Ok(OracleContract { quote: Some(quote), ..self })
        }
    }

    /// The quote `retrieve` answers with.
    pub open spec fn retrieve_outcome(self) -> Result<UpdData, EscrowError> {
        if !self.initialized {
            Err(EscrowError::NotInitialized)
        } else if self.quote is None {
            Err(EscrowError::NoQuote)
        } else {
            Ok(self.quote.unwrap())
        }
    }

    /// An instance that has not been initialized.
    pub fn new() -> (o: OracleContract)
        ensures
            o == OracleContract::blank(),
    {
        OracleContract { initialized: false, quote: None, pxpump_user: None, pxpump_hash: None }
    }

    /// Marks the instance initialized; refused on an instance that is.
    pub fn init(&mut self) -> (r: Result<(), EscrowError>)
        ensures
            old(self).initialized ==> r == Err::<(), EscrowError>(EscrowError::AlreadyInitialized)
                && *final(self) == *old(self),
            !old(self).initialized ==> r == Ok::<(), EscrowError>(()) && *final(self) == (
            OracleContract { initialized: true, ..*old(self) }),
    {
        if self.initialized {
            return Err(EscrowError::AlreadyInitialized);
        }
        self.initialized = true;
        Ok(())
    }

    /// Names the identity that may push quotes.
    pub fn set_pxpump_user(&mut self, user: Identity) -> (r: Result<(), EscrowError>)
        ensures
            !old(self).initialized ==> r == Err::<(), EscrowError>(EscrowError::NotInitialized)
                && *final(self) == *old(self),
            old(self).initialized ==> r == Ok::<(), EscrowError>(()) && *final(self) == (
            OracleContract { pxpump_user: Some(user), ..*old(self) }),
    {
        if !self.initialized {
            return Err(EscrowError::NotInitialized);
        }
        self.pxpump_user = Some(user);
        Ok(())
    }

    /// Records the digest of the price pump's code.
    pub fn set_pxpump_hash(&mut self, hash: Digest) -> (r: Result<(), EscrowError>)
        ensures
            !old(self).initialized ==> r == Err::<(), EscrowError>(EscrowError::NotInitialized)
                && *final(self) == *old(self),
            old(self).initialized ==> r == Ok::<(), EscrowError>(()) && *final(self) == (
            OracleContract { pxpump_hash: Some(hash), ..*old(self) }),
    {
        if !self.initialized {
            return Err(EscrowError::NotInitialized);
        }
        self.pxpump_hash = Some(hash);
        Ok(())
    }

    /// Takes a new quote from `caller`, who must be the price pump user, in
    /// place of the one held before.
    pub fn update(
        &mut self,
        caller: Identity,
        token: i128,
        price: i128,
        timestamp: i128,
        flags: i128,
        decimals: u32,
    ) -> (r: Result<(), EscrowError>)
        ensures
            match old(self).update_outcome(
                caller,
                UpdData { token, price, timestamp, flags, decimals },
            ) {
                Ok(next) => r == Ok::<(), EscrowError>(()) && *final(self) == next,
                Err(e) => r == Err::<(), EscrowError>(e) && *final(self) == *old(self),
            },
    {
        if !self.initialized {
            return Err(EscrowError::NotInitialized);
        }
        if !caller.is_held_by(&self.pxpump_user) {
            return Err(EscrowError::Unauthorized);
        }
        self.quote = Some(UpdData { token, price, timestamp, flags, decimals });
        Ok(())
    }

    /// The latest quote.
    pub fn latest(&self) -> (r: Result<UpdData, EscrowError>)
        ensures
            r == self.retrieve_outcome(),
    {
        if !self.initialized {
            return Err(EscrowError::NotInitialized);
        }
        match self.quote {
            Some(q) => Ok(q),
            None => Err(EscrowError::NoQuote),
        }
    }

    /// The latest quote as the host sequence of asset, price, instant,
    /// flags and decimals.
    pub fn retrieve(&self, env: &soroban_sdk::Env) -> (r: Result<soroban_sdk::Vec<i128>, EscrowError>)
        ensures
            match self.retrieve_outcome() {
                Ok(quote) => r is Ok && host_items(r.unwrap()) == quote.entries(),
                Err(e) => r is Err && r->Err_0 == e,
            },
    {
        match self.latest() {
            Ok(q) => Ok(q.to_host_vec(env)),
            Err(e) => Err(e),
        }
    }
}

/// An escrow instance reads from the oracle's answer exactly the asset,
/// price, instant and flags of the quote; the decimals that follow them are
/// not looked at.
pub proof fn lemma_answer_decodes_to_quote(quote: UpdData)
    ensures
        OracleSnapshot::decode(quote.entries()) == Ok::<OracleSnapshot, EscrowError>(
            quote.snapshot(),
        ),
{
}

} // verus!
