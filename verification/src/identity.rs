//! Identities of accounts and contracts on the ledger.

use vstd::prelude::*;

verus! {

/// What an identity names.
#[derive(Clone, Copy, Debug, PartialEq, Eq, Structural)]
pub enum IdentityKind {
    /// An account, named by its public key.
    Account,
    /// A contract, named by the hash it was deployed under.
    Contract,
}

/// The identity of an account or a contract: its kind and the 32 bytes that
/// name it, held as two big-endian halves. Two identities are the same party
/// exactly when kind and both halves agree.
///
/// Whoever hands an identity to an operation as its caller has established
/// beforehand that the caller controls it.
#[derive(Clone, Copy, Debug, PartialEq, Eq, Structural)]
pub struct Identity {
    pub kind: IdentityKind,
    pub hi: u128,
    pub lo: u128,
}

impl Identity {
    /// Whether `slot` holds this identity.
    pub open spec fn held_by(self, slot: Option<Identity>) -> bool {
        slot == Some(self)
    }

    /// Tests whether `slot` holds this identity.
    pub fn is_held_by(&self, slot: &Option<Identity>) -> (held: bool)
        ensures
            held == self.held_by(*slot),
    {
        match slot {
            Some(other) => *other == *self,
            None => false,
        }
    }
}

} // verus!
