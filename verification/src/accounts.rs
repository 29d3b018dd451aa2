//! Plain-value pictures of the ledger objects the protocol reads, and of the
//! asset movements it asks the ledger to perform.

use vstd::prelude::*;
use vstd::std_specs::cmp::PartialEqSpecImpl;

verus! {

/// A 32-byte public key naming an authority or an account.
#[derive(Clone, Copy, Debug, Eq)]
pub struct Identity {
    pub bytes: [u8; 32],
}

impl PartialEq for Identity {
    fn eq(&self, other: &Identity) -> (same: bool) {
        let mut i: usize = 0;
        while i < 32
            invariant
                0 <= i <= 32,
                forall|j: int| 0 <= j < i ==> self.bytes@[j] == other.bytes@[j],
            decreases 32 - i,
        {
            if self.bytes[i] != other.bytes[i] {
                return false;
            }
            i += 1;
        }
        assert(self.bytes@ =~= other.bytes@);
        assert(self.bytes == other.bytes);
        true
    }
}

impl PartialEqSpecImpl for Identity {
    open spec fn obeys_eq_spec() -> bool {
        true
    }

    open spec fn eq_spec(&self, other: &Identity) -> bool {
        *self == *other
    }
}

} // verus!

verus! {

/// What the protocol reads of the asset kind being distributed.
#[derive(Clone, Copy, Debug, PartialEq, Eq)]
pub struct Mint {
    /// Address of the asset kind.
    pub key: Identity,
    /// Decimal precision the asset kind was declared with.
    pub decimals: u8,
}

/// What the protocol reads of one balance-holding account of the ledger.
#[derive(Clone, Copy, Debug, PartialEq, Eq)]
pub struct TokenAccount {
    /// Address of the account.
    pub key: Identity,
    /// Units it holds at the moment the operation starts.
    pub amount: u64,
}

/// A request to the ledger: create `amount` new units of `mint` in account
/// `to`, signed for by `authority`.
#[derive(Clone, Copy, Debug, PartialEq, Eq)]
pub struct MintTo {
    pub mint: Identity,
    pub to: Identity,
    pub authority: Identity,
    /// Bump of the address `authority`, which the ledger needs to accept the
    /// protocol's signature for it.
    pub authority_bump: u8,
    pub amount: u64,
}

/// A request to the ledger: move `amount` units of `mint` from `from` to `to`,
/// signed for by `authority` and checked against the precision `decimals`.
#[derive(Clone, Copy, Debug, PartialEq, Eq)]
pub struct TransferChecked {
    pub from: Identity,
    pub mint: Identity,
    pub to: Identity,
    pub authority: Identity,
    /// Bump of the address `authority`, which the ledger needs to accept the
    /// protocol's signature for it.
    pub authority_bump: u8,
    pub amount: u64,
    pub decimals: u8,
}

} // verus!
