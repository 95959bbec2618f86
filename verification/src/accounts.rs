//! Plain-value models of the ledger objects the engine reads and writes:
//! account identities, token accounts, and the transfer instruction the
//! engine hands back to the external token ledger.

use vstd::prelude::*;

verus! {

/// Identity of an account on the host ledger.
#[derive(Clone, Copy, PartialEq, Eq, Structural, Debug)]
pub struct AccountId {
    pub value: u64,
}

/// What the engine reads of a token account: its address, the identity that
/// controls it, the kind of token it holds, and its balance.
#[derive(Clone, Copy, PartialEq, Eq, Structural, Debug)]
pub struct TokenAccount {
    pub address: AccountId,
    pub owner: AccountId,
    pub mint: AccountId,
    pub amount: u64,
}

/// The signing identity under which a transfer is issued.
#[derive(Clone, Copy, PartialEq, Eq, Structural, Debug)]
pub enum Authority {
    /// An ordinary account signing for itself: the depositor funding a vault.
    Signer(AccountId),
    /// The vault authority, derived by the host from the schedule's stable
    /// identifier and the stored derivation factor.
    VaultSigner { vesting: AccountId, bump: u8 },
}

/// One instruction to the external token ledger: debit `amount` from `from`
/// and credit it to `to`, signed as `authority`.
#[derive(Clone, Copy, PartialEq, Eq, Structural, Debug)]
pub struct Transfer {
    pub from: AccountId,
    pub to: AccountId,
    pub authority: Authority,
    pub amount: u64,
}

} // verus!
