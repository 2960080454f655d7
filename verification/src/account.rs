//! Plain-value view of an account handle.
//!
//! The host runtime resolves signatures, writability and balances before a
//! call reaches the vault; the library sees only this record of the
//! outcome, so every rule about an account is stated and checked over
//! plain values.

use vstd::prelude::*;

verus! {

/// What one account handle of the current call looks like to the vault:
/// its 32-byte identity, whether the caller cryptographically authorized
/// it, whether its storage may be mutated, its held balance, and a copy of
/// its persisted data region.
#[derive(Clone, Debug)]
pub struct AccountView {
    /// The account's 32-byte identity.
    pub key: [u8; 32],
    /// True iff the caller signed for this account in the current call.
    pub is_signer: bool,
    /// True iff this account's storage may be mutated in the current call.
    pub is_writable: bool,
    /// The balance the account currently holds.
    pub lamports: u64,
    /// The account's persisted data region.
    pub data: Vec<u8>,
}

} // verus!
