//! Stateless guards run by every transition before it touches state.

use vstd::prelude::*;

use vstd::assert_seqs_equal;

use crate::account::AccountView;
use crate::error::ProcessError;
use crate::error::VaultError;
use crate::state::VaultState;

verus! {

/// Whether two 32-byte identities are the same.
fn keys_equal(a: &[u8; 32], b: &[u8; 32]) -> (r: bool)
    ensures
        r == (a@ == b@),
{
    let mut i: usize = 0;
    while i < 32
        invariant
            i <= 32,
            forall|j: int| 0 <= j < i ==> a@[j] == b@[j],
        decreases 32 - i,
    {
        if a[i] != b[i] {
            return false;
        }
        i = i + 1;
    }
    proof {
        assert_seqs_equal!(a@ == b@);
    }
    true
}

/// Fails with `MissingSignature` unless the caller cryptographically
/// authorized this account for the current call.
pub fn validate_is_signer(account: &AccountView) -> (r: Result<(), ProcessError>)
    ensures
        account.is_signer ==> r == Ok::<(), ProcessError>(()),
        !account.is_signer ==> r == Err::<(), ProcessError>(ProcessError::MissingSignature),
{
    if !account.is_signer {
        Err(ProcessError::MissingSignature)
    } else {
        Ok(())
    }
}

/// Fails with `NotWritable` unless the account's storage may be mutated in
/// this call.
pub fn validate_is_writable(account: &AccountView) -> (r: Result<(), ProcessError>)
    ensures
        account.is_writable ==> r == Ok::<(), ProcessError>(()),
        !account.is_writable ==> r == Err::<(), ProcessError>(ProcessError::NotWritable),
{
    if !account.is_writable {
        Err(ProcessError::NotWritable)
    } else {
        Ok(())
    }
}

/// Fails with `StorageNotPrepaid` unless the account's held balance covers
/// `minimum_balance`, the least balance that keeps data of its size
/// persisted indefinitely under the host's storage-economics model. The
/// host computes that minimum; the guard holds the account to it.
pub fn validate_rent_exempt(account: &AccountView, minimum_balance: u64) -> (r: Result<
    (),
    ProcessError,
>)
    ensures
        account.lamports >= minimum_balance ==> r == Ok::<(), ProcessError>(()),
        account.lamports < minimum_balance ==> r == Err::<(), ProcessError>(
            ProcessError::StorageNotPrepaid,
        ),
{
    if account.lamports < minimum_balance {
        Err(ProcessError::StorageNotPrepaid)
    } else {
        Ok(())
    }
}

/// Fails with `InvalidOwner` unless `expected_owner` is the identity the
/// record has on file.
pub fn validate_owner(vault_state: &VaultState, expected_owner: &[u8; 32]) -> (r: Result<
    (),
    ProcessError,
>)
    ensures
        vault_state.owner@ == expected_owner@ ==> r == Ok::<(), ProcessError>(()),
        vault_state.owner@ != expected_owner@ ==> r == Err::<(), ProcessError>(
            ProcessError::Vault(VaultError::InvalidOwner),
        ),
{
    if !keys_equal(&vault_state.owner, expected_owner) {
        Err(ProcessError::Vault(VaultError::InvalidOwner))
    } else {
        Ok(())
    }
}

} // verus!
