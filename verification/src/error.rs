//! Failure kinds of the vault and their stable numeric codes.

use vstd::prelude::*;

verus! {

/// The vault's own failure kinds. The declaration order fixes the numeric
/// code reported through [`VaultError::code`]; persisted tooling depends on
/// that mapping, so variants are only ever appended.
#[derive(Clone, Copy, Debug, PartialEq, Eq, Structural)]
pub enum VaultError {
    /// A record decode was attempted on storage never created, or of the
    /// wrong shape.
    UninitializedAccount,
    /// A requested or resolved withdrawal amount exceeds the balance, or
    /// resolves to zero.
    InsufficientFunds,
    /// The instruction payload does not decode against the tagged schema.
    InvalidInstruction,
    /// A re-initialize was attempted on an already-initialized record.
    AlreadyInitialized,
    /// The caller identity does not match the record's recorded owner.
    InvalidOwner,
    /// Checked arithmetic would leave the unsigned 64-bit range.
    Overflow,
    /// The cooldown window has not yet elapsed since the last withdrawal.
    WithdrawalCooldown,
}

impl VaultError {
    /// The stable numeric code of this failure, for the host's error channel.
    pub fn code(&self) -> (c: u32)
        ensures
            c == self.spec_code(),
    {
        match self {
            VaultError::UninitializedAccount => 0,
            VaultError::InsufficientFunds => 1,
            VaultError::InvalidInstruction => 2,
            VaultError::AlreadyInitialized => 3,
            VaultError::InvalidOwner => 4,
            VaultError::Overflow => 5,
            VaultError::WithdrawalCooldown => 6,
        }
    }

    /// The code mapping, as a mathematical function of the variant.
    pub open spec fn spec_code(self) -> u32 {
        match self {
            VaultError::UninitializedAccount => 0,
            VaultError::InsufficientFunds => 1,
            VaultError::InvalidInstruction => 2,
            VaultError::AlreadyInitialized => 3,
            VaultError::InvalidOwner => 4,
            VaultError::Overflow => 5,
            VaultError::WithdrawalCooldown => 6,
        }
    }
}

/// Everything a vault operation can fail with: a guard failure detected
/// before any state is read, a missing account handle, or a vault failure
/// proper.
#[derive(Clone, Copy, Debug, PartialEq, Eq, Structural)]
pub enum ProcessError {
    /// The caller did not cryptographically authorize the account.
    MissingSignature,
    /// The account's storage may not be mutated in this call.
    NotWritable,
    /// The account's balance does not cover the minimum required to keep
    /// its data persisted indefinitely.
    StorageNotPrepaid,
    /// The ordered account list is shorter than the operation requires.
    NotEnoughAccounts,
    /// A failure of the vault's own rules.
    Vault(VaultError),
}

} // verus!
