//! The persisted vault record and its pure transitions.

use vstd::prelude::*;

use crate::error::VaultError;

verus! {

/// The sole persisted entity: one owner's balance and withdrawal cooldown
/// seed. Its binary layout is fixed at 49 bytes (see [`crate::codec`]).
#[derive(Clone, Copy, Debug)]
pub struct VaultState {
    /// True once the vault has been created; guards against operating on
    /// never-created or zeroed storage.
    pub is_initialized: bool,
    /// The only identity authorized to deposit into or withdraw from this
    /// vault. Immutable after initialization.
    pub owner: [u8; 32],
    /// Net balance currently held: deposits minus withdrawals.
    pub total_deposits: u64,
    /// Timestamp (seconds since epoch) of the most recent successful
    /// withdrawal, seeded to creation time so the cooldown also gates the
    /// very first withdrawal.
    pub last_withdrawal_time: i64,
}

impl VaultState {
    /// The fixed byte length of the serialized record:
    /// 1 (bool) + 32 (owner) + 8 (balance) + 8 (timestamp).
    pub const LEN: usize = 1 + 32 + 8 + 8;

    /// The record a fresh vault starts from.
    pub open spec fn spec_new(owner: [u8; 32], current_time: i64) -> VaultState {
        VaultState {
            is_initialized: true,
            owner: owner,
            total_deposits: 0,
            last_withdrawal_time: current_time,
        }
    }

    /// Creates the record of a fresh vault: initialized, zero balance, the
    /// cooldown seeded to `current_time`.
    ///
    /// The caller must have independently confirmed that the target storage
    /// was not already initialized; this constructor itself never fails.
    pub fn new(owner: [u8; 32], current_time: i64) -> (s: Self)
        ensures
            s == VaultState::spec_new(owner, current_time),
    {
        Self {
            is_initialized: true,
            owner,
            total_deposits: 0,
            last_withdrawal_time: current_time,
        }
    }

    /// What a deposit of `amount` does to this record: adds to the balance
    /// when the sum stays representable, otherwise fails with `Overflow`.
    pub open spec fn spec_deposit(self, amount: u64) -> Result<VaultState, VaultError> {
        if self.total_deposits + amount <= u64::MAX {
            Ok(
                (VaultState {
                    is_initialized: self.is_initialized,
                    owner: self.owner,
                    total_deposits: (self.total_deposits + amount) as u64,
                    last_withdrawal_time: self.last_withdrawal_time,
                }),
            )
        } else {
            Err(VaultError::Overflow)
        }
    }

    /// Adds `amount` to the balance with checked arithmetic. On `Overflow`
    /// the record is unchanged. A deposit of zero is legal and a no-op on
    /// the balance.
    pub fn deposit(&mut self, amount: u64) -> (r: Result<(), VaultError>)
        ensures
            match r {
                Ok(()) => old(self).spec_deposit(amount) == Ok::<VaultState, VaultError>(
                    *final(self),
                ),
                Err(e) => old(self).spec_deposit(amount) == Err::<VaultState, VaultError>(e)
                    && *final(self) == *old(self),
            },
    {
        match self.total_deposits.checked_add(amount) {
            Some(sum) => {
                self.total_deposits = sum;
                Ok(())
            },
            None => Err(VaultError::Overflow),
        }
    }

    /// What a withdrawal of `amount` at `current_time` does to this record:
    /// fails with `InsufficientFunds` when `amount` exceeds the balance,
    /// otherwise subtracts it and advances the cooldown seed.
    pub open spec fn spec_withdraw(self, amount: u64, current_time: i64) -> Result<
        VaultState,
        VaultError,
    > {
        if amount > self.total_deposits {
            Err(VaultError::InsufficientFunds)
        } else {
            Ok(
                (VaultState {
                    is_initialized: self.is_initialized,
                    owner: self.owner,
                    total_deposits: (self.total_deposits - amount) as u64,
                    last_withdrawal_time: current_time,
                }),
            )
        }
    }

    /// Subtracts `amount` from the balance and records `current_time` as the
    /// moment of withdrawal. Fails with `InsufficientFunds`, leaving the
    /// record unchanged, when `amount` exceeds the balance. The subtraction
    /// itself is still performed checked, as defense in depth; that arm is
    /// unreachable once the bound has been tested.
    pub fn withdraw(&mut self, amount: u64, current_time: i64) -> (r: Result<(), VaultError>)
        ensures
            match r {
                Ok(()) => old(self).spec_withdraw(amount, current_time) == Ok::<
                    VaultState,
                    VaultError,
                >(*final(self)),
                Err(e) => old(self).spec_withdraw(amount, current_time) == Err::<
                    VaultState,
                    VaultError,
                >(e) && *final(self) == *old(self),
            },
    {
        if amount > self.total_deposits {
            return Err(VaultError::InsufficientFunds);
        }
        match self.total_deposits.checked_sub(amount) {
            Some(rest) => {
                self.total_deposits = rest;
                self.last_withdrawal_time = current_time;
                Ok(())
            },
            None => Err(VaultError::Overflow),
        }
    }

    /// Whether the cooldown has elapsed: true iff
    /// `current_time - last_withdrawal_time >= cooldown_period`, computed
    /// over the mathematical integers.
    pub open spec fn spec_can_withdraw(self, current_time: i64, cooldown_period: i64) -> bool {
        current_time - self.last_withdrawal_time >= cooldown_period
    }

    /// Whether a withdrawal at `current_time` is outside the cooldown
    /// window. Computed in 128-bit arithmetic so no difference of two
    /// 64-bit timestamps can overflow.
    pub fn can_withdraw(&self, current_time: i64, cooldown_period: i64) -> (r: bool)
        ensures
            r == self.spec_can_withdraw(current_time, cooldown_period),
    {
        (current_time as i128) - (self.last_withdrawal_time as i128) >= (cooldown_period as i128)
    }
}

} // verus!
