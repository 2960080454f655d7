//! The transition orchestrator: the three entry operations and the
//! instruction dispatcher.
//!
//! Each operation runs its guards, applies the pure state transition, and
//! returns an effect: what the host must do (fund storage, transfer value,
//! move balances) and the exact bytes to persist. The host performs the
//! effect atomically or not at all; the contracts here pin, for every
//! input, either the effect or the precise failure.

use vstd::prelude::*;

use crate::account::AccountView;
use crate::codec::decoded_initialized;
use crate::codec::decoded_last_withdrawal_time;
use crate::codec::decoded_owner;
use crate::codec::decoded_total_deposits;
use crate::codec::deserialize_record;
use crate::codec::lemma_record_round_trip;
use crate::codec::record_bytes_wf;
use crate::codec::serialize_record;
use crate::codec::spec_serialize;
use crate::error::ProcessError;
use crate::error::VaultError;
use crate::instruction::parse_instruction;
use crate::instruction::spec_parse_instruction;
use crate::instruction::VaultInstruction;
use crate::state::VaultState;
use crate::validation::validate_is_signer;
use crate::validation::validate_is_writable;
use crate::validation::validate_owner;
use crate::validation::validate_rent_exempt;

verus! {

/// The fixed minimum interval between successful withdrawals: 24 hours,
/// in seconds. Not per-vault configurable.
pub const COOLDOWN_PERIOD_SECONDS: i64 = 24 * 60 * 60;

/// What the host must perform to complete an `Initialize`: allocate
/// `space` bytes of vault storage funded with `fund_lamports` from the
/// owner, then persist `record_data` into it.
#[derive(Debug)]
pub struct InitializeEffect {
    /// Lamports the owner must fund the new storage with.
    pub fund_lamports: u64,
    /// Exact byte length of the storage to allocate.
    pub space: u64,
    /// The serialized record to persist.
    pub record_data: Vec<u8>,
}

/// What the host must perform to complete a `Deposit`: transfer
/// `transfer_amount` from the owner to the vault, then persist
/// `record_data`.
#[derive(Debug)]
pub struct DepositEffect {
    /// Lamports to move from the owner to the vault storage.
    pub transfer_amount: u64,
    /// The serialized record to persist.
    pub record_data: Vec<u8>,
}

/// What the host must perform to complete a `Withdraw`: debit the vault's
/// held balance and credit the owner's by `withdrawal_amount`, then
/// persist `record_data`.
#[derive(Debug)]
pub struct WithdrawEffect {
    /// Lamports to move from the vault storage back to the owner.
    pub withdrawal_amount: u64,
    /// The serialized record to persist.
    pub record_data: Vec<u8>,
}

/// The effect of whichever operation the instruction selected.
#[derive(Debug)]
pub enum VaultEffect {
    /// An `Initialize` ran.
    Initialized(InitializeEffect),
    /// A `Deposit` ran.
    Deposited(DepositEffect),
    /// A `Withdraw` ran.
    Withdrawn(WithdrawEffect),
}

/// The amount a withdrawal request resolves to: a request of zero means
/// 10% of the current balance, truncating; anything else is literal.
pub open spec fn spec_resolved_amount(requested: u64, balance: u64) -> u64 {
    if requested == 0 {
        balance / 10
    } else {
        requested
    }
}

/// Exactly what [`initialize`] returns, for every input.
pub open spec fn initialize_post(
    vault: AccountView,
    owner: AccountView,
    vault_rent_minimum: u64,
    record_rent_minimum: u64,
    now: i64,
    r: Result<InitializeEffect, ProcessError>,
) -> bool {
    match r {
        Ok(eff) => owner.is_signer && vault.is_writable && vault.lamports >= vault_rent_minimum
            && eff.fund_lamports == record_rent_minimum && eff.space == VaultState::LEN
            && eff.record_data@ == spec_serialize(VaultState::spec_new(owner.key, now)),
        Err(e) => if !owner.is_signer {
            e == ProcessError::MissingSignature
        } else if !vault.is_writable {
            e == ProcessError::NotWritable
        } else {
            vault.lamports < vault_rent_minimum && e == ProcessError::StorageNotPrepaid
        },
    }
}

/// Exactly what [`deposit`] returns, for every input.
pub open spec fn deposit_post(
    vault: AccountView,
    owner: AccountView,
    amount: u64,
    r: Result<DepositEffect, ProcessError>,
) -> bool {
    let data = vault.data@;
    match r {
        Ok(eff) => owner.is_signer && vault.is_writable && record_bytes_wf(data)
            && decoded_initialized(data) && decoded_owner(data) == owner.key@
            && decoded_total_deposits(data) + amount <= u64::MAX && eff.transfer_amount == amount
            && record_bytes_wf(eff.record_data@) && decoded_initialized(eff.record_data@)
            && decoded_owner(eff.record_data@) == decoded_owner(data)
            && decoded_total_deposits(eff.record_data@) == decoded_total_deposits(data) + amount
            && decoded_last_withdrawal_time(eff.record_data@) == decoded_last_withdrawal_time(
            data,
        ),
        Err(e) => if !owner.is_signer {
            e == ProcessError::MissingSignature
        } else if !vault.is_writable {
            e == ProcessError::NotWritable
        } else if !record_bytes_wf(data) || !decoded_initialized(data) {
            e == ProcessError::Vault(VaultError::UninitializedAccount)
        } else if decoded_owner(data) != owner.key@ {
            e == ProcessError::Vault(VaultError::InvalidOwner)
        } else {
            decoded_total_deposits(data) + amount > u64::MAX && e == ProcessError::Vault(
                VaultError::Overflow,
            )
        },
    }
}

/// Exactly what [`withdraw`] returns, for every input.
pub open spec fn withdraw_post(
    vault: AccountView,
    owner: AccountView,
    amount: u64,
    now: i64,
    r: Result<WithdrawEffect, ProcessError>,
) -> bool {
    let data = vault.data@;
    let balance = decoded_total_deposits(data);
    let resolved = spec_resolved_amount(amount, balance);
    match r {
        Ok(eff) => owner.is_signer && vault.is_writable && record_bytes_wf(data)
            && decoded_initialized(data) && decoded_owner(data) == owner.key@ && now
            - decoded_last_withdrawal_time(data) >= COOLDOWN_PERIOD_SECONDS && resolved != 0
            && resolved <= balance && vault.lamports >= resolved && eff.withdrawal_amount
            == resolved && record_bytes_wf(eff.record_data@) && decoded_initialized(
            eff.record_data@,
        ) && decoded_owner(eff.record_data@) == decoded_owner(data) && decoded_total_deposits(
            eff.record_data@,
        ) == balance - resolved && decoded_last_withdrawal_time(eff.record_data@) == now,
        Err(e) => if !owner.is_signer {
            e == ProcessError::MissingSignature
        } else if !vault.is_writable {
            e == ProcessError::NotWritable
        } else if !record_bytes_wf(data) || !decoded_initialized(data) {
            e == ProcessError::Vault(VaultError::UninitializedAccount)
        } else if decoded_owner(data) != owner.key@ {
            e == ProcessError::Vault(VaultError::InvalidOwner)
        } else if now - decoded_last_withdrawal_time(data) < COOLDOWN_PERIOD_SECONDS {
            e == ProcessError::Vault(VaultError::WithdrawalCooldown)
        } else {
            (resolved == 0 || resolved > balance || vault.lamports < resolved) && e
                == ProcessError::Vault(VaultError::InsufficientFunds)
        },
    }
}

/// Initialize: checks that the owner signed, the vault is writable and its
/// balance covers `vault_rent_minimum`, then builds the fresh record and
/// asks the host to allocate and fund its 49 bytes of storage.
///
/// `vault_rent_minimum` is the host's storage-prepayment minimum for the
/// vault account as it stands; `record_rent_minimum` is the minimum for a
/// 49-byte account, with which the new storage is funded.
pub fn initialize(
    vault: &AccountView,
    owner: &AccountView,
    vault_rent_minimum: u64,
    record_rent_minimum: u64,
    now: i64,
) -> (r: Result<InitializeEffect, ProcessError>)
    ensures
        initialize_post(*vault, *owner, vault_rent_minimum, record_rent_minimum, now, r),
{
    if let Err(e) = validate_is_signer(owner) {
        return Err(e);
    }
    if let Err(e) = validate_is_writable(vault) {
        return Err(e);
    }
    if let Err(e) = validate_rent_exempt(vault, vault_rent_minimum) {
        return Err(e);
    }
    let vault_state = VaultState::new(owner.key, now);
    let record_data = serialize_record(&vault_state);
    Ok(
        InitializeEffect {
            fund_lamports: record_rent_minimum,
            space: VaultState::LEN as u64,
            record_data,
        },
    )
}

/// Deposit: checks that the owner signed and the vault is writable,
/// decodes the record, rejects storage never initialized, checks
/// ownership, and adds `amount` to the balance with checked arithmetic.
/// The returned effect carries the value transfer the host must perform
/// and the bytes to persist; both must commit together or not at all.
pub fn deposit(vault: &AccountView, owner: &AccountView, amount: u64) -> (r: Result<
    DepositEffect,
    ProcessError,
>)
    ensures
        deposit_post(*vault, *owner, amount, r),
{
    if let Err(e) = validate_is_signer(owner) {
        return Err(e);
    }
    if let Err(e) = validate_is_writable(vault) {
        return Err(e);
    }
    let mut vault_state = match deserialize_record(vault.data.as_slice()) {
        Ok(s) => s,
        Err(e) => {
            return Err(ProcessError::Vault(e));
        },
    };
    if !vault_state.is_initialized {
        return Err(ProcessError::Vault(VaultError::UninitializedAccount));
    }
    if let Err(e) = validate_owner(&vault_state, &owner.key) {
        return Err(e);
    }
    if let Err(e) = vault_state.deposit(amount) {
        return Err(ProcessError::Vault(e));
    }
    let record_data = serialize_record(&vault_state);
    proof {
        lemma_record_round_trip(vault_state);
    }
    Ok(DepositEffect { transfer_amount: amount, record_data })
}

/// Withdraw: checks that the owner signed and the vault is writable,
/// decodes the record, rejects storage never initialized, checks
/// ownership and the 24-hour cooldown, resolves the requested amount
/// (zero means 10% of the balance), and subtracts it. A resolved amount
/// of zero, one above the balance, or one the vault's held balance does
/// not cover fails with `InsufficientFunds`. On success the vault's held
/// balance covers the amount, so the host's direct debit cannot
/// underflow. The returned effect carries the balance movement the host
/// must perform and the bytes to persist.
pub fn withdraw(vault: &AccountView, owner: &AccountView, amount: u64, now: i64) -> (r: Result<
    WithdrawEffect,
    ProcessError,
>)
    ensures
        withdraw_post(*vault, *owner, amount, now, r),
{
    if let Err(e) = validate_is_signer(owner) {
        return Err(e);
    }
    if let Err(e) = validate_is_writable(vault) {
        return Err(e);
    }
    let mut vault_state = match deserialize_record(vault.data.as_slice()) {
        Ok(s) => s,
        Err(e) => {
            return Err(ProcessError::Vault(e));
        },
    };
    if !vault_state.is_initialized {
        return Err(ProcessError::Vault(VaultError::UninitializedAccount));
    }
    if let Err(e) = validate_owner(&vault_state, &owner.key) {
        return Err(e);
    }
    if !vault_state.can_withdraw(now, COOLDOWN_PERIOD_SECONDS) {
        return Err(ProcessError::Vault(VaultError::WithdrawalCooldown));
    }
    let withdrawal_amount = if amount == 0 {
        vault_state.total_deposits / 10
    } else {
        amount
    };
    if withdrawal_amount == 0 {
        return Err(ProcessError::Vault(VaultError::InsufficientFunds));
    }
    if vault.lamports < withdrawal_amount {
        return Err(ProcessError::Vault(VaultError::InsufficientFunds));
    }
    if let Err(e) = vault_state.withdraw(withdrawal_amount, now) {
        return Err(ProcessError::Vault(e));
    }
    let record_data = serialize_record(&vault_state);
    proof {
        lemma_record_round_trip(vault_state);
    }
    Ok(WithdrawEffect { withdrawal_amount, record_data })
}

/// Exactly what [`process_instruction`] returns, for every input.
pub open spec fn process_post(
    instruction_data: Seq<u8>,
    accounts: Seq<AccountView>,
    vault_rent_minimum: u64,
    record_rent_minimum: u64,
    now: i64,
    r: Result<VaultEffect, ProcessError>,
) -> bool {
    match spec_parse_instruction(instruction_data) {
        None => r == Err::<VaultEffect, ProcessError>(
            ProcessError::Vault(VaultError::InvalidInstruction),
        ),
        Some(inst) => if accounts.len() < 3 {
            r == Err::<VaultEffect, ProcessError>(ProcessError::NotEnoughAccounts)
        } else {
            match inst {
                VaultInstruction::Initialize => match r {
                    Ok(VaultEffect::Initialized(eff)) => initialize_post(
                        accounts[0],
                        accounts[1],
                        vault_rent_minimum,
                        record_rent_minimum,
                        now,
                        Ok(eff),
                    ),
                    Err(e) => initialize_post(
                        accounts[0],
                        accounts[1],
                        vault_rent_minimum,
                        record_rent_minimum,
                        now,
                        Err(e),
                    ),
                    _ => false,
                },
                VaultInstruction::Deposit { amount } => match r {
                    Ok(VaultEffect::Deposited(eff)) => deposit_post(
                        accounts[0],
                        accounts[1],
                        amount,
                        Ok(eff),
                    ),
                    Err(e) => deposit_post(accounts[0], accounts[1], amount, Err(e)),
                    _ => false,
                },
                VaultInstruction::Withdraw { amount } => match r {
                    Ok(VaultEffect::Withdrawn(eff)) => withdraw_post(
                        accounts[0],
                        accounts[1],
                        amount,
                        now,
                        Ok(eff),
                    ),
                    Err(e) => withdraw_post(accounts[0], accounts[1], amount, now, Err(e)),
                    _ => false,
                },
            }
        },
    }
}

/// Decodes the instruction, resolves the ordered account list positionally
/// (vault storage, owner, service account), and runs the selected
/// operation. Fails with `InvalidInstruction` when the payload does not
/// decode, and with `NotEnoughAccounts` when fewer than three handles were
/// passed.
pub fn process_instruction(
    instruction_data: &[u8],
    accounts: &[AccountView],
    vault_rent_minimum: u64,
    record_rent_minimum: u64,
    now: i64,
) -> (r: Result<VaultEffect, ProcessError>)
    ensures
        process_post(
            instruction_data@,
            accounts@,
            vault_rent_minimum,
            record_rent_minimum,
            now,
            r,
        ),
{
    let inst = match parse_instruction(instruction_data) {
        Ok(inst) => inst,
        Err(e) => {
            return Err(ProcessError::Vault(e));
        },
    };
    if accounts.len() < 3 {
        return Err(ProcessError::NotEnoughAccounts);
    }
    let vault = &accounts[0];
    let owner = &accounts[1];
    match inst {
        VaultInstruction::Initialize => {
            match initialize(vault, owner, vault_rent_minimum, record_rent_minimum, now) {
                Ok(eff) => Ok(VaultEffect::Initialized(eff)),
                Err(e) => Err(e),
            }
        },
        VaultInstruction::Deposit { amount } => {
            match deposit(vault, owner, amount) {
                Ok(eff) => Ok(VaultEffect::Deposited(eff)),
                Err(e) => Err(e),
            }
        },
        VaultInstruction::Withdraw { amount } => {
            match withdraw(vault, owner, amount, now) {
                Ok(eff) => Ok(VaultEffect::Withdrawn(eff)),
                Err(e) => Err(e),
            }
        },
    }
}

} // verus!
