//! System-wide laws of the vault, stated and proved once over the spec
//! functions that the executable contracts are written in.

use vstd::prelude::*;

use crate::account::AccountView;
use crate::codec::decoded_initialized;
use crate::codec::decoded_last_withdrawal_time;
use crate::codec::decoded_owner;
use crate::codec::decoded_total_deposits;
use crate::codec::record_bytes_wf;
use crate::error::ProcessError;
use crate::error::VaultError;
use crate::processor::deposit_post;
use crate::processor::spec_resolved_amount;
use crate::processor::withdraw_post;
use crate::processor::DepositEffect;
use crate::processor::WithdrawEffect;
use crate::processor::COOLDOWN_PERIOD_SECONDS;
use crate::state::VaultState;

verus! {

/// The exact sum of a sequence of deposit amounts.
pub open spec fn seq_sum(amounts: Seq<u64>) -> int
    decreases amounts.len(),
{
    if amounts.len() == 0 {
        0
    } else {
        amounts[0] + seq_sum(amounts.drop_first())
    }
}

/// The record a sequence of deposits leads to, stopping at the first
/// failure.
pub open spec fn apply_deposits(s: VaultState, amounts: Seq<u64>) -> Result<
    VaultState,
    VaultError,
>
    decreases amounts.len(),
{
    if amounts.len() == 0 {
        Ok(s)
    } else {
        match s.spec_deposit(amounts[0]) {
            Ok(next) => apply_deposits(next, amounts.drop_first()),
            Err(e) => Err(e),
        }
    }
}

/// A sum of unsigned amounts is never negative.
pub proof fn lemma_seq_sum_nonneg(amounts: Seq<u64>)
    ensures
        seq_sum(amounts) >= 0,
    decreases amounts.len(),
{
    if amounts.len() > 0 {
        lemma_seq_sum_nonneg(amounts.drop_first());
    }
}

/// No deposit is lost or duplicated: a sequence of deposits whose exact
/// sum stays representable succeeds and adds exactly that sum to the
/// balance, touching nothing else; a sequence whose sum would pass the
/// unsigned 64-bit maximum fails with `Overflow`.
pub proof fn lemma_deposits_accumulate(s: VaultState, amounts: Seq<u64>)
    ensures
        s.total_deposits + seq_sum(amounts) <= u64::MAX ==> (apply_deposits(s, amounts) matches Ok(
            t,
        ) && t.total_deposits == s.total_deposits + seq_sum(amounts) && t.is_initialized
            == s.is_initialized && t.owner == s.owner && t.last_withdrawal_time
            == s.last_withdrawal_time),
        s.total_deposits + seq_sum(amounts) > u64::MAX ==> apply_deposits(s, amounts) == Err::<
            VaultState,
            VaultError,
        >(VaultError::Overflow),
    decreases amounts.len(),
{
    if amounts.len() > 0 {
        match s.spec_deposit(amounts[0]) {
            Ok(next) => {
                lemma_deposits_accumulate(next, amounts.drop_first());
            },
            Err(_) => {
                lemma_seq_sum_nonneg(amounts.drop_first());
            },
        }
    }
}

/// A deposit that would pass the unsigned 64-bit maximum fails with
/// `Overflow`; since the failed transition returns the record unchanged,
/// its persisted bytes are unchanged too.
pub proof fn lemma_deposit_overflow_rejected(s: VaultState, amount: u64)
    requires
        s.total_deposits + amount > u64::MAX,
    ensures
        s.spec_deposit(amount) == Err::<VaultState, VaultError>(VaultError::Overflow),
{
}

/// Withdrawal bound: any amount above the balance fails with
/// `InsufficientFunds`; any amount up to the balance succeeds and
/// subtracts exactly that amount; withdrawing exactly the balance leaves
/// it at zero.
pub proof fn lemma_withdraw_bound(s: VaultState, amount: u64, now: i64)
    ensures
        amount > s.total_deposits ==> s.spec_withdraw(amount, now) == Err::<
            VaultState,
            VaultError,
        >(VaultError::InsufficientFunds),
        amount <= s.total_deposits ==> (s.spec_withdraw(amount, now) matches Ok(t)
            && t.total_deposits == s.total_deposits - amount && t.last_withdrawal_time == now),
        s.spec_withdraw(s.total_deposits, now) matches Ok(t) && t.total_deposits == 0,
{
}

/// Cooldown law: whatever the amount and the balance, a withdrawal by the
/// recorded owner attempted before `last_withdrawal_time + 86400` fails
/// with `WithdrawalCooldown`.
pub proof fn lemma_cooldown_gates_withdrawal(
    vault: AccountView,
    owner: AccountView,
    amount: u64,
    now: i64,
    r: Result<WithdrawEffect, ProcessError>,
)
    requires
        withdraw_post(vault, owner, amount, now, r),
        owner.is_signer,
        vault.is_writable,
        record_bytes_wf(vault.data@),
        decoded_initialized(vault.data@),
        decoded_owner(vault.data@) == owner.key@,
        now < decoded_last_withdrawal_time(vault.data@) + COOLDOWN_PERIOD_SECONDS,
    ensures
        r matches Err(e) && e == ProcessError::Vault(VaultError::WithdrawalCooldown),
{
}

/// Zero-amount resolution: once the guards and the cooldown pass, and
/// the vault's held balance covers its recorded balance, a request of
/// zero resolves to a tenth of the balance, truncating; when that tenth
/// is zero the call fails with `InsufficientFunds` even though the
/// balance may be nonzero, and otherwise exactly the tenth is withdrawn.
pub proof fn lemma_zero_amount_resolution(
    vault: AccountView,
    owner: AccountView,
    now: i64,
    r: Result<WithdrawEffect, ProcessError>,
)
    requires
        withdraw_post(vault, owner, 0, now, r),
        owner.is_signer,
        vault.is_writable,
        record_bytes_wf(vault.data@),
        decoded_initialized(vault.data@),
        decoded_owner(vault.data@) == owner.key@,
        now >= decoded_last_withdrawal_time(vault.data@) + COOLDOWN_PERIOD_SECONDS,
        vault.lamports >= decoded_total_deposits(vault.data@),
    ensures
        spec_resolved_amount(0, decoded_total_deposits(vault.data@)) == decoded_total_deposits(
            vault.data@,
        ) / 10,
        decoded_total_deposits(vault.data@) / 10 == 0 ==> (r matches Err(e) && e
            == ProcessError::Vault(VaultError::InsufficientFunds)),
        decoded_total_deposits(vault.data@) / 10 != 0 ==> (r matches Ok(eff)
            && eff.withdrawal_amount == decoded_total_deposits(vault.data@) / 10),
{
    assert(decoded_total_deposits(vault.data@) / 10 <= decoded_total_deposits(vault.data@));
}

/// Record invariants across a successful deposit: the owner and the
/// initialized flag are untouched, and the cooldown seed does not move —
/// only a successful withdrawal may advance it.
pub proof fn lemma_deposit_preserves_invariants(
    vault: AccountView,
    owner: AccountView,
    amount: u64,
    eff: DepositEffect,
)
    requires
        deposit_post(vault, owner, amount, Ok(eff)),
    ensures
        decoded_owner(eff.record_data@) == decoded_owner(vault.data@),
        decoded_initialized(eff.record_data@) == decoded_initialized(vault.data@),
        decoded_last_withdrawal_time(eff.record_data@) == decoded_last_withdrawal_time(
            vault.data@,
        ),
{
}

/// Record invariants across a successful withdrawal: the owner and the
/// initialized flag are untouched, and the cooldown seed is monotonic —
/// it advances to `now`, at least a full cooldown window past its old
/// value.
pub proof fn lemma_withdraw_advances_cooldown_seed(
    vault: AccountView,
    owner: AccountView,
    amount: u64,
    now: i64,
    eff: WithdrawEffect,
)
    requires
        withdraw_post(vault, owner, amount, now, Ok(eff)),
    ensures
        decoded_owner(eff.record_data@) == decoded_owner(vault.data@),
        decoded_initialized(eff.record_data@) == decoded_initialized(vault.data@),
        decoded_last_withdrawal_time(eff.record_data@) == now,
        decoded_last_withdrawal_time(eff.record_data@) >= decoded_last_withdrawal_time(
            vault.data@,
        ) + COOLDOWN_PERIOD_SECONDS,
{
}

/// Ownership law for deposits: an identity other than the record's owner,
/// even correctly signed, always fails with `InvalidOwner`.
pub proof fn lemma_owner_gates_deposit(
    vault: AccountView,
    owner: AccountView,
    amount: u64,
    r: Result<DepositEffect, ProcessError>,
)
    requires
        deposit_post(vault, owner, amount, r),
        owner.is_signer,
        vault.is_writable,
        record_bytes_wf(vault.data@),
        decoded_initialized(vault.data@),
        decoded_owner(vault.data@) != owner.key@,
    ensures
        r matches Err(e) && e == ProcessError::Vault(VaultError::InvalidOwner),
{
}

/// Ownership law for withdrawals: an identity other than the record's
/// owner, even correctly signed, always fails with `InvalidOwner`.
pub proof fn lemma_owner_gates_withdraw(
    vault: AccountView,
    owner: AccountView,
    amount: u64,
    now: i64,
    r: Result<WithdrawEffect, ProcessError>,
)
    requires
        withdraw_post(vault, owner, amount, now, r),
        owner.is_signer,
        vault.is_writable,
        record_bytes_wf(vault.data@),
        decoded_initialized(vault.data@),
        decoded_owner(vault.data@) != owner.key@,
    ensures
        r matches Err(e) && e == ProcessError::Vault(VaultError::InvalidOwner),
{
}

} // verus!
