use vault::account::AccountView;
use vault::codec::deserialize_record;
use vault::codec::i64_bits_of;
use vault::codec::i64_of_bits;
use vault::codec::serialize_record;
use vault::error::ProcessError;
use vault::error::VaultError;
use vault::instruction::encode_instruction;
use vault::instruction::parse_instruction;
use vault::instruction::VaultInstruction;
use vault::processor::deposit;
use vault::processor::initialize;
use vault::processor::process_instruction;
use vault::processor::withdraw;
use vault::processor::VaultEffect;
use vault::state::VaultState;

const OWNER_KEY: [u8; 32] = [7u8; 32];
const OTHER_KEY: [u8; 32] = [9u8; 32];

fn vault_account(data: Vec<u8>) -> AccountView {
    AccountView {
        key: [1u8; 32],
        is_signer: false,
        is_writable: true,
        lamports: 1_000_000,
        data,
    }
}

fn owner_account() -> AccountView {
    AccountView {
        key: OWNER_KEY,
        is_signer: true,
        is_writable: true,
        lamports: 500,
        data: Vec::new(),
    }
}

fn service_account() -> AccountView {
    AccountView {
        key: [0u8; 32],
        is_signer: false,
        is_writable: false,
        lamports: 1,
        data: Vec::new(),
    }
}

fn fresh_record(now: i64) -> Vec<u8> {
    let state = VaultState::new(OWNER_KEY, now);
    serialize_record(&state)
}

fn record_with_balance(balance: u64, last_time: i64) -> Vec<u8> {
    let mut state = VaultState::new(OWNER_KEY, last_time);
    state.deposit(balance).unwrap();
    serialize_record(&state)
}

#[test]
fn initialize_builds_fresh_record() {
    // Initialize at t=1000 with owner O: the persisted record reads
    // initialized, owner O, zero balance, cooldown seeded to 1000.
    let vault = vault_account(Vec::new());
    let owner = owner_account();
    let eff = initialize(&vault, &owner, 100, 340, 1000).unwrap();
    assert_eq!(eff.fund_lamports, 340);
    assert_eq!(eff.space, 49);
    assert_eq!(eff.record_data.len(), 49);
    let state = deserialize_record(&eff.record_data).unwrap();
    assert!(state.is_initialized);
    assert_eq!(state.owner, OWNER_KEY);
    assert_eq!(state.total_deposits, 0);
    assert_eq!(state.last_withdrawal_time, 1000);
}

#[test]
fn initialize_requires_signer() {
    let vault = vault_account(Vec::new());
    let mut owner = owner_account();
    owner.is_signer = false;
    let r = initialize(&vault, &owner, 100, 340, 1000);
    assert_eq!(r.unwrap_err(), ProcessError::MissingSignature);
}

#[test]
fn initialize_requires_writable_vault() {
    let mut vault = vault_account(Vec::new());
    vault.is_writable = false;
    let owner = owner_account();
    let r = initialize(&vault, &owner, 100, 340, 1000);
    assert_eq!(r.unwrap_err(), ProcessError::NotWritable);
}

#[test]
fn initialize_requires_storage_prepaid() {
    let mut vault = vault_account(Vec::new());
    vault.lamports = 99;
    let owner = owner_account();
    let r = initialize(&vault, &owner, 100, 340, 1000);
    assert_eq!(r.unwrap_err(), ProcessError::StorageNotPrepaid);
}

#[test]
fn deposits_accumulate() {
    // Deposit 500 then deposit 250: the balance reads exactly 750.
    let vault1 = vault_account(fresh_record(1000));
    let owner = owner_account();
    let eff1 = deposit(&vault1, &owner, 500).unwrap();
    assert_eq!(eff1.transfer_amount, 500);
    let vault2 = vault_account(eff1.record_data);
    let eff2 = deposit(&vault2, &owner, 250).unwrap();
    assert_eq!(eff2.transfer_amount, 250);
    let state = deserialize_record(&eff2.record_data).unwrap();
    assert_eq!(state.total_deposits, 750);
    assert_eq!(state.last_withdrawal_time, 1000);
    assert_eq!(state.owner, OWNER_KEY);
    assert!(state.is_initialized);
}

#[test]
fn deposit_of_zero_is_legal_noop_on_balance() {
    let vault = vault_account(record_with_balance(750, 1000));
    let owner = owner_account();
    let eff = deposit(&vault, &owner, 0).unwrap();
    let state = deserialize_record(&eff.record_data).unwrap();
    assert_eq!(state.total_deposits, 750);
}

#[test]
fn deposit_overflow_rejected_record_unchanged() {
    // A deposit pushing the balance past the unsigned 64-bit maximum
    // fails with Overflow; the persisted bytes are untouched.
    let record = record_with_balance(u64::MAX - 10, 1000);
    let vault = vault_account(record.clone());
    let owner = owner_account();
    let r = deposit(&vault, &owner, 11);
    assert_eq!(r.unwrap_err(), ProcessError::Vault(VaultError::Overflow));
    assert_eq!(vault.data, record);
    // The same deposit one unit smaller still fits.
    let eff = deposit(&vault, &owner, 10).unwrap();
    let state = deserialize_record(&eff.record_data).unwrap();
    assert_eq!(state.total_deposits, u64::MAX);
}

#[test]
fn deposit_by_wrong_identity_fails_invalid_owner() {
    // Correctly signed, but not the recorded owner.
    let vault = vault_account(fresh_record(1000));
    let mut intruder = owner_account();
    intruder.key = OTHER_KEY;
    let r = deposit(&vault, &intruder, 5);
    assert_eq!(r.unwrap_err(), ProcessError::Vault(VaultError::InvalidOwner));
}

#[test]
fn deposit_on_garbage_storage_fails_uninitialized() {
    let vault = vault_account(vec![0u8; 48]);
    let owner = owner_account();
    let r = deposit(&vault, &owner, 5);
    assert_eq!(
        r.unwrap_err(),
        ProcessError::Vault(VaultError::UninitializedAccount)
    );
    // A 49-byte region whose flag byte is neither 0 nor 1 is garbage too.
    let mut bad = vec![0u8; 49];
    bad[0] = 2;
    let vault = vault_account(bad);
    let r = deposit(&vault, &owner, 5);
    assert_eq!(
        r.unwrap_err(),
        ProcessError::Vault(VaultError::UninitializedAccount)
    );
}

#[test]
fn zeroed_storage_is_not_operable_even_by_matching_key() {
    // Zeroed 49 bytes decode to an uninitialized record whose owner field
    // is the all-zero key. Even a signed caller holding that very key is
    // turned away with UninitializedAccount, for deposits and for
    // withdrawals alike.
    let zeroed = vec![0u8; 49];
    let vault = vault_account(zeroed);
    let mut caller = owner_account();
    caller.key = [0u8; 32];
    let r = deposit(&vault, &caller, 5);
    assert_eq!(
        r.unwrap_err(),
        ProcessError::Vault(VaultError::UninitializedAccount)
    );
    let r = withdraw(&vault, &caller, 5, 1_000_000_000);
    assert_eq!(
        r.unwrap_err(),
        ProcessError::Vault(VaultError::UninitializedAccount)
    );
    // A caller with any other key gets the same answer: the flag is
    // checked before ownership.
    let r = deposit(&vault, &owner_account(), 5);
    assert_eq!(
        r.unwrap_err(),
        ProcessError::Vault(VaultError::UninitializedAccount)
    );
}

#[test]
fn withdraw_requires_held_balance_to_cover_amount() {
    // The record says 750 but the account only holds 50: the direct debit
    // would underflow, so the call fails InsufficientFunds instead.
    let mut vault = vault_account(record_with_balance(750, 1000));
    vault.lamports = 50;
    let owner = owner_account();
    let r = withdraw(&vault, &owner, 100, 1000 + 86400);
    assert_eq!(
        r.unwrap_err(),
        ProcessError::Vault(VaultError::InsufficientFunds)
    );
    // A held balance of exactly the resolved amount suffices.
    vault.lamports = 100;
    let eff = withdraw(&vault, &owner, 100, 1000 + 86400).unwrap();
    assert_eq!(eff.withdrawal_amount, 100);
}

#[test]
fn withdraw_during_cooldown_fails() {
    // Withdraw at t=1000 on a record seeded at t=1000: the 24-hour window
    // has not elapsed, whatever the amount or balance.
    let vault = vault_account(record_with_balance(750, 1000));
    let owner = owner_account();
    let r = withdraw(&vault, &owner, 0, 1000);
    assert_eq!(
        r.unwrap_err(),
        ProcessError::Vault(VaultError::WithdrawalCooldown)
    );
    let r = withdraw(&vault, &owner, 750, 1000 + 86399);
    assert_eq!(
        r.unwrap_err(),
        ProcessError::Vault(VaultError::WithdrawalCooldown)
    );
}

#[test]
fn withdraw_zero_resolves_to_tenth_of_balance() {
    // At t=1000+86400 on balance 750, a zero request resolves to 75; the
    // balance drops to 675 and the cooldown seed advances to 87400.
    let vault = vault_account(record_with_balance(750, 1000));
    let owner = owner_account();
    let eff = withdraw(&vault, &owner, 0, 1000 + 86400).unwrap();
    assert_eq!(eff.withdrawal_amount, 75);
    let state = deserialize_record(&eff.record_data).unwrap();
    assert_eq!(state.total_deposits, 675);
    assert_eq!(state.last_withdrawal_time, 87400);
    assert_eq!(state.owner, OWNER_KEY);
    assert!(state.is_initialized);
}

#[test]
fn withdraw_more_than_balance_fails_insufficient() {
    // Withdraw 10000 on balance 675: InsufficientFunds, record unchanged.
    let record = record_with_balance(675, 1000);
    let vault = vault_account(record.clone());
    let owner = owner_account();
    let r = withdraw(&vault, &owner, 10000, 1000 + 86400);
    assert_eq!(
        r.unwrap_err(),
        ProcessError::Vault(VaultError::InsufficientFunds)
    );
    assert_eq!(vault.data, record);
}

#[test]
fn withdraw_exact_balance_leaves_zero() {
    let vault = vault_account(record_with_balance(675, 1000));
    let owner = owner_account();
    let eff = withdraw(&vault, &owner, 675, 90000).unwrap();
    assert_eq!(eff.withdrawal_amount, 675);
    let state = deserialize_record(&eff.record_data).unwrap();
    assert_eq!(state.total_deposits, 0);
    assert_eq!(state.last_withdrawal_time, 90000);
}

#[test]
fn withdraw_zero_on_tiny_balance_fails_insufficient() {
    // Balance 5: a tenth truncates to 0, so the call fails even though
    // the balance is nonzero.
    let vault = vault_account(record_with_balance(5, 1000));
    let owner = owner_account();
    let r = withdraw(&vault, &owner, 0, 1000 + 86400);
    assert_eq!(
        r.unwrap_err(),
        ProcessError::Vault(VaultError::InsufficientFunds)
    );
}

#[test]
fn withdraw_by_wrong_identity_fails_invalid_owner() {
    let vault = vault_account(record_with_balance(750, 1000));
    let mut intruder = owner_account();
    intruder.key = OTHER_KEY;
    let r = withdraw(&vault, &intruder, 10, 1000 + 86400);
    assert_eq!(r.unwrap_err(), ProcessError::Vault(VaultError::InvalidOwner));
}

#[test]
fn withdraw_cooldown_gates_very_first_withdrawal() {
    // The seed is creation time, so a fresh vault cannot withdraw for a
    // full day even after its first deposit.
    let vault = vault_account(record_with_balance(1000, 50_000));
    let owner = owner_account();
    let r = withdraw(&vault, &owner, 100, 50_000 + 86399);
    assert_eq!(
        r.unwrap_err(),
        ProcessError::Vault(VaultError::WithdrawalCooldown)
    );
    let eff = withdraw(&vault, &owner, 100, 50_000 + 86400).unwrap();
    assert_eq!(eff.withdrawal_amount, 100);
}

#[test]
fn record_round_trips_through_bytes() {
    // Serializing then deserializing reproduces an identical record, for
    // representative reachable states, negative timestamps included.
    let samples = [
        VaultState::new(OWNER_KEY, 1000),
        VaultState {
            is_initialized: false,
            owner: [0u8; 32],
            total_deposits: 0,
            last_withdrawal_time: 0,
        },
        VaultState {
            is_initialized: true,
            owner: [255u8; 32],
            total_deposits: u64::MAX,
            last_withdrawal_time: i64::MIN,
        },
        VaultState {
            is_initialized: true,
            owner: OTHER_KEY,
            total_deposits: 1,
            last_withdrawal_time: -1,
        },
        VaultState {
            is_initialized: true,
            owner: OWNER_KEY,
            total_deposits: 12345,
            last_withdrawal_time: i64::MAX,
        },
    ];
    for state in samples {
        let bytes = serialize_record(&state);
        assert_eq!(bytes.len(), 49);
        let back = deserialize_record(&bytes).unwrap();
        assert_eq!(back.is_initialized, state.is_initialized);
        assert_eq!(back.owner, state.owner);
        assert_eq!(back.total_deposits, state.total_deposits);
        assert_eq!(back.last_withdrawal_time, state.last_withdrawal_time);
    }
}

#[test]
fn record_layout_matches_borsh_wire_format() {
    // The persisted layout is a compatibility contract: it must read as
    // the field-by-field borsh encoding (bool byte, raw 32 bytes,
    // little-endian u64, little-endian two's complement i64).
    let state = VaultState {
        is_initialized: true,
        owner: OWNER_KEY,
        total_deposits: 750,
        last_withdrawal_time: -86400,
    };
    let mut expected = borsh::to_vec(&true).unwrap();
    expected.extend_from_slice(&OWNER_KEY);
    expected.extend_from_slice(&borsh::to_vec(&750u64).unwrap());
    expected.extend_from_slice(&borsh::to_vec(&(-86400i64)).unwrap());
    assert_eq!(serialize_record(&state), expected);
}

#[test]
fn record_rejects_wrong_length_and_flag() {
    assert_eq!(
        deserialize_record(&[]).unwrap_err(),
        VaultError::UninitializedAccount
    );
    assert_eq!(
        deserialize_record(&vec![0u8; 50]).unwrap_err(),
        VaultError::UninitializedAccount
    );
    let mut bad = vec![0u8; 49];
    bad[0] = 7;
    assert_eq!(
        deserialize_record(&bad).unwrap_err(),
        VaultError::UninitializedAccount
    );
}

#[test]
fn signed_timestamp_bit_patterns() {
    assert_eq!(i64_bits_of(0), 0);
    assert_eq!(i64_bits_of(1000), 1000);
    assert_eq!(i64_bits_of(-1), u64::MAX);
    assert_eq!(i64_bits_of(i64::MIN), 0x8000_0000_0000_0000);
    assert_eq!(i64_of_bits(u64::MAX), -1);
    assert_eq!(i64_of_bits(0x8000_0000_0000_0000), i64::MIN);
    for t in [0i64, 1, -1, 86400, -86400, i64::MIN, i64::MAX] {
        assert_eq!(i64_of_bits(i64_bits_of(t)), t);
    }
}

#[test]
fn instruction_wire_format() {
    // Tag first, then the 8-byte little-endian amount.
    assert_eq!(
        encode_instruction(&VaultInstruction::Initialize),
        vec![0u8]
    );
    let deposit_bytes = encode_instruction(&VaultInstruction::Deposit { amount: 500 });
    assert_eq!(deposit_bytes[0], 1);
    assert_eq!(&deposit_bytes[1..], &500u64.to_le_bytes());
    let withdraw_bytes = encode_instruction(&VaultInstruction::Withdraw { amount: 0 });
    assert_eq!(withdraw_bytes[0], 2);
    assert_eq!(&withdraw_bytes[1..], &0u64.to_le_bytes());
    // And it must agree with borsh's encoding of a tagged enum.
    let mut expected = vec![1u8];
    expected.extend_from_slice(&borsh::to_vec(&500u64).unwrap());
    assert_eq!(deposit_bytes, expected);
}

#[test]
fn instruction_parse_round_trip() {
    let samples = [
        VaultInstruction::Initialize,
        VaultInstruction::Deposit { amount: 0 },
        VaultInstruction::Deposit { amount: u64::MAX },
        VaultInstruction::Withdraw { amount: 0 },
        VaultInstruction::Withdraw { amount: 12345 },
    ];
    for inst in samples {
        let bytes = encode_instruction(&inst);
        assert_eq!(parse_instruction(&bytes).unwrap(), inst);
    }
}

#[test]
fn instruction_rejects_malformed_payloads() {
    // Unknown tag, wrong payload length, trailing bytes, empty input.
    assert_eq!(
        parse_instruction(&[3]).unwrap_err(),
        VaultError::InvalidInstruction
    );
    assert_eq!(
        parse_instruction(&[1, 0, 0]).unwrap_err(),
        VaultError::InvalidInstruction
    );
    assert_eq!(
        parse_instruction(&[0, 0]).unwrap_err(),
        VaultError::InvalidInstruction
    );
    assert_eq!(
        parse_instruction(&[]).unwrap_err(),
        VaultError::InvalidInstruction
    );
    let mut long = vec![1u8];
    long.extend_from_slice(&[0u8; 9]);
    assert_eq!(
        parse_instruction(&long).unwrap_err(),
        VaultError::InvalidInstruction
    );
}

#[test]
fn process_instruction_dispatches_deposit() {
    let accounts = vec![
        vault_account(fresh_record(1000)),
        owner_account(),
        service_account(),
    ];
    let data = encode_instruction(&VaultInstruction::Deposit { amount: 500 });
    let r = process_instruction(&data, &accounts, 100, 340, 1000).unwrap();
    match r {
        VaultEffect::Deposited(eff) => {
            assert_eq!(eff.transfer_amount, 500);
            let state = deserialize_record(&eff.record_data).unwrap();
            assert_eq!(state.total_deposits, 500);
        }
        _ => panic!("expected a deposit effect"),
    }
}

#[test]
fn process_instruction_dispatches_initialize_and_withdraw() {
    let accounts = vec![
        vault_account(record_with_balance(750, 1000)),
        owner_account(),
        service_account(),
    ];
    let init = encode_instruction(&VaultInstruction::Initialize);
    match process_instruction(&init, &accounts, 100, 340, 2000).unwrap() {
        VaultEffect::Initialized(eff) => {
            assert_eq!(eff.space, 49);
            let state = deserialize_record(&eff.record_data).unwrap();
            assert_eq!(state.total_deposits, 0);
            assert_eq!(state.last_withdrawal_time, 2000);
        }
        _ => panic!("expected an initialize effect"),
    }
    let wd = encode_instruction(&VaultInstruction::Withdraw { amount: 0 });
    match process_instruction(&wd, &accounts, 100, 340, 1000 + 86400).unwrap() {
        VaultEffect::Withdrawn(eff) => {
            assert_eq!(eff.withdrawal_amount, 75);
            let state = deserialize_record(&eff.record_data).unwrap();
            assert_eq!(state.total_deposits, 675);
        }
        _ => panic!("expected a withdraw effect"),
    }
}

#[test]
fn process_instruction_rejects_bad_payload_and_short_account_list() {
    let accounts = vec![
        vault_account(fresh_record(1000)),
        owner_account(),
        service_account(),
    ];
    let r = process_instruction(&[9, 9], &accounts, 100, 340, 1000);
    assert_eq!(
        r.unwrap_err(),
        ProcessError::Vault(VaultError::InvalidInstruction)
    );
    let two = vec![vault_account(fresh_record(1000)), owner_account()];
    let data = encode_instruction(&VaultInstruction::Deposit { amount: 1 });
    let r = process_instruction(&data, &two, 100, 340, 1000);
    assert_eq!(r.unwrap_err(), ProcessError::NotEnoughAccounts);
}

#[test]
fn error_codes_are_stable() {
    assert_eq!(VaultError::UninitializedAccount.code(), 0);
    assert_eq!(VaultError::InsufficientFunds.code(), 1);
    assert_eq!(VaultError::InvalidInstruction.code(), 2);
    assert_eq!(VaultError::AlreadyInitialized.code(), 3);
    assert_eq!(VaultError::InvalidOwner.code(), 4);
    assert_eq!(VaultError::Overflow.code(), 5);
    assert_eq!(VaultError::WithdrawalCooldown.code(), 6);
}

#[test]
fn state_transitions_directly() {
    // The record layer alone: checked deposit, bounded withdraw, cooldown.
    let mut state = VaultState::new(OWNER_KEY, 1000);
    assert_eq!(state.deposit(500), Ok(()));
    assert_eq!(state.deposit(250), Ok(()));
    assert_eq!(state.total_deposits, 750);
    assert_eq!(state.deposit(u64::MAX), Err(VaultError::Overflow));
    assert_eq!(state.total_deposits, 750);
    assert_eq!(state.withdraw(751, 90000), Err(VaultError::InsufficientFunds));
    assert_eq!(state.total_deposits, 750);
    assert_eq!(state.last_withdrawal_time, 1000);
    assert_eq!(state.withdraw(750, 90000), Ok(()));
    assert_eq!(state.total_deposits, 0);
    assert_eq!(state.last_withdrawal_time, 90000);
    assert!(!state.can_withdraw(90000, 86400));
    assert!(state.can_withdraw(90000 + 86400, 86400));
    // The difference is taken over the mathematical integers: no wrap.
    assert!(state.can_withdraw(i64::MAX, 86400));
    let early = VaultState::new(OWNER_KEY, i64::MAX);
    assert!(!early.can_withdraw(i64::MIN, 86400));
}
