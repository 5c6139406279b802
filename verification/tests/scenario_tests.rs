use create_account_core::account::Account;
use create_account_core::codec::{encode_fixed, encode_minimal};
use create_account_core::simulate::{simulate_instruction, Variant};
use create_account_core::{AllocError, ExecError};

fn key(seed: u8) -> Vec<u8> {
    vec![seed; 32]
}

fn zero_key() -> Vec<u8> {
    vec![0u8; 32]
}

fn account(key: Vec<u8>, balance: u64, is_signer: bool) -> Account {
    Account {
        key,
        balance,
        data: vec![],
        owner: zero_key(),
        executable: false,
        is_signer,
        is_writable: true,
    }
}

fn allocator_slot() -> Account {
    Account {
        key: zero_key(),
        balance: 1,
        data: vec![],
        owner: zero_key(),
        executable: true,
        is_signer: false,
        is_writable: false,
    }
}

fn standard_snapshot() -> Vec<Account> {
    vec![
        account(key(1), 1_000_000_000, true),
        account(key(2), 0, true),
        allocator_slot(),
    ]
}

#[test]
fn funded_payer_and_valid_slots_succeed() {
    let result = simulate_instruction(
        Variant::Declarative,
        &key(7),
        &encode_fixed(),
        standard_snapshot(),
    );
    assert_eq!(result.status, Ok(()));
    // The minimum persistent balance of a zero-sized account under the
    // default fee schedule.
    assert_eq!(result.post_accounts[1].balance, 890_880);
    assert_eq!(result.post_accounts[0].balance, 1_000_000_000 - 890_880);
    assert_eq!(result.post_accounts[1].owner, zero_key());
    assert_eq!(result.post_accounts[1].data.len(), 0);
}

#[test]
fn requested_size_gets_minimum_balance_for_that_size() {
    let result = simulate_instruction(
        Variant::Minimal,
        &key(7),
        &encode_minimal(100),
        standard_snapshot(),
    );
    assert_eq!(result.status, Ok(()));
    // The minimum persistent balance of a hundred-byte account under the
    // default fee schedule.
    assert_eq!(result.post_accounts[1].balance, 1_586_880);
    assert_eq!(result.post_accounts[1].data.len(), 0);
}

#[test]
fn fixed_balance_variant_creates_the_account_in_full() {
    let result = simulate_instruction(
        Variant::LowLevel,
        &key(7),
        &encode_fixed(),
        standard_snapshot(),
    );
    assert_eq!(result.status, Ok(()));
    assert_eq!(result.post_accounts[1].balance, 1_000_000_000);
    assert_eq!(result.post_accounts[0].balance, 0);
    assert_eq!(result.post_accounts[1].owner, zero_key());
    assert_eq!(result.post_accounts[1].data.len(), 0);
    assert_eq!(result.post_accounts[1].key, key(2));
}

#[test]
fn payload_bytes_after_the_discriminator_are_ignored() {
    let mut data = encode_fixed();
    data.extend_from_slice(&[1, 2, 3]);
    let result = simulate_instruction(Variant::Declarative, &key(7), &data, standard_snapshot());
    assert_eq!(result.status, Ok(()));
}

#[test]
fn initialized_new_account_is_rejected_without_mutation() {
    let mut accounts = standard_snapshot();
    accounts[1].balance = 1;
    let pre: Vec<(Vec<u8>, u64, Vec<u8>)> = accounts
        .iter()
        .map(|a| (a.key.clone(), a.balance, a.data.clone()))
        .collect();

    let result = simulate_instruction(Variant::LowLevel, &key(7), &encode_fixed(), accounts);

    assert_eq!(result.status, Err(ExecError::AlreadyInitialized));
    let post: Vec<(Vec<u8>, u64, Vec<u8>)> = result
        .post_accounts
        .iter()
        .map(|a| (a.key.clone(), a.balance, a.data.clone()))
        .collect();
    assert_eq!(pre, post);
}

#[test]
fn unrelated_allocator_key_is_rejected() {
    let mut accounts = standard_snapshot();
    accounts[2].key = key(99);
    let result = simulate_instruction(Variant::Minimal, &key(7), &encode_minimal(0), accounts);
    assert_eq!(result.status, Err(ExecError::WrongProgramOwner));
}

#[test]
fn missing_payer_signature_is_rejected() {
    let mut accounts = standard_snapshot();
    accounts[0].is_signer = false;
    let result = simulate_instruction(Variant::Declarative, &key(7), &encode_fixed(), accounts);
    assert_eq!(result.status, Err(ExecError::MissingSignature));
}

#[test]
fn missing_new_account_signature_is_rejected() {
    let mut accounts = standard_snapshot();
    accounts[1].is_signer = false;
    let result = simulate_instruction(Variant::Minimal, &key(7), &encode_minimal(0), accounts);
    assert_eq!(result.status, Err(ExecError::MissingSignature));
}

#[test]
fn fewer_than_three_slots_is_rejected() {
    let accounts = vec![account(key(1), 1_000_000_000, true), account(key(2), 0, true)];
    let result = simulate_instruction(Variant::LowLevel, &key(7), &encode_fixed(), accounts);
    assert_eq!(result.status, Err(ExecError::MissingAccounts));
}

#[test]
fn short_payload_is_rejected() {
    let result = simulate_instruction(Variant::Minimal, &key(7), &[], standard_snapshot());
    assert_eq!(result.status, Err(ExecError::InvalidPayload));

    let result = simulate_instruction(Variant::Minimal, &key(7), &[0u8, 1, 2], standard_snapshot());
    assert_eq!(result.status, Err(ExecError::InvalidPayload));

    let result = simulate_instruction(Variant::Declarative, &key(7), &[1, 2, 3], standard_snapshot());
    assert_eq!(result.status, Err(ExecError::InvalidPayload));
}

#[test]
fn unknown_discriminator_is_rejected() {
    let mut data = vec![9u8];
    data.extend_from_slice(&0u64.to_le_bytes());
    let result = simulate_instruction(Variant::Minimal, &key(7), &data, standard_snapshot());
    assert_eq!(result.status, Err(ExecError::UnknownOperation));

    let result = simulate_instruction(
        Variant::LowLevel,
        &key(7),
        &[1, 2, 3, 4, 5, 6, 7, 8],
        standard_snapshot(),
    );
    assert_eq!(result.status, Err(ExecError::UnknownOperation));
}

#[test]
fn underfunded_payer_fails_the_delegated_call() {
    let mut accounts = standard_snapshot();
    accounts[0].balance = 1;
    let result = simulate_instruction(Variant::Minimal, &key(7), &encode_minimal(0), accounts);
    assert_eq!(
        result.status,
        Err(ExecError::DelegatedCallFailure(AllocError::InsufficientFunds))
    );
    assert_eq!(result.post_accounts[0].balance, 1);
    assert_eq!(result.post_accounts[1].balance, 0);
}

#[test]
fn new_account_with_data_fails_the_delegated_call() {
    let mut accounts = standard_snapshot();
    accounts[1].data = vec![1, 2, 3];
    let result = simulate_instruction(Variant::LowLevel, &key(7), &encode_fixed(), accounts);
    assert_eq!(
        result.status,
        Err(ExecError::DelegatedCallFailure(AllocError::AccountInUse))
    );
    assert_eq!(result.post_accounts[1].data, vec![1, 2, 3]);
}
