use create_account_core::account::Account;
use create_account_core::codec::encode_fixed;
use create_account_core::simulate::{simulate_instruction, Variant};

fn key(seed: u8) -> Vec<u8> {
    vec![seed; 32]
}

fn zero_key() -> Vec<u8> {
    vec![0u8; 32]
}

fn signer(key: Vec<u8>, balance: u64) -> Account {
    Account {
        key,
        balance,
        data: vec![],
        owner: zero_key(),
        executable: false,
        is_signer: true,
        is_writable: true,
    }
}

fn allocator_slot() -> Account {
    Account {
        key: zero_key(),
        balance: 1,
        data: vec![],
        owner: zero_key(),
        executable: true,
        is_signer: false,
        is_writable: false,
    }
}

#[test]
fn test_create_account_happy_path() {
    let payer_key = key(1);
    let new_key = key(2);
    let accounts = vec![
        signer(payer_key, 10 * 1_000_000_000),
        signer(new_key.clone(), 0),
        allocator_slot(),
    ];
    let program_id = key(7);
    let data = encode_fixed();

    let result = simulate_instruction(Variant::LowLevel, &program_id, &data, accounts);

    assert!(matches!(result.status, Ok(())));

    let new_account_after = result
        .post_accounts
        .iter()
        .find(|account| account.key == new_key)
        .unwrap();
    assert_eq!(new_account_after.balance, 1_000_000_000);
}

#[test]
fn test_create_account_compute_units() {
    let payer_key = key(1);
    let new_key = key(2);
    let space = 100u64;
    let mut instruction_data = vec![0u8];
    instruction_data.extend_from_slice(&space.to_le_bytes());

    let accounts = vec![
        signer(payer_key, 1_000_000_000),
        signer(new_key, 0),
        allocator_slot(),
    ];
    let program_id = key(7);

    let result = simulate_instruction(Variant::Minimal, &program_id, &instruction_data, accounts);

    println!("Compute units consumed: {}", result.units);

    assert!(result.units > 0);
}

#[test]
fn test_create_system_account_success() {
    let payer_key = key(1);
    let new_key = key(2);
    let accounts = vec![
        signer(payer_key, 1_000_000_000),
        signer(new_key.clone(), 0),
        allocator_slot(),
    ];
    let program_id = key(7);
    let data = encode_fixed();

    let result = simulate_instruction(Variant::Declarative, &program_id, &data, accounts);

    match result.status {
        Ok(()) => {}
        _ => panic!("Expected success"),
    }

    let resulting_account = result
        .post_accounts
        .iter()
        .find(|account| account.key == new_key)
        .expect("Account should exist");

    // The minimum persistent balance of a zero-sized account under the
    // default fee schedule.
    assert_eq!(resulting_account.balance, 890_880);
    assert_eq!(resulting_account.owner, zero_key());
    assert_eq!(resulting_account.data.len(), 0);
}
