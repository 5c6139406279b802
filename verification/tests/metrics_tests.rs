use create_account_core::account::Account;
use create_account_core::codec::{encode_fixed, encode_minimal};
use create_account_core::metrics::{compare_names, u64_to_decimal, MetricsLedger, NameOrder};
use create_account_core::simulate::{simulate_instruction, Variant};

fn key(seed: u8) -> Vec<u8> {
    vec![seed; 32]
}

fn zero_key() -> Vec<u8> {
    vec![0u8; 32]
}

fn snapshot() -> Vec<Account> {
    vec![
        Account {
            key: key(1),
            balance: 1_000_000_000,
            data: vec![],
            owner: zero_key(),
            executable: false,
            is_signer: true,
            is_writable: true,
        },
        Account {
            key: key(2),
            balance: 0,
            data: vec![],
            owner: zero_key(),
            executable: false,
            is_signer: true,
            is_writable: true,
        },
        Account {
            key: zero_key(),
            balance: 1,
            data: vec![],
            owner: zero_key(),
            executable: true,
            is_signer: false,
            is_writable: false,
        },
    ]
}

#[test]
fn report_is_sorted_by_name_regardless_of_insertion_order() {
    let mut ledger = MetricsLedger::new();
    ledger.record("minimal", 300);
    ledger.record("declarative", 3000);
    ledger.record("lowlevel", 500);

    let lines = ledger.report();
    assert_eq!(lines.len(), 3);
    assert_eq!(lines[0], "declarative: 3000 CUs");
    assert_eq!(lines[1], "lowlevel: 500 CUs");
    assert_eq!(lines[2], "minimal: 300 CUs");
}

#[test]
fn recording_a_name_twice_overwrites_the_value() {
    let mut ledger = MetricsLedger::new();
    ledger.record("alpha", 1);
    ledger.record("beta", 2);
    ledger.record("alpha", 7);

    let lines = ledger.report();
    assert_eq!(lines.len(), 2);
    assert_eq!(lines[0], "alpha: 7 CUs");
    assert_eq!(lines[1], "beta: 2 CUs");
}

#[test]
fn every_executed_case_records_positive_units() {
    let mut ledger = MetricsLedger::new();

    let passing = simulate_instruction(Variant::Minimal, &key(7), &encode_minimal(0), snapshot());
    assert!(passing.units > 0);
    ledger.record("minimal-pass", passing.units);

    let mut rejected_snapshot = snapshot();
    rejected_snapshot[0].is_signer = false;
    let rejected = simulate_instruction(
        Variant::Declarative,
        &key(7),
        &encode_fixed(),
        rejected_snapshot,
    );
    assert!(rejected.status.is_err());
    assert!(rejected.units > 0);
    ledger.record("declarative-reject", rejected.units);

    let mut underfunded_snapshot = snapshot();
    underfunded_snapshot[0].balance = 1;
    let failed = simulate_instruction(
        Variant::LowLevel,
        &key(7),
        &encode_fixed(),
        underfunded_snapshot,
    );
    assert!(failed.status.is_err());
    assert!(failed.units > 0);
    ledger.record("lowlevel-fail", failed.units);

    assert_eq!(ledger.report().len(), 3);
}

#[test]
fn metered_units_follow_the_stage_reached() {
    // A passing minimal run is charged for decode, validation, and the
    // delegated call.
    let passing = simulate_instruction(Variant::Minimal, &key(7), &encode_minimal(0), snapshot());
    assert_eq!(passing.status, Ok(()));
    assert_eq!(passing.units, 15 + 30 + 255);

    // A payload the decoder refuses is charged for decoding alone.
    let undecoded = simulate_instruction(Variant::Minimal, &key(7), &[], snapshot());
    assert_eq!(undecoded.units, 15);

    // A run the validator refuses is charged for decode and validation.
    let mut unsigned_snapshot = snapshot();
    unsigned_snapshot[0].is_signer = false;
    let rejected = simulate_instruction(
        Variant::Declarative,
        &key(7),
        &encode_fixed(),
        unsigned_snapshot,
    );
    assert_eq!(rejected.units, 160 + 340);

    // A failing delegated call is still charged in full.
    let mut underfunded_snapshot = snapshot();
    underfunded_snapshot[0].balance = 1;
    let failed = simulate_instruction(
        Variant::LowLevel,
        &key(7),
        &encode_fixed(),
        underfunded_snapshot,
    );
    assert!(failed.status.is_err());
    assert_eq!(failed.units, 25 + 60 + 415);
}

#[test]
fn decimal_rendering_is_exact() {
    assert_eq!(u64_to_decimal(0), "0");
    assert_eq!(u64_to_decimal(7), "7");
    assert_eq!(u64_to_decimal(10), "10");
    assert_eq!(u64_to_decimal(890_880), "890880");
    assert_eq!(u64_to_decimal(1_234_567_890), "1234567890");
    assert_eq!(u64_to_decimal(u64::MAX), "18446744073709551615");
}

#[test]
fn name_comparison_is_lexicographic() {
    assert_eq!(compare_names("alpha", "beta"), NameOrder::Before);
    assert_eq!(compare_names("beta", "alpha"), NameOrder::After);
    assert_eq!(compare_names("alpha", "alpha"), NameOrder::Same);
    assert_eq!(compare_names("alp", "alpha"), NameOrder::Before);
    assert_eq!(compare_names("alpha", "alp"), NameOrder::After);
    assert_eq!(compare_names("", "a"), NameOrder::Before);
}
