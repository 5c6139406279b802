use create_account_core::codec::{decode_fixed, decode_minimal, encode_fixed, encode_minimal, Operation};
use create_account_core::invoke::{build_request, delegated_request};
use create_account_core::ExecError;

#[test]
fn minimal_payload_round_trips() {
    let mut original = vec![0u8];
    original.extend_from_slice(&300u64.to_le_bytes());

    let decoded = decode_minimal(&original).unwrap();
    assert!(matches!(decoded.op, Operation::Create));
    assert_eq!(decoded.space, Some(300));

    let reencoded = encode_minimal(decoded.space.unwrap());
    assert_eq!(reencoded, original);
}

#[test]
fn minimal_encoding_decodes_to_the_same_size() {
    let data = encode_minimal(77);
    assert_eq!(data.len(), 9);
    assert_eq!(data[0], 0);
    let decoded = decode_minimal(&data).unwrap();
    assert_eq!(decoded.space, Some(77));
}

#[test]
fn fixed_payload_round_trips() {
    let original = encode_fixed();
    assert_eq!(original.len(), 8);
    let decoded = decode_fixed(&original).unwrap();
    assert!(matches!(decoded.op, Operation::Create));
    assert_eq!(decoded.space, None);
}

#[test]
fn minimal_decoder_rejects_short_and_unknown_payloads() {
    assert_eq!(decode_minimal(&[]).unwrap_err(), ExecError::InvalidPayload);
    assert_eq!(decode_minimal(&[0u8, 1, 2]).unwrap_err(), ExecError::InvalidPayload);
    let mut data = vec![3u8];
    data.extend_from_slice(&0u64.to_le_bytes());
    assert_eq!(decode_minimal(&data).unwrap_err(), ExecError::UnknownOperation);
}

#[test]
fn delegated_request_matches_the_local_request() {
    let payer_key = vec![5u8; 32];
    let new_key = vec![6u8; 32];
    let outside = delegated_request(&payer_key, &new_key, 890_880);
    let local = build_request(&payer_key, &new_key, 890_880);

    assert_eq!(outside.allocator, local.allocator);
    assert_eq!(outside.balance, local.balance);
    assert_eq!(outside.space, local.space);
    assert_eq!(outside.owner, local.owner);
    assert_eq!(outside.data, local.data);
    assert_eq!(outside.metas.len(), local.metas.len());
    for (a, b) in outside.metas.iter().zip(local.metas.iter()) {
        assert_eq!(a.key, b.key);
        assert_eq!(a.is_signer, b.is_signer);
        assert_eq!(a.is_writable, b.is_writable);
    }
    assert_eq!(outside.data.len(), 52);
    assert_eq!(outside.metas[0].key, payer_key);
    assert_eq!(outside.metas[1].key, new_key);
}
