use legacy_status_meta::v1::{InstructionError, TransactionError, TransactionStatusMeta};
use legacy_status_meta::v1_codec::{decode_transaction_status_meta, encode_transaction_status_meta};

fn meta(status: Result<(), TransactionError>) -> TransactionStatusMeta {
    TransactionStatusMeta {
        status,
        fee: 500,
        pre_balances: vec![1, 2, 3],
        post_balances: vec![1, 2, 3],
    }
}

#[test]
fn success_scenario_roundtrip() {
    let m = meta(Ok(()));
    let bytes = encode_transaction_status_meta(&m);
    let d = decode_transaction_status_meta(&bytes).expect("decodes");
    assert!(matches!(d.status, Ok(())));
    assert_eq!(d.fee, 500);
    assert_eq!(d.pre_balances, vec![1, 2, 3]);
    assert_eq!(d.post_balances, vec![1, 2, 3]);
}

#[test]
fn success_scenario_exact_bytes() {
    let m = meta(Ok(()));
    let bytes = encode_transaction_status_meta(&m);
    let mut expected: Vec<u8> = Vec::new();
    expected.extend_from_slice(&[0, 0, 0, 0]); // Ok has ordinal 0
    expected.extend_from_slice(&[244, 1, 0, 0, 0, 0, 0, 0]); // fee 500
    for list in 0..2 {
        let _ = list;
        expected.extend_from_slice(&[3, 0, 0, 0, 0, 0, 0, 0]); // length 3
        for v in 1u8..=3 {
            expected.push(v);
            expected.extend_from_slice(&[0, 0, 0, 0, 0, 0, 0]);
        }
    }
    assert_eq!(bytes, expected);
}

#[test]
fn instruction_failure_scenario() {
    let m = meta(Err(TransactionError::InstructionError(
        123,
        InstructionError::InsufficientFunds,
    )));
    let bytes = encode_transaction_status_meta(&m);
    let d = decode_transaction_status_meta(&bytes).expect("decodes");
    match d.status {
        Err(TransactionError::InstructionError(ix, reason)) => {
            assert_eq!(ix, 123);
            assert_eq!(reason, InstructionError::InsufficientFunds);
        }
        other => panic!("wrong status: {:?}", other),
    }
}

#[test]
fn custom_error_code_preserved() {
    let m = meta(Err(TransactionError::InstructionError(
        7,
        InstructionError::CustomError(42),
    )));
    let bytes = encode_transaction_status_meta(&m);
    let d = decode_transaction_status_meta(&bytes).expect("decodes");
    match d.status {
        Err(TransactionError::InstructionError(ix, InstructionError::CustomError(code))) => {
            assert_eq!(ix, 7);
            assert_eq!(code, 42);
        }
        other => panic!("wrong status: {:?}", other),
    }
}

#[test]
fn all_samples_roundtrip() {
    for m in legacy_status_meta::v1_samples::build_samples() {
        let bytes = encode_transaction_status_meta(&m);
        let d = decode_transaction_status_meta(&bytes).expect("decodes");
        assert_eq!(d.status, m.status);
        assert_eq!(d.fee, m.fee);
        assert_eq!(d.pre_balances, m.pre_balances);
        assert_eq!(d.post_balances, m.post_balances);
    }
}

#[test]
fn truncated_input_rejected() {
    let bytes = encode_transaction_status_meta(&meta(Ok(())));
    for cut in 0..bytes.len() {
        let prefix: Vec<u8> = bytes[..cut].to_vec();
        assert!(decode_transaction_status_meta(&prefix).is_none());
    }
}

#[test]
fn trailing_bytes_rejected() {
    let mut bytes = encode_transaction_status_meta(&meta(Ok(())));
    bytes.push(0);
    assert!(decode_transaction_status_meta(&bytes).is_none());
}

#[test]
fn unknown_status_tag_rejected() {
    let mut bytes = encode_transaction_status_meta(&meta(Ok(())));
    bytes[0] = 2; // neither Ok nor Err
    assert!(decode_transaction_status_meta(&bytes).is_none());
}

#[test]
fn unknown_error_ordinal_rejected() {
    let m = meta(Err(TransactionError::AccountInUse));
    let mut bytes = encode_transaction_status_meta(&m);
    bytes[4] = 14; // one past the last declared outcome variant
    assert!(decode_transaction_status_meta(&bytes).is_none());
}
