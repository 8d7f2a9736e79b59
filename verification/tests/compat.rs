use legacy_status_meta::{v1, v1_codec, v2, v2_codec};

fn v1_meta(status: Result<(), v1::TransactionError>) -> v1::TransactionStatusMeta {
    v1::TransactionStatusMeta {
        status,
        fee: 500,
        pre_balances: vec![1, 2, 3],
        post_balances: vec![1, 2, 3],
    }
}

#[test]
fn old_success_record_decodes_under_new_schema() {
    let bytes = v1_codec::encode_transaction_status_meta(&v1_meta(Ok(())));
    let d = v2_codec::decode_transaction_status_meta(&bytes).expect("decodes");
    assert!(matches!(d.status, Ok(())));
    assert_eq!(d.fee, 500);
    assert_eq!(d.pre_balances, vec![1, 2, 3]);
    assert_eq!(d.post_balances, vec![1, 2, 3]);
    assert!(d.inner_instructions.is_none());
}

#[test]
fn old_failure_record_keeps_its_variant() {
    let bytes = v1_codec::encode_transaction_status_meta(&v1_meta(Err(
        v1::TransactionError::BlockhashNotFound,
    )));
    let d = v2_codec::decode_transaction_status_meta(&bytes).expect("decodes");
    assert!(matches!(
        d.status,
        Err(v2::TransactionError::BlockhashNotFound)
    ));
    assert!(d.inner_instructions.is_none());
}

#[test]
fn old_nested_failure_record_keeps_index_and_reason() {
    let bytes = v1_codec::encode_transaction_status_meta(&v1_meta(Err(
        v1::TransactionError::InstructionError(123, v1::InstructionError::InsufficientFunds),
    )));
    let d = v2_codec::decode_transaction_status_meta(&bytes).expect("decodes");
    match d.status {
        Err(v2::TransactionError::InstructionError(ix, reason)) => {
            assert_eq!(ix, 123);
            assert_eq!(reason, v2::InstructionError::InsufficientFunds);
        }
        other => panic!("wrong status: {:?}", other),
    }
}

#[test]
fn old_custom_error_maps_to_new_custom_variant() {
    let bytes = v1_codec::encode_transaction_status_meta(&v1_meta(Err(
        v1::TransactionError::InstructionError(2, v1::InstructionError::CustomError(7)),
    )));
    let d = v2_codec::decode_transaction_status_meta(&bytes).expect("decodes");
    assert!(matches!(
        d.status,
        Err(v2::TransactionError::InstructionError(
            2,
            v2::InstructionError::Custom(7)
        ))
    ));
}

#[test]
fn every_old_sample_decodes_under_new_schema() {
    for m in legacy_status_meta::v1_samples::build_samples() {
        let bytes = v1_codec::encode_transaction_status_meta(&m);
        let d = v2_codec::decode_transaction_status_meta(&bytes).expect("decodes");
        assert_eq!(d.fee, m.fee);
        assert_eq!(d.pre_balances, m.pre_balances);
        assert_eq!(d.post_balances, m.post_balances);
        assert!(d.inner_instructions.is_none());
        match (&m.status, &d.status) {
            (Ok(()), Ok(())) => {}
            (Err(a), Err(b)) => {
                assert_eq!(
                    v1::transaction_error_ordinal(a),
                    v2::transaction_error_ordinal(b)
                );
            }
            _ => panic!("success and failure disagree"),
        }
    }
}
