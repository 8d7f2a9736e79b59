use legacy_status_meta::v2::{
    CompiledInstruction, InnerInstructions, InstructionError, TransactionError,
    TransactionStatusMeta,
};
use legacy_status_meta::v2_codec::{decode_transaction_status_meta, encode_transaction_status_meta};

fn sample_inner() -> Vec<InnerInstructions> {
    vec![InnerInstructions {
        index: 11,
        instructions: vec![CompiledInstruction {
            program_id_index: 1,
            accounts: vec![1, 2, 3],
            data: vec![1, 2, 3],
        }],
    }]
}

fn meta(
    status: Result<(), TransactionError>,
    inner: Option<Vec<InnerInstructions>>,
) -> TransactionStatusMeta {
    TransactionStatusMeta {
        status,
        fee: 500,
        pre_balances: vec![1, 2, 3],
        post_balances: vec![1, 2, 3],
        inner_instructions: inner,
    }
}

fn ci_eq(a: &CompiledInstruction, b: &CompiledInstruction) -> bool {
    a.program_id_index == b.program_id_index && a.accounts == b.accounts && a.data == b.data
}

fn inner_eq(a: &Option<Vec<InnerInstructions>>, b: &Option<Vec<InnerInstructions>>) -> bool {
    match (a, b) {
        (None, None) => true,
        (Some(x), Some(y)) => {
            x.len() == y.len()
                && x.iter().zip(y.iter()).all(|(i, j)| {
                    i.index == j.index
                        && i.instructions.len() == j.instructions.len()
                        && i
                            .instructions
                            .iter()
                            .zip(j.instructions.iter())
                            .all(|(c, d)| ci_eq(c, d))
                })
        }
        _ => false,
    }
}

#[test]
fn success_scenario_roundtrip_v2() {
    let m = meta(Ok(()), Some(sample_inner()));
    let bytes = encode_transaction_status_meta(&m).expect("representable");
    let d = decode_transaction_status_meta(&bytes).expect("decodes");
    assert!(matches!(d.status, Ok(())));
    assert_eq!(d.fee, 500);
    assert_eq!(d.pre_balances, vec![1, 2, 3]);
    assert_eq!(d.post_balances, vec![1, 2, 3]);
    assert!(inner_eq(&d.inner_instructions, &m.inner_instructions));
}

#[test]
fn instruction_failure_scenario_v2() {
    let m = meta(
        Err(TransactionError::InstructionError(
            123,
            InstructionError::InsufficientFunds,
        )),
        None,
    );
    let bytes = encode_transaction_status_meta(&m).expect("representable");
    let d = decode_transaction_status_meta(&bytes).expect("decodes");
    match d.status {
        Err(TransactionError::InstructionError(ix, reason)) => {
            assert_eq!(ix, 123);
            assert_eq!(reason, InstructionError::InsufficientFunds);
        }
        other => panic!("wrong status: {:?}", other),
    }
    assert!(d.inner_instructions.is_none());
}

#[test]
fn custom_error_code_preserved_v2() {
    let m = meta(
        Err(TransactionError::InstructionError(
            5,
            InstructionError::Custom(99),
        )),
        None,
    );
    let bytes = encode_transaction_status_meta(&m).expect("representable");
    let d = decode_transaction_status_meta(&bytes).expect("decodes");
    assert!(matches!(
        d.status,
        Err(TransactionError::InstructionError(
            5,
            InstructionError::Custom(99)
        ))
    ));
}

#[test]
fn all_samples_roundtrip_v2() {
    for m in legacy_status_meta::v2_samples::build_samples() {
        let bytes = encode_transaction_status_meta(&m).expect("representable");
        let d = decode_transaction_status_meta(&bytes).expect("decodes");
        assert_eq!(d.status, m.status);
        assert_eq!(d.fee, m.fee);
        assert_eq!(d.pre_balances, m.pre_balances);
        assert_eq!(d.post_balances, m.post_balances);
        assert!(inner_eq(&d.inner_instructions, &m.inner_instructions));
    }
}

#[test]
fn absent_inner_list_has_presence_byte() {
    let bytes = encode_transaction_status_meta(&meta(Ok(()), None)).expect("representable");
    assert_eq!(*bytes.last().unwrap(), 0);
    let d = decode_transaction_status_meta(&bytes).expect("decodes");
    assert!(d.inner_instructions.is_none());
}

#[test]
fn input_ending_before_optional_field_defaults_to_absent() {
    let mut bytes = encode_transaction_status_meta(&meta(Ok(()), None)).expect("representable");
    bytes.pop(); // drop the presence byte: the buffer now ends with the balances
    let d = decode_transaction_status_meta(&bytes).expect("decodes");
    assert!(matches!(d.status, Ok(())));
    assert_eq!(d.fee, 500);
    assert!(d.inner_instructions.is_none());
}

#[test]
fn oversized_compact_list_is_unrepresentable() {
    let m = meta(
        Ok(()),
        Some(vec![InnerInstructions {
            index: 0,
            instructions: vec![CompiledInstruction {
                program_id_index: 0,
                accounts: vec![0; 65536],
                data: vec![],
            }],
        }]),
    );
    assert!(encode_transaction_status_meta(&m).is_none());
}

#[test]
fn trailing_bytes_rejected_v2() {
    let mut bytes =
        encode_transaction_status_meta(&meta(Ok(()), Some(sample_inner()))).expect("representable");
    bytes.push(7);
    assert!(decode_transaction_status_meta(&bytes).is_none());
}

#[test]
fn unknown_error_ordinal_rejected_v2() {
    let m = meta(Err(TransactionError::AccountInUse), None);
    let mut bytes = encode_transaction_status_meta(&m).expect("representable");
    bytes[4] = 16; // one past the last declared outcome variant
    assert!(decode_transaction_status_meta(&bytes).is_none());
}

#[test]
fn encoding_is_deterministic() {
    let s1 = legacy_status_meta::v2_samples::build_samples();
    let s2 = legacy_status_meta::v2_samples::build_samples();
    assert_eq!(s1.len(), s2.len());
    for (a, b) in s1.iter().zip(s2.iter()) {
        let ba = encode_transaction_status_meta(a).expect("representable");
        let bb = encode_transaction_status_meta(b).expect("representable");
        assert_eq!(ba, bb);
    }
}
