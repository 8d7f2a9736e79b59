//! Cross-checks of the library's encoders against the reference
//! serialization stack the generated bindings target: plain values run
//! through the binary serializer, and compact byte lists through the
//! compact-length vector encoding.
use legacy_status_meta::{v1, v1_codec, v2, v2_codec};
use solana_short_vec::ShortVec;

#[test]
fn old_snapshot_success_record_matches_reference_bytes() {
    let m = v1::TransactionStatusMeta {
        status: Ok(()),
        fee: 500,
        pre_balances: vec![1, 2, 3],
        post_balances: vec![1, 2, 3],
    };
    let ours = v1_codec::encode_transaction_status_meta(&m);
    // A success status encodes as variant ordinal 0 with no payload, then
    // the remaining fields in declaration order.
    let equivalent = (0u32, 500u64, vec![1u64, 2, 3], vec![1u64, 2, 3]);
    let reference = bincode::serialize(&equivalent).unwrap();
    assert_eq!(ours, reference);
}

#[test]
fn old_snapshot_failure_record_matches_reference_bytes() {
    let m = v1::TransactionStatusMeta {
        status: Err(v1::TransactionError::InstructionError(
            123,
            v1::InstructionError::CustomError(42),
        )),
        fee: 500,
        pre_balances: vec![1, 2, 3],
        post_balances: vec![1, 2, 3],
    };
    let ours = v1_codec::encode_transaction_status_meta(&m);
    // Err is ordinal 1; the nesting outcome variant is ordinal 8 with a
    // one-byte index; the custom-code variant is ordinal 25 with a 32-bit
    // payload.
    let equivalent = (
        1u32,
        8u32,
        123u8,
        25u32,
        42u32,
        500u64,
        vec![1u64, 2, 3],
        vec![1u64, 2, 3],
    );
    let reference = bincode::serialize(&equivalent).unwrap();
    assert_eq!(ours, reference);
}

#[test]
fn new_snapshot_record_matches_reference_bytes() {
    let m = v2::TransactionStatusMeta {
        status: Ok(()),
        fee: 500,
        pre_balances: vec![1, 2, 3],
        post_balances: vec![1, 2, 3],
        inner_instructions: Some(vec![v2::InnerInstructions {
            index: 11,
            instructions: vec![v2::CompiledInstruction {
                program_id_index: 1,
                accounts: vec![1, 2, 3],
                data: vec![1, 2, 3],
            }],
        }]),
    };
    let ours = v2_codec::encode_transaction_status_meta(&m).expect("representable");
    // Structs and tuples both encode as their fields in order; the two
    // compact byte lists carry the compact-length vector encoding.
    let equivalent = (
        0u32,
        500u64,
        vec![1u64, 2, 3],
        vec![1u64, 2, 3],
        Some(vec![(
            11u8,
            vec![(1u8, ShortVec(vec![1u8, 2, 3]), ShortVec(vec![1u8, 2, 3]))],
        )]),
    );
    let reference = bincode::serialize(&equivalent).unwrap();
    assert_eq!(ours, reference);
}

#[test]
fn compact_length_matches_reference_for_long_lists() {
    // 300 does not fit in one compact-length byte, so this exercises the
    // multi-byte form of the length prefix.
    let mut out: Vec<u8> = Vec::new();
    let ci = v2::CompiledInstruction {
        program_id_index: 9,
        accounts: vec![5; 300],
        data: vec![],
    };
    v2_codec::push_compiled_instruction(&mut out, &ci);
    let mut reference: Vec<u8> = vec![9];
    reference.extend_from_slice(&bincode::serialize(&ShortVec(vec![5u8; 300])).unwrap());
    reference.extend_from_slice(&bincode::serialize(&ShortVec(Vec::<u8>::new())).unwrap());
    assert_eq!(out, reference);
}

#[test]
fn every_new_snapshot_sample_matches_reference_bytes() {
    for m in legacy_status_meta::v2_samples::build_samples() {
        let ours = v2_codec::encode_transaction_status_meta(&m).expect("representable");
        let status_part: Vec<u8> = match &m.status {
            Ok(()) => bincode::serialize(&0u32).unwrap(),
            Err(e) => {
                let mut b = bincode::serialize(&1u32).unwrap();
                match e {
                    v2::TransactionError::InstructionError(ix, ie) => {
                        b.extend_from_slice(&bincode::serialize(&8u32).unwrap());
                        b.push(*ix);
                        b.extend_from_slice(
                            &bincode::serialize(&v2::instruction_error_ordinal(ie)).unwrap(),
                        );
                        if let v2::InstructionError::Custom(c) = ie {
                            b.extend_from_slice(&bincode::serialize(c).unwrap());
                        }
                    }
                    other => {
                        b.extend_from_slice(
                            &bincode::serialize(&v2::transaction_error_ordinal(other)).unwrap(),
                        );
                    }
                }
                b
            }
        };
        let tail = (
            500u64,
            vec![1u64, 2, 3],
            vec![1u64, 2, 3],
            Some(vec![(
                11u8,
                vec![(1u8, ShortVec(vec![1u8, 2, 3]), ShortVec(vec![1u8, 2, 3]))],
            )]),
        );
        let mut reference = status_part;
        reference.extend_from_slice(&bincode::serialize(&tail).unwrap());
        assert_eq!(ours, reference);
    }
}
