use legacy_status_meta::{v1, v1_samples, v2, v2_samples};

#[test]
fn v2_samples_cover_every_outcome_variant() {
    let samples = v2_samples::build_samples();
    assert_eq!(samples.len(), 16 + 38);
    assert!(matches!(samples[0].status, Ok(())));
    let mut seen = [false; 16];
    for m in &samples {
        if let Err(e) = &m.status {
            seen[v2::transaction_error_ordinal(e) as usize] = true;
        }
    }
    assert!(seen.iter().all(|s| *s));
}

#[test]
fn v2_samples_cover_every_nested_failure_variant() {
    let samples = v2_samples::build_samples();
    let mut seen = [false; 38];
    for m in &samples {
        if let Err(v2::TransactionError::InstructionError(ix, ie)) = &m.status {
            assert_eq!(*ix, 123);
            seen[v2::instruction_error_ordinal(ie) as usize] = true;
        }
    }
    assert!(seen.iter().all(|s| *s));
}

#[test]
fn v2_samples_carry_fixed_placeholder_fields() {
    for m in v2_samples::build_samples() {
        assert_eq!(m.fee, 500);
        assert_eq!(m.pre_balances, vec![1, 2, 3]);
        assert_eq!(m.post_balances, vec![1, 2, 3]);
        let inner = m.inner_instructions.expect("present");
        assert_eq!(inner.len(), 1);
        assert_eq!(inner[0].index, 11);
        assert_eq!(inner[0].instructions.len(), 1);
        assert_eq!(inner[0].instructions[0].program_id_index, 1);
        assert_eq!(inner[0].instructions[0].accounts, vec![1, 2, 3]);
        assert_eq!(inner[0].instructions[0].data, vec![1, 2, 3]);
    }
}

#[test]
fn v1_samples_cover_every_outcome_variant() {
    let samples = v1_samples::build_samples();
    assert_eq!(samples.len(), 14 + 27);
    assert!(matches!(samples[0].status, Ok(())));
    let mut seen = [false; 14];
    for m in &samples {
        if let Err(e) = &m.status {
            seen[v1::transaction_error_ordinal(e) as usize] = true;
        }
    }
    assert!(seen.iter().all(|s| *s));
}

#[test]
fn v1_samples_cover_every_nested_failure_variant() {
    let samples = v1_samples::build_samples();
    let mut seen = [false; 27];
    for m in &samples {
        if let Err(v1::TransactionError::InstructionError(ix, ie)) = &m.status {
            assert_eq!(*ix, 123);
            seen[v1::instruction_error_ordinal(ie) as usize] = true;
        }
    }
    assert!(seen.iter().all(|s| *s));
}

#[test]
fn v1_samples_carry_fixed_placeholder_fields() {
    for m in v1_samples::build_samples() {
        assert_eq!(m.fee, 500);
        assert_eq!(m.pre_balances, vec![1, 2, 3]);
        assert_eq!(m.post_balances, vec![1, 2, 3]);
    }
}

#[test]
fn sample_sets_are_deterministic() {
    let a = v1_samples::build_samples();
    let b = v1_samples::build_samples();
    assert_eq!(a.len(), b.len());
    for (x, y) in a.iter().zip(b.iter()) {
        assert_eq!(x.status, y.status);
    }
    let a = v2_samples::build_samples();
    let b = v2_samples::build_samples();
    assert_eq!(a.len(), b.len());
    for (x, y) in a.iter().zip(b.iter()) {
        assert_eq!(x.status, y.status);
    }
}

#[test]
fn default_variants_are_the_first_declared() {
    assert_eq!(
        <v1::TransactionError as Default>::default(),
        v1::TransactionError::AccountInUse
    );
    assert_eq!(
        <v1::InstructionError as Default>::default(),
        v1::InstructionError::GenericError
    );
    assert_eq!(
        <v2::TransactionError as Default>::default(),
        v2::TransactionError::AccountInUse
    );
    assert_eq!(
        <v2::InstructionError as Default>::default(),
        v2::InstructionError::GenericError
    );
}
