//! Backward compatibility across the two frozen snapshots. The newer
//! snapshot only appends enum variants and one optional trailing field, so
//! every record encoded under the older snapshot decodes under the newer
//! one, with the optional field defaulting to absent and every variant
//! keeping its ordinal.
use crate::v1;
use crate::v1_codec;
use crate::v2;
use crate::v2_codec;
use crate::wire::{enc_u64, enc_u64_list, lemma_rt_u64, lemma_rt_u64_list};
use vstd::prelude::*;

verus! {

/// The same-ordinal variant of the newer per-instruction failure
/// enumeration.
pub open spec fn upgrade_instruction_error(e: v1::InstructionError) -> v2::InstructionError {
    match e {
        v1::InstructionError::GenericError => v2::InstructionError::GenericError,
        v1::InstructionError::InvalidArgument => v2::InstructionError::InvalidArgument,
        v1::InstructionError::InvalidInstructionData => v2::InstructionError::InvalidInstructionData,
        v1::InstructionError::InvalidAccountData => v2::InstructionError::InvalidAccountData,
        v1::InstructionError::AccountDataTooSmall => v2::InstructionError::AccountDataTooSmall,
        v1::InstructionError::InsufficientFunds => v2::InstructionError::InsufficientFunds,
        v1::InstructionError::IncorrectProgramId => v2::InstructionError::IncorrectProgramId,
        v1::InstructionError::MissingRequiredSignature => v2::InstructionError::MissingRequiredSignature,
        v1::InstructionError::AccountAlreadyInitialized => v2::InstructionError::AccountAlreadyInitialized,
        v1::InstructionError::UninitializedAccount => v2::InstructionError::UninitializedAccount,
        v1::InstructionError::UnbalancedInstruction => v2::InstructionError::UnbalancedInstruction,
        v1::InstructionError::ModifiedProgramId => v2::InstructionError::ModifiedProgramId,
        v1::InstructionError::ExternalAccountLamportSpend => v2::InstructionError::ExternalAccountLamportSpend,
        v1::InstructionError::ExternalAccountDataModified => v2::InstructionError::ExternalAccountDataModified,
        v1::InstructionError::ReadonlyLamportChange => v2::InstructionError::ReadonlyLamportChange,
        v1::InstructionError::ReadonlyDataModified => v2::InstructionError::ReadonlyDataModified,
        v1::InstructionError::DuplicateAccountIndex => v2::InstructionError::DuplicateAccountIndex,
        v1::InstructionError::ExecutableModified => v2::InstructionError::ExecutableModified,
        v1::InstructionError::RentEpochModified => v2::InstructionError::RentEpochModified,
        v1::InstructionError::NotEnoughAccountKeys => v2::InstructionError::NotEnoughAccountKeys,
        v1::InstructionError::AccountDataSizeChanged => v2::InstructionError::AccountDataSizeChanged,
        v1::InstructionError::AccountNotExecutable => v2::InstructionError::AccountNotExecutable,
        v1::InstructionError::AccountBorrowFailed => v2::InstructionError::AccountBorrowFailed,
        v1::InstructionError::AccountBorrowOutstanding => v2::InstructionError::AccountBorrowOutstanding,
        v1::InstructionError::DuplicateAccountOutOfSync => v2::InstructionError::DuplicateAccountOutOfSync,
        v1::InstructionError::CustomError(c) => v2::InstructionError::Custom(c),
        v1::InstructionError::InvalidError => v2::InstructionError::InvalidError,
    }
}

/// The same-ordinal variant of the newer outcome enumeration.
pub open spec fn upgrade_transaction_error(e: v1::TransactionError) -> v2::TransactionError {
    match e {
        v1::TransactionError::AccountInUse => v2::TransactionError::AccountInUse,
        v1::TransactionError::AccountLoadedTwice => v2::TransactionError::AccountLoadedTwice,
        v1::TransactionError::AccountNotFound => v2::TransactionError::AccountNotFound,
        v1::TransactionError::ProgramAccountNotFound => v2::TransactionError::ProgramAccountNotFound,
        v1::TransactionError::InsufficientFundsForFee => v2::TransactionError::InsufficientFundsForFee,
        v1::TransactionError::InvalidAccountForFee => v2::TransactionError::InvalidAccountForFee,
        v1::TransactionError::DuplicateSignature => v2::TransactionError::DuplicateSignature,
        v1::TransactionError::BlockhashNotFound => v2::TransactionError::BlockhashNotFound,
        v1::TransactionError::InstructionError(i, ie) => v2::TransactionError::InstructionError(
            i,
            upgrade_instruction_error(ie),
        ),
        v1::TransactionError::CallChainTooDeep => v2::TransactionError::CallChainTooDeep,
        v1::TransactionError::MissingSignatureForFee => v2::TransactionError::MissingSignatureForFee,
        v1::TransactionError::InvalidAccountIndex => v2::TransactionError::InvalidAccountIndex,
        v1::TransactionError::SignatureFailure => v2::TransactionError::SignatureFailure,
        v1::TransactionError::InvalidProgramForExecution => v2::TransactionError::InvalidProgramForExecution,
    }
}

pub open spec fn upgrade_status(st: Result<(), v1::TransactionError>) -> Result<
    (),
    v2::TransactionError,
> {
    match st {
        Ok(_) => Ok(()),
        Err(e) => Err(upgrade_transaction_error(e)),
    }
}

/// The older record read as a newer one: same fields, optional
/// inner-instruction list absent.
pub open spec fn upgrade_meta(m: v1::TransactionStatusMetaView) -> v2::TransactionStatusMetaView {
    v2::TransactionStatusMetaView {
        status: upgrade_status(m.status),
        fee: m.fee,
        pre_balances: m.pre_balances,
        post_balances: m.post_balances,
        inner_instructions: None,
    }
}

/// Upgrading keeps the variant's ordinal, so it keeps the encoded bytes.
proof fn lemma_upgrade_instruction_error_enc(e: v1::InstructionError)
    ensures
        v2_codec::enc_instruction_error(upgrade_instruction_error(e))
            == v1_codec::enc_instruction_error(e),
{
}

/// Upgrading keeps the variant's ordinal, so it keeps the encoded bytes.
proof fn lemma_upgrade_transaction_error_enc(e: v1::TransactionError)
    ensures
        v2_codec::enc_transaction_error(upgrade_transaction_error(e))
            == v1_codec::enc_transaction_error(e),
{
    match e {
        v1::TransactionError::InstructionError(i, ie) => {
            lemma_upgrade_instruction_error_enc(ie);
        },
        _ => {},
    }
}

proof fn lemma_upgrade_status_enc(st: Result<(), v1::TransactionError>)
    ensures
        v2_codec::enc_status(upgrade_status(st)) == v1_codec::enc_status(st),
{
    match st {
        Ok(_) => {},
        Err(e) => {
            lemma_upgrade_transaction_error_enc(e);
        },
    }
}

/// Backward compatibility: a record encoded under the older snapshot
/// decodes under the newer snapshot, yielding the same fields with the
/// optional inner-instruction list absent.
#[verifier::rlimit(50)]
pub proof fn lemma_backward_compatible(m: v1::TransactionStatusMetaView)
    requires
        v1::meta_wf(m),
    ensures
        v2_codec::dec_meta_full(v1_codec::enc_meta(m)) == Some(upgrade_meta(m)),
{
    let st2 = upgrade_status(m.status);
    let t3 = enc_u64_list(m.post_balances);
    let t2 = enc_u64_list(m.pre_balances) + t3;
    let t1 = enc_u64(m.fee) + t2;
    lemma_upgrade_status_enc(m.status);
    assert(v1_codec::enc_meta(m) =~= v2_codec::enc_status(st2) + t1);
    v2_codec::lemma_rt_status(st2, t1);
    lemma_rt_u64(m.fee, t2);
    lemma_rt_u64_list(m.pre_balances, t3);
    assert(t3 =~= enc_u64_list(m.post_balances) + Seq::<u8>::empty());
    lemma_rt_u64_list(m.post_balances, Seq::<u8>::empty());
    assert(v2_codec::dec_meta_tail(
        st2,
        m.fee,
        m.pre_balances,
        m.post_balances,
        Seq::<u8>::empty(),
    ) == Some((upgrade_meta(m), Seq::<u8>::empty())));
}

} // verus!
