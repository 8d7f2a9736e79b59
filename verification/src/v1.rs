//! The older frozen schema snapshot of the transaction-result record. It
//! has no optional inner-instruction list, and both error enumerations are
//! shorter: the newer snapshot only appends variants at the tail, it never
//! reorders. Variant order is load-bearing: the wire encoding tags each
//! variant by its declared ordinal.
use vstd::prelude::*;

verus! {

/// Execution result of one transaction: its outcome, the fee charged, and
/// the account balances before and after.
pub struct TransactionStatusMeta {
    pub status: Result<(), TransactionError>,
    pub fee: u64,
    pub pre_balances: Vec<u64>,
    pub post_balances: Vec<u64>,
}

/// Reasons a transaction might be rejected.
#[derive(Clone, Copy, Debug, PartialEq, Eq, Structural)]
pub enum TransactionError {
    /// An account is already being processed in another transaction in a way
    /// that does not support parallelism
    AccountInUse,
    /// An account key appears twice in the transaction's account keys.
    /// Instructions can reference a key more than once but the message must
    /// contain a list with no duplicate keys
    AccountLoadedTwice,
    /// Attempt to debit an account but found no record of a prior credit
    AccountNotFound,
    /// Attempt to load a program that does not exist
    ProgramAccountNotFound,
    /// The fee payer does not have sufficient balance to pay the fee to
    /// schedule the transaction
    InsufficientFundsForFee,
    /// This account may not be used to pay transaction fees
    InvalidAccountForFee,
    /// The bank has seen this signature before. This can occur under normal
    /// operation when a network packet is duplicated, as a user error from a
    /// client not updating its recent blockhash, or as a double-spend attack
    DuplicateSignature,
    /// The bank has not seen the given recent blockhash, or the transaction
    /// is too old and the blockhash has been discarded
    BlockhashNotFound,
    /// An error occurred while processing an instruction. The first element
    /// of the tuple indicates the instruction index in which the error
    /// occurred
    InstructionError(u8, InstructionError),
    /// Loader call chain is too deep
    CallChainTooDeep,
    /// Transaction requires a fee but has no signature present
    MissingSignatureForFee,
    /// Transaction contains an invalid account reference
    InvalidAccountIndex,
    /// Transaction did not pass signature verification
    SignatureFailure,
    /// This program may not be used for executing instructions
    InvalidProgramForExecution,
}

/// Reasons the runtime might have rejected an instruction.
#[derive(Clone, Copy, Debug, PartialEq, Eq, Structural)]
pub enum InstructionError {
    /// Deprecated: the program instruction returned a generic error
    GenericError,
    /// The arguments provided to a program were invalid
    InvalidArgument,
    /// An instruction's data contents were invalid
    InvalidInstructionData,
    /// An account's data contents was invalid
    InvalidAccountData,
    /// An account's data was too small
    AccountDataTooSmall,
    /// An account's balance was too small to complete the instruction
    InsufficientFunds,
    /// The account did not have the expected program id
    IncorrectProgramId,
    /// A signature was required but not found
    MissingRequiredSignature,
    /// An initialize instruction was sent to an account that has already
    /// been initialized
    AccountAlreadyInitialized,
    /// An attempt to operate on an account that hasn't been initialized
    UninitializedAccount,
    /// Program's instruction balance does not equal the balance after the
    /// instruction
    UnbalancedInstruction,
    /// Program modified an account's program id
    ModifiedProgramId,
    /// Program spent the balance of an account that doesn't belong to it
    ExternalAccountLamportSpend,
    /// Program modified the data of an account that doesn't belong to it
    ExternalAccountDataModified,
    /// Read-only account's balance was modified
    ReadonlyLamportChange,
    /// Read-only account's data was modified
    ReadonlyDataModified,
    /// An account was referenced more than once in a single instruction
    DuplicateAccountIndex,
    /// Executable bit on account changed, but shouldn't have
    ExecutableModified,
    /// Rent epoch on account changed, but shouldn't have
    RentEpochModified,
    /// The instruction expected additional account keys
    NotEnoughAccountKeys,
    /// A non-system program changed the size of the account data
    AccountDataSizeChanged,
    /// The instruction expected an executable account
    AccountNotExecutable,
    /// Failed to borrow a reference to account data, already borrowed
    AccountBorrowFailed,
    /// Account data has an outstanding reference after a program's execution
    AccountBorrowOutstanding,
    /// The same account was multiply passed to an on-chain program's
    /// entrypoint, but the program modified them differently
    DuplicateAccountOutOfSync,
    /// Deprecated spelling of the program-specific error: any value
    /// representable as a 32-bit unsigned integer
    CustomError(u32),
    /// The return value from the program was invalid
    InvalidError,
}

impl Default for TransactionError {
    fn default() -> (r: Self)
        ensures
            r == TransactionError::AccountInUse,
    {
        TransactionError::AccountInUse
    }
}

impl Default for InstructionError {
    fn default() -> (r: Self)
        ensures
            r == InstructionError::GenericError,
    {
        InstructionError::GenericError
    }
}

/// The record with its lists abstracted to sequences. The error
/// enumerations carry no lists and stand for themselves.
#[verifier::ext_equal]
pub struct TransactionStatusMetaView {
    pub status: Result<(), TransactionError>,
    pub fee: u64,
    pub pre_balances: Seq<u64>,
    pub post_balances: Seq<u64>,
}

impl View for TransactionStatusMeta {
    type V = TransactionStatusMetaView;

    open spec fn view(&self) -> TransactionStatusMetaView {
        TransactionStatusMetaView {
            status: self.status,
            fee: self.fee,
            pre_balances: self.pre_balances@,
            post_balances: self.post_balances@,
        }
    }
}

/// What the wire format can represent: each balance list carries a 64-bit
/// length.
pub open spec fn meta_wf(m: TransactionStatusMetaView) -> bool {
    m.pre_balances.len() <= u64::MAX && m.post_balances.len() <= u64::MAX
}

/// How many variants the outcome enumeration declares.
pub const TRANSACTION_ERROR_VARIANTS: u32 = 14;

/// The declared ordinal of the variant carrying a nested instruction error.
pub const INSTRUCTION_ERROR_TAG: u32 = 8;

/// How many variants the per-instruction failure enumeration declares.
pub const INSTRUCTION_ERROR_VARIANTS: u32 = 27;

/// The declared ordinal of the variant carrying a custom error code.
pub const CUSTOM_TAG: u32 = 25;

pub open spec fn te_ord(e: TransactionError) -> u32 {
    match e {
        TransactionError::AccountInUse => 0,
        TransactionError::AccountLoadedTwice => 1,
        TransactionError::AccountNotFound => 2,
        TransactionError::ProgramAccountNotFound => 3,
        TransactionError::InsufficientFundsForFee => 4,
        TransactionError::InvalidAccountForFee => 5,
        TransactionError::DuplicateSignature => 6,
        TransactionError::BlockhashNotFound => 7,
        TransactionError::InstructionError(_, _) => 8,
        TransactionError::CallChainTooDeep => 9,
        TransactionError::MissingSignatureForFee => 10,
        TransactionError::InvalidAccountIndex => 11,
        TransactionError::SignatureFailure => 12,
        TransactionError::InvalidProgramForExecution => 13,
    }
}

/// The variant at a given ordinal; the nesting variant (ordinal 8) is not
/// produced here, since it carries a payload.
#[verifier::opaque]
pub open spec fn te_from_ord(k: int) -> TransactionError {
    if k == 0 {
        TransactionError::AccountInUse
    } else if k == 1 {
        TransactionError::AccountLoadedTwice
    } else if k == 2 {
        TransactionError::AccountNotFound
    } else if k == 3 {
        TransactionError::ProgramAccountNotFound
    } else if k == 4 {
        TransactionError::InsufficientFundsForFee
    } else if k == 5 {
        TransactionError::InvalidAccountForFee
    } else if k == 6 {
        TransactionError::DuplicateSignature
    } else if k == 7 {
        TransactionError::BlockhashNotFound
    } else if k == 9 {
        TransactionError::CallChainTooDeep
    } else if k == 10 {
        TransactionError::MissingSignatureForFee
    } else if k == 11 {
        TransactionError::InvalidAccountIndex
    } else if k == 12 {
        TransactionError::SignatureFailure
    } else if k == 13 {
        TransactionError::InvalidProgramForExecution
    } else {
        TransactionError::AccountInUse
    }
}

pub open spec fn ie_ord(e: InstructionError) -> u32 {
    match e {
        InstructionError::GenericError => 0,
        InstructionError::InvalidArgument => 1,
        InstructionError::InvalidInstructionData => 2,
        InstructionError::InvalidAccountData => 3,
        InstructionError::AccountDataTooSmall => 4,
        InstructionError::InsufficientFunds => 5,
        InstructionError::IncorrectProgramId => 6,
        InstructionError::MissingRequiredSignature => 7,
        InstructionError::AccountAlreadyInitialized => 8,
        InstructionError::UninitializedAccount => 9,
        InstructionError::UnbalancedInstruction => 10,
        InstructionError::ModifiedProgramId => 11,
        InstructionError::ExternalAccountLamportSpend => 12,
        InstructionError::ExternalAccountDataModified => 13,
        InstructionError::ReadonlyLamportChange => 14,
        InstructionError::ReadonlyDataModified => 15,
        InstructionError::DuplicateAccountIndex => 16,
        InstructionError::ExecutableModified => 17,
        InstructionError::RentEpochModified => 18,
        InstructionError::NotEnoughAccountKeys => 19,
        InstructionError::AccountDataSizeChanged => 20,
        InstructionError::AccountNotExecutable => 21,
        InstructionError::AccountBorrowFailed => 22,
        InstructionError::AccountBorrowOutstanding => 23,
        InstructionError::DuplicateAccountOutOfSync => 24,
        InstructionError::CustomError(_) => 25,
        InstructionError::InvalidError => 26,
    }
}

/// The variant at a given ordinal; the custom-code variant (ordinal 25) is
/// produced with a zero payload.
#[verifier::opaque]
pub open spec fn ie_from_ord(k: int) -> InstructionError {
    if k == 0 {
        InstructionError::GenericError
    } else if k == 1 {
        InstructionError::InvalidArgument
    } else if k == 2 {
        InstructionError::InvalidInstructionData
    } else if k == 3 {
        InstructionError::InvalidAccountData
    } else if k == 4 {
        InstructionError::AccountDataTooSmall
    } else if k == 5 {
        InstructionError::InsufficientFunds
    } else if k == 6 {
        InstructionError::IncorrectProgramId
    } else if k == 7 {
        InstructionError::MissingRequiredSignature
    } else if k == 8 {
        InstructionError::AccountAlreadyInitialized
    } else if k == 9 {
        InstructionError::UninitializedAccount
    } else if k == 10 {
        InstructionError::UnbalancedInstruction
    } else if k == 11 {
        InstructionError::ModifiedProgramId
    } else if k == 12 {
        InstructionError::ExternalAccountLamportSpend
    } else if k == 13 {
        InstructionError::ExternalAccountDataModified
    } else if k == 14 {
        InstructionError::ReadonlyLamportChange
    } else if k == 15 {
        InstructionError::ReadonlyDataModified
    } else if k == 16 {
        InstructionError::DuplicateAccountIndex
    } else if k == 17 {
        InstructionError::ExecutableModified
    } else if k == 18 {
        InstructionError::RentEpochModified
    } else if k == 19 {
        InstructionError::NotEnoughAccountKeys
    } else if k == 20 {
        InstructionError::AccountDataSizeChanged
    } else if k == 21 {
        InstructionError::AccountNotExecutable
    } else if k == 22 {
        InstructionError::AccountBorrowFailed
    } else if k == 23 {
        InstructionError::AccountBorrowOutstanding
    } else if k == 24 {
        InstructionError::DuplicateAccountOutOfSync
    } else if k == 25 {
        InstructionError::CustomError(0)
    } else {
        InstructionError::InvalidError
    }
}

/// The declared ordinal of an outcome variant.
pub fn transaction_error_ordinal(e: &TransactionError) -> (r: u32)
    ensures
        r == te_ord(*e),
{
    match e {
        TransactionError::AccountInUse => 0,
        TransactionError::AccountLoadedTwice => 1,
        TransactionError::AccountNotFound => 2,
        TransactionError::ProgramAccountNotFound => 3,
        TransactionError::InsufficientFundsForFee => 4,
        TransactionError::InvalidAccountForFee => 5,
        TransactionError::DuplicateSignature => 6,
        TransactionError::BlockhashNotFound => 7,
        TransactionError::InstructionError(_, _) => 8,
        TransactionError::CallChainTooDeep => 9,
        TransactionError::MissingSignatureForFee => 10,
        TransactionError::InvalidAccountIndex => 11,
        TransactionError::SignatureFailure => 12,
        TransactionError::InvalidProgramForExecution => 13,
    }
}

/// The payload-free outcome variant at ordinal `k`.
pub fn transaction_error_from_ordinal(k: u32) -> (r: TransactionError)
    requires
        k < TRANSACTION_ERROR_VARIANTS,
        k != INSTRUCTION_ERROR_TAG,
    ensures
        r == te_from_ord(k as int),
        te_ord(r) == k,
{
    proof {
        reveal(te_from_ord);
    }
    if k == 0 {
        TransactionError::AccountInUse
    } else if k == 1 {
        TransactionError::AccountLoadedTwice
    } else if k == 2 {
        TransactionError::AccountNotFound
    } else if k == 3 {
        TransactionError::ProgramAccountNotFound
    } else if k == 4 {
        TransactionError::InsufficientFundsForFee
    } else if k == 5 {
        TransactionError::InvalidAccountForFee
    } else if k == 6 {
        TransactionError::DuplicateSignature
    } else if k == 7 {
        TransactionError::BlockhashNotFound
    } else if k == 9 {
        TransactionError::CallChainTooDeep
    } else if k == 10 {
        TransactionError::MissingSignatureForFee
    } else if k == 11 {
        TransactionError::InvalidAccountIndex
    } else if k == 12 {
        TransactionError::SignatureFailure
    } else {
        TransactionError::InvalidProgramForExecution
    }
}

/// The declared ordinal of a per-instruction failure variant.
pub fn instruction_error_ordinal(e: &InstructionError) -> (r: u32)
    ensures
        r == ie_ord(*e),
{
    match e {
        InstructionError::GenericError => 0,
        InstructionError::InvalidArgument => 1,
        InstructionError::InvalidInstructionData => 2,
        InstructionError::InvalidAccountData => 3,
        InstructionError::AccountDataTooSmall => 4,
        InstructionError::InsufficientFunds => 5,
        InstructionError::IncorrectProgramId => 6,
        InstructionError::MissingRequiredSignature => 7,
        InstructionError::AccountAlreadyInitialized => 8,
        InstructionError::UninitializedAccount => 9,
        InstructionError::UnbalancedInstruction => 10,
        InstructionError::ModifiedProgramId => 11,
        InstructionError::ExternalAccountLamportSpend => 12,
        InstructionError::ExternalAccountDataModified => 13,
        InstructionError::ReadonlyLamportChange => 14,
        InstructionError::ReadonlyDataModified => 15,
        InstructionError::DuplicateAccountIndex => 16,
        InstructionError::ExecutableModified => 17,
        InstructionError::RentEpochModified => 18,
        InstructionError::NotEnoughAccountKeys => 19,
        InstructionError::AccountDataSizeChanged => 20,
        InstructionError::AccountNotExecutable => 21,
        InstructionError::AccountBorrowFailed => 22,
        InstructionError::AccountBorrowOutstanding => 23,
        InstructionError::DuplicateAccountOutOfSync => 24,
        InstructionError::CustomError(_) => 25,
        InstructionError::InvalidError => 26,
    }
}

/// The per-instruction failure variant at ordinal `k`; the custom-code
/// variant comes with a zero payload.
pub fn instruction_error_from_ordinal(k: u32) -> (r: InstructionError)
    requires
        k < INSTRUCTION_ERROR_VARIANTS,
    ensures
        r == ie_from_ord(k as int),
        ie_ord(r) == k,
{
    proof {
        reveal(ie_from_ord);
    }
    if k == 0 {
        InstructionError::GenericError
    } else if k == 1 {
        InstructionError::InvalidArgument
    } else if k == 2 {
        InstructionError::InvalidInstructionData
    } else if k == 3 {
        InstructionError::InvalidAccountData
    } else if k == 4 {
        InstructionError::AccountDataTooSmall
    } else if k == 5 {
        InstructionError::InsufficientFunds
    } else if k == 6 {
        InstructionError::IncorrectProgramId
    } else if k == 7 {
        InstructionError::MissingRequiredSignature
    } else if k == 8 {
        InstructionError::AccountAlreadyInitialized
    } else if k == 9 {
        InstructionError::UninitializedAccount
    } else if k == 10 {
        InstructionError::UnbalancedInstruction
    } else if k == 11 {
        InstructionError::ModifiedProgramId
    } else if k == 12 {
        InstructionError::ExternalAccountLamportSpend
    } else if k == 13 {
        InstructionError::ExternalAccountDataModified
    } else if k == 14 {
        InstructionError::ReadonlyLamportChange
    } else if k == 15 {
        InstructionError::ReadonlyDataModified
    } else if k == 16 {
        InstructionError::DuplicateAccountIndex
    } else if k == 17 {
        InstructionError::ExecutableModified
    } else if k == 18 {
        InstructionError::RentEpochModified
    } else if k == 19 {
        InstructionError::NotEnoughAccountKeys
    } else if k == 20 {
        InstructionError::AccountDataSizeChanged
    } else if k == 21 {
        InstructionError::AccountNotExecutable
    } else if k == 22 {
        InstructionError::AccountBorrowFailed
    } else if k == 23 {
        InstructionError::AccountBorrowOutstanding
    } else if k == 24 {
        InstructionError::DuplicateAccountOutOfSync
    } else if k == 25 {
        InstructionError::CustomError(0)
    } else {
        InstructionError::InvalidError
    }
}

} // verus!
