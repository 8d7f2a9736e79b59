//! The newer frozen schema snapshot of the transaction-result record: the
//! last shape it had before the upstream store moved to another format. It
//! extends the older snapshot with an optional list of per-instruction inner
//! traces and with additional variants at the tail of both error
//! enumerations. Variant order is load-bearing: the wire encoding tags each
//! variant by its declared ordinal, so variants must never be reordered.
use vstd::prelude::*;

verus! {

/// Execution result of one transaction: its outcome, the fee charged, the
/// account balances before and after, and (in this snapshot) an optional
/// list of inner-instruction traces.
pub struct TransactionStatusMeta {
    pub status: Result<(), TransactionError>,
    pub fee: u64,
    pub pre_balances: Vec<u64>,
    pub post_balances: Vec<u64>,
    pub inner_instructions: Option<Vec<InnerInstructions>>,
}

/// Inner instructions traced for the transaction instruction at `index`.
pub struct InnerInstructions {
    /// Transaction instruction index
    pub index: u8,
    /// List of inner instructions
    pub instructions: Vec<CompiledInstruction>,
}

/// A minimal encoded instruction: the program account it runs, the accounts
/// it is passed, and its opaque payload bytes.
pub struct CompiledInstruction {
    /// Index into the transaction keys array indicating the program account
    /// that executes this instruction
    pub program_id_index: u8,
    /// Ordered indices into the transaction keys array indicating which
    /// accounts to pass to the program
    pub accounts: Vec<u8>,
    /// The program input data
    pub data: Vec<u8>,
}

/// Reasons a transaction might be rejected.
#[derive(Clone, Copy, Debug, PartialEq, Eq, Structural)]
pub enum TransactionError {
    /// An account is already being processed in another transaction in a way
    /// that does not support parallelism
    AccountInUse,
    /// An account key appears twice in the transaction's account keys.
    /// Instructions can reference a key more than once but the message must
    /// contain a list with no duplicate keys
    AccountLoadedTwice,
    /// Attempt to debit an account but found no record of a prior credit
    AccountNotFound,
    /// Attempt to load a program that does not exist
    ProgramAccountNotFound,
    /// The fee payer does not have sufficient balance to pay the fee to
    /// schedule the transaction
    InsufficientFundsForFee,
    /// This account may not be used to pay transaction fees
    InvalidAccountForFee,
    /// The bank has seen this signature before. This can occur under normal
    /// operation when a network packet is duplicated, as a user error from a
    /// client not updating its recent blockhash, or as a double-spend attack
    DuplicateSignature,
    /// The bank has not seen the given recent blockhash, or the transaction
    /// is too old and the blockhash has been discarded
    BlockhashNotFound,
    /// An error occurred while processing an instruction. The first element
    /// of the tuple indicates the instruction index in which the error
    /// occurred
    InstructionError(u8, InstructionError),
    /// Loader call chain is too deep
    CallChainTooDeep,
    /// Transaction requires a fee but has no signature present
    MissingSignatureForFee,
    /// Transaction contains an invalid account reference
    InvalidAccountIndex,
    /// Transaction did not pass signature verification
    SignatureFailure,
    /// This program may not be used for executing instructions
    InvalidProgramForExecution,
    /// Transaction failed to sanitize accounts offsets correctly, which
    /// implies that account locks are not taken for this transaction and
    /// should not be unlocked
    SanitizeFailure,
    /// Transactions are currently disabled due to cluster maintenance
    ClusterMaintenance,
}

/// Reasons the runtime might have rejected an instruction.
#[derive(Clone, Copy, Debug, PartialEq, Eq, Structural)]
pub enum InstructionError {
    /// Deprecated: the program instruction returned a generic error
    GenericError,
    /// The arguments provided to a program were invalid
    InvalidArgument,
    /// An instruction's data contents were invalid
    InvalidInstructionData,
    /// An account's data contents was invalid
    InvalidAccountData,
    /// An account's data was too small
    AccountDataTooSmall,
    /// An account's balance was too small to complete the instruction
    InsufficientFunds,
    /// The account did not have the expected program id
    IncorrectProgramId,
    /// A signature was required but not found
    MissingRequiredSignature,
    /// An initialize instruction was sent to an account that has already
    /// been initialized
    AccountAlreadyInitialized,
    /// An attempt to operate on an account that hasn't been initialized
    UninitializedAccount,
    /// Program's instruction balance does not equal the balance after the
    /// instruction
    UnbalancedInstruction,
    /// Program modified an account's program id
    ModifiedProgramId,
    /// Program spent the balance of an account that doesn't belong to it
    ExternalAccountLamportSpend,
    /// Program modified the data of an account that doesn't belong to it
    ExternalAccountDataModified,
    /// Read-only account's balance was modified
    ReadonlyLamportChange,
    /// Read-only account's data was modified
    ReadonlyDataModified,
    /// An account was referenced more than once in a single instruction
    DuplicateAccountIndex,
    /// Executable bit on account changed, but shouldn't have
    ExecutableModified,
    /// Rent epoch on account changed, but shouldn't have
    RentEpochModified,
    /// The instruction expected additional account keys
    NotEnoughAccountKeys,
    /// A non-system program changed the size of the account data
    AccountDataSizeChanged,
    /// The instruction expected an executable account
    AccountNotExecutable,
    /// Failed to borrow a reference to account data, already borrowed
    AccountBorrowFailed,
    /// Account data has an outstanding reference after a program's execution
    AccountBorrowOutstanding,
    /// The same account was multiply passed to an on-chain program's
    /// entrypoint, but the program modified them differently
    DuplicateAccountOutOfSync,
    /// A program-specific error: any value representable as a 32-bit
    /// unsigned integer
    Custom(u32),
    /// The return value from the program was invalid
    InvalidError,
    /// Executable account's data was modified
    ExecutableDataModified,
    /// Executable account's balance was modified
    ExecutableLamportChange,
    /// Executable accounts must be rent exempt
    ExecutableAccountNotRentExempt,
    /// Unsupported program id
    UnsupportedProgramId,
    /// Cross-program invocation call depth too deep
    CallDepth,
    /// An account required by the instruction is missing
    MissingAccount,
    /// Cross-program invocation reentrancy not allowed for this instruction
    ReentrancyNotAllowed,
    /// Length of the seed is too long for address generation
    MaxSeedLengthExceeded,
    /// Provided seeds do not result in a valid address
    InvalidSeeds,
    /// Failed to reallocate account data
    InvalidRealloc,
    /// Computational budget exceeded
    ComputationalBudgetExceeded,
}

impl Default for TransactionError {
    fn default() -> (r: Self)
        ensures
            r == TransactionError::AccountInUse,
    {
        TransactionError::AccountInUse
    }
}

impl Default for InstructionError {
    fn default() -> (r: Self)
        ensures
            r == InstructionError::GenericError,
    {
        InstructionError::GenericError
    }
}

// ---------------------------------------------------------------------------
// Mathematical views: the record structs with every list abstracted to a
// sequence. The error enumerations carry no lists and stand for themselves.
// ---------------------------------------------------------------------------

#[verifier::ext_equal]
pub struct CompiledInstructionView {
    pub program_id_index: u8,
    pub accounts: Seq<u8>,
    pub data: Seq<u8>,
}

#[verifier::ext_equal]
pub struct InnerInstructionsView {
    pub index: u8,
    pub instructions: Seq<CompiledInstructionView>,
}

#[verifier::ext_equal]
pub struct TransactionStatusMetaView {
    pub status: Result<(), TransactionError>,
    pub fee: u64,
    pub pre_balances: Seq<u64>,
    pub post_balances: Seq<u64>,
    pub inner_instructions: Option<Seq<InnerInstructionsView>>,
}

impl View for CompiledInstruction {
    type V = CompiledInstructionView;

    open spec fn view(&self) -> CompiledInstructionView {
        CompiledInstructionView {
            program_id_index: self.program_id_index,
            accounts: self.accounts@,
            data: self.data@,
        }
    }
}

impl View for InnerInstructions {
    type V = InnerInstructionsView;

    open spec fn view(&self) -> InnerInstructionsView {
        InnerInstructionsView {
            index: self.index,
            instructions: self.instructions@.map_values(|c: CompiledInstruction| c@),
        }
    }
}

impl View for TransactionStatusMeta {
    type V = TransactionStatusMetaView;

    open spec fn view(&self) -> TransactionStatusMetaView {
        TransactionStatusMetaView {
            status: self.status,
            fee: self.fee,
            pre_balances: self.pre_balances@,
            post_balances: self.post_balances@,
            inner_instructions: match self.inner_instructions {
                None => None,
                Some(v) => Some(v@.map_values(|i: InnerInstructions| i@)),
            },
        }
    }
}

// ---------------------------------------------------------------------------
// Well-formedness: what the wire format can represent. The compact byte
// lists carry a sixteen-bit length; every other list carries a 64-bit one.
// ---------------------------------------------------------------------------

pub open spec fn compiled_instruction_wf(c: CompiledInstructionView) -> bool {
    c.accounts.len() <= 0xFFFF && c.data.len() <= 0xFFFF
}

pub open spec fn compiled_instruction_list_wf(vs: Seq<CompiledInstructionView>) -> bool {
    vs.len() <= u64::MAX && forall|j: int|
        0 <= j < vs.len() ==> compiled_instruction_wf(#[trigger] vs[j])
}

pub open spec fn inner_instructions_wf(i: InnerInstructionsView) -> bool {
    compiled_instruction_list_wf(i.instructions)
}

pub open spec fn inner_instructions_list_wf(vs: Seq<InnerInstructionsView>) -> bool {
    vs.len() <= u64::MAX && forall|j: int|
        0 <= j < vs.len() ==> inner_instructions_wf(#[trigger] vs[j])
}

pub open spec fn meta_wf(m: TransactionStatusMetaView) -> bool {
    m.pre_balances.len() <= u64::MAX && m.post_balances.len() <= u64::MAX
        && match m.inner_instructions {
        None => true,
        Some(vs) => inner_instructions_list_wf(vs),
    }
}

// ---------------------------------------------------------------------------
// Variant ordinals. The wire encoding tags a variant by this number; it is
// the variant's declared position.
// ---------------------------------------------------------------------------

/// How many variants the outcome enumeration declares.
pub const TRANSACTION_ERROR_VARIANTS: u32 = 16;

/// The declared ordinal of the variant carrying a nested instruction error.
pub const INSTRUCTION_ERROR_TAG: u32 = 8;

/// How many variants the per-instruction failure enumeration declares.
pub const INSTRUCTION_ERROR_VARIANTS: u32 = 38;

/// The declared ordinal of the variant carrying a custom error code.
pub const CUSTOM_TAG: u32 = 25;

pub open spec fn te_ord(e: TransactionError) -> u32 {
    match e {
        TransactionError::AccountInUse => 0,
        TransactionError::AccountLoadedTwice => 1,
        TransactionError::AccountNotFound => 2,
        TransactionError::ProgramAccountNotFound => 3,
        TransactionError::InsufficientFundsForFee => 4,
        TransactionError::InvalidAccountForFee => 5,
        TransactionError::DuplicateSignature => 6,
        TransactionError::BlockhashNotFound => 7,
        TransactionError::InstructionError(_, _) => 8,
        TransactionError::CallChainTooDeep => 9,
        TransactionError::MissingSignatureForFee => 10,
        TransactionError::InvalidAccountIndex => 11,
        TransactionError::SignatureFailure => 12,
        TransactionError::InvalidProgramForExecution => 13,
        TransactionError::SanitizeFailure => 14,
        TransactionError::ClusterMaintenance => 15,
    }
}

/// The variant at a given ordinal; the nesting variant (ordinal 8) is not
/// produced here, since it carries a payload.
#[verifier::opaque]
pub open spec fn te_from_ord(k: int) -> TransactionError {
    if k == 0 {
        TransactionError::AccountInUse
    } else if k == 1 {
        TransactionError::AccountLoadedTwice
    } else if k == 2 {
        TransactionError::AccountNotFound
    } else if k == 3 {
        TransactionError::ProgramAccountNotFound
    } else if k == 4 {
        TransactionError::InsufficientFundsForFee
    } else if k == 5 {
        TransactionError::InvalidAccountForFee
    } else if k == 6 {
        TransactionError::DuplicateSignature
    } else if k == 7 {
        TransactionError::BlockhashNotFound
    } else if k == 9 {
        TransactionError::CallChainTooDeep
    } else if k == 10 {
        TransactionError::MissingSignatureForFee
    } else if k == 11 {
        TransactionError::InvalidAccountIndex
    } else if k == 12 {
        TransactionError::SignatureFailure
    } else if k == 13 {
        TransactionError::InvalidProgramForExecution
    } else if k == 14 {
        TransactionError::SanitizeFailure
    } else if k == 15 {
        TransactionError::ClusterMaintenance
    } else {
        TransactionError::AccountInUse
    }
}

pub open spec fn ie_ord(e: InstructionError) -> u32 {
    match e {
        InstructionError::GenericError => 0,
        InstructionError::InvalidArgument => 1,
        InstructionError::InvalidInstructionData => 2,
        InstructionError::InvalidAccountData => 3,
        InstructionError::AccountDataTooSmall => 4,
        InstructionError::InsufficientFunds => 5,
        InstructionError::IncorrectProgramId => 6,
        InstructionError::MissingRequiredSignature => 7,
        InstructionError::AccountAlreadyInitialized => 8,
        InstructionError::UninitializedAccount => 9,
        InstructionError::UnbalancedInstruction => 10,
        InstructionError::ModifiedProgramId => 11,
        InstructionError::ExternalAccountLamportSpend => 12,
        InstructionError::ExternalAccountDataModified => 13,
        InstructionError::ReadonlyLamportChange => 14,
        InstructionError::ReadonlyDataModified => 15,
        InstructionError::DuplicateAccountIndex => 16,
        InstructionError::ExecutableModified => 17,
        InstructionError::RentEpochModified => 18,
        InstructionError::NotEnoughAccountKeys => 19,
        InstructionError::AccountDataSizeChanged => 20,
        InstructionError::AccountNotExecutable => 21,
        InstructionError::AccountBorrowFailed => 22,
        InstructionError::AccountBorrowOutstanding => 23,
        InstructionError::DuplicateAccountOutOfSync => 24,
        InstructionError::Custom(_) => 25,
        InstructionError::InvalidError => 26,
        InstructionError::ExecutableDataModified => 27,
        InstructionError::ExecutableLamportChange => 28,
        InstructionError::ExecutableAccountNotRentExempt => 29,
        InstructionError::UnsupportedProgramId => 30,
        InstructionError::CallDepth => 31,
        InstructionError::MissingAccount => 32,
        InstructionError::ReentrancyNotAllowed => 33,
        InstructionError::MaxSeedLengthExceeded => 34,
        InstructionError::InvalidSeeds => 35,
        InstructionError::InvalidRealloc => 36,
        InstructionError::ComputationalBudgetExceeded => 37,
    }
}

/// The variant at a given ordinal; the custom-code variant (ordinal 25) is
/// produced with a zero payload.
#[verifier::opaque]
pub open spec fn ie_from_ord(k: int) -> InstructionError {
    if k == 0 {
        InstructionError::GenericError
    } else if k == 1 {
        InstructionError::InvalidArgument
    } else if k == 2 {
        InstructionError::InvalidInstructionData
    } else if k == 3 {
        InstructionError::InvalidAccountData
    } else if k == 4 {
        InstructionError::AccountDataTooSmall
    } else if k == 5 {
        InstructionError::InsufficientFunds
    } else if k == 6 {
        InstructionError::IncorrectProgramId
    } else if k == 7 {
        InstructionError::MissingRequiredSignature
    } else if k == 8 {
        InstructionError::AccountAlreadyInitialized
    } else if k == 9 {
        InstructionError::UninitializedAccount
    } else if k == 10 {
        InstructionError::UnbalancedInstruction
    } else if k == 11 {
        InstructionError::ModifiedProgramId
    } else if k == 12 {
        InstructionError::ExternalAccountLamportSpend
    } else if k == 13 {
        InstructionError::ExternalAccountDataModified
    } else if k == 14 {
        InstructionError::ReadonlyLamportChange
    } else if k == 15 {
        InstructionError::ReadonlyDataModified
    } else if k == 16 {
        InstructionError::DuplicateAccountIndex
    } else if k == 17 {
        InstructionError::ExecutableModified
    } else if k == 18 {
        InstructionError::RentEpochModified
    } else if k == 19 {
        InstructionError::NotEnoughAccountKeys
    } else if k == 20 {
        InstructionError::AccountDataSizeChanged
    } else if k == 21 {
        InstructionError::AccountNotExecutable
    } else if k == 22 {
        InstructionError::AccountBorrowFailed
    } else if k == 23 {
        InstructionError::AccountBorrowOutstanding
    } else if k == 24 {
        InstructionError::DuplicateAccountOutOfSync
    } else if k == 25 {
        InstructionError::Custom(0)
    } else if k == 26 {
        InstructionError::InvalidError
    } else if k == 27 {
        InstructionError::ExecutableDataModified
    } else if k == 28 {
        InstructionError::ExecutableLamportChange
    } else if k == 29 {
        InstructionError::ExecutableAccountNotRentExempt
    } else if k == 30 {
        InstructionError::UnsupportedProgramId
    } else if k == 31 {
        InstructionError::CallDepth
    } else if k == 32 {
        InstructionError::MissingAccount
    } else if k == 33 {
        InstructionError::ReentrancyNotAllowed
    } else if k == 34 {
        InstructionError::MaxSeedLengthExceeded
    } else if k == 35 {
        InstructionError::InvalidSeeds
    } else if k == 36 {
        InstructionError::InvalidRealloc
    } else {
        InstructionError::ComputationalBudgetExceeded
    }
}

/// The declared ordinal of an outcome variant.
pub fn transaction_error_ordinal(e: &TransactionError) -> (r: u32)
    ensures
        r == te_ord(*e),
{
    match e {
        TransactionError::AccountInUse => 0,
        TransactionError::AccountLoadedTwice => 1,
        TransactionError::AccountNotFound => 2,
        TransactionError::ProgramAccountNotFound => 3,
        TransactionError::InsufficientFundsForFee => 4,
        TransactionError::InvalidAccountForFee => 5,
        TransactionError::DuplicateSignature => 6,
        TransactionError::BlockhashNotFound => 7,
        TransactionError::InstructionError(_, _) => 8,
        TransactionError::CallChainTooDeep => 9,
        TransactionError::MissingSignatureForFee => 10,
        TransactionError::InvalidAccountIndex => 11,
        TransactionError::SignatureFailure => 12,
        TransactionError::InvalidProgramForExecution => 13,
        TransactionError::SanitizeFailure => 14,
        TransactionError::ClusterMaintenance => 15,
    }
}

/// The payload-free outcome variant at ordinal `k`.
pub fn transaction_error_from_ordinal(k: u32) -> (r: TransactionError)
    requires
        k < TRANSACTION_ERROR_VARIANTS,
        k != INSTRUCTION_ERROR_TAG,
    ensures
        r == te_from_ord(k as int),
        te_ord(r) == k,
{
    proof {
        reveal(te_from_ord);
    }
    if k == 0 {
        TransactionError::AccountInUse
    } else if k == 1 {
        TransactionError::AccountLoadedTwice
    } else if k == 2 {
        TransactionError::AccountNotFound
    } else if k == 3 {
        TransactionError::ProgramAccountNotFound
    } else if k == 4 {
        TransactionError::InsufficientFundsForFee
    } else if k == 5 {
        TransactionError::InvalidAccountForFee
    } else if k == 6 {
        TransactionError::DuplicateSignature
    } else if k == 7 {
        TransactionError::BlockhashNotFound
    } else if k == 9 {
        TransactionError::CallChainTooDeep
    } else if k == 10 {
        TransactionError::MissingSignatureForFee
    } else if k == 11 {
        TransactionError::InvalidAccountIndex
    } else if k == 12 {
        TransactionError::SignatureFailure
    } else if k == 13 {
        TransactionError::InvalidProgramForExecution
    } else if k == 14 {
        TransactionError::SanitizeFailure
    } else {
        TransactionError::ClusterMaintenance
    }
}

/// The declared ordinal of a per-instruction failure variant.
pub fn instruction_error_ordinal(e: &InstructionError) -> (r: u32)
    ensures
        r == ie_ord(*e),
{
    match e {
        InstructionError::GenericError => 0,
        InstructionError::InvalidArgument => 1,
        InstructionError::InvalidInstructionData => 2,
        InstructionError::InvalidAccountData => 3,
        InstructionError::AccountDataTooSmall => 4,
        InstructionError::InsufficientFunds => 5,
        InstructionError::IncorrectProgramId => 6,
        InstructionError::MissingRequiredSignature => 7,
        InstructionError::AccountAlreadyInitialized => 8,
        InstructionError::UninitializedAccount => 9,
        InstructionError::UnbalancedInstruction => 10,
        InstructionError::ModifiedProgramId => 11,
        InstructionError::ExternalAccountLamportSpend => 12,
        InstructionError::ExternalAccountDataModified => 13,
        InstructionError::ReadonlyLamportChange => 14,
        InstructionError::ReadonlyDataModified => 15,
        InstructionError::DuplicateAccountIndex => 16,
        InstructionError::ExecutableModified => 17,
        InstructionError::RentEpochModified => 18,
        InstructionError::NotEnoughAccountKeys => 19,
        InstructionError::AccountDataSizeChanged => 20,
        InstructionError::AccountNotExecutable => 21,
        InstructionError::AccountBorrowFailed => 22,
        InstructionError::AccountBorrowOutstanding => 23,
        InstructionError::DuplicateAccountOutOfSync => 24,
        InstructionError::Custom(_) => 25,
        InstructionError::InvalidError => 26,
        InstructionError::ExecutableDataModified => 27,
        InstructionError::ExecutableLamportChange => 28,
        InstructionError::ExecutableAccountNotRentExempt => 29,
        InstructionError::UnsupportedProgramId => 30,
        InstructionError::CallDepth => 31,
        InstructionError::MissingAccount => 32,
        InstructionError::ReentrancyNotAllowed => 33,
        InstructionError::MaxSeedLengthExceeded => 34,
        InstructionError::InvalidSeeds => 35,
        InstructionError::InvalidRealloc => 36,
        InstructionError::ComputationalBudgetExceeded => 37,
    }
}

/// The per-instruction failure variant at ordinal `k`; the custom-code
/// variant comes with a zero payload.
pub fn instruction_error_from_ordinal(k: u32) -> (r: InstructionError)
    requires
        k < INSTRUCTION_ERROR_VARIANTS,
    ensures
        r == ie_from_ord(k as int),
        ie_ord(r) == k,
{
    proof {
        reveal(ie_from_ord);
    }
    if k == 0 {
        InstructionError::GenericError
    } else if k == 1 {
        InstructionError::InvalidArgument
    } else if k == 2 {
        InstructionError::InvalidInstructionData
    } else if k == 3 {
        InstructionError::InvalidAccountData
    } else if k == 4 {
        InstructionError::AccountDataTooSmall
    } else if k == 5 {
        InstructionError::InsufficientFunds
    } else if k == 6 {
        InstructionError::IncorrectProgramId
    } else if k == 7 {
        InstructionError::MissingRequiredSignature
    } else if k == 8 {
        InstructionError::AccountAlreadyInitialized
    } else if k == 9 {
        InstructionError::UninitializedAccount
    } else if k == 10 {
        InstructionError::UnbalancedInstruction
    } else if k == 11 {
        InstructionError::ModifiedProgramId
    } else if k == 12 {
        InstructionError::ExternalAccountLamportSpend
    } else if k == 13 {
        InstructionError::ExternalAccountDataModified
    } else if k == 14 {
        InstructionError::ReadonlyLamportChange
    } else if k == 15 {
        InstructionError::ReadonlyDataModified
    } else if k == 16 {
        InstructionError::DuplicateAccountIndex
    } else if k == 17 {
        InstructionError::ExecutableModified
    } else if k == 18 {
        InstructionError::RentEpochModified
    } else if k == 19 {
        InstructionError::NotEnoughAccountKeys
    } else if k == 20 {
        InstructionError::AccountDataSizeChanged
    } else if k == 21 {
        InstructionError::AccountNotExecutable
    } else if k == 22 {
        InstructionError::AccountBorrowFailed
    } else if k == 23 {
        InstructionError::AccountBorrowOutstanding
    } else if k == 24 {
        InstructionError::DuplicateAccountOutOfSync
    } else if k == 25 {
        InstructionError::Custom(0)
    } else if k == 26 {
        InstructionError::InvalidError
    } else if k == 27 {
        InstructionError::ExecutableDataModified
    } else if k == 28 {
        InstructionError::ExecutableLamportChange
    } else if k == 29 {
        InstructionError::ExecutableAccountNotRentExempt
    } else if k == 30 {
        InstructionError::UnsupportedProgramId
    } else if k == 31 {
        InstructionError::CallDepth
    } else if k == 32 {
        InstructionError::MissingAccount
    } else if k == 33 {
        InstructionError::ReentrancyNotAllowed
    } else if k == 34 {
        InstructionError::MaxSeedLengthExceeded
    } else if k == 35 {
        InstructionError::InvalidSeeds
    } else if k == 36 {
        InstructionError::InvalidRealloc
    } else {
        InstructionError::ComputationalBudgetExceeded
    }
}

} // verus!
