//! Construction of the sample records that drive schema discovery for the
//! newer snapshot. Schema generation needs every variant of both error
//! enumerations observed at least once, so the sample set holds one
//! successful record, one record per payload-free outcome variant, and one
//! record per per-instruction failure variant nested under the outcome
//! variant that carries it; the outer fields stay fixed placeholder values.
use crate::v2::{
    ie_from_ord, ie_ord, inner_instructions_list_wf, instruction_error_from_ordinal, meta_wf,
    te_from_ord, te_ord, transaction_error_from_ordinal, CompiledInstruction, CompiledInstructionView,
    InnerInstructions, InnerInstructionsView, InstructionError, TransactionError,
    TransactionStatusMeta, TransactionStatusMetaView, INSTRUCTION_ERROR_TAG,
    INSTRUCTION_ERROR_VARIANTS, TRANSACTION_ERROR_VARIANTS,
};
use vstd::prelude::*;

verus! {

/// The fixed placeholder fee carried by every sample.
pub const SAMPLE_FEE: u64 = 500;

/// The fixed instruction index carried by samples that nest a
/// per-instruction failure.
pub const SAMPLE_INSTRUCTION_INDEX: u8 = 123;

/// The fixed balance list carried by every sample, before and after.
pub open spec fn sample_balances() -> Seq<u64> {
    seq![1u64, 2u64, 3u64]
}

/// The fixed inner-instruction list carried by every sample.
pub open spec fn sample_inner_view() -> Seq<InnerInstructionsView> {
    seq![
        InnerInstructionsView {
            index: 11,
            instructions: seq![
                CompiledInstructionView {
                    program_id_index: 1,
                    accounts: seq![1u8, 2u8, 3u8],
                    data: seq![1u8, 2u8, 3u8],
                },
            ],
        },
    ]
}

/// The fixed outer fields every sample carries.
pub open spec fn sample_frame_wf(m: TransactionStatusMetaView) -> bool {
    m.fee == SAMPLE_FEE && m.pre_balances == sample_balances() && m.post_balances
        == sample_balances() && m.inner_instructions == Some(sample_inner_view())
}

/// The sample's outcome is the failure variant with ordinal `k`.
pub open spec fn covers_te(m: TransactionStatusMetaView, k: int) -> bool {
    m.status matches Err(e) && te_ord(e) == k
}

/// The sample's outcome nests the per-instruction failure variant with
/// ordinal `k` at the fixed instruction index.
pub open spec fn covers_ie(m: TransactionStatusMetaView, k: int) -> bool {
    m.status matches Err(TransactionError::InstructionError(i, ie)) && i
        == SAMPLE_INSTRUCTION_INDEX && ie_ord(ie) == k
}

/// The outcome of the sample at position `i` of the set: success first,
/// then the payload-free outcome variants in ordinal order, with the
/// nesting variant expanded into every nested failure variant at the fixed
/// instruction index.
pub open spec fn sample_status_at(i: int) -> Result<(), TransactionError> {
    if i == 0 {
        Ok(())
    } else if i <= INSTRUCTION_ERROR_TAG {
        Err(te_from_ord(i - 1))
    } else if i < 1 + INSTRUCTION_ERROR_TAG + INSTRUCTION_ERROR_VARIANTS {
        Err(
            TransactionError::InstructionError(
                SAMPLE_INSTRUCTION_INDEX,
                ie_from_ord(i - 1 - INSTRUCTION_ERROR_TAG),
            ),
        )
    } else {
        Err(te_from_ord(i - INSTRUCTION_ERROR_VARIANTS))
    }
}

/// The whole sample record at position `i`: the set is a fixed mathematical
/// sequence, so sample construction is deterministic.
pub open spec fn sample_view_at(i: int) -> TransactionStatusMetaView {
    TransactionStatusMetaView {
        status: sample_status_at(i),
        fee: SAMPLE_FEE,
        pre_balances: sample_balances(),
        post_balances: sample_balances(),
        inner_instructions: Some(sample_inner_view()),
    }
}

/// Some sample in the set has the outcome variant with ordinal `k`.
pub open spec fn te_covered(s: Seq<TransactionStatusMeta>, k: int) -> bool {
    exists|i: int| 0 <= i < s.len() && covers_te(#[trigger] s[i]@, k)
}

/// Some sample in the set nests the per-instruction failure variant with
/// ordinal `k`.
pub open spec fn ie_covered(s: Seq<TransactionStatusMeta>, k: int) -> bool {
    exists|i: int| 0 <= i < s.len() && covers_ie(#[trigger] s[i]@, k)
}

fn sample_balances_vec() -> (r: Vec<u64>)
    ensures
        r@ == sample_balances(),
{
    let mut v: Vec<u64> = Vec::new();
    v.push(1);
    v.push(2);
    v.push(3);
    proof {
        assert(v@ =~= sample_balances());
    }
    v
}

fn sample_inner() -> (r: Vec<InnerInstructions>)
    ensures
        r@.map_values(|x: InnerInstructions| x@) == sample_inner_view(),
        inner_instructions_list_wf(sample_inner_view()),
{
    let mut accounts: Vec<u8> = Vec::new();
    accounts.push(1);
    accounts.push(2);
    accounts.push(3);
    let mut data: Vec<u8> = Vec::new();
    data.push(1);
    data.push(2);
    data.push(3);
    let ci = CompiledInstruction { program_id_index: 1, accounts: accounts, data: data };
    let mut instructions: Vec<CompiledInstruction> = Vec::new();
    instructions.push(ci);
    let inner = InnerInstructions { index: 11, instructions: instructions };
    let mut v: Vec<InnerInstructions> = Vec::new();
    v.push(inner);
    proof {
        assert(v@.map_values(|x: InnerInstructions| x@) =~~= sample_inner_view());
        assert(sample_inner_view()[0].instructions[0].accounts.len() == 3);
        assert(sample_inner_view()[0].instructions[0].data.len() == 3);
    }
    v
}

/// One sample record with the given outcome and the fixed outer fields.
pub fn sample_meta(status: Result<(), TransactionError>) -> (r: TransactionStatusMeta)
    ensures
        r@.status == status,
        sample_frame_wf(r@),
        meta_wf(r@),
{
    let r = TransactionStatusMeta {
        status: status,
        fee: SAMPLE_FEE,
        pre_balances: sample_balances_vec(),
        post_balances: sample_balances_vec(),
        inner_instructions: Some(sample_inner()),
    };
    r
}

/// The full sample set: a successful record first, then one record per
/// payload-free outcome variant in ordinal order, with the nesting variant
/// expanded into one record per nested per-instruction failure variant.
/// Every variant of both enumerations is covered.
pub fn build_samples() -> (r: Vec<TransactionStatusMeta>)
    ensures
        r@.len() == TRANSACTION_ERROR_VARIANTS + INSTRUCTION_ERROR_VARIANTS,
        forall|i: int|
            0 <= i < r@.len() ==> sample_frame_wf(#[trigger] r@[i]@) && meta_wf(r@[i]@),
        forall|i: int| 0 <= i < r@.len() ==> #[trigger] r@[i]@ == sample_view_at(i),
        r@[0]@.status is Ok,
        forall|k: int| 0 <= k < TRANSACTION_ERROR_VARIANTS ==> #[trigger] te_covered(r@, k),
        forall|k: int| 0 <= k < INSTRUCTION_ERROR_VARIANTS ==> #[trigger] ie_covered(r@, k),
{
    let mut out: Vec<TransactionStatusMeta> = Vec::new();
    out.push(sample_meta(Ok(())));
    proof {
        assert(out@[0]@ =~= sample_view_at(0));
    }
    let mut k: u32 = 0;
    while k < INSTRUCTION_ERROR_TAG
        invariant
            k <= INSTRUCTION_ERROR_TAG,
            out@.len() == 1 + k,
            out@[0]@.status is Ok,
            forall|i: int|
                0 <= i < out@.len() ==> sample_frame_wf(#[trigger] out@[i]@) && meta_wf(out@[i]@),
            forall|j: int| 0 <= j < k ==> covers_te(#[trigger] out@[1 + j]@, j),
            forall|ii: int| 0 <= ii < out@.len() ==> #[trigger] out@[ii]@ == sample_view_at(ii),
        decreases INSTRUCTION_ERROR_TAG - k,
    {
        out.push(sample_meta(Err(transaction_error_from_ordinal(k))));
        proof {
            assert(out@[out@.len() - 1]@ =~= sample_view_at(out@.len() - 1));
        }
        k = k + 1;
    }
    let mut j: u32 = 0;
    while j < INSTRUCTION_ERROR_VARIANTS
        invariant
            j <= INSTRUCTION_ERROR_VARIANTS,
            out@.len() == 1 + INSTRUCTION_ERROR_TAG + j,
            out@[0]@.status is Ok,
            forall|i: int|
                0 <= i < out@.len() ==> sample_frame_wf(#[trigger] out@[i]@) && meta_wf(out@[i]@),
            forall|jj: int|
                0 <= jj < INSTRUCTION_ERROR_TAG ==> covers_te(#[trigger] out@[1 + jj]@, jj),
            forall|jj: int|
                0 <= jj < j ==> covers_ie(
                    #[trigger] out@[1 + INSTRUCTION_ERROR_TAG + jj]@,
                    jj,
                ),
            forall|ii: int| 0 <= ii < out@.len() ==> #[trigger] out@[ii]@ == sample_view_at(ii),
        decreases INSTRUCTION_ERROR_VARIANTS - j,
    {
        out.push(
            sample_meta(
                Err(
                    TransactionError::InstructionError(
                        SAMPLE_INSTRUCTION_INDEX,
                        instruction_error_from_ordinal(j),
                    ),
                ),
            ),
        );
        proof {
            assert(out@[out@.len() - 1]@ =~= sample_view_at(out@.len() - 1));
        }
        j = j + 1;
    }
    let mut k2: u32 = INSTRUCTION_ERROR_TAG + 1;
    while k2 < TRANSACTION_ERROR_VARIANTS
        invariant
            INSTRUCTION_ERROR_TAG + 1 <= k2 <= TRANSACTION_ERROR_VARIANTS,
            out@.len() == INSTRUCTION_ERROR_VARIANTS + k2,
            out@[0]@.status is Ok,
            forall|i: int|
                0 <= i < out@.len() ==> sample_frame_wf(#[trigger] out@[i]@) && meta_wf(out@[i]@),
            forall|jj: int|
                0 <= jj < INSTRUCTION_ERROR_TAG ==> covers_te(#[trigger] out@[1 + jj]@, jj),
            forall|jj: int|
                0 <= jj < INSTRUCTION_ERROR_VARIANTS ==> covers_ie(
                    #[trigger] out@[1 + INSTRUCTION_ERROR_TAG + jj]@,
                    jj,
                ),
            forall|jj: int|
                INSTRUCTION_ERROR_TAG + 1 <= jj < k2 ==> covers_te(
                    #[trigger] out@[INSTRUCTION_ERROR_VARIANTS + jj]@,
                    jj,
                ),
            forall|ii: int| 0 <= ii < out@.len() ==> #[trigger] out@[ii]@ == sample_view_at(ii),
        decreases TRANSACTION_ERROR_VARIANTS - k2,
    {
        out.push(sample_meta(Err(transaction_error_from_ordinal(k2))));
        proof {
            assert(out@[out@.len() - 1]@ =~= sample_view_at(out@.len() - 1));
        }
        k2 = k2 + 1;
    }
    proof {
        assert forall|k: int|
            0 <= k < INSTRUCTION_ERROR_VARIANTS implies #[trigger] ie_covered(out@, k) by {
            assert(covers_ie(out@[1 + INSTRUCTION_ERROR_TAG + k]@, k));
        }
        assert forall|k: int|
            0 <= k < TRANSACTION_ERROR_VARIANTS implies #[trigger] te_covered(out@, k) by {
            if k < INSTRUCTION_ERROR_TAG {
                assert(covers_te(out@[1 + k]@, k));
            } else if k == INSTRUCTION_ERROR_TAG {
                assert(ie_covered(out@, 0));
                let i0 = choose|i: int| 0 <= i < out@.len() && covers_ie(#[trigger] out@[i]@, 0);
                assert(covers_te(out@[i0]@, k));
            } else {
                assert(covers_te(out@[INSTRUCTION_ERROR_VARIANTS + k]@, k));
            }
        }
    }
    out
}

} // verus!
