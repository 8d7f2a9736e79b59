//! Binary codec for the newer schema snapshot. Struct fields are encoded in
//! declaration order; enum variants as their 32-bit ordinal tag followed by
//! the variant's payload; the optional inner-instruction list as a one-byte
//! presence tag. Decoding tolerates input that ends right before the
//! optional field, which then defaults to absent: that is how records
//! written under the older snapshot remain readable.
use crate::v2::{
    compiled_instruction_list_wf, compiled_instruction_wf, ie_from_ord, ie_ord,
    inner_instructions_list_wf, inner_instructions_wf, instruction_error_from_ordinal,
    instruction_error_ordinal, meta_wf, te_from_ord, te_ord, transaction_error_from_ordinal,
    transaction_error_ordinal, CompiledInstruction, CompiledInstructionView, InnerInstructions,
    InnerInstructionsView, InstructionError, TransactionError, TransactionStatusMeta,
    TransactionStatusMetaView, CUSTOM_TAG, INSTRUCTION_ERROR_TAG, INSTRUCTION_ERROR_VARIANTS,
    TRANSACTION_ERROR_VARIANTS,
};
use crate::wire::{
    dec_byte_list, dec_u32, dec_u64, dec_u64_list, dec_u8, enc_byte_list, enc_u32, enc_u64,
    enc_u64_list, lemma_rt_byte_list, lemma_rt_u32, lemma_rt_u64, lemma_rt_u64_list, lemma_rt_u8,
    push_byte_list, push_u32, push_u64, push_u64_list, read_byte_list, read_u32, read_u64,
    read_u64_list, read_u8,
};
use vstd::prelude::*;

verus! {

// ---------------------------------------------------------------------------
// Specification: encodings
// ---------------------------------------------------------------------------

pub open spec fn enc_instruction_error(e: InstructionError) -> Seq<u8> {
    enc_u32(ie_ord(e)) + match e {
        InstructionError::Custom(c) => enc_u32(c),
        _ => Seq::<u8>::empty(),
    }
}

pub open spec fn enc_transaction_error(e: TransactionError) -> Seq<u8> {
    enc_u32(te_ord(e)) + match e {
        TransactionError::InstructionError(i, ie) => seq![i] + enc_instruction_error(ie),
        _ => Seq::<u8>::empty(),
    }
}

pub open spec fn enc_status(st: Result<(), TransactionError>) -> Seq<u8> {
    match st {
        Ok(_) => enc_u32(0),
        Err(e) => enc_u32(1) + enc_transaction_error(e),
    }
}

pub open spec fn enc_compiled_instruction(c: CompiledInstructionView) -> Seq<u8> {
    seq![c.program_id_index] + enc_byte_list(c.accounts) + enc_byte_list(c.data)
}

pub open spec fn enc_ci_elems(vs: Seq<CompiledInstructionView>) -> Seq<u8>
    decreases vs.len(),
{
    if vs.len() == 0 {
        Seq::empty()
    } else {
        enc_compiled_instruction(vs[0]) + enc_ci_elems(vs.skip(1))
    }
}

pub open spec fn enc_ci_list(vs: Seq<CompiledInstructionView>) -> Seq<u8> {
    enc_u64(vs.len() as u64) + enc_ci_elems(vs)
}

pub open spec fn enc_inner_instructions(i: InnerInstructionsView) -> Seq<u8> {
    seq![i.index] + enc_ci_list(i.instructions)
}

pub open spec fn enc_inner_elems(vs: Seq<InnerInstructionsView>) -> Seq<u8>
    decreases vs.len(),
{
    if vs.len() == 0 {
        Seq::empty()
    } else {
        enc_inner_instructions(vs[0]) + enc_inner_elems(vs.skip(1))
    }
}

pub open spec fn enc_inner_list(vs: Seq<InnerInstructionsView>) -> Seq<u8> {
    enc_u64(vs.len() as u64) + enc_inner_elems(vs)
}

pub open spec fn enc_opt_inner(o: Option<Seq<InnerInstructionsView>>) -> Seq<u8> {
    match o {
        None => seq![0u8],
        Some(vs) => seq![1u8] + enc_inner_list(vs),
    }
}

/// The full encoding of a record: status, fee, both balance lists, then the
/// optional inner-instruction list.
pub open spec fn enc_meta(m: TransactionStatusMetaView) -> Seq<u8> {
    enc_status(m.status) + enc_u64(m.fee) + enc_u64_list(m.pre_balances) + enc_u64_list(
        m.post_balances,
    ) + enc_opt_inner(m.inner_instructions)
}

// ---------------------------------------------------------------------------
// Specification: decodings
// ---------------------------------------------------------------------------

pub open spec fn dec_instruction_error(s: Seq<u8>) -> Option<(InstructionError, Seq<u8>)> {
    match dec_u32(s) {
        None => None,
        Some((t, r)) => if t == CUSTOM_TAG {
            match dec_u32(r) {
                None => None,
                Some((c, r2)) => Some((InstructionError::Custom(c), r2)),
            }
        } else if t < INSTRUCTION_ERROR_VARIANTS {
            Some((ie_from_ord(t as int), r))
        } else {
            None
        },
    }
}

pub open spec fn dec_transaction_error(s: Seq<u8>) -> Option<(TransactionError, Seq<u8>)> {
    match dec_u32(s) {
        None => None,
        Some((t, r)) => if t == INSTRUCTION_ERROR_TAG {
            match dec_u8(r) {
                None => None,
                Some((i, r2)) => match dec_instruction_error(r2) {
                    None => None,
                    Some((ie, r3)) => Some((TransactionError::InstructionError(i, ie), r3)),
                },
            }
        } else if t < TRANSACTION_ERROR_VARIANTS {
            Some((te_from_ord(t as int), r))
        } else {
            None
        },
    }
}

pub open spec fn dec_status(s: Seq<u8>) -> Option<(Result<(), TransactionError>, Seq<u8>)> {
    match dec_u32(s) {
        None => None,
        Some((t, r)) => if t == 0 {
            Some((Ok(()), r))
        } else if t == 1 {
            match dec_transaction_error(r) {
                None => None,
                Some((e, r2)) => Some((Err(e), r2)),
            }
        } else {
            None
        },
    }
}

pub open spec fn dec_compiled_instruction(s: Seq<u8>) -> Option<
    (CompiledInstructionView, Seq<u8>),
> {
    match dec_u8(s) {
        None => None,
        Some((pid, r)) => match dec_byte_list(r) {
            None => None,
            Some((acc, r2)) => match dec_byte_list(r2) {
                None => None,
                Some((dat, r3)) => Some(
                    (
                        CompiledInstructionView {
                            program_id_index: pid,
                            accounts: acc,
                            data: dat,
                        },
                        r3,
                    ),
                ),
            },
        },
    }
}

pub open spec fn dec_ci_elems(s: Seq<u8>, n: nat) -> Option<
    (Seq<CompiledInstructionView>, Seq<u8>),
>
    decreases n,
{
    if n == 0 {
        Some((Seq::empty(), s))
    } else {
        match dec_compiled_instruction(s) {
            None => None,
            Some((v, r)) => match dec_ci_elems(r, (n - 1) as nat) {
                None => None,
                Some((vs, r2)) => Some((seq![v] + vs, r2)),
            },
        }
    }
}

pub open spec fn dec_ci_list(s: Seq<u8>) -> Option<(Seq<CompiledInstructionView>, Seq<u8>)> {
    match dec_u64(s) {
        None => None,
        Some((n, r)) => dec_ci_elems(r, n as nat),
    }
}

pub open spec fn dec_inner_instructions(s: Seq<u8>) -> Option<(InnerInstructionsView, Seq<u8>)> {
    match dec_u8(s) {
        None => None,
        Some((ix, r)) => match dec_ci_list(r) {
            None => None,
            Some((vs, r2)) => Some((InnerInstructionsView { index: ix, instructions: vs }, r2)),
        },
    }
}

pub open spec fn dec_inner_elems(s: Seq<u8>, n: nat) -> Option<
    (Seq<InnerInstructionsView>, Seq<u8>),
>
    decreases n,
{
    if n == 0 {
        Some((Seq::empty(), s))
    } else {
        match dec_inner_instructions(s) {
            None => None,
            Some((v, r)) => match dec_inner_elems(r, (n - 1) as nat) {
                None => None,
                Some((vs, r2)) => Some((seq![v] + vs, r2)),
            },
        }
    }
}

pub open spec fn dec_inner_list(s: Seq<u8>) -> Option<(Seq<InnerInstructionsView>, Seq<u8>)> {
    match dec_u64(s) {
        None => None,
        Some((n, r)) => dec_inner_elems(r, n as nat),
    }
}

/// The tail of record decoding: the optional inner-instruction list. An
/// exhausted input defaults the field to absent; otherwise a one-byte
/// presence tag decides.
pub open spec fn dec_meta_tail(
    st: Result<(), TransactionError>,
    fee: u64,
    pre: Seq<u64>,
    post: Seq<u64>,
    r4: Seq<u8>,
) -> Option<(TransactionStatusMetaView, Seq<u8>)> {
    if r4.len() == 0 {
        Some(
            (
                TransactionStatusMetaView {
                    status: st,
                    fee: fee,
                    pre_balances: pre,
                    post_balances: post,
                    inner_instructions: None,
                },
                r4,
            ),
        )
    } else if r4[0] == 0 {
        Some(
            (
                TransactionStatusMetaView {
                    status: st,
                    fee: fee,
                    pre_balances: pre,
                    post_balances: post,
                    inner_instructions: None,
                },
                r4.skip(1),
            ),
        )
    } else if r4[0] == 1 {
        match dec_inner_list(r4.skip(1)) {
            None => None,
            Some((vs, r5)) => Some(
                (
                    TransactionStatusMetaView {
                        status: st,
                        fee: fee,
                        pre_balances: pre,
                        post_balances: post,
                        inner_instructions: Some(vs),
                    },
                    r5,
                ),
            ),
        }
    } else {
        None
    }
}

/// Decoding of a record. If the input ends right before the optional
/// inner-instruction field, that field defaults to absent.
pub open spec fn dec_meta(s: Seq<u8>) -> Option<(TransactionStatusMetaView, Seq<u8>)> {
    match dec_status(s) {
        None => None,
        Some((st, r1)) => match dec_u64(r1) {
            None => None,
            Some((fee, r2)) => match dec_u64_list(r2) {
                None => None,
                Some((pre, r3)) => match dec_u64_list(r3) {
                    None => None,
                    Some((post, r4)) => dec_meta_tail(st, fee, pre, post, r4),
                },
            },
        },
    }
}

/// Decoding of a record that must consume its input exactly.
pub open spec fn dec_meta_full(s: Seq<u8>) -> Option<TransactionStatusMetaView> {
    match dec_meta(s) {
        None => None,
        Some((m, r)) => if r.len() == 0 {
            Some(m)
        } else {
            None
        },
    }
}

// ---------------------------------------------------------------------------
// Round-trip lemmas
// ---------------------------------------------------------------------------

pub proof fn lemma_rt_instruction_error(e: InstructionError, rest: Seq<u8>)
    ensures
        dec_instruction_error(enc_instruction_error(e) + rest) == Some((e, rest)),
{
    match e {
        InstructionError::Custom(c) => {
            let tail = enc_u32(c) + rest;
            assert(enc_instruction_error(e) + rest =~= enc_u32(CUSTOM_TAG) + tail);
            lemma_rt_u32(CUSTOM_TAG, tail);
            lemma_rt_u32(c, rest);
        },
        _ => {
            reveal(ie_from_ord);
            assert(enc_instruction_error(e) + rest =~= enc_u32(ie_ord(e)) + rest);
            lemma_rt_u32(ie_ord(e), rest);
            assert(ie_from_ord(ie_ord(e) as int) == e);
        },
    }
}

pub proof fn lemma_rt_transaction_error(e: TransactionError, rest: Seq<u8>)
    ensures
        dec_transaction_error(enc_transaction_error(e) + rest) == Some((e, rest)),
{
    match e {
        TransactionError::InstructionError(i, ie) => {
            let tail2 = enc_instruction_error(ie) + rest;
            let tail1 = seq![i] + tail2;
            assert(enc_transaction_error(e) + rest =~= enc_u32(INSTRUCTION_ERROR_TAG) + tail1);
            lemma_rt_u32(INSTRUCTION_ERROR_TAG, tail1);
            lemma_rt_u8(i, tail2);
            lemma_rt_instruction_error(ie, rest);
        },
        _ => {
            reveal(te_from_ord);
            assert(enc_transaction_error(e) + rest =~= enc_u32(te_ord(e)) + rest);
            lemma_rt_u32(te_ord(e), rest);
            assert(te_from_ord(te_ord(e) as int) == e);
        },
    }
}

pub proof fn lemma_rt_status(st: Result<(), TransactionError>, rest: Seq<u8>)
    ensures
        dec_status(enc_status(st) + rest) == Some((st, rest)),
{
    match st {
        Ok(u) => {
            lemma_rt_u32(0, rest);
            assert(u == ());
            assert(st == Ok::<(), TransactionError>(()));
        },
        Err(e) => {
            let tail = enc_transaction_error(e) + rest;
            assert(enc_status(st) + rest =~= enc_u32(1) + tail);
            lemma_rt_u32(1, tail);
            lemma_rt_transaction_error(e, rest);
        },
    }
}

pub proof fn lemma_rt_compiled_instruction(c: CompiledInstructionView, rest: Seq<u8>)
    requires
        compiled_instruction_wf(c),
    ensures
        dec_compiled_instruction(enc_compiled_instruction(c) + rest) == Some((c, rest)),
{
    let tail2 = enc_byte_list(c.data) + rest;
    let tail1 = enc_byte_list(c.accounts) + tail2;
    assert(enc_compiled_instruction(c) + rest =~= seq![c.program_id_index] + tail1);
    lemma_rt_u8(c.program_id_index, tail1);
    lemma_rt_byte_list(c.accounts, tail2);
    lemma_rt_byte_list(c.data, rest);
    assert(CompiledInstructionView {
        program_id_index: c.program_id_index,
        accounts: c.accounts,
        data: c.data,
    } =~= c);
}

#[verifier::rlimit(100)]
#[verifier::spinoff_prover]
pub proof fn lemma_rt_ci_elems(vs: Seq<CompiledInstructionView>, rest: Seq<u8>)
    requires
        forall|j: int| 0 <= j < vs.len() ==> compiled_instruction_wf(#[trigger] vs[j]),
    ensures
        dec_ci_elems(enc_ci_elems(vs) + rest, vs.len()) == Some((vs, rest)),
    decreases vs.len(),
{
    if vs.len() == 0 {
        assert(enc_ci_elems(vs) + rest =~= rest);
        assert(vs =~= Seq::<CompiledInstructionView>::empty());
    } else {
        let tail = enc_ci_elems(vs.skip(1)) + rest;
        assert(enc_ci_elems(vs) + rest =~= enc_compiled_instruction(vs[0]) + tail);
        lemma_rt_compiled_instruction(vs[0], tail);
        lemma_rt_ci_elems(vs.skip(1), rest);
        assert(seq![vs[0]] + vs.skip(1) =~= vs);
    }
}

pub proof fn lemma_rt_ci_list(vs: Seq<CompiledInstructionView>, rest: Seq<u8>)
    requires
        compiled_instruction_list_wf(vs),
    ensures
        dec_ci_list(enc_ci_list(vs) + rest) == Some((vs, rest)),
{
    let tail = enc_ci_elems(vs) + rest;
    assert(enc_ci_list(vs) + rest =~= enc_u64(vs.len() as u64) + tail);
    lemma_rt_u64(vs.len() as u64, tail);
    lemma_rt_ci_elems(vs, rest);
}

pub proof fn lemma_rt_inner_instructions(i: InnerInstructionsView, rest: Seq<u8>)
    requires
        inner_instructions_wf(i),
    ensures
        dec_inner_instructions(enc_inner_instructions(i) + rest) == Some((i, rest)),
{
    let tail = enc_ci_list(i.instructions) + rest;
    assert(enc_inner_instructions(i) + rest =~= seq![i.index] + tail);
    lemma_rt_u8(i.index, tail);
    lemma_rt_ci_list(i.instructions, rest);
    assert(InnerInstructionsView { index: i.index, instructions: i.instructions } =~= i);
}

#[verifier::rlimit(100)]
#[verifier::spinoff_prover]
pub proof fn lemma_rt_inner_elems(vs: Seq<InnerInstructionsView>, rest: Seq<u8>)
    requires
        forall|j: int| 0 <= j < vs.len() ==> inner_instructions_wf(#[trigger] vs[j]),
    ensures
        dec_inner_elems(enc_inner_elems(vs) + rest, vs.len()) == Some((vs, rest)),
    decreases vs.len(),
{
    if vs.len() == 0 {
        assert(enc_inner_elems(vs) + rest =~= rest);
        assert(vs =~= Seq::<InnerInstructionsView>::empty());
    } else {
        let tail = enc_inner_elems(vs.skip(1)) + rest;
        assert(enc_inner_elems(vs) + rest =~= enc_inner_instructions(vs[0]) + tail);
        lemma_rt_inner_instructions(vs[0], tail);
        lemma_rt_inner_elems(vs.skip(1), rest);
        assert(seq![vs[0]] + vs.skip(1) =~= vs);
    }
}

pub proof fn lemma_rt_inner_list(vs: Seq<InnerInstructionsView>, rest: Seq<u8>)
    requires
        inner_instructions_list_wf(vs),
    ensures
        dec_inner_list(enc_inner_list(vs) + rest) == Some((vs, rest)),
{
    let tail = enc_inner_elems(vs) + rest;
    assert(enc_inner_list(vs) + rest =~= enc_u64(vs.len() as u64) + tail);
    lemma_rt_u64(vs.len() as u64, tail);
    lemma_rt_inner_elems(vs, rest);
}

proof fn lemma_rt_meta_tail(
    st: Result<(), TransactionError>,
    fee: u64,
    pre: Seq<u64>,
    post: Seq<u64>,
    o: Option<Seq<InnerInstructionsView>>,
    rest: Seq<u8>,
)
    requires
        match o {
            None => true,
            Some(vs) => inner_instructions_list_wf(vs),
        },
    ensures
        dec_meta_tail(st, fee, pre, post, enc_opt_inner(o) + rest) == Some(
            (
                TransactionStatusMetaView {
                    status: st,
                    fee: fee,
                    pre_balances: pre,
                    post_balances: post,
                    inner_instructions: o,
                },
                rest,
            ),
        ),
{
    let r4 = enc_opt_inner(o) + rest;
    match o {
        None => {
            assert(r4 =~= seq![0u8] + rest);
            assert(r4.len() > 0 && r4[0] == 0);
            assert(r4.skip(1) =~= rest);
        },
        Some(vs) => {
            assert(r4 =~= seq![1u8] + (enc_inner_list(vs) + rest));
            assert(r4.len() > 0 && r4[0] == 1);
            assert(r4.skip(1) =~= enc_inner_list(vs) + rest);
            lemma_rt_inner_list(vs, rest);
        },
    }
}

/// Round trip of a whole record: decoding an encoding yields the record
/// back, whatever bytes follow it.
#[verifier::rlimit(100)]
#[verifier::spinoff_prover]
pub proof fn lemma_rt_meta(m: TransactionStatusMetaView, rest: Seq<u8>)
    requires
        meta_wf(m),
    ensures
        dec_meta(enc_meta(m) + rest) == Some((m, rest)),
{
    let t4 = enc_opt_inner(m.inner_instructions) + rest;
    let t3 = enc_u64_list(m.post_balances) + t4;
    let t2 = enc_u64_list(m.pre_balances) + t3;
    let t1 = enc_u64(m.fee) + t2;
    assert(enc_meta(m) + rest =~= enc_status(m.status) + t1);
    lemma_rt_status(m.status, t1);
    lemma_rt_u64(m.fee, t2);
    lemma_rt_u64_list(m.pre_balances, t3);
    lemma_rt_u64_list(m.post_balances, t4);
    lemma_rt_meta_tail(
        m.status,
        m.fee,
        m.pre_balances,
        m.post_balances,
        m.inner_instructions,
        rest,
    );
    assert(TransactionStatusMetaView {
        status: m.status,
        fee: m.fee,
        pre_balances: m.pre_balances,
        post_balances: m.post_balances,
        inner_instructions: m.inner_instructions,
    } =~= m);
}

/// Byte-exact round trip at the top level: an encoded record, decoded with
/// the requirement that all input is consumed, comes back unchanged.
pub proof fn lemma_meta_round_trip(m: TransactionStatusMetaView)
    requires
        meta_wf(m),
    ensures
        dec_meta_full(enc_meta(m)) == Some(m),
{
    lemma_rt_meta(m, Seq::<u8>::empty());
    assert(enc_meta(m) + Seq::<u8>::empty() =~= enc_meta(m));
}

/// Appending one element to a list appends its encoding.
proof fn lemma_enc_ci_elems_push(vs: Seq<CompiledInstructionView>, v: CompiledInstructionView)
    ensures
        enc_ci_elems(vs.push(v)) == enc_ci_elems(vs) + enc_compiled_instruction(v),
    decreases vs.len(),
{
    if vs.len() == 0 {
        assert(vs.push(v).skip(1) =~= Seq::<CompiledInstructionView>::empty());
        assert(enc_ci_elems(Seq::<CompiledInstructionView>::empty()) == Seq::<u8>::empty());
        assert(enc_ci_elems(vs.push(v)) == enc_compiled_instruction(v) + Seq::<u8>::empty());
        assert(enc_compiled_instruction(v) + Seq::<u8>::empty() =~= enc_compiled_instruction(v));
        assert(enc_ci_elems(vs) + enc_compiled_instruction(v) =~= enc_compiled_instruction(v));
    } else {
        assert(vs.push(v).skip(1) =~= vs.skip(1).push(v));
        lemma_enc_ci_elems_push(vs.skip(1), v);
        assert(enc_ci_elems(vs.push(v)) == enc_compiled_instruction(vs[0]) + (enc_ci_elems(
            vs.skip(1),
        ) + enc_compiled_instruction(v)));
        assert(enc_compiled_instruction(vs[0]) + (enc_ci_elems(vs.skip(1))
            + enc_compiled_instruction(v)) =~= (enc_compiled_instruction(vs[0]) + enc_ci_elems(
            vs.skip(1),
        )) + enc_compiled_instruction(v));
    }
}

/// Appending one element to a list appends its encoding.
proof fn lemma_enc_inner_elems_push(vs: Seq<InnerInstructionsView>, v: InnerInstructionsView)
    ensures
        enc_inner_elems(vs.push(v)) == enc_inner_elems(vs) + enc_inner_instructions(v),
    decreases vs.len(),
{
    if vs.len() == 0 {
        assert(vs.push(v).skip(1) =~= Seq::<InnerInstructionsView>::empty());
        assert(enc_inner_elems(Seq::<InnerInstructionsView>::empty()) == Seq::<u8>::empty());
        assert(enc_inner_elems(vs.push(v)) == enc_inner_instructions(v) + Seq::<u8>::empty());
        assert(enc_inner_instructions(v) + Seq::<u8>::empty() =~= enc_inner_instructions(v));
        assert(enc_inner_elems(vs) + enc_inner_instructions(v) =~= enc_inner_instructions(v));
    } else {
        assert(vs.push(v).skip(1) =~= vs.skip(1).push(v));
        lemma_enc_inner_elems_push(vs.skip(1), v);
        assert(enc_inner_elems(vs.push(v)) == enc_inner_instructions(vs[0]) + (enc_inner_elems(
            vs.skip(1),
        ) + enc_inner_instructions(v)));
        assert(enc_inner_instructions(vs[0]) + (enc_inner_elems(vs.skip(1))
            + enc_inner_instructions(v)) =~= (enc_inner_instructions(vs[0]) + enc_inner_elems(
            vs.skip(1),
        )) + enc_inner_instructions(v));
    }
}

/// Determinism: the encoder's contract pins its output to `enc_meta`, a
/// function of the record alone, so any two encodings of the same record
/// are byte-identical.
pub proof fn lemma_encode_deterministic(m: TransactionStatusMetaView, b1: Seq<u8>, b2: Seq<u8>)
    requires
        b1 == enc_meta(m),
        b2 == enc_meta(m),
    ensures
        b1 == b2,
{
}

// ---------------------------------------------------------------------------
// Executable encoders
// ---------------------------------------------------------------------------

pub fn push_instruction_error(out: &mut Vec<u8>, e: &InstructionError)
    ensures
        final(out)@ == old(out)@ + enc_instruction_error(*e),
{
    let t = instruction_error_ordinal(e);
    push_u32(out, t);
    match e {
        InstructionError::Custom(c) => {
            push_u32(out, *c);
        },
        _ => {},
    }
    proof {
        assert(out@ =~= old(out)@ + enc_instruction_error(*e));
    }
}

pub fn push_transaction_error(out: &mut Vec<u8>, e: &TransactionError)
    ensures
        final(out)@ == old(out)@ + enc_transaction_error(*e),
{
    let t = transaction_error_ordinal(e);
    push_u32(out, t);
    match e {
        TransactionError::InstructionError(i, ie) => {
            out.push(*i);
            push_instruction_error(out, ie);
        },
        _ => {},
    }
    proof {
        assert(out@ =~= old(out)@ + enc_transaction_error(*e));
    }
}

pub fn push_status(out: &mut Vec<u8>, st: &Result<(), TransactionError>)
    ensures
        final(out)@ == old(out)@ + enc_status(*st),
{
    match st {
        Ok(_) => {
            push_u32(out, 0);
        },
        Err(e) => {
            push_u32(out, 1);
            push_transaction_error(out, e);
        },
    }
    proof {
        assert(out@ =~= old(out)@ + enc_status(*st));
    }
}

pub fn push_compiled_instruction(out: &mut Vec<u8>, c: &CompiledInstruction)
    requires
        compiled_instruction_wf(c@),
    ensures
        final(out)@ == old(out)@ + enc_compiled_instruction(c@),
{
    out.push(c.program_id_index);
    push_byte_list(out, &c.accounts);
    push_byte_list(out, &c.data);
    proof {
        assert(out@ =~= old(out)@ + enc_compiled_instruction(c@));
    }
}

pub fn push_ci_list(out: &mut Vec<u8>, vs: &Vec<CompiledInstruction>)
    requires
        compiled_instruction_list_wf(vs@.map_values(|c: CompiledInstruction| c@)),
    ensures
        final(out)@ == old(out)@ + enc_ci_list(vs@.map_values(|c: CompiledInstruction| c@)),
{
    let ghost views = vs@.map_values(|c: CompiledInstruction| c@);
    push_u64(out, vs.len() as u64);
    let ghost mid = out@;
    let mut i: usize = 0;
    proof {
        assert(out@ =~= mid + enc_ci_elems(views.take(0)));
    }
    while i < vs.len()
        invariant
            i <= vs@.len(),
            views == vs@.map_values(|c: CompiledInstruction| c@),
            views.len() == vs@.len(),
            compiled_instruction_list_wf(views),
            out@ == mid + enc_ci_elems(views.take(i as int)),
        decreases vs@.len() - i,
    {
        proof {
            assert(views[i as int] == vs@[i as int]@);
        }
        push_compiled_instruction(out, &vs[i]);
        proof {
            assert(views.take(i as int + 1) =~= views.take(i as int).push(views[i as int]));
            lemma_enc_ci_elems_push(views.take(i as int), views[i as int]);
        }
        i = i + 1;
    }
    proof {
        assert(views.take(views.len() as int) =~= views);
        assert(out@ =~= old(out)@ + enc_ci_list(views));
    }
}

pub fn push_inner_instructions(out: &mut Vec<u8>, inner: &InnerInstructions)
    requires
        inner_instructions_wf(inner@),
    ensures
        final(out)@ == old(out)@ + enc_inner_instructions(inner@),
{
    out.push(inner.index);
    push_ci_list(out, &inner.instructions);
    proof {
        assert(out@ =~= old(out)@ + enc_inner_instructions(inner@));
    }
}

pub fn push_inner_list(out: &mut Vec<u8>, vs: &Vec<InnerInstructions>)
    requires
        inner_instructions_list_wf(vs@.map_values(|x: InnerInstructions| x@)),
    ensures
        final(out)@ == old(out)@ + enc_inner_list(vs@.map_values(|x: InnerInstructions| x@)),
{
    let ghost views = vs@.map_values(|x: InnerInstructions| x@);
    push_u64(out, vs.len() as u64);
    let ghost mid = out@;
    let mut i: usize = 0;
    proof {
        assert(out@ =~= mid + enc_inner_elems(views.take(0)));
    }
    while i < vs.len()
        invariant
            i <= vs@.len(),
            views == vs@.map_values(|x: InnerInstructions| x@),
            views.len() == vs@.len(),
            inner_instructions_list_wf(views),
            out@ == mid + enc_inner_elems(views.take(i as int)),
        decreases vs@.len() - i,
    {
        proof {
            assert(views[i as int] == vs@[i as int]@);
        }
        push_inner_instructions(out, &vs[i]);
        proof {
            assert(views.take(i as int + 1) =~= views.take(i as int).push(views[i as int]));
            lemma_enc_inner_elems_push(views.take(i as int), views[i as int]);
        }
        i = i + 1;
    }
    proof {
        assert(views.take(views.len() as int) =~= views);
        assert(out@ =~= old(out)@ + enc_inner_list(views));
    }
}

// ---------------------------------------------------------------------------
// Representability checks
// ---------------------------------------------------------------------------

/// Whether the compact byte lists of one instruction fit their 16-bit
/// length.
pub fn compiled_instruction_fits(c: &CompiledInstruction) -> (r: bool)
    ensures
        r == compiled_instruction_wf(c@),
{
    c.accounts.len() <= 0xFFFF && c.data.len() <= 0xFFFF
}

pub fn inner_instructions_fits(inner: &InnerInstructions) -> (r: bool)
    ensures
        r == inner_instructions_wf(inner@),
{
    let ghost views = inner.instructions@.map_values(|c: CompiledInstruction| c@);
    let mut i: usize = 0;
    while i < inner.instructions.len()
        invariant
            i <= views.len(),
            views == inner.instructions@.map_values(|c: CompiledInstruction| c@),
            views.len() == inner.instructions@.len(),
            forall|j: int| 0 <= j < i ==> compiled_instruction_wf(#[trigger] views[j]),
        decreases views.len() - i,
    {
        if !compiled_instruction_fits(&inner.instructions[i]) {
            proof {
                assert(!compiled_instruction_wf(views[i as int]));
            }
            return false;
        }
        i = i + 1;
    }
    true
}

/// Whether every list in the record fits the wire format's length fields.
pub fn meta_fits(m: &TransactionStatusMeta) -> (r: bool)
    ensures
        r == meta_wf(m@),
{
    let pre_len = m.pre_balances.len();
    let post_len = m.post_balances.len();
    proof {
        assert(m@.pre_balances.len() == pre_len && pre_len <= u64::MAX);
        assert(m@.post_balances.len() == post_len && post_len <= u64::MAX);
    }
    match &m.inner_instructions {
        None => true,
        Some(vs) => {
            let ghost views = vs@.map_values(|x: InnerInstructions| x@);
            proof {
                assert(m@.inner_instructions == Some(views));
            }
            let vs_len = vs.len();
            proof {
                assert(views.len() == vs_len && vs_len <= u64::MAX);
            }
            let mut i: usize = 0;
            while i < vs.len()
                invariant
                    i <= views.len(),
                    views == vs@.map_values(|x: InnerInstructions| x@),
                    views.len() == vs@.len(),
                    m@.inner_instructions == Some(views),
                    forall|j: int| 0 <= j < i ==> inner_instructions_wf(#[trigger] views[j]),
                decreases views.len() - i,
            {
                if !inner_instructions_fits(&vs[i]) {
                    proof {
                        assert(!inner_instructions_wf(views[i as int]));
                    }
                    return false;
                }
                i = i + 1;
            }
            true
        },
    }
}

/// Encode a record. Returns the encoded bytes exactly when every list in
/// the record fits the wire format's length fields, and nothing otherwise.
pub fn encode_transaction_status_meta(m: &TransactionStatusMeta) -> (r: Option<Vec<u8>>)
    ensures
        match r {
            Some(b) => meta_wf(m@) && b@ == enc_meta(m@),
            None => !meta_wf(m@),
        },
{
    if !meta_fits(m) {
        return None;
    }
    let mut out: Vec<u8> = Vec::new();
    push_status(&mut out, &m.status);
    push_u64(&mut out, m.fee);
    push_u64_list(&mut out, &m.pre_balances);
    push_u64_list(&mut out, &m.post_balances);
    match &m.inner_instructions {
        None => {
            out.push(0u8);
        },
        Some(vs) => {
            out.push(1u8);
            push_inner_list(&mut out, vs);
        },
    }
    proof {
        assert(out@ =~= enc_meta(m@));
    }
    Some(out)
}

// ---------------------------------------------------------------------------
// Executable decoders
// ---------------------------------------------------------------------------

pub fn read_instruction_error(bytes: &Vec<u8>, pos: usize) -> (r: Option<(InstructionError, usize)>)
    requires
        pos <= bytes@.len(),
    ensures
        match r {
            Some((v, p)) => pos <= p <= bytes@.len() && dec_instruction_error(
                bytes@.skip(pos as int),
            ) == Some((v, bytes@.skip(p as int))),
            None => dec_instruction_error(bytes@.skip(pos as int)) is None,
        },
{
    let (t, p1) = match read_u32(bytes, pos) {
        None => return None,
        Some(x) => x,
    };
    if t == CUSTOM_TAG {
        let (c, p2) = match read_u32(bytes, p1) {
            None => return None,
            Some(x) => x,
        };
        Some((InstructionError::Custom(c), p2))
    } else if t < INSTRUCTION_ERROR_VARIANTS {
        Some((instruction_error_from_ordinal(t), p1))
    } else {
        None
    }
}

pub fn read_transaction_error(bytes: &Vec<u8>, pos: usize) -> (r: Option<(TransactionError, usize)>)
    requires
        pos <= bytes@.len(),
    ensures
        match r {
            Some((v, p)) => pos <= p <= bytes@.len() && dec_transaction_error(
                bytes@.skip(pos as int),
            ) == Some((v, bytes@.skip(p as int))),
            None => dec_transaction_error(bytes@.skip(pos as int)) is None,
        },
{
    let (t, p1) = match read_u32(bytes, pos) {
        None => return None,
        Some(x) => x,
    };
    if t == INSTRUCTION_ERROR_TAG {
        let (i, p2) = match read_u8(bytes, p1) {
            None => return None,
            Some(x) => x,
        };
        let (ie, p3) = match read_instruction_error(bytes, p2) {
            None => return None,
            Some(x) => x,
        };
        Some((TransactionError::InstructionError(i, ie), p3))
    } else if t < TRANSACTION_ERROR_VARIANTS {
        Some((transaction_error_from_ordinal(t), p1))
    } else {
        None
    }
}

pub fn read_status(bytes: &Vec<u8>, pos: usize) -> (r: Option<
    (Result<(), TransactionError>, usize),
>)
    requires
        pos <= bytes@.len(),
    ensures
        match r {
            Some((v, p)) => pos <= p <= bytes@.len() && dec_status(bytes@.skip(pos as int))
                == Some((v, bytes@.skip(p as int))),
            None => dec_status(bytes@.skip(pos as int)) is None,
        },
{
    let (t, p1) = match read_u32(bytes, pos) {
        None => return None,
        Some(x) => x,
    };
    if t == 0 {
        Some((Ok(()), p1))
    } else if t == 1 {
        let (e, p2) = match read_transaction_error(bytes, p1) {
            None => return None,
            Some(x) => x,
        };
        Some((Err(e), p2))
    } else {
        None
    }
}

pub fn read_compiled_instruction(bytes: &Vec<u8>, pos: usize) -> (r: Option<
    (CompiledInstruction, usize),
>)
    requires
        pos <= bytes@.len(),
    ensures
        match r {
            Some((v, p)) => pos <= p <= bytes@.len() && dec_compiled_instruction(
                bytes@.skip(pos as int),
            ) == Some((v@, bytes@.skip(p as int))),
            None => dec_compiled_instruction(bytes@.skip(pos as int)) is None,
        },
{
    let (pid, p1) = match read_u8(bytes, pos) {
        None => return None,
        Some(x) => x,
    };
    let (acc, p2) = match read_byte_list(bytes, p1) {
        None => return None,
        Some(x) => x,
    };
    let (dat, p3) = match read_byte_list(bytes, p2) {
        None => return None,
        Some(x) => x,
    };
    Some((CompiledInstruction { program_id_index: pid, accounts: acc, data: dat }, p3))
}

pub fn read_ci_list(bytes: &Vec<u8>, pos: usize) -> (r: Option<(Vec<CompiledInstruction>, usize)>)
    requires
        pos <= bytes@.len(),
    ensures
        match r {
            Some((v, p)) => pos <= p <= bytes@.len() && dec_ci_list(bytes@.skip(pos as int))
                == Some((v@.map_values(|c: CompiledInstruction| c@), bytes@.skip(p as int))),
            None => dec_ci_list(bytes@.skip(pos as int)) is None,
        },
{
    let (n, start) = match read_u64(bytes, pos) {
        None => return None,
        Some(x) => x,
    };
    let mut acc: Vec<CompiledInstruction> = Vec::new();
    let mut cur: usize = start;
    let mut i: u64 = 0;
    proof {
        assert(acc@.map_values(|c: CompiledInstruction| c@)
            =~= Seq::<CompiledInstructionView>::empty());
        match dec_ci_elems(bytes@.skip(start as int), n as nat) {
            None => {},
            Some((vs, r)) => {
                assert(Seq::<CompiledInstructionView>::empty() + vs =~= vs);
            },
        }
    }
    while i < n
        invariant
            i <= n,
            pos <= start <= cur <= bytes@.len(),
            acc@.len() == i,
            dec_u64(bytes@.skip(pos as int)) == Some((n, bytes@.skip(start as int))),
            dec_ci_elems(bytes@.skip(start as int), n as nat) == match dec_ci_elems(
                bytes@.skip(cur as int),
                (n - i) as nat,
            ) {
                None => None::<(Seq<CompiledInstructionView>, Seq<u8>)>,
                Some((vs, r)) => Some(
                    (acc@.map_values(|c: CompiledInstruction| c@) + vs, r),
                ),
            },
        decreases n - i,
    {
        let (v, p2) = match read_compiled_instruction(bytes, cur) {
            None => return None,
            Some(x) => x,
        };
        proof {
            let prev = acc@.map_values(|c: CompiledInstruction| c@);
            match dec_ci_elems(bytes@.skip(p2 as int), (n - i - 1) as nat) {
                None => {},
                Some((vs, r)) => {
                    assert(prev + (seq![v@] + vs) =~= prev.push(v@) + vs);
                },
            }
            assert(acc@.push(v).map_values(|c: CompiledInstruction| c@) =~= prev.push(v@));
        }
        acc.push(v);
        cur = p2;
        i = i + 1;
    }
    proof {
        assert(acc@.map_values(|c: CompiledInstruction| c@)
            + Seq::<CompiledInstructionView>::empty() =~= acc@.map_values(
            |c: CompiledInstruction| c@,
        ));
    }
    Some((acc, cur))
}

pub fn read_inner_instructions(bytes: &Vec<u8>, pos: usize) -> (r: Option<
    (InnerInstructions, usize),
>)
    requires
        pos <= bytes@.len(),
    ensures
        match r {
            Some((v, p)) => pos <= p <= bytes@.len() && dec_inner_instructions(
                bytes@.skip(pos as int),
            ) == Some((v@, bytes@.skip(p as int))),
            None => dec_inner_instructions(bytes@.skip(pos as int)) is None,
        },
{
    let (ix, p1) = match read_u8(bytes, pos) {
        None => return None,
        Some(x) => x,
    };
    let (vs, p2) = match read_ci_list(bytes, p1) {
        None => return None,
        Some(x) => x,
    };
    Some((InnerInstructions { index: ix, instructions: vs }, p2))
}

pub fn read_inner_list(bytes: &Vec<u8>, pos: usize) -> (r: Option<(Vec<InnerInstructions>, usize)>)
    requires
        pos <= bytes@.len(),
    ensures
        match r {
            Some((v, p)) => pos <= p <= bytes@.len() && dec_inner_list(bytes@.skip(pos as int))
                == Some((v@.map_values(|x: InnerInstructions| x@), bytes@.skip(p as int))),
            None => dec_inner_list(bytes@.skip(pos as int)) is None,
        },
{
    let (n, start) = match read_u64(bytes, pos) {
        None => return None,
        Some(x) => x,
    };
    let mut acc: Vec<InnerInstructions> = Vec::new();
    let mut cur: usize = start;
    let mut i: u64 = 0;
    proof {
        assert(acc@.map_values(|x: InnerInstructions| x@)
            =~= Seq::<InnerInstructionsView>::empty());
        match dec_inner_elems(bytes@.skip(start as int), n as nat) {
            None => {},
            Some((vs, r)) => {
                assert(Seq::<InnerInstructionsView>::empty() + vs =~= vs);
            },
        }
    }
    while i < n
        invariant
            i <= n,
            pos <= start <= cur <= bytes@.len(),
            acc@.len() == i,
            dec_u64(bytes@.skip(pos as int)) == Some((n, bytes@.skip(start as int))),
            dec_inner_elems(bytes@.skip(start as int), n as nat) == match dec_inner_elems(
                bytes@.skip(cur as int),
                (n - i) as nat,
            ) {
                None => None::<(Seq<InnerInstructionsView>, Seq<u8>)>,
                Some((vs, r)) => Some((acc@.map_values(|x: InnerInstructions| x@) + vs, r)),
            },
        decreases n - i,
    {
        let (v, p2) = match read_inner_instructions(bytes, cur) {
            None => return None,
            Some(x) => x,
        };
        proof {
            let prev = acc@.map_values(|x: InnerInstructions| x@);
            match dec_inner_elems(bytes@.skip(p2 as int), (n - i - 1) as nat) {
                None => {},
                Some((vs, r)) => {
                    assert(prev + (seq![v@] + vs) =~= prev.push(v@) + vs);
                },
            }
            assert(acc@.push(v).map_values(|x: InnerInstructions| x@) =~= prev.push(v@));
        }
        acc.push(v);
        cur = p2;
        i = i + 1;
    }
    proof {
        assert(acc@.map_values(|x: InnerInstructions| x@) + Seq::<InnerInstructionsView>::empty()
            =~= acc@.map_values(|x: InnerInstructions| x@));
    }
    Some((acc, cur))
}

/// Decode a record from a whole buffer, which must be consumed exactly.
/// Input that ends right before the optional inner-instruction field is
/// accepted, with that field absent.
pub fn decode_transaction_status_meta(bytes: &Vec<u8>) -> (r: Option<TransactionStatusMeta>)
    ensures
        match r {
            Some(m) => dec_meta_full(bytes@) == Some(m@),
            None => dec_meta_full(bytes@) is None,
        },
{
    proof {
        assert(bytes@.skip(0) =~= bytes@);
    }
    let (st, p1) = match read_status(bytes, 0) {
        None => return None,
        Some(x) => x,
    };
    let (fee, p2) = match read_u64(bytes, p1) {
        None => return None,
        Some(x) => x,
    };
    let (pre, p3) = match read_u64_list(bytes, p2) {
        None => return None,
        Some(x) => x,
    };
    let (post, p4) = match read_u64_list(bytes, p3) {
        None => return None,
        Some(x) => x,
    };
    let ghost r4 = bytes@.skip(p4 as int);
    if p4 == bytes.len() {
        return Some(
            TransactionStatusMeta {
                status: st,
                fee: fee,
                pre_balances: pre,
                post_balances: post,
                inner_instructions: None,
            },
        );
    }
    let tag = bytes[p4];
    proof {
        assert(r4[0] == bytes@[p4 as int]);
        assert(r4.skip(1) =~= bytes@.skip(p4 as int + 1));
    }
    if tag == 0 {
        if p4 + 1 == bytes.len() {
            return Some(
                TransactionStatusMeta {
                    status: st,
                    fee: fee,
                    pre_balances: pre,
                    post_balances: post,
                    inner_instructions: None,
                },
            );
        }
        return None;
    }
    if tag == 1 {
        let (inner, p5) = match read_inner_list(bytes, p4 + 1) {
            None => return None,
            Some(x) => x,
        };
        if p5 == bytes.len() {
            return Some(
                TransactionStatusMeta {
                    status: st,
                    fee: fee,
                    pre_balances: pre,
                    post_balances: post,
                    inner_instructions: Some(inner),
                },
            );
        }
        return None;
    }
    None
}

} // verus!
