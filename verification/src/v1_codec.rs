//! Binary codec for the older schema snapshot. Struct fields are encoded in
//! declaration order and enum variants as their 32-bit ordinal tag followed
//! by the variant's payload. This snapshot has no optional field, so its
//! record is exactly status, fee and the two balance lists.
use crate::v1::{
    ie_from_ord, ie_ord, instruction_error_from_ordinal, instruction_error_ordinal, meta_wf,
    te_from_ord, te_ord, transaction_error_from_ordinal, transaction_error_ordinal,
    InstructionError, TransactionError, TransactionStatusMeta, TransactionStatusMetaView,
    CUSTOM_TAG, INSTRUCTION_ERROR_TAG, INSTRUCTION_ERROR_VARIANTS, TRANSACTION_ERROR_VARIANTS,
};
use crate::wire::{
    dec_u32, dec_u64, dec_u64_list, dec_u8, enc_u32, enc_u64, enc_u64_list, lemma_rt_u32,
    lemma_rt_u64, lemma_rt_u64_list, lemma_rt_u8, push_u32, push_u64, push_u64_list, read_u32,
    read_u64, read_u64_list, read_u8,
};
use vstd::prelude::*;

verus! {

// ---------------------------------------------------------------------------
// Specification: encodings
// ---------------------------------------------------------------------------

pub open spec fn enc_instruction_error(e: InstructionError) -> Seq<u8> {
    enc_u32(ie_ord(e)) + match e {
        InstructionError::CustomError(c) => enc_u32(c),
        _ => Seq::<u8>::empty(),
    }
}

pub open spec fn enc_transaction_error(e: TransactionError) -> Seq<u8> {
    enc_u32(te_ord(e)) + match e {
        TransactionError::InstructionError(i, ie) => seq![i] + enc_instruction_error(ie),
        _ => Seq::<u8>::empty(),
    }
}

pub open spec fn enc_status(st: Result<(), TransactionError>) -> Seq<u8> {
    match st {
        Ok(_) => enc_u32(0),
        Err(e) => enc_u32(1) + enc_transaction_error(e),
    }
}

/// The full encoding of a record: status, fee, then both balance lists.
pub open spec fn enc_meta(m: TransactionStatusMetaView) -> Seq<u8> {
    enc_status(m.status) + enc_u64(m.fee) + enc_u64_list(m.pre_balances) + enc_u64_list(
        m.post_balances,
    )
}

// ---------------------------------------------------------------------------
// Specification: decodings
// ---------------------------------------------------------------------------

pub open spec fn dec_instruction_error(s: Seq<u8>) -> Option<(InstructionError, Seq<u8>)> {
    match dec_u32(s) {
        None => None,
        Some((t, r)) => if t == CUSTOM_TAG {
            match dec_u32(r) {
                None => None,
                Some((c, r2)) => Some((InstructionError::CustomError(c), r2)),
            }
        } else if t < INSTRUCTION_ERROR_VARIANTS {
            Some((ie_from_ord(t as int), r))
        } else {
            None
        },
    }
}

pub open spec fn dec_transaction_error(s: Seq<u8>) -> Option<(TransactionError, Seq<u8>)> {
    match dec_u32(s) {
        None => None,
        Some((t, r)) => if t == INSTRUCTION_ERROR_TAG {
            match dec_u8(r) {
                None => None,
                Some((i, r2)) => match dec_instruction_error(r2) {
                    None => None,
                    Some((ie, r3)) => Some((TransactionError::InstructionError(i, ie), r3)),
                },
            }
        } else if t < TRANSACTION_ERROR_VARIANTS {
            Some((te_from_ord(t as int), r))
        } else {
            None
        },
    }
}

pub open spec fn dec_status(s: Seq<u8>) -> Option<(Result<(), TransactionError>, Seq<u8>)> {
    match dec_u32(s) {
        None => None,
        Some((t, r)) => if t == 0 {
            Some((Ok(()), r))
        } else if t == 1 {
            match dec_transaction_error(r) {
                None => None,
                Some((e, r2)) => Some((Err(e), r2)),
            }
        } else {
            None
        },
    }
}

/// Decoding of a record.
pub open spec fn dec_meta(s: Seq<u8>) -> Option<(TransactionStatusMetaView, Seq<u8>)> {
    match dec_status(s) {
        None => None,
        Some((st, r1)) => match dec_u64(r1) {
            None => None,
            Some((fee, r2)) => match dec_u64_list(r2) {
                None => None,
                Some((pre, r3)) => match dec_u64_list(r3) {
                    None => None,
                    Some((post, r4)) => Some(
                        (
                            TransactionStatusMetaView {
                                status: st,
                                fee: fee,
                                pre_balances: pre,
                                post_balances: post,
                            },
                            r4,
                        ),
                    ),
                },
            },
        },
    }
}

/// Decoding of a record that must consume its input exactly.
pub open spec fn dec_meta_full(s: Seq<u8>) -> Option<TransactionStatusMetaView> {
    match dec_meta(s) {
        None => None,
        Some((m, r)) => if r.len() == 0 {
            Some(m)
        } else {
            None
        },
    }
}

// ---------------------------------------------------------------------------
// Round-trip lemmas
// ---------------------------------------------------------------------------

pub proof fn lemma_rt_instruction_error(e: InstructionError, rest: Seq<u8>)
    ensures
        dec_instruction_error(enc_instruction_error(e) + rest) == Some((e, rest)),
{
    match e {
        InstructionError::CustomError(c) => {
            let tail = enc_u32(c) + rest;
            assert(enc_instruction_error(e) + rest =~= enc_u32(CUSTOM_TAG) + tail);
            lemma_rt_u32(CUSTOM_TAG, tail);
            lemma_rt_u32(c, rest);
        },
        _ => {
            reveal(ie_from_ord);
            assert(enc_instruction_error(e) + rest =~= enc_u32(ie_ord(e)) + rest);
            lemma_rt_u32(ie_ord(e), rest);
            assert(ie_from_ord(ie_ord(e) as int) == e);
        },
    }
}

pub proof fn lemma_rt_transaction_error(e: TransactionError, rest: Seq<u8>)
    ensures
        dec_transaction_error(enc_transaction_error(e) + rest) == Some((e, rest)),
{
    match e {
        TransactionError::InstructionError(i, ie) => {
            let tail2 = enc_instruction_error(ie) + rest;
            let tail1 = seq![i] + tail2;
            assert(enc_transaction_error(e) + rest =~= enc_u32(INSTRUCTION_ERROR_TAG) + tail1);
            lemma_rt_u32(INSTRUCTION_ERROR_TAG, tail1);
            lemma_rt_u8(i, tail2);
            lemma_rt_instruction_error(ie, rest);
        },
        _ => {
            reveal(te_from_ord);
            assert(enc_transaction_error(e) + rest =~= enc_u32(te_ord(e)) + rest);
            lemma_rt_u32(te_ord(e), rest);
            assert(te_from_ord(te_ord(e) as int) == e);
        },
    }
}

pub proof fn lemma_rt_status(st: Result<(), TransactionError>, rest: Seq<u8>)
    ensures
        dec_status(enc_status(st) + rest) == Some((st, rest)),
{
    match st {
        Ok(u) => {
            lemma_rt_u32(0, rest);
            assert(u == ());
            assert(st == Ok::<(), TransactionError>(()));
        },
        Err(e) => {
            let tail = enc_transaction_error(e) + rest;
            assert(enc_status(st) + rest =~= enc_u32(1) + tail);
            lemma_rt_u32(1, tail);
            lemma_rt_transaction_error(e, rest);
        },
    }
}

/// Round trip of a whole record: decoding an encoding yields the record
/// back, whatever bytes follow it.
#[verifier::rlimit(50)]
pub proof fn lemma_rt_meta(m: TransactionStatusMetaView, rest: Seq<u8>)
    requires
        meta_wf(m),
    ensures
        dec_meta(enc_meta(m) + rest) == Some((m, rest)),
{
    let t3 = enc_u64_list(m.post_balances) + rest;
    let t2 = enc_u64_list(m.pre_balances) + t3;
    let t1 = enc_u64(m.fee) + t2;
    assert(enc_meta(m) + rest =~= enc_status(m.status) + t1);
    lemma_rt_status(m.status, t1);
    lemma_rt_u64(m.fee, t2);
    lemma_rt_u64_list(m.pre_balances, t3);
    lemma_rt_u64_list(m.post_balances, rest);
    assert(TransactionStatusMetaView {
        status: m.status,
        fee: m.fee,
        pre_balances: m.pre_balances,
        post_balances: m.post_balances,
    } =~= m);
}

/// Byte-exact round trip at the top level: an encoded record, decoded with
/// the requirement that all input is consumed, comes back unchanged.
pub proof fn lemma_meta_round_trip(m: TransactionStatusMetaView)
    requires
        meta_wf(m),
    ensures
        dec_meta_full(enc_meta(m)) == Some(m),
{
    lemma_rt_meta(m, Seq::<u8>::empty());
    assert(enc_meta(m) + Seq::<u8>::empty() =~= enc_meta(m));
}

/// Determinism: the encoder's contract pins its output to `enc_meta`, a
/// function of the record alone, so any two encodings of the same record
/// are byte-identical.
pub proof fn lemma_encode_deterministic(m: TransactionStatusMetaView, b1: Seq<u8>, b2: Seq<u8>)
    requires
        b1 == enc_meta(m),
        b2 == enc_meta(m),
    ensures
        b1 == b2,
{
}

// ---------------------------------------------------------------------------
// Executable encoders
// ---------------------------------------------------------------------------

pub fn push_instruction_error(out: &mut Vec<u8>, e: &InstructionError)
    ensures
        final(out)@ == old(out)@ + enc_instruction_error(*e),
{
    let t = instruction_error_ordinal(e);
    push_u32(out, t);
    match e {
        InstructionError::CustomError(c) => {
            push_u32(out, *c);
        },
        _ => {},
    }
    proof {
        assert(out@ =~= old(out)@ + enc_instruction_error(*e));
    }
}

pub fn push_transaction_error(out: &mut Vec<u8>, e: &TransactionError)
    ensures
        final(out)@ == old(out)@ + enc_transaction_error(*e),
{
    let t = transaction_error_ordinal(e);
    push_u32(out, t);
    match e {
        TransactionError::InstructionError(i, ie) => {
            out.push(*i);
            push_instruction_error(out, ie);
        },
        _ => {},
    }
    proof {
        assert(out@ =~= old(out)@ + enc_transaction_error(*e));
    }
}

pub fn push_status(out: &mut Vec<u8>, st: &Result<(), TransactionError>)
    ensures
        final(out)@ == old(out)@ + enc_status(*st),
{
    match st {
        Ok(_) => {
            push_u32(out, 0);
        },
        Err(e) => {
            push_u32(out, 1);
            push_transaction_error(out, e);
        },
    }
    proof {
        assert(out@ =~= old(out)@ + enc_status(*st));
    }
}

/// Encode a record. Every record of this snapshot is representable, so
/// encoding cannot fail.
pub fn encode_transaction_status_meta(m: &TransactionStatusMeta) -> (r: Vec<u8>)
    ensures
        r@ == enc_meta(m@),
{
    let mut out: Vec<u8> = Vec::new();
    push_status(&mut out, &m.status);
    push_u64(&mut out, m.fee);
    push_u64_list(&mut out, &m.pre_balances);
    push_u64_list(&mut out, &m.post_balances);
    proof {
        assert(out@ =~= enc_meta(m@));
    }
    out
}

// ---------------------------------------------------------------------------
// Executable decoders
// ---------------------------------------------------------------------------

pub fn read_instruction_error(bytes: &Vec<u8>, pos: usize) -> (r: Option<(InstructionError, usize)>)
    requires
        pos <= bytes@.len(),
    ensures
        match r {
            Some((v, p)) => pos <= p <= bytes@.len() && dec_instruction_error(
                bytes@.skip(pos as int),
            ) == Some((v, bytes@.skip(p as int))),
            None => dec_instruction_error(bytes@.skip(pos as int)) is None,
        },
{
    let (t, p1) = match read_u32(bytes, pos) {
        None => return None,
        Some(x) => x,
    };
    if t == CUSTOM_TAG {
        let (c, p2) = match read_u32(bytes, p1) {
            None => return None,
            Some(x) => x,
        };
        Some((InstructionError::CustomError(c), p2))
    } else if t < INSTRUCTION_ERROR_VARIANTS {
        Some((instruction_error_from_ordinal(t), p1))
    } else {
        None
    }
}

pub fn read_transaction_error(bytes: &Vec<u8>, pos: usize) -> (r: Option<(TransactionError, usize)>)
    requires
        pos <= bytes@.len(),
    ensures
        match r {
            Some((v, p)) => pos <= p <= bytes@.len() && dec_transaction_error(
                bytes@.skip(pos as int),
            ) == Some((v, bytes@.skip(p as int))),
            None => dec_transaction_error(bytes@.skip(pos as int)) is None,
        },
{
    let (t, p1) = match read_u32(bytes, pos) {
        None => return None,
        Some(x) => x,
    };
    if t == INSTRUCTION_ERROR_TAG {
        let (i, p2) = match read_u8(bytes, p1) {
            None => return None,
            Some(x) => x,
        };
        let (ie, p3) = match read_instruction_error(bytes, p2) {
            None => return None,
            Some(x) => x,
        };
        Some((TransactionError::InstructionError(i, ie), p3))
    } else if t < TRANSACTION_ERROR_VARIANTS {
        Some((transaction_error_from_ordinal(t), p1))
    } else {
        None
    }
}

pub fn read_status(bytes: &Vec<u8>, pos: usize) -> (r: Option<
    (Result<(), TransactionError>, usize),
>)
    requires
        pos <= bytes@.len(),
    ensures
        match r {
            Some((v, p)) => pos <= p <= bytes@.len() && dec_status(bytes@.skip(pos as int))
                == Some((v, bytes@.skip(p as int))),
            None => dec_status(bytes@.skip(pos as int)) is None,
        },
{
    let (t, p1) = match read_u32(bytes, pos) {
        None => return None,
        Some(x) => x,
    };
    if t == 0 {
        Some((Ok(()), p1))
    } else if t == 1 {
        let (e, p2) = match read_transaction_error(bytes, p1) {
            None => return None,
            Some(x) => x,
        };
        Some((Err(e), p2))
    } else {
        None
    }
}

/// Decode a record from a whole buffer, which must be consumed exactly.
pub fn decode_transaction_status_meta(bytes: &Vec<u8>) -> (r: Option<TransactionStatusMeta>)
    ensures
        match r {
            Some(m) => dec_meta_full(bytes@) == Some(m@),
            None => dec_meta_full(bytes@) is None,
        },
{
    proof {
        assert(bytes@.skip(0) =~= bytes@);
    }
    let (st, p1) = match read_status(bytes, 0) {
        None => return None,
        Some(x) => x,
    };
    let (fee, p2) = match read_u64(bytes, p1) {
        None => return None,
        Some(x) => x,
    };
    let (pre, p3) = match read_u64_list(bytes, p2) {
        None => return None,
        Some(x) => x,
    };
    let (post, p4) = match read_u64_list(bytes, p3) {
        None => return None,
        Some(x) => x,
    };
    if p4 == bytes.len() {
        Some(
            TransactionStatusMeta {
                status: st,
                fee: fee,
                pre_balances: pre,
                post_balances: post,
            },
        )
    } else {
        None
    }
}

} // verus!
