//! Primitives of the wire format targeted by the generated bindings: a
//! little-endian two's-complement binary encoding in which struct fields are
//! laid out in declaration order, enum variants are tagged by their declared
//! ordinal as a 32-bit little-endian integer, ordinary list lengths are 64-bit
//! little-endian counts, and the compact byte lists carry a 1-to-3-byte
//! base-128 varint length.
use vstd::arithmetic::div_mod::{
    lemma_div_denominator, lemma_fundamental_div_mod, lemma_multiply_divide_lt,
};
use vstd::prelude::*;

verus! {

// ---------------------------------------------------------------------------
// Specification: encodings
// ---------------------------------------------------------------------------

/// The four bytes of `v`, least significant first.
pub open spec fn enc_u32(v: u32) -> Seq<u8> {
    seq![
        (v as int % 0x100) as u8,
        (v as int / 0x100 % 0x100) as u8,
        (v as int / 0x10000 % 0x100) as u8,
        (v as int / 0x1000000 % 0x100) as u8,
    ]
}

/// The eight bytes of `v`, least significant first.
pub open spec fn enc_u64(v: u64) -> Seq<u8> {
    seq![
        (v as int % 0x100) as u8,
        (v as int / 0x100 % 0x100) as u8,
        (v as int / 0x10000 % 0x100) as u8,
        (v as int / 0x1000000 % 0x100) as u8,
        (v as int / 0x100000000 % 0x100) as u8,
        (v as int / 0x10000000000 % 0x100) as u8,
        (v as int / 0x1000000000000 % 0x100) as u8,
        (v as int / 0x100000000000000 % 0x100) as u8,
    ]
}

/// Compact length: a little-endian base-128 varint of one to three bytes.
/// Every byte but the last carries seven payload bits and a set top bit.
pub open spec fn enc_short_u16(v: u16) -> Seq<u8> {
    if v < 0x80 {
        seq![v as u8]
    } else if v < 0x4000 {
        seq![(v as int % 0x80 + 0x80) as u8, (v as int / 0x80) as u8]
    } else {
        seq![
            (v as int % 0x80 + 0x80) as u8,
            (v as int / 0x80 % 0x80 + 0x80) as u8,
            (v as int / 0x4000) as u8,
        ]
    }
}

// ---------------------------------------------------------------------------
// Specification: decodings
//
// Each returns the decoded value and the bytes that follow it, or `None` when
// the input does not begin with a well-formed encoding.
// ---------------------------------------------------------------------------

/// The value of four little-endian bytes.
pub open spec fn le4_val(s: Seq<u8>) -> int {
    s[0] + 0x100 * s[1] + 0x10000 * s[2] + 0x1000000 * s[3]
}

/// The value of eight little-endian bytes.
pub open spec fn le8_val(s: Seq<u8>) -> int {
    s[0] + 0x100 * s[1] + 0x10000 * s[2] + 0x1000000 * s[3] + 0x100000000 * s[4]
        + 0x10000000000 * s[5] + 0x1000000000000 * s[6] + 0x100000000000000 * s[7]
}

pub open spec fn dec_u8(s: Seq<u8>) -> Option<(u8, Seq<u8>)> {
    if s.len() >= 1 {
        Some((s[0], s.skip(1)))
    } else {
        None
    }
}

pub open spec fn dec_u32(s: Seq<u8>) -> Option<(u32, Seq<u8>)> {
    if s.len() >= 4 {
        Some((le4_val(s) as u32, s.skip(4)))
    } else {
        None
    }
}

pub open spec fn dec_u64(s: Seq<u8>) -> Option<(u64, Seq<u8>)> {
    if s.len() >= 8 {
        Some((le8_val(s) as u64, s.skip(8)))
    } else {
        None
    }
}

/// Strict decoding of the compact length: alias forms (a continuation into a
/// zero byte) and values over sixteen bits are rejected, so exactly the
/// canonical encodings are accepted.
pub open spec fn dec_short_u16(s: Seq<u8>) -> Option<(u16, Seq<u8>)> {
    if s.len() < 1 {
        None
    } else if s[0] < 0x80 {
        Some((s[0] as u16, s.skip(1)))
    } else if s.len() < 2 {
        None
    } else if s[1] == 0 {
        None
    } else if s[1] < 0x80 {
        Some(((s[0] - 0x80 + 0x80 * s[1]) as u16, s.skip(2)))
    } else if s.len() < 3 {
        None
    } else if s[2] == 0 || s[2] > 3 {
        None
    } else {
        Some(((s[0] - 0x80 + 0x80 * (s[1] - 0x80) + 0x4000 * s[2]) as u16, s.skip(3)))
    }
}

// ---------------------------------------------------------------------------
// Lists. An ordinary list is a 64-bit count followed by the encoded
// elements; a compact byte list is a compact length followed by the raw
// bytes.
// ---------------------------------------------------------------------------

pub open spec fn enc_u64_elems(vs: Seq<u64>) -> Seq<u8>
    decreases vs.len(),
{
    if vs.len() == 0 {
        Seq::empty()
    } else {
        enc_u64(vs[0]) + enc_u64_elems(vs.skip(1))
    }
}

pub open spec fn enc_u64_list(vs: Seq<u64>) -> Seq<u8> {
    enc_u64(vs.len() as u64) + enc_u64_elems(vs)
}

pub open spec fn dec_u64_elems(s: Seq<u8>, n: nat) -> Option<(Seq<u64>, Seq<u8>)>
    decreases n,
{
    if n == 0 {
        Some((Seq::empty(), s))
    } else {
        match dec_u64(s) {
            None => None,
            Some((v, r)) => match dec_u64_elems(r, (n - 1) as nat) {
                None => None,
                Some((vs, r2)) => Some((seq![v] + vs, r2)),
            },
        }
    }
}

pub open spec fn dec_u64_list(s: Seq<u8>) -> Option<(Seq<u64>, Seq<u8>)> {
    match dec_u64(s) {
        None => None,
        Some((n, r)) => dec_u64_elems(r, n as nat),
    }
}

pub open spec fn enc_byte_list(bs: Seq<u8>) -> Seq<u8> {
    enc_short_u16(bs.len() as u16) + bs
}

pub open spec fn dec_byte_list(s: Seq<u8>) -> Option<(Seq<u8>, Seq<u8>)> {
    match dec_short_u16(s) {
        None => None,
        Some((n, r)) => if r.len() >= n {
            Some((r.take(n as int), r.skip(n as int)))
        } else {
            None
        },
    }
}

// ---------------------------------------------------------------------------
// Round-trip lemmas: decoding an encoding yields the value back and leaves
// exactly the trailing bytes.
// ---------------------------------------------------------------------------

proof fn lemma_u32_reconstruct(v: u32)
    ensures
        v as int % 0x100 + 0x100 * (v as int / 0x100 % 0x100) + 0x10000 * (v as int / 0x10000
            % 0x100) + 0x1000000 * (v as int / 0x1000000 % 0x100) == v as int,
{
    let x = v as int;
    lemma_fundamental_div_mod(x, 0x100);
    lemma_div_denominator(x, 0x100, 0x100);
    lemma_fundamental_div_mod(x / 0x100, 0x100);
    lemma_div_denominator(x, 0x10000, 0x100);
    lemma_fundamental_div_mod(x / 0x10000, 0x100);
    lemma_multiply_divide_lt(x, 0x1000000, 0x100);
    assert(x == x % 0x100 + 0x100 * (x / 0x100));
    assert(x / 0x100 == x / 0x100 % 0x100 + 0x100 * (x / 0x10000));
    assert(x / 0x10000 == x / 0x10000 % 0x100 + 0x100 * (x / 0x1000000));
    assert(0 <= x / 0x1000000 < 0x100);
    assert(x / 0x1000000 % 0x100 == x / 0x1000000);
}

proof fn lemma_u64_reconstruct(v: u64)
    ensures
        v as int % 0x100 + 0x100 * (v as int / 0x100 % 0x100) + 0x10000 * (v as int / 0x10000
            % 0x100) + 0x1000000 * (v as int / 0x1000000 % 0x100) + 0x100000000 * (v as int
            / 0x100000000 % 0x100) + 0x10000000000 * (v as int / 0x10000000000 % 0x100)
            + 0x1000000000000 * (v as int / 0x1000000000000 % 0x100) + 0x100000000000000 * (
        v as int / 0x100000000000000 % 0x100) == v as int,
{
    let x = v as int;
    lemma_fundamental_div_mod(x, 0x100);
    lemma_div_denominator(x, 0x100, 0x100);
    lemma_fundamental_div_mod(x / 0x100, 0x100);
    lemma_div_denominator(x, 0x10000, 0x100);
    lemma_fundamental_div_mod(x / 0x10000, 0x100);
    lemma_div_denominator(x, 0x1000000, 0x100);
    lemma_fundamental_div_mod(x / 0x1000000, 0x100);
    lemma_div_denominator(x, 0x100000000, 0x100);
    lemma_fundamental_div_mod(x / 0x100000000, 0x100);
    lemma_div_denominator(x, 0x10000000000, 0x100);
    lemma_fundamental_div_mod(x / 0x10000000000, 0x100);
    lemma_div_denominator(x, 0x1000000000000, 0x100);
    lemma_fundamental_div_mod(x / 0x1000000000000, 0x100);
    lemma_multiply_divide_lt(x, 0x100000000000000, 0x100);
    assert(x == x % 0x100 + 0x100 * (x / 0x100));
    assert(x / 0x100 == x / 0x100 % 0x100 + 0x100 * (x / 0x10000));
    assert(x / 0x10000 == x / 0x10000 % 0x100 + 0x100 * (x / 0x1000000));
    assert(x / 0x1000000 == x / 0x1000000 % 0x100 + 0x100 * (x / 0x100000000));
    assert(x / 0x100000000 == x / 0x100000000 % 0x100 + 0x100 * (x / 0x10000000000));
    assert(x / 0x10000000000 == x / 0x10000000000 % 0x100 + 0x100 * (x / 0x1000000000000));
    assert(x / 0x1000000000000 == x / 0x1000000000000 % 0x100 + 0x100 * (x
        / 0x100000000000000));
    assert(0 <= x / 0x100000000000000 < 0x100);
    assert(x / 0x100000000000000 % 0x100 == x / 0x100000000000000);
}

pub proof fn lemma_rt_u32(v: u32, rest: Seq<u8>)
    ensures
        dec_u32(enc_u32(v) + rest) == Some((v, rest)),
{
    let s = enc_u32(v) + rest;
    lemma_u32_reconstruct(v);
    assert(le4_val(s) == v as int);
    assert(s.skip(4) =~= rest);
}

pub proof fn lemma_rt_u64(v: u64, rest: Seq<u8>)
    ensures
        dec_u64(enc_u64(v) + rest) == Some((v, rest)),
{
    let s = enc_u64(v) + rest;
    lemma_u64_reconstruct(v);
    assert(le8_val(s) == v as int);
    assert(s.skip(8) =~= rest);
}

pub proof fn lemma_rt_short_u16(v: u16, rest: Seq<u8>)
    ensures
        dec_short_u16(enc_short_u16(v) + rest) == Some((v, rest)),
{
    let s = enc_short_u16(v) + rest;
    let x = v as int;
    if v < 0x80 {
        assert(s.skip(1) =~= rest);
    } else if v < 0x4000 {
        lemma_fundamental_div_mod(x, 0x80);
        assert(1 <= x / 0x80 < 0x80);
        assert(s.skip(2) =~= rest);
    } else {
        lemma_fundamental_div_mod(x, 0x80);
        lemma_div_denominator(x, 0x80, 0x80);
        lemma_fundamental_div_mod(x / 0x80, 0x80);
        lemma_multiply_divide_lt(x, 0x4000, 4);
        assert(1 <= x / 0x4000 <= 3);
        assert(s.skip(3) =~= rest);
    }
}

pub proof fn lemma_rt_u8(b: u8, rest: Seq<u8>)
    ensures
        dec_u8(seq![b] + rest) == Some((b, rest)),
{
    assert((seq![b] + rest).skip(1) =~= rest);
}

/// Appending one element to a list appends its encoding.
pub proof fn lemma_enc_u64_elems_push(vs: Seq<u64>, v: u64)
    ensures
        enc_u64_elems(vs.push(v)) == enc_u64_elems(vs) + enc_u64(v),
    decreases vs.len(),
{
    if vs.len() == 0 {
        assert(vs.push(v).skip(1) =~= Seq::<u64>::empty());
        assert(enc_u64_elems(Seq::<u64>::empty()) == Seq::<u8>::empty());
        assert(enc_u64_elems(vs.push(v)) == enc_u64(v) + Seq::<u8>::empty());
        assert(enc_u64(v) + Seq::<u8>::empty() =~= enc_u64(v));
        assert(enc_u64_elems(vs) + enc_u64(v) =~= enc_u64(v));
    } else {
        assert(vs.push(v).skip(1) =~= vs.skip(1).push(v));
        lemma_enc_u64_elems_push(vs.skip(1), v);
        assert(enc_u64_elems(vs.push(v)) == enc_u64(vs[0]) + (enc_u64_elems(vs.skip(1))
            + enc_u64(v)));
        assert(enc_u64(vs[0]) + (enc_u64_elems(vs.skip(1)) + enc_u64(v)) =~= (enc_u64(vs[0])
            + enc_u64_elems(vs.skip(1))) + enc_u64(v));
    }
}

pub proof fn lemma_rt_u64_elems(vs: Seq<u64>, rest: Seq<u8>)
    ensures
        dec_u64_elems(enc_u64_elems(vs) + rest, vs.len()) == Some((vs, rest)),
    decreases vs.len(),
{
    if vs.len() == 0 {
        assert(enc_u64_elems(vs) + rest =~= rest);
        assert(vs =~= Seq::<u64>::empty());
    } else {
        let tail = enc_u64_elems(vs.skip(1)) + rest;
        assert(enc_u64_elems(vs) + rest =~= enc_u64(vs[0]) + tail);
        lemma_rt_u64(vs[0], tail);
        lemma_rt_u64_elems(vs.skip(1), rest);
        assert(seq![vs[0]] + vs.skip(1) =~= vs);
    }
}

pub proof fn lemma_rt_u64_list(vs: Seq<u64>, rest: Seq<u8>)
    requires
        vs.len() <= u64::MAX,
    ensures
        dec_u64_list(enc_u64_list(vs) + rest) == Some((vs, rest)),
{
    let tail = enc_u64_elems(vs) + rest;
    assert(enc_u64_list(vs) + rest =~= enc_u64(vs.len() as u64) + tail);
    lemma_rt_u64(vs.len() as u64, tail);
    lemma_rt_u64_elems(vs, rest);
}

pub proof fn lemma_rt_byte_list(bs: Seq<u8>, rest: Seq<u8>)
    requires
        bs.len() <= 0xFFFF,
    ensures
        dec_byte_list(enc_byte_list(bs) + rest) == Some((bs, rest)),
{
    let tail = bs + rest;
    assert(enc_byte_list(bs) + rest =~= enc_short_u16(bs.len() as u16) + tail);
    lemma_rt_short_u16(bs.len() as u16, tail);
    assert(tail.take(bs.len() as int) =~= bs);
    assert(tail.skip(bs.len() as int) =~= rest);
}

// ---------------------------------------------------------------------------
// Executable encoders: each appends exactly the specified bytes.
// ---------------------------------------------------------------------------

pub fn push_u32(out: &mut Vec<u8>, v: u32)
    ensures
        final(out)@ == old(out)@ + enc_u32(v),
{
    out.push((v % 0x100) as u8);
    out.push((v / 0x100 % 0x100) as u8);
    out.push((v / 0x10000 % 0x100) as u8);
    out.push((v / 0x1000000) as u8);
    proof {
        lemma_multiply_divide_lt(v as int, 0x1000000, 0x100);
        assert(out@ =~= old(out)@ + enc_u32(v));
    }
}

pub fn push_u64(out: &mut Vec<u8>, v: u64)
    ensures
        final(out)@ == old(out)@ + enc_u64(v),
{
    out.push((v % 0x100) as u8);
    out.push((v / 0x100 % 0x100) as u8);
    out.push((v / 0x10000 % 0x100) as u8);
    out.push((v / 0x1000000 % 0x100) as u8);
    out.push((v / 0x100000000 % 0x100) as u8);
    out.push((v / 0x10000000000 % 0x100) as u8);
    out.push((v / 0x1000000000000 % 0x100) as u8);
    out.push((v / 0x100000000000000) as u8);
    proof {
        lemma_multiply_divide_lt(v as int, 0x100000000000000, 0x100);
        assert(out@ =~= old(out)@ + enc_u64(v));
    }
}

pub fn push_short_u16(out: &mut Vec<u8>, v: u16)
    ensures
        final(out)@ == old(out)@ + enc_short_u16(v),
{
    if v < 0x80 {
        out.push(v as u8);
        proof {
            assert(out@ =~= old(out)@ + enc_short_u16(v));
        }
    } else if v < 0x4000 {
        out.push((v % 0x80 + 0x80) as u8);
        out.push((v / 0x80) as u8);
        proof {
            assert(out@ =~= old(out)@ + enc_short_u16(v));
        }
    } else {
        out.push((v % 0x80 + 0x80) as u8);
        out.push((v / 0x80 % 0x80 + 0x80) as u8);
        out.push((v / 0x4000) as u8);
        proof {
            assert(out@ =~= old(out)@ + enc_short_u16(v));
        }
    }
}

pub fn push_u64_list(out: &mut Vec<u8>, vs: &Vec<u64>)
    ensures
        final(out)@ == old(out)@ + enc_u64_list(vs@),
{
    push_u64(out, vs.len() as u64);
    let ghost mid = out@;
    let mut i: usize = 0;
    proof {
        assert(out@ =~= mid + enc_u64_elems(vs@.take(0)));
    }
    while i < vs.len()
        invariant
            i <= vs@.len(),
            out@ == mid + enc_u64_elems(vs@.take(i as int)),
        decreases vs@.len() - i,
    {
        push_u64(out, vs[i]);
        proof {
            assert(vs@.take(i as int + 1) =~= vs@.take(i as int).push(vs@[i as int]));
            lemma_enc_u64_elems_push(vs@.take(i as int), vs@[i as int]);
        }
        i = i + 1;
    }
    proof {
        assert(vs@.take(vs@.len() as int) =~= vs@);
        assert(out@ =~= old(out)@ + enc_u64_list(vs@));
    }
}

pub fn push_byte_list(out: &mut Vec<u8>, bs: &Vec<u8>)
    requires
        bs@.len() <= 0xFFFF,
    ensures
        final(out)@ == old(out)@ + enc_byte_list(bs@),
{
    push_short_u16(out, bs.len() as u16);
    let ghost mid = out@;
    let mut i: usize = 0;
    proof {
        assert(out@ =~= mid + bs@.take(0));
    }
    while i < bs.len()
        invariant
            i <= bs@.len(),
            out@ == mid + bs@.take(i as int),
        decreases bs@.len() - i,
    {
        out.push(bs[i]);
        proof {
            assert(out@ =~= mid + bs@.take(i as int + 1));
        }
        i = i + 1;
    }
    proof {
        assert(bs@.take(bs@.len() as int) =~= bs@);
        assert(out@ =~= old(out)@ + enc_byte_list(bs@));
    }
}

// ---------------------------------------------------------------------------
// Executable decoders: each reads at `pos` and reports the position after the
// value, mirroring the specification decoders exactly.
// ---------------------------------------------------------------------------

pub fn read_u8(bytes: &Vec<u8>, pos: usize) -> (r: Option<(u8, usize)>)
    requires
        pos <= bytes@.len(),
    ensures
        match r {
            Some((v, p)) => pos < p <= bytes@.len() && dec_u8(bytes@.skip(pos as int)) == Some(
                (v, bytes@.skip(p as int)),
            ),
            None => dec_u8(bytes@.skip(pos as int)) is None,
        },
{
    if bytes.len() - pos >= 1 {
        let v = bytes[pos];
        proof {
            assert(bytes@.skip(pos as int).skip(1) =~= bytes@.skip(pos as int + 1));
        }
        Some((v, pos + 1))
    } else {
        None
    }
}

pub fn read_u32(bytes: &Vec<u8>, pos: usize) -> (r: Option<(u32, usize)>)
    requires
        pos <= bytes@.len(),
    ensures
        match r {
            Some((v, p)) => pos < p <= bytes@.len() && dec_u32(bytes@.skip(pos as int)) == Some(
                (v, bytes@.skip(p as int)),
            ),
            None => dec_u32(bytes@.skip(pos as int)) is None,
        },
{
    if bytes.len() - pos >= 4 {
        let v = bytes[pos] as u32 + 0x100 * (bytes[pos + 1] as u32) + 0x10000 * (bytes[pos
            + 2] as u32) + 0x1000000 * (bytes[pos + 3] as u32);
        proof {
            let s = bytes@.skip(pos as int);
            assert(s.skip(4) =~= bytes@.skip(pos as int + 4));
            assert(v as int == le4_val(s));
        }
        Some((v, pos + 4))
    } else {
        None
    }
}

pub fn read_u64(bytes: &Vec<u8>, pos: usize) -> (r: Option<(u64, usize)>)
    requires
        pos <= bytes@.len(),
    ensures
        match r {
            Some((v, p)) => pos < p <= bytes@.len() && dec_u64(bytes@.skip(pos as int)) == Some(
                (v, bytes@.skip(p as int)),
            ),
            None => dec_u64(bytes@.skip(pos as int)) is None,
        },
{
    if bytes.len() - pos >= 8 {
        let v = bytes[pos] as u64 + 0x100 * (bytes[pos + 1] as u64) + 0x10000 * (bytes[pos
            + 2] as u64) + 0x1000000 * (bytes[pos + 3] as u64) + 0x100000000 * (bytes[pos
            + 4] as u64) + 0x10000000000 * (bytes[pos + 5] as u64) + 0x1000000000000 * (bytes[pos
            + 6] as u64) + 0x100000000000000 * (bytes[pos + 7] as u64);
        proof {
            let s = bytes@.skip(pos as int);
            assert(s.skip(8) =~= bytes@.skip(pos as int + 8));
            assert(v as int == le8_val(s));
        }
        Some((v, pos + 8))
    } else {
        None
    }
}

pub fn read_short_u16(bytes: &Vec<u8>, pos: usize) -> (r: Option<(u16, usize)>)
    requires
        pos <= bytes@.len(),
    ensures
        match r {
            Some((v, p)) => pos < p <= bytes@.len() && dec_short_u16(bytes@.skip(pos as int))
                == Some((v, bytes@.skip(p as int))),
            None => dec_short_u16(bytes@.skip(pos as int)) is None,
        },
{
    if bytes.len() - pos < 1 {
        return None;
    }
    let b0 = bytes[pos];
    if b0 < 0x80 {
        proof {
            assert(bytes@.skip(pos as int).skip(1) =~= bytes@.skip(pos as int + 1));
        }
        return Some((b0 as u16, pos + 1));
    }
    if bytes.len() - pos < 2 {
        return None;
    }
    let b1 = bytes[pos + 1];
    if b1 == 0 {
        return None;
    }
    if b1 < 0x80 {
        let v = b0 as u16 - 0x80 + 0x80 * (b1 as u16);
        proof {
            assert(bytes@.skip(pos as int).skip(2) =~= bytes@.skip(pos as int + 2));
        }
        return Some((v, pos + 2));
    }
    if bytes.len() - pos < 3 {
        return None;
    }
    let b2 = bytes[pos + 2];
    if b2 == 0 || b2 > 3 {
        return None;
    }
    let v = b0 as u16 - 0x80 + 0x80 * (b1 as u16 - 0x80) + 0x4000 * (b2 as u16);
    proof {
        assert(bytes@.skip(pos as int).skip(3) =~= bytes@.skip(pos as int + 3));
    }
    Some((v, pos + 3))
}

pub fn read_u64_list(bytes: &Vec<u8>, pos: usize) -> (r: Option<(Vec<u64>, usize)>)
    requires
        pos <= bytes@.len(),
    ensures
        match r {
            Some((v, p)) => pos <= p <= bytes@.len() && dec_u64_list(bytes@.skip(pos as int))
                == Some((v@, bytes@.skip(p as int))),
            None => dec_u64_list(bytes@.skip(pos as int)) is None,
        },
{
    let (n, start) = match read_u64(bytes, pos) {
        None => return None,
        Some(x) => x,
    };
    let mut acc: Vec<u64> = Vec::new();
    let mut cur: usize = start;
    let mut i: u64 = 0;
    proof {
        match dec_u64_elems(bytes@.skip(start as int), n as nat) {
            None => {},
            Some((vs, r)) => {
                assert(acc@ + vs =~= vs);
            },
        }
    }
    while i < n
        invariant
            i <= n,
            pos <= start <= cur <= bytes@.len(),
            acc@.len() == i,
            dec_u64(bytes@.skip(pos as int)) == Some((n, bytes@.skip(start as int))),
            dec_u64_elems(bytes@.skip(start as int), n as nat) == match dec_u64_elems(
                bytes@.skip(cur as int),
                (n - i) as nat,
            ) {
                None => None::<(Seq<u64>, Seq<u8>)>,
                Some((vs, r)) => Some((acc@ + vs, r)),
            },
        decreases n - i,
    {
        let (v, p2) = match read_u64(bytes, cur) {
            None => return None,
            Some(x) => x,
        };
        proof {
            let ghost prev = acc@;
            match dec_u64_elems(bytes@.skip(p2 as int), (n - i - 1) as nat) {
                None => {},
                Some((vs, r)) => {
                    assert(prev + (seq![v] + vs) =~= prev.push(v) + vs);
                },
            }
        }
        acc.push(v);
        cur = p2;
        i = i + 1;
    }
    proof {
        assert(acc@ + Seq::<u64>::empty() =~= acc@);
    }
    Some((acc, cur))
}

pub fn read_byte_list(bytes: &Vec<u8>, pos: usize) -> (r: Option<(Vec<u8>, usize)>)
    requires
        pos <= bytes@.len(),
    ensures
        match r {
            Some((v, p)) => pos <= p <= bytes@.len() && dec_byte_list(bytes@.skip(pos as int))
                == Some((v@, bytes@.skip(p as int))),
            None => dec_byte_list(bytes@.skip(pos as int)) is None,
        },
{
    let (n, start) = match read_short_u16(bytes, pos) {
        None => return None,
        Some(x) => x,
    };
    let n_us = n as usize;
    if bytes.len() - start < n_us {
        return None;
    }
    let mut acc: Vec<u8> = Vec::new();
    let mut i: usize = 0;
    proof {
        assert(acc@ =~= bytes@.subrange(start as int, start as int));
    }
    while i < n_us
        invariant
            i <= n_us,
            start + n_us <= bytes@.len(),
            bytes@.len() <= usize::MAX,
            acc@ == bytes@.subrange(start as int, start as int + i as int),
        decreases n_us - i,
    {
        let b = bytes[start + i];
        acc.push(b);
        proof {
            assert(acc@ =~= bytes@.subrange(start as int, start as int + i as int + 1));
        }
        i = i + 1;
    }
    proof {
        assert(acc@ =~= bytes@.skip(start as int).take(n as int));
        assert(bytes@.skip(start as int).skip(n as int) =~= bytes@.skip(start as int + n as int));
    }
    Some((acc, start + n_us))
}

} // verus!
