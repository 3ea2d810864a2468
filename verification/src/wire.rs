//! Primitive pieces of the compact binary encoding.
//!
//! Integers travel as little-endian base-128 varints (seven payload bits per
//! byte, high bit set on every byte but the last); bit patterns of
//! floating-point measurements travel as fixed-width little-endian words.
//! Every primitive comes in four parts: a specification encoder, a
//! specification decoder that says exactly which byte sequences are
//! accepted, executable functions proved equal to the two, and a round-trip
//! lemma showing that the decoder inverts the encoder.

use vstd::prelude::*;

verus! {

/// Largest value a varint of `n` bytes can exceed: `128^n`.
pub open spec fn pow128(n: nat) -> int
    decreases n,
{
    if n == 0 {
        1
    } else {
        128 * pow128((n - 1) as nat)
    }
}

/// Varint encoding of a 32-bit value: low seven bits first, continuation
/// bit on every byte but the last.
pub open spec fn spec_enc_varint_u32(v: u32) -> Seq<u8>
    decreases v,
{
    if v < 0x80 {
        seq![v as u8]
    } else {
        seq![(v % 0x80 + 0x80) as u8] + spec_enc_varint_u32(v / 0x80)
    }
}

/// Raw varint decoding: reads continuation-marked bytes, at most `budget`
/// of them, and folds them little-endian base-128.
pub open spec fn spec_dec_varint_raw(bytes: Seq<u8>, pos: int, budget: nat) -> Option<(int, int)>
    decreases budget,
{
    if budget == 0 || pos < 0 || pos >= bytes.len() {
        None
    } else {
        let b = bytes[pos];
        if b < 0x80 {
            Some((b as int, pos + 1))
        } else {
            match spec_dec_varint_raw(bytes, pos + 1, (budget - 1) as nat) {
                Some((v, end)) => Some(((b - 0x80) + 128 * v, end)),
                None => None,
            }
        }
    }
}

/// Varint decoding of a 32-bit value: at most five bytes, and the folded
/// value must fit in 32 bits.
pub open spec fn spec_dec_varint_u32(bytes: Seq<u8>, pos: int) -> Option<(u32, int)> {
    match spec_dec_varint_raw(bytes, pos, 5) {
        Some((v, end)) => if v <= u32::MAX { Some((v as u32, end)) } else { None },
        None => None,
    }
}

/// A 16-bit value travels as the varint of its value.
pub open spec fn spec_enc_u16(v: u16) -> Seq<u8> {
    spec_enc_varint_u32(v as u32)
}

/// Decoding of a 16-bit value: a varint whose value fits in 16 bits.
pub open spec fn spec_dec_u16(bytes: Seq<u8>, pos: int) -> Option<(u16, int)> {
    match spec_dec_varint_u32(bytes, pos) {
        Some((v, end)) => if v <= u16::MAX { Some((v as u16, end)) } else { None },
        None => None,
    }
}

/// A single byte.
pub open spec fn spec_enc_u8(v: u8) -> Seq<u8> {
    seq![v]
}

/// Decoding of a single byte.
pub open spec fn spec_dec_u8(bytes: Seq<u8>, pos: int) -> Option<(u8, int)> {
    if 0 <= pos < bytes.len() {
        Some((bytes[pos], pos + 1))
    } else {
        None
    }
}

/// A 32-bit word as four little-endian bytes (used for `f32` bit patterns).
pub open spec fn spec_enc_w32(v: u32) -> Seq<u8> {
    seq![
        (v & 0xff) as u8,
        ((v >> 8) & 0xff) as u8,
        ((v >> 16) & 0xff) as u8,
        ((v >> 24) & 0xff) as u8,
    ]
}

/// Decoding of a 32-bit little-endian word.
pub open spec fn spec_dec_w32(bytes: Seq<u8>, pos: int) -> Option<(u32, int)> {
    if 0 <= pos && pos + 4 <= bytes.len() {
        Some(
            (
                (bytes[pos] as u32) | ((bytes[pos + 1] as u32) << 8) | ((bytes[pos + 2] as u32)
                    << 16) | ((bytes[pos + 3] as u32) << 24),
                pos + 4,
            ),
        )
    } else {
        None
    }
}

/// A 64-bit word as eight little-endian bytes (used for `f64` bit patterns).
pub open spec fn spec_enc_w64(v: u64) -> Seq<u8> {
    seq![
        (v & 0xff) as u8,
        ((v >> 8) & 0xff) as u8,
        ((v >> 16) & 0xff) as u8,
        ((v >> 24) & 0xff) as u8,
        ((v >> 32) & 0xff) as u8,
        ((v >> 40) & 0xff) as u8,
        ((v >> 48) & 0xff) as u8,
        ((v >> 56) & 0xff) as u8,
    ]
}

/// Decoding of a 64-bit little-endian word.
pub open spec fn spec_dec_w64(bytes: Seq<u8>, pos: int) -> Option<(u64, int)> {
    if 0 <= pos && pos + 8 <= bytes.len() {
        Some(
            (
                (bytes[pos] as u64) | ((bytes[pos + 1] as u64) << 8) | ((bytes[pos + 2] as u64)
                    << 16) | ((bytes[pos + 3] as u64) << 24) | ((bytes[pos + 4] as u64) << 32) | ((
                bytes[pos + 5] as u64) << 40) | ((bytes[pos + 6] as u64) << 48) | ((bytes[pos
                    + 7] as u64) << 56),
                pos + 8,
            ),
        )
    } else {
        None
    }
}

/// A value below `128^n` encodes in at most `n` bytes.
proof fn lemma_enc_varint_len_bound(v: u32, n: nat)
    requires
        1 <= n,
        (v as int) < pow128(n),
    ensures
        1 <= spec_enc_varint_u32(v).len() <= n,
    decreases n,
{
    if v >= 0x80 {
        assert(((v / 0x80) as int) < pow128((n - 1) as nat)) by (nonlinear_arith)
            requires
                (v as int) < 128 * pow128((n - 1) as nat),
                v >= 0x80,
        ;
        lemma_enc_varint_len_bound(v / 0x80, (n - 1) as nat);
    }
}

/// A varint of a 32-bit value is one to five bytes long.
pub proof fn lemma_enc_varint_u32_len(v: u32)
    ensures
        1 <= spec_enc_varint_u32(v).len() <= 5,
{
    assert(pow128(5) == 0x800000000) by {
        reveal_with_fuel(pow128, 6);
    }
    lemma_enc_varint_len_bound(v, 5);
}

/// Splitting a known concatenation: when `a + b` sits at `pos`, `a` sits at
/// `pos` and `b` right after it.
pub proof fn lemma_concat_at(bytes: Seq<u8>, pos: int, a: Seq<u8>, b: Seq<u8>)
    requires
        0 <= pos,
        pos + a.len() + b.len() <= bytes.len(),
        bytes.subrange(pos, pos + a.len() + b.len()) == a + b,
    ensures
        bytes.subrange(pos, pos + a.len()) == a,
        bytes.subrange(pos + a.len(), pos + a.len() + b.len()) == b,
{
    assert forall|i: int| 0 <= i < a.len() implies bytes[pos + i] == a[i] by {
        assert(bytes.subrange(pos, pos + a.len() + b.len())[i] == bytes[pos + i]);
        assert((a + b)[i] == a[i]);
    }
    assert(bytes.subrange(pos, pos + a.len()) =~= a);
    assert forall|i: int| 0 <= i < b.len() implies bytes[pos + a.len() + i] == b[i] by {
        assert(bytes.subrange(pos, pos + a.len() + b.len())[a.len() + i] == bytes[pos + a.len()
            + i]);
        assert((a + b)[a.len() + i] == b[i]);
    }
    assert(bytes.subrange(pos + a.len(), pos + a.len() + b.len()) =~= b);
}

/// Raw varint round trip, by induction over the encoded value.
proof fn lemma_varint_raw_round_trip(bytes: Seq<u8>, pos: int, v: u32, budget: nat)
    requires
        0 <= pos,
        spec_enc_varint_u32(v).len() <= budget,
        pos + spec_enc_varint_u32(v).len() <= bytes.len(),
        bytes.subrange(pos, pos + spec_enc_varint_u32(v).len()) == spec_enc_varint_u32(v),
    ensures
        spec_dec_varint_raw(bytes, pos, budget) == Some(
            (v as int, pos + spec_enc_varint_u32(v).len()),
        ),
    decreases v,
{
    let enc = spec_enc_varint_u32(v);
    assert(bytes[pos] == enc[0]) by {
        assert(bytes.subrange(pos, pos + enc.len())[0] == bytes[pos]);
    }
    if v < 0x80 {
        assert(enc[0] == v as u8);
    } else {
        let rest = spec_enc_varint_u32(v / 0x80);
        assert(enc =~= seq![(v % 0x80 + 0x80) as u8] + rest);
        lemma_concat_at(bytes, pos, seq![(v % 0x80 + 0x80) as u8], rest);
        lemma_varint_raw_round_trip(bytes, pos + 1, v / 0x80, (budget - 1) as nat);
        assert(bytes[pos] == (v % 0x80 + 0x80) as u8);
        assert(bytes[pos] >= 0x80);
        assert((bytes[pos] - 0x80) + 128 * ((v / 0x80) as int) == v as int) by {
            assert(v % 0x80 + 0x80 * (v / 0x80) == v) by (nonlinear_arith);
        }
    }
}

/// Varint round trip: the decoder recovers exactly the encoded value and
/// stops exactly at the end of its encoding.
pub proof fn lemma_varint_u32_round_trip(bytes: Seq<u8>, pos: int, v: u32)
    requires
        0 <= pos,
        pos + spec_enc_varint_u32(v).len() <= bytes.len(),
        bytes.subrange(pos, pos + spec_enc_varint_u32(v).len()) == spec_enc_varint_u32(v),
    ensures
        spec_dec_varint_u32(bytes, pos) == Some((v, pos + spec_enc_varint_u32(v).len())),
{
    lemma_enc_varint_u32_len(v);
    lemma_varint_raw_round_trip(bytes, pos, v, 5);
}

/// 16-bit round trip.
pub proof fn lemma_u16_round_trip(bytes: Seq<u8>, pos: int, v: u16)
    requires
        0 <= pos,
        pos + spec_enc_u16(v).len() <= bytes.len(),
        bytes.subrange(pos, pos + spec_enc_u16(v).len()) == spec_enc_u16(v),
    ensures
        spec_dec_u16(bytes, pos) == Some((v, pos + spec_enc_u16(v).len())),
{
    lemma_varint_u32_round_trip(bytes, pos, v as u32);
}

/// Single-byte round trip.
pub proof fn lemma_u8_round_trip(bytes: Seq<u8>, pos: int, v: u8)
    requires
        0 <= pos,
        pos + 1 <= bytes.len(),
        bytes.subrange(pos, pos + 1) == spec_enc_u8(v),
    ensures
        spec_dec_u8(bytes, pos) == Some((v, pos + 1)),
{
    assert(bytes.subrange(pos, pos + 1)[0] == bytes[pos]);
}

/// 32-bit word round trip: reassembling the four bytes gives the word back.
pub proof fn lemma_w32_round_trip(bytes: Seq<u8>, pos: int, v: u32)
    requires
        0 <= pos,
        pos + 4 <= bytes.len(),
        bytes.subrange(pos, pos + 4) == spec_enc_w32(v),
    ensures
        spec_dec_w32(bytes, pos) == Some((v, pos + 4)),
{
    let enc = spec_enc_w32(v);
    assert forall|i: int| 0 <= i < 4 implies bytes[pos + i] == enc[i] by {
        assert(bytes.subrange(pos, pos + 4)[i] == bytes[pos + i]);
    }
    let b0 = (v & 0xff) as u8;
    let b1 = ((v >> 8) & 0xff) as u8;
    let b2 = ((v >> 16) & 0xff) as u8;
    let b3 = ((v >> 24) & 0xff) as u8;
    assert((b0 as u32) | ((b1 as u32) << 8) | ((b2 as u32) << 16) | ((b3 as u32) << 24) == v)
        by (bit_vector)
        requires
            b0 == (v & 0xff) as u8,
            b1 == ((v >> 8) & 0xff) as u8,
            b2 == ((v >> 16) & 0xff) as u8,
            b3 == ((v >> 24) & 0xff) as u8,
    ;
}

/// 64-bit word round trip.
pub proof fn lemma_w64_round_trip(bytes: Seq<u8>, pos: int, v: u64)
    requires
        0 <= pos,
        pos + 8 <= bytes.len(),
        bytes.subrange(pos, pos + 8) == spec_enc_w64(v),
    ensures
        spec_dec_w64(bytes, pos) == Some((v, pos + 8)),
{
    let enc = spec_enc_w64(v);
    assert forall|i: int| 0 <= i < 8 implies bytes[pos + i] == enc[i] by {
        assert(bytes.subrange(pos, pos + 8)[i] == bytes[pos + i]);
    }
    let b0 = (v & 0xff) as u8;
    let b1 = ((v >> 8) & 0xff) as u8;
    let b2 = ((v >> 16) & 0xff) as u8;
    let b3 = ((v >> 24) & 0xff) as u8;
    let b4 = ((v >> 32) & 0xff) as u8;
    let b5 = ((v >> 40) & 0xff) as u8;
    let b6 = ((v >> 48) & 0xff) as u8;
    let b7 = ((v >> 56) & 0xff) as u8;
    assert((b0 as u64) | ((b1 as u64) << 8) | ((b2 as u64) << 16) | ((b3 as u64) << 24) | ((
    b4 as u64) << 32) | ((b5 as u64) << 40) | ((b6 as u64) << 48) | ((b7 as u64) << 56) == v)
        by (bit_vector)
        requires
            b0 == (v & 0xff) as u8,
            b1 == ((v >> 8) & 0xff) as u8,
            b2 == ((v >> 16) & 0xff) as u8,
            b3 == ((v >> 24) & 0xff) as u8,
            b4 == ((v >> 32) & 0xff) as u8,
            b5 == ((v >> 40) & 0xff) as u8,
            b6 == ((v >> 48) & 0xff) as u8,
            b7 == ((v >> 56) & 0xff) as u8,
    ;
}

/// Appends the varint encoding of `v`.
pub fn encode_varint_u32(buf: &mut Vec<u8>, v: u32)
    ensures
        final(buf)@ == old(buf)@ + spec_enc_varint_u32(v),
    decreases v,
{
    if v < 0x80 {
        buf.push(v as u8);
        assert(buf@ =~= old(buf)@ + spec_enc_varint_u32(v));
    } else {
        buf.push((v % 0x80 + 0x80) as u8);
        encode_varint_u32(buf, v / 0x80);
        assert(buf@ =~= old(buf)@ + spec_enc_varint_u32(v));
    }
}

/// Appends the varint encoding of a 16-bit value.
pub fn encode_u16(buf: &mut Vec<u8>, v: u16)
    ensures
        final(buf)@ == old(buf)@ + spec_enc_u16(v),
{
    encode_varint_u32(buf, v as u32);
}

/// Appends one byte.
pub fn encode_u8(buf: &mut Vec<u8>, v: u8)
    ensures
        final(buf)@ == old(buf)@ + spec_enc_u8(v),
{
    buf.push(v);
    assert(buf@ =~= old(buf)@ + spec_enc_u8(v));
}

/// Appends a 32-bit word as four little-endian bytes.
pub fn encode_w32(buf: &mut Vec<u8>, v: u32)
    ensures
        final(buf)@ == old(buf)@ + spec_enc_w32(v),
{
    buf.push((v & 0xff) as u8);
    buf.push(((v >> 8) & 0xff) as u8);
    buf.push(((v >> 16) & 0xff) as u8);
    buf.push(((v >> 24) & 0xff) as u8);
    assert(buf@ =~= old(buf)@ + spec_enc_w32(v));
}

/// Appends a 64-bit word as eight little-endian bytes.
pub fn encode_w64(buf: &mut Vec<u8>, v: u64)
    ensures
        final(buf)@ == old(buf)@ + spec_enc_w64(v),
{
    buf.push((v & 0xff) as u8);
    buf.push(((v >> 8) & 0xff) as u8);
    buf.push(((v >> 16) & 0xff) as u8);
    buf.push(((v >> 24) & 0xff) as u8);
    buf.push(((v >> 32) & 0xff) as u8);
    buf.push(((v >> 40) & 0xff) as u8);
    buf.push(((v >> 48) & 0xff) as u8);
    buf.push(((v >> 56) & 0xff) as u8);
    assert(buf@ =~= old(buf)@ + spec_enc_w64(v));
}

/// Reads a raw varint: at most `budget` bytes, folded little-endian.
fn decode_varint_raw(bytes: &Vec<u8>, pos: usize, budget: u8) -> (r: Option<(u64, usize)>)
    requires
        budget <= 5,
    ensures
        (match r {
            Some((v, end)) => pos < end <= bytes@.len() && spec_dec_varint_raw(
                bytes@,
                pos as int,
                budget as nat,
            ) == Some((v as int, end as int)) && (v as int) < pow128(budget as nat),
            None => spec_dec_varint_raw(bytes@, pos as int, budget as nat) is None,
        }),
    decreases budget,
{
    if budget == 0 || pos >= bytes.len() {
        return None;
    }
    let b = bytes[pos];
    if b < 0x80 {
        assert((b as int) < pow128(budget as nat)) by {
            assert(pow128((budget - 1) as nat) >= 1) by {
                lemma_pow128_pos((budget - 1) as nat);
            }
        }
        Some((b as u64, pos + 1))
    } else {
        match decode_varint_raw(bytes, pos + 1, budget - 1) {
            Some((v, end)) => {
                assert(128 * (v as int) < 128 * pow128((budget - 1) as nat)) by (nonlinear_arith)
                    requires
                        (v as int) < pow128((budget - 1) as nat),
                ;
                assert(pow128(budget as nat) <= pow128(5)) by {
                    lemma_pow128_increases(budget as nat, 5);
                }
                assert(pow128(5) == 0x800000000) by {
                    reveal_with_fuel(pow128, 6);
                }
                Some(((b - 0x80) as u64 + 128 * v, end))
            },
            None => None,
        }
    }
}

/// `128^n` is positive.
proof fn lemma_pow128_pos(n: nat)
    ensures
        pow128(n) >= 1,
    decreases n,
{
    if n > 0 {
        lemma_pow128_pos((n - 1) as nat);
    }
}

/// `128^n` grows with `n`.
proof fn lemma_pow128_increases(a: nat, b: nat)
    requires
        a <= b,
    ensures
        pow128(a) <= pow128(b),
    decreases b,
{
    if a < b {
        lemma_pow128_increases(a, (b - 1) as nat);
        lemma_pow128_pos((b - 1) as nat);
    }
}

/// Reads a 32-bit varint.
pub fn decode_varint_u32(bytes: &Vec<u8>, pos: usize) -> (r: Option<(u32, usize)>)
    ensures
        (match r {
            Some((v, end)) => pos < end <= bytes@.len() && spec_dec_varint_u32(
                bytes@,
                pos as int,
            ) == Some((v, end as int)),
            None => spec_dec_varint_u32(bytes@, pos as int) is None,
        }),
{
    match decode_varint_raw(bytes, pos, 5) {
        Some((v, end)) => {
            if v <= 0xffffffffu64 {
                Some((v as u32, end))
            } else {
                None
            }
        },
        None => None,
    }
}

/// Reads a 16-bit value.
pub fn decode_u16(bytes: &Vec<u8>, pos: usize) -> (r: Option<(u16, usize)>)
    ensures
        (match r {
            Some((v, end)) => pos < end <= bytes@.len() && spec_dec_u16(bytes@, pos as int)
                == Some((v, end as int)),
            None => spec_dec_u16(bytes@, pos as int) is None,
        }),
{
    match decode_varint_u32(bytes, pos) {
        Some((v, end)) => {
            if v <= 0xffffu32 {
                Some((v as u16, end))
            } else {
                None
            }
        },
        None => None,
    }
}

/// Reads one byte.
pub fn decode_u8(bytes: &Vec<u8>, pos: usize) -> (r: Option<(u8, usize)>)
    ensures
        (match r {
            Some((v, end)) => pos < end <= bytes@.len() && spec_dec_u8(bytes@, pos as int) == Some(
                (v, end as int),
            ),
            None => spec_dec_u8(bytes@, pos as int) is None,
        }),
{
    if pos < bytes.len() {
        Some((bytes[pos], pos + 1))
    } else {
        None
    }
}

/// Reads a 32-bit little-endian word.
pub fn decode_w32(bytes: &Vec<u8>, pos: usize) -> (r: Option<(u32, usize)>)
    ensures
        (match r {
            Some((v, end)) => pos < end <= bytes@.len() && spec_dec_w32(bytes@, pos as int)
                == Some((v, end as int)),
            None => spec_dec_w32(bytes@, pos as int) is None,
        }),
{
    if pos < bytes.len() && bytes.len() - pos >= 4 {
        let v = (bytes[pos] as u32) | ((bytes[pos + 1] as u32) << 8) | ((bytes[pos + 2] as u32)
            << 16) | ((bytes[pos + 3] as u32) << 24);
        Some((v, pos + 4))
    } else {
        None
    }
}

/// Reads a 64-bit little-endian word.
pub fn decode_w64(bytes: &Vec<u8>, pos: usize) -> (r: Option<(u64, usize)>)
    ensures
        (match r {
            Some((v, end)) => pos < end <= bytes@.len() && spec_dec_w64(bytes@, pos as int)
                == Some((v, end as int)),
            None => spec_dec_w64(bytes@, pos as int) is None,
        }),
{
    if pos < bytes.len() && bytes.len() - pos >= 8 {
        let v = (bytes[pos] as u64) | ((bytes[pos + 1] as u64) << 8) | ((bytes[pos + 2] as u64)
            << 16) | ((bytes[pos + 3] as u64) << 24) | ((bytes[pos + 4] as u64) << 32) | ((
        bytes[pos + 5] as u64) << 40) | ((bytes[pos + 6] as u64) << 48) | ((bytes[pos + 7] as u64)
            << 56);
        Some((v, pos + 8))
    } else {
        None
    }
}

} // verus!
