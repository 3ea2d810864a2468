//! Compact binary codec for message envelopes.
//!
//! Every envelope that crosses the CAN bus or the radio link travels in
//! this deterministic, schema-driven format: integers as base-128 varints,
//! floating-point bit patterns as fixed-width little-endian words, options
//! as a presence byte, enums as a tag byte followed by the variant's
//! payload.  For each type there is a specification encoder, a
//! specification decoder saying exactly which byte strings decode, an
//! executable pair proved equal to them, and a round-trip lemma; together
//! they show that any encoded envelope, with arbitrary bytes after it,
//! decodes back to exactly the envelope that was sent.

use vstd::prelude::*;

use crate::messages::{
    Air, Barometer, Command, CommandData, Data, EkfNav, EkfQuat, FormattedTime, GpsPos, GpsVel,
    Imu, Message, Quat, RadioRate, RadioRateChange, ResetReason, Sensor, SensorData, State,
    StateData, UtcTime, Vec3, Vec3Wide,
};
use crate::wire::{
    decode_u16, decode_u8, decode_varint_u32, decode_w32, decode_w64, encode_u16, encode_u8,
    encode_varint_u32, encode_w32, encode_w64, lemma_concat_at, lemma_u16_round_trip,
    lemma_u8_round_trip, lemma_varint_u32_round_trip, lemma_w32_round_trip, lemma_w64_round_trip,
    spec_dec_u16, spec_dec_u8, spec_dec_varint_u32, spec_dec_w32, spec_dec_w64, spec_enc_u16,
    spec_enc_u8, spec_enc_varint_u32, spec_enc_w32, spec_enc_w64,
};

verus! {

/// Optional byte: a tag byte, then the value when present.
pub open spec fn spec_enc_opt_u8(v: Option<u8>) -> Seq<u8> {
    match v {
        None => seq![0u8],
        Some(x) => seq![1u8] + spec_enc_u8(x),
    }
}

/// Decoding of an optional byte.
pub open spec fn spec_dec_opt_u8(bytes: Seq<u8>, pos: int) -> Option<(Option<u8>, int)> {
    if 0 <= pos < bytes.len() {
        if bytes[pos] == 0 {
            Some((None, pos + 1))
        } else if bytes[pos] == 1 {
            match spec_dec_u8(bytes, pos + 1) {
                Some((x, end)) => Some((Some(x), end)),
                None => None,
            }
        } else {
            None
        }
    } else {
        None
    }
}

/// Appends an optional byte.
pub fn encode_opt_u8(buf: &mut Vec<u8>, v: Option<u8>)
    ensures
        final(buf)@ == old(buf)@ + spec_enc_opt_u8(v),
{
    match v {
        None => {
            buf.push(0u8);
        },
        Some(x) => {
            buf.push(1u8);
            encode_u8(buf, x);
        },
    }
    assert(buf@ =~= old(buf)@ + spec_enc_opt_u8(v));
}

/// Reads an optional byte.
pub fn decode_opt_u8(bytes: &Vec<u8>, pos: usize) -> (r: Option<(Option<u8>, usize)>)
    ensures
        (match r {
            Some((v, end)) => pos < end <= bytes@.len() && spec_dec_opt_u8(bytes@, pos as int)
                == Some((v, end as int)),
            None => spec_dec_opt_u8(bytes@, pos as int) is None,
        }),
{
    if pos < bytes.len() {
        let tag = bytes[pos];
        if tag == 0 {
            Some((None, pos + 1))
        } else if tag == 1 {
            match decode_u8(bytes, pos + 1) {
                Some((x, end)) => Some((Some(x), end)),
                None => None,
            }
        } else {
            None
        }
    } else {
        None
    }
}

/// Round trip for an optional byte.
#[verifier::spinoff_prover]
#[verifier::rlimit(100)]
pub proof fn lemma_opt_u8_round_trip(bytes: Seq<u8>, pos: int, v: Option<u8>)
    requires
        0 <= pos,
        pos + spec_enc_opt_u8(v).len() <= bytes.len(),
        bytes.subrange(pos, pos + spec_enc_opt_u8(v).len()) == spec_enc_opt_u8(v),
    ensures
        spec_dec_opt_u8(bytes, pos) == Some((v, pos + spec_enc_opt_u8(v).len())),
{
    match v {
        None => {
            assert(bytes[pos] == 0) by {
                assert(bytes.subrange(pos, pos + 1)[0] == bytes[pos]);
            }
        },
        Some(x) => {
            let tag = seq![1u8];
            let rest = spec_enc_u8(x);
            assert(spec_enc_opt_u8(v) =~= tag + rest);
            lemma_concat_at(bytes, pos, tag, rest);
            lemma_u8_round_trip(bytes, pos + 1, x);
            assert(bytes[pos] == 1) by {
                assert(bytes.subrange(pos, pos + 1)[0] == bytes[pos]);
            }
        },
    }
}

/// Optional 16-bit value: a tag byte, then the value when present.
pub open spec fn spec_enc_opt_u16(v: Option<u16>) -> Seq<u8> {
    match v {
        None => seq![0u8],
        Some(x) => seq![1u8] + spec_enc_u16(x),
    }
}

/// Decoding of an optional 16-bit value.
pub open spec fn spec_dec_opt_u16(bytes: Seq<u8>, pos: int) -> Option<(Option<u16>, int)> {
    if 0 <= pos < bytes.len() {
        if bytes[pos] == 0 {
            Some((None, pos + 1))
        } else if bytes[pos] == 1 {
            match spec_dec_u16(bytes, pos + 1) {
                Some((x, end)) => Some((Some(x), end)),
                None => None,
            }
        } else {
            None
        }
    } else {
        None
    }
}

/// Appends an optional 16-bit value.
pub fn encode_opt_u16(buf: &mut Vec<u8>, v: Option<u16>)
    ensures
        final(buf)@ == old(buf)@ + spec_enc_opt_u16(v),
{
    match v {
        None => {
            buf.push(0u8);
        },
        Some(x) => {
            buf.push(1u8);
            encode_u16(buf, x);
        },
    }
    assert(buf@ =~= old(buf)@ + spec_enc_opt_u16(v));
}

/// Reads an optional 16-bit value.
pub fn decode_opt_u16(bytes: &Vec<u8>, pos: usize) -> (r: Option<(Option<u16>, usize)>)
    ensures
        (match r {
            Some((v, end)) => pos < end <= bytes@.len() && spec_dec_opt_u16(bytes@, pos as int)
                == Some((v, end as int)),
            None => spec_dec_opt_u16(bytes@, pos as int) is None,
        }),
{
    if pos < bytes.len() {
        let tag = bytes[pos];
        if tag == 0 {
            Some((None, pos + 1))
        } else if tag == 1 {
            match decode_u16(bytes, pos + 1) {
                Some((x, end)) => Some((Some(x), end)),
                None => None,
            }
        } else {
            None
        }
    } else {
        None
    }
}

/// Round trip for an optional 16-bit value.
#[verifier::spinoff_prover]
#[verifier::rlimit(100)]
pub proof fn lemma_opt_u16_round_trip(bytes: Seq<u8>, pos: int, v: Option<u16>)
    requires
        0 <= pos,
        pos + spec_enc_opt_u16(v).len() <= bytes.len(),
        bytes.subrange(pos, pos + spec_enc_opt_u16(v).len()) == spec_enc_opt_u16(v),
    ensures
        spec_dec_opt_u16(bytes, pos) == Some((v, pos + spec_enc_opt_u16(v).len())),
{
    match v {
        None => {
            assert(bytes[pos] == 0) by {
                assert(bytes.subrange(pos, pos + 1)[0] == bytes[pos]);
            }
        },
        Some(x) => {
            let tag = seq![1u8];
            let rest = spec_enc_u16(x);
            assert(spec_enc_opt_u16(v) =~= tag + rest);
            lemma_concat_at(bytes, pos, tag, rest);
            lemma_u16_round_trip(bytes, pos + 1, x);
            assert(bytes[pos] == 1) by {
                assert(bytes.subrange(pos, pos + 1)[0] == bytes[pos]);
            }
        },
    }
}

/// Optional 32-bit varint: a tag byte, then the value when present.
pub open spec fn spec_enc_opt_u32v(v: Option<u32>) -> Seq<u8> {
    match v {
        None => seq![0u8],
        Some(x) => seq![1u8] + spec_enc_varint_u32(x),
    }
}

/// Decoding of an optional 32-bit varint.
pub open spec fn spec_dec_opt_u32v(bytes: Seq<u8>, pos: int) -> Option<(Option<u32>, int)> {
    if 0 <= pos < bytes.len() {
        if bytes[pos] == 0 {
            Some((None, pos + 1))
        } else if bytes[pos] == 1 {
            match spec_dec_varint_u32(bytes, pos + 1) {
                Some((x, end)) => Some((Some(x), end)),
                None => None,
            }
        } else {
            None
        }
    } else {
        None
    }
}

/// Appends an optional 32-bit varint.
pub fn encode_opt_u32v(buf: &mut Vec<u8>, v: Option<u32>)
    ensures
        final(buf)@ == old(buf)@ + spec_enc_opt_u32v(v),
{
    match v {
        None => {
            buf.push(0u8);
        },
        Some(x) => {
            buf.push(1u8);
            encode_varint_u32(buf, x);
        },
    }
    assert(buf@ =~= old(buf)@ + spec_enc_opt_u32v(v));
}

/// Reads an optional 32-bit varint.
pub fn decode_opt_u32v(bytes: &Vec<u8>, pos: usize) -> (r: Option<(Option<u32>, usize)>)
    ensures
        (match r {
            Some((v, end)) => pos < end <= bytes@.len() && spec_dec_opt_u32v(bytes@, pos as int)
                == Some((v, end as int)),
            None => spec_dec_opt_u32v(bytes@, pos as int) is None,
        }),
{
    if pos < bytes.len() {
        let tag = bytes[pos];
        if tag == 0 {
            Some((None, pos + 1))
        } else if tag == 1 {
            match decode_varint_u32(bytes, pos + 1) {
                Some((x, end)) => Some((Some(x), end)),
                None => None,
            }
        } else {
            None
        }
    } else {
        None
    }
}

/// Round trip for an optional 32-bit varint.
#[verifier::spinoff_prover]
#[verifier::rlimit(100)]
pub proof fn lemma_opt_u32v_round_trip(bytes: Seq<u8>, pos: int, v: Option<u32>)
    requires
        0 <= pos,
        pos + spec_enc_opt_u32v(v).len() <= bytes.len(),
        bytes.subrange(pos, pos + spec_enc_opt_u32v(v).len()) == spec_enc_opt_u32v(v),
    ensures
        spec_dec_opt_u32v(bytes, pos) == Some((v, pos + spec_enc_opt_u32v(v).len())),
{
    match v {
        None => {
            assert(bytes[pos] == 0) by {
                assert(bytes.subrange(pos, pos + 1)[0] == bytes[pos]);
            }
        },
        Some(x) => {
            let tag = seq![1u8];
            let rest = spec_enc_varint_u32(x);
            assert(spec_enc_opt_u32v(v) =~= tag + rest);
            lemma_concat_at(bytes, pos, tag, rest);
            lemma_varint_u32_round_trip(bytes, pos + 1, x);
            assert(bytes[pos] == 1) by {
                assert(bytes.subrange(pos, pos + 1)[0] == bytes[pos]);
            }
        },
    }
}

/// Optional 32-bit word: a tag byte, then the value when present.
pub open spec fn spec_enc_opt_w32(v: Option<u32>) -> Seq<u8> {
    match v {
        None => seq![0u8],
        Some(x) => seq![1u8] + spec_enc_w32(x),
    }
}

/// Decoding of an optional 32-bit word.
pub open spec fn spec_dec_opt_w32(bytes: Seq<u8>, pos: int) -> Option<(Option<u32>, int)> {
    if 0 <= pos < bytes.len() {
        if bytes[pos] == 0 {
            Some((None, pos + 1))
        } else if bytes[pos] == 1 {
            match spec_dec_w32(bytes, pos + 1) {
                Some((x, end)) => Some((Some(x), end)),
                None => None,
            }
        } else {
            None
        }
    } else {
        None
    }
}

/// Appends an optional 32-bit word.
pub fn encode_opt_w32(buf: &mut Vec<u8>, v: Option<u32>)
    ensures
        final(buf)@ == old(buf)@ + spec_enc_opt_w32(v),
{
    match v {
        None => {
            buf.push(0u8);
        },
        Some(x) => {
            buf.push(1u8);
            encode_w32(buf, x);
        },
    }
    assert(buf@ =~= old(buf)@ + spec_enc_opt_w32(v));
}

/// Reads an optional 32-bit word.
pub fn decode_opt_w32(bytes: &Vec<u8>, pos: usize) -> (r: Option<(Option<u32>, usize)>)
    ensures
        (match r {
            Some((v, end)) => pos < end <= bytes@.len() && spec_dec_opt_w32(bytes@, pos as int)
                == Some((v, end as int)),
            None => spec_dec_opt_w32(bytes@, pos as int) is None,
        }),
{
    if pos < bytes.len() {
        let tag = bytes[pos];
        if tag == 0 {
            Some((None, pos + 1))
        } else if tag == 1 {
            match decode_w32(bytes, pos + 1) {
                Some((x, end)) => Some((Some(x), end)),
                None => None,
            }
        } else {
            None
        }
    } else {
        None
    }
}

/// Round trip for an optional 32-bit word.
#[verifier::spinoff_prover]
#[verifier::rlimit(100)]
pub proof fn lemma_opt_w32_round_trip(bytes: Seq<u8>, pos: int, v: Option<u32>)
    requires
        0 <= pos,
        pos + spec_enc_opt_w32(v).len() <= bytes.len(),
        bytes.subrange(pos, pos + spec_enc_opt_w32(v).len()) == spec_enc_opt_w32(v),
    ensures
        spec_dec_opt_w32(bytes, pos) == Some((v, pos + spec_enc_opt_w32(v).len())),
{
    match v {
        None => {
            assert(bytes[pos] == 0) by {
                assert(bytes.subrange(pos, pos + 1)[0] == bytes[pos]);
            }
        },
        Some(x) => {
            let tag = seq![1u8];
            let rest = spec_enc_w32(x);
            assert(spec_enc_opt_w32(v) =~= tag + rest);
            lemma_concat_at(bytes, pos, tag, rest);
            lemma_w32_round_trip(bytes, pos + 1, x);
            assert(bytes[pos] == 1) by {
                assert(bytes.subrange(pos, pos + 1)[0] == bytes[pos]);
            }
        },
    }
}

/// Optional 64-bit word: a tag byte, then the value when present.
pub open spec fn spec_enc_opt_w64(v: Option<u64>) -> Seq<u8> {
    match v {
        None => seq![0u8],
        Some(x) => seq![1u8] + spec_enc_w64(x),
    }
}

/// Decoding of an optional 64-bit word.
pub open spec fn spec_dec_opt_w64(bytes: Seq<u8>, pos: int) -> Option<(Option<u64>, int)> {
    if 0 <= pos < bytes.len() {
        if bytes[pos] == 0 {
            Some((None, pos + 1))
        } else if bytes[pos] == 1 {
            match spec_dec_w64(bytes, pos + 1) {
                Some((x, end)) => Some((Some(x), end)),
                None => None,
            }
        } else {
            None
        }
    } else {
        None
    }
}

/// Appends an optional 64-bit word.
pub fn encode_opt_w64(buf: &mut Vec<u8>, v: Option<u64>)
    ensures
        final(buf)@ == old(buf)@ + spec_enc_opt_w64(v),
{
    match v {
        None => {
            buf.push(0u8);
        },
        Some(x) => {
            buf.push(1u8);
            encode_w64(buf, x);
        },
    }
    assert(buf@ =~= old(buf)@ + spec_enc_opt_w64(v));
}

/// Reads an optional 64-bit word.
pub fn decode_opt_w64(bytes: &Vec<u8>, pos: usize) -> (r: Option<(Option<u64>, usize)>)
    ensures
        (match r {
            Some((v, end)) => pos < end <= bytes@.len() && spec_dec_opt_w64(bytes@, pos as int)
                == Some((v, end as int)),
            None => spec_dec_opt_w64(bytes@, pos as int) is None,
        }),
{
    if pos < bytes.len() {
        let tag = bytes[pos];
        if tag == 0 {
            Some((None, pos + 1))
        } else if tag == 1 {
            match decode_w64(bytes, pos + 1) {
                Some((x, end)) => Some((Some(x), end)),
                None => None,
            }
        } else {
            None
        }
    } else {
        None
    }
}

/// Round trip for an optional 64-bit word.
#[verifier::spinoff_prover]
#[verifier::rlimit(100)]
pub proof fn lemma_opt_w64_round_trip(bytes: Seq<u8>, pos: int, v: Option<u64>)
    requires
        0 <= pos,
        pos + spec_enc_opt_w64(v).len() <= bytes.len(),
        bytes.subrange(pos, pos + spec_enc_opt_w64(v).len()) == spec_enc_opt_w64(v),
    ensures
        spec_dec_opt_w64(bytes, pos) == Some((v, pos + spec_enc_opt_w64(v).len())),
{
    match v {
        None => {
            assert(bytes[pos] == 0) by {
                assert(bytes.subrange(pos, pos + 1)[0] == bytes[pos]);
            }
        },
        Some(x) => {
            let tag = seq![1u8];
            let rest = spec_enc_w64(x);
            assert(spec_enc_opt_w64(v) =~= tag + rest);
            lemma_concat_at(bytes, pos, tag, rest);
            lemma_w64_round_trip(bytes, pos + 1, x);
            assert(bytes[pos] == 1) by {
                assert(bytes.subrange(pos, pos + 1)[0] == bytes[pos]);
            }
        },
    }
}

/// Encoding of a triple of 32-bit words: its fields in declaration order.
pub open spec fn spec_enc_vec3(v: Vec3) -> Seq<u8> {
    spec_enc_w32(v.x) + spec_enc_w32(v.y) + spec_enc_w32(v.z)
}

/// Decoding of a triple of 32-bit words.
pub open spec fn spec_dec_vec3(bytes: Seq<u8>, pos: int) -> Option<(Vec3, int)> {
    match spec_dec_w32(bytes, pos) {
        Some((f_x, p1)) =>
        match spec_dec_w32(bytes, p1) {
            Some((f_y, p2)) =>
            match spec_dec_w32(bytes, p2) {
                Some((f_z, p3)) =>
                Some((Vec3 { x: f_x, y: f_y, z: f_z }, p3)),
                None => None,
            },
            None => None,
        },
        None => None,
    }
}

/// Appends a triple of 32-bit words.
pub fn encode_vec3(buf: &mut Vec<u8>, v: Vec3)
    ensures
        final(buf)@ == old(buf)@ + spec_enc_vec3(v),
{
    encode_w32(buf, v.x);
    encode_w32(buf, v.y);
    encode_w32(buf, v.z);
    assert(buf@ =~= old(buf)@ + spec_enc_vec3(v));
}

/// Reads a triple of 32-bit words.
pub fn decode_vec3(bytes: &Vec<u8>, pos: usize) -> (r: Option<(Vec3, usize)>)
    ensures
        (match r {
            Some((v, end)) => pos < end <= bytes@.len() && spec_dec_vec3(bytes@, pos as int)
                == Some((v, end as int)),
            None => spec_dec_vec3(bytes@, pos as int) is None,
        }),
{
    let (f_x, p1) = match decode_w32(bytes, pos) {
        Some(x) => x,
        None => {
            return None;
        },
    };
    let (f_y, p2) = match decode_w32(bytes, p1) {
        Some(x) => x,
        None => {
            return None;
        },
    };
    let (f_z, p3) = match decode_w32(bytes, p2) {
        Some(x) => x,
        None => {
            return None;
        },
    };
    Some((Vec3 { x: f_x, y: f_y, z: f_z }, p3))
}

/// Round trip for a triple of 32-bit words.
#[verifier::spinoff_prover]
#[verifier::rlimit(100)]
pub proof fn lemma_vec3_round_trip(bytes: Seq<u8>, pos: int, v: Vec3)
    requires
        0 <= pos,
        pos + spec_enc_vec3(v).len() <= bytes.len(),
        bytes.subrange(pos, pos + spec_enc_vec3(v).len()) == spec_enc_vec3(v),
    ensures
        spec_dec_vec3(bytes, pos) == Some((v, pos + spec_enc_vec3(v).len())),
{
    let e1 = spec_enc_w32(v.x);
    let e2 = spec_enc_w32(v.y);
    let e3 = spec_enc_w32(v.z);
    let r3 = e3;
    let r2 = e2 + r3;
    let r1 = e1 + r2;
    let l1 = e1;
    vstd::seq_lib::lemma_concat_associative(l1, e2, r3);
    assert(spec_enc_vec3(v) == r1);
    lemma_concat_at(bytes, pos, e1, r2);
    lemma_w32_round_trip(bytes, pos, v.x);
    let q1: int = pos + e1.len();
    lemma_concat_at(bytes, q1, e2, r3);
    lemma_w32_round_trip(bytes, q1, v.y);
    let q2: int = q1 + e2.len();
    lemma_w32_round_trip(bytes, q2, v.z);
    assert(v == (Vec3 { x: v.x, y: v.y, z: v.z }));
}

/// Encoding of a triple of 64-bit words: its fields in declaration order.
pub open spec fn spec_enc_vec3w(v: Vec3Wide) -> Seq<u8> {
    spec_enc_w64(v.x) + spec_enc_w64(v.y) + spec_enc_w64(v.z)
}

/// Decoding of a triple of 64-bit words.
pub open spec fn spec_dec_vec3w(bytes: Seq<u8>, pos: int) -> Option<(Vec3Wide, int)> {
    match spec_dec_w64(bytes, pos) {
        Some((f_x, p1)) =>
        match spec_dec_w64(bytes, p1) {
            Some((f_y, p2)) =>
            match spec_dec_w64(bytes, p2) {
                Some((f_z, p3)) =>
                Some((Vec3Wide { x: f_x, y: f_y, z: f_z }, p3)),
                None => None,
            },
            None => None,
        },
        None => None,
    }
}

/// Appends a triple of 64-bit words.
pub fn encode_vec3w(buf: &mut Vec<u8>, v: Vec3Wide)
    ensures
        final(buf)@ == old(buf)@ + spec_enc_vec3w(v),
{
    encode_w64(buf, v.x);
    encode_w64(buf, v.y);
    encode_w64(buf, v.z);
    assert(buf@ =~= old(buf)@ + spec_enc_vec3w(v));
}

/// Reads a triple of 64-bit words.
pub fn decode_vec3w(bytes: &Vec<u8>, pos: usize) -> (r: Option<(Vec3Wide, usize)>)
    ensures
        (match r {
            Some((v, end)) => pos < end <= bytes@.len() && spec_dec_vec3w(bytes@, pos as int)
                == Some((v, end as int)),
            None => spec_dec_vec3w(bytes@, pos as int) is None,
        }),
{
    let (f_x, p1) = match decode_w64(bytes, pos) {
        Some(x) => x,
        None => {
            return None;
        },
    };
    let (f_y, p2) = match decode_w64(bytes, p1) {
        Some(x) => x,
        None => {
            return None;
        },
    };
    let (f_z, p3) = match decode_w64(bytes, p2) {
        Some(x) => x,
        None => {
            return None;
        },
    };
    Some((Vec3Wide { x: f_x, y: f_y, z: f_z }, p3))
}

/// Round trip for a triple of 64-bit words.
#[verifier::spinoff_prover]
#[verifier::rlimit(100)]
pub proof fn lemma_vec3w_round_trip(bytes: Seq<u8>, pos: int, v: Vec3Wide)
    requires
        0 <= pos,
        pos + spec_enc_vec3w(v).len() <= bytes.len(),
        bytes.subrange(pos, pos + spec_enc_vec3w(v).len()) == spec_enc_vec3w(v),
    ensures
        spec_dec_vec3w(bytes, pos) == Some((v, pos + spec_enc_vec3w(v).len())),
{
    let e1 = spec_enc_w64(v.x);
    let e2 = spec_enc_w64(v.y);
    let e3 = spec_enc_w64(v.z);
    let r3 = e3;
    let r2 = e2 + r3;
    let r1 = e1 + r2;
    let l1 = e1;
    vstd::seq_lib::lemma_concat_associative(l1, e2, r3);
    assert(spec_enc_vec3w(v) == r1);
    lemma_concat_at(bytes, pos, e1, r2);
    lemma_w64_round_trip(bytes, pos, v.x);
    let q1: int = pos + e1.len();
    lemma_concat_at(bytes, q1, e2, r3);
    lemma_w64_round_trip(bytes, q1, v.y);
    let q2: int = q1 + e2.len();
    lemma_w64_round_trip(bytes, q2, v.z);
    assert(v == (Vec3Wide { x: v.x, y: v.y, z: v.z }));
}

/// Encoding of a quaternion of 32-bit words: its fields in declaration order.
pub open spec fn spec_enc_quat(v: Quat) -> Seq<u8> {
    spec_enc_w32(v.w) + spec_enc_w32(v.x) + spec_enc_w32(v.y) + spec_enc_w32(v.z)
}

/// Decoding of a quaternion of 32-bit words.
pub open spec fn spec_dec_quat(bytes: Seq<u8>, pos: int) -> Option<(Quat, int)> {
    match spec_dec_w32(bytes, pos) {
        Some((f_w, p1)) =>
        match spec_dec_w32(bytes, p1) {
            Some((f_x, p2)) =>
            match spec_dec_w32(bytes, p2) {
                Some((f_y, p3)) =>
                match spec_dec_w32(bytes, p3) {
                    Some((f_z, p4)) =>
                    Some((Quat { w: f_w, x: f_x, y: f_y, z: f_z }, p4)),
                    None => None,
                },
                None => None,
            },
            None => None,
        },
        None => None,
    }
}

/// Appends a quaternion of 32-bit words.
pub fn encode_quat(buf: &mut Vec<u8>, v: Quat)
    ensures
        final(buf)@ == old(buf)@ + spec_enc_quat(v),
{
    encode_w32(buf, v.w);
    encode_w32(buf, v.x);
    encode_w32(buf, v.y);
    encode_w32(buf, v.z);
    assert(buf@ =~= old(buf)@ + spec_enc_quat(v));
}

/// Reads a quaternion of 32-bit words.
pub fn decode_quat(bytes: &Vec<u8>, pos: usize) -> (r: Option<(Quat, usize)>)
    ensures
        (match r {
            Some((v, end)) => pos < end <= bytes@.len() && spec_dec_quat(bytes@, pos as int)
                == Some((v, end as int)),
            None => spec_dec_quat(bytes@, pos as int) is None,
        }),
{
    let (f_w, p1) = match decode_w32(bytes, pos) {
        Some(x) => x,
        None => {
            return None;
        },
    };
    let (f_x, p2) = match decode_w32(bytes, p1) {
        Some(x) => x,
        None => {
            return None;
        },
    };
    let (f_y, p3) = match decode_w32(bytes, p2) {
        Some(x) => x,
        None => {
            return None;
        },
    };
    let (f_z, p4) = match decode_w32(bytes, p3) {
        Some(x) => x,
        None => {
            return None;
        },
    };
    Some((Quat { w: f_w, x: f_x, y: f_y, z: f_z }, p4))
}

/// Round trip for a quaternion of 32-bit words.
#[verifier::spinoff_prover]
#[verifier::rlimit(100)]
pub proof fn lemma_quat_round_trip(bytes: Seq<u8>, pos: int, v: Quat)
    requires
        0 <= pos,
        pos + spec_enc_quat(v).len() <= bytes.len(),
        bytes.subrange(pos, pos + spec_enc_quat(v).len()) == spec_enc_quat(v),
    ensures
        spec_dec_quat(bytes, pos) == Some((v, pos + spec_enc_quat(v).len())),
{
    let e1 = spec_enc_w32(v.w);
    let e2 = spec_enc_w32(v.x);
    let e3 = spec_enc_w32(v.y);
    let e4 = spec_enc_w32(v.z);
    let r4 = e4;
    let r3 = e3 + r4;
    let r2 = e2 + r3;
    let r1 = e1 + r2;
    let l1 = e1;
    let l2 = l1 + e2;
    vstd::seq_lib::lemma_concat_associative(l2, e3, r4);
    vstd::seq_lib::lemma_concat_associative(l1, e2, r3);
    assert(spec_enc_quat(v) == r1);
    lemma_concat_at(bytes, pos, e1, r2);
    lemma_w32_round_trip(bytes, pos, v.w);
    let q1: int = pos + e1.len();
    lemma_concat_at(bytes, q1, e2, r3);
    lemma_w32_round_trip(bytes, q1, v.x);
    let q2: int = q1 + e2.len();
    lemma_concat_at(bytes, q2, e3, r4);
    lemma_w32_round_trip(bytes, q2, v.y);
    let q3: int = q2 + e3.len();
    lemma_w32_round_trip(bytes, q3, v.z);
    assert(v == (Quat { w: v.w, x: v.x, y: v.y, z: v.z }));
}

/// Optional triple of 32-bit words: a tag byte, then the value when present.
pub open spec fn spec_enc_opt_vec3(v: Option<Vec3>) -> Seq<u8> {
    match v {
        None => seq![0u8],
        Some(x) => seq![1u8] + spec_enc_vec3(x),
    }
}

/// Decoding of an optional triple of 32-bit words.
pub open spec fn spec_dec_opt_vec3(bytes: Seq<u8>, pos: int) -> Option<(Option<Vec3>, int)> {
    if 0 <= pos < bytes.len() {
        if bytes[pos] == 0 {
            Some((None, pos + 1))
        } else if bytes[pos] == 1 {
            match spec_dec_vec3(bytes, pos + 1) {
                Some((x, end)) => Some((Some(x), end)),
                None => None,
            }
        } else {
            None
        }
    } else {
        None
    }
}

/// Appends an optional triple of 32-bit words.
pub fn encode_opt_vec3(buf: &mut Vec<u8>, v: Option<Vec3>)
    ensures
        final(buf)@ == old(buf)@ + spec_enc_opt_vec3(v),
{
    match v {
        None => {
            buf.push(0u8);
        },
        Some(x) => {
            buf.push(1u8);
            encode_vec3(buf, x);
        },
    }
    assert(buf@ =~= old(buf)@ + spec_enc_opt_vec3(v));
}

/// Reads an optional triple of 32-bit words.
pub fn decode_opt_vec3(bytes: &Vec<u8>, pos: usize) -> (r: Option<(Option<Vec3>, usize)>)
    ensures
        (match r {
            Some((v, end)) => pos < end <= bytes@.len() && spec_dec_opt_vec3(bytes@, pos as int)
                == Some((v, end as int)),
            None => spec_dec_opt_vec3(bytes@, pos as int) is None,
        }),
{
    if pos < bytes.len() {
        let tag = bytes[pos];
        if tag == 0 {
            Some((None, pos + 1))
        } else if tag == 1 {
            match decode_vec3(bytes, pos + 1) {
                Some((x, end)) => Some((Some(x), end)),
                None => None,
            }
        } else {
            None
        }
    } else {
        None
    }
}

/// Round trip for an optional triple of 32-bit words.
#[verifier::spinoff_prover]
#[verifier::rlimit(100)]
pub proof fn lemma_opt_vec3_round_trip(bytes: Seq<u8>, pos: int, v: Option<Vec3>)
    requires
        0 <= pos,
        pos + spec_enc_opt_vec3(v).len() <= bytes.len(),
        bytes.subrange(pos, pos + spec_enc_opt_vec3(v).len()) == spec_enc_opt_vec3(v),
    ensures
        spec_dec_opt_vec3(bytes, pos) == Some((v, pos + spec_enc_opt_vec3(v).len())),
{
    match v {
        None => {
            assert(bytes[pos] == 0) by {
                assert(bytes.subrange(pos, pos + 1)[0] == bytes[pos]);
            }
        },
        Some(x) => {
            let tag = seq![1u8];
            let rest = spec_enc_vec3(x);
            assert(spec_enc_opt_vec3(v) =~= tag + rest);
            lemma_concat_at(bytes, pos, tag, rest);
            lemma_vec3_round_trip(bytes, pos + 1, x);
            assert(bytes[pos] == 1) by {
                assert(bytes.subrange(pos, pos + 1)[0] == bytes[pos]);
            }
        },
    }
}

/// Optional triple of 64-bit words: a tag byte, then the value when present.
pub open spec fn spec_enc_opt_vec3w(v: Option<Vec3Wide>) -> Seq<u8> {
    match v {
        None => seq![0u8],
        Some(x) => seq![1u8] + spec_enc_vec3w(x),
    }
}

/// Decoding of an optional triple of 64-bit words.
pub open spec fn spec_dec_opt_vec3w(bytes: Seq<u8>, pos: int) -> Option<(Option<Vec3Wide>, int)> {
    if 0 <= pos < bytes.len() {
        if bytes[pos] == 0 {
            Some((None, pos + 1))
        } else if bytes[pos] == 1 {
            match spec_dec_vec3w(bytes, pos + 1) {
                Some((x, end)) => Some((Some(x), end)),
                None => None,
            }
        } else {
            None
        }
    } else {
        None
    }
}

/// Appends an optional triple of 64-bit words.
pub fn encode_opt_vec3w(buf: &mut Vec<u8>, v: Option<Vec3Wide>)
    ensures
        final(buf)@ == old(buf)@ + spec_enc_opt_vec3w(v),
{
    match v {
        None => {
            buf.push(0u8);
        },
        Some(x) => {
            buf.push(1u8);
            encode_vec3w(buf, x);
        },
    }
    assert(buf@ =~= old(buf)@ + spec_enc_opt_vec3w(v));
}

/// Reads an optional triple of 64-bit words.
pub fn decode_opt_vec3w(bytes: &Vec<u8>, pos: usize) -> (r: Option<(Option<Vec3Wide>, usize)>)
    ensures
        (match r {
            Some((v, end)) => pos < end <= bytes@.len() && spec_dec_opt_vec3w(bytes@, pos as int)
                == Some((v, end as int)),
            None => spec_dec_opt_vec3w(bytes@, pos as int) is None,
        }),
{
    if pos < bytes.len() {
        let tag = bytes[pos];
        if tag == 0 {
            Some((None, pos + 1))
        } else if tag == 1 {
            match decode_vec3w(bytes, pos + 1) {
                Some((x, end)) => Some((Some(x), end)),
                None => None,
            }
        } else {
            None
        }
    } else {
        None
    }
}

/// Round trip for an optional triple of 64-bit words.
#[verifier::spinoff_prover]
#[verifier::rlimit(100)]
pub proof fn lemma_opt_vec3w_round_trip(bytes: Seq<u8>, pos: int, v: Option<Vec3Wide>)
    requires
        0 <= pos,
        pos + spec_enc_opt_vec3w(v).len() <= bytes.len(),
        bytes.subrange(pos, pos + spec_enc_opt_vec3w(v).len()) == spec_enc_opt_vec3w(v),
    ensures
        spec_dec_opt_vec3w(bytes, pos) == Some((v, pos + spec_enc_opt_vec3w(v).len())),
{
    match v {
        None => {
            assert(bytes[pos] == 0) by {
                assert(bytes.subrange(pos, pos + 1)[0] == bytes[pos]);
            }
        },
        Some(x) => {
            let tag = seq![1u8];
            let rest = spec_enc_vec3w(x);
            assert(spec_enc_opt_vec3w(v) =~= tag + rest);
            lemma_concat_at(bytes, pos, tag, rest);
            lemma_vec3w_round_trip(bytes, pos + 1, x);
            assert(bytes[pos] == 1) by {
                assert(bytes.subrange(pos, pos + 1)[0] == bytes[pos]);
            }
        },
    }
}

/// Optional quaternion: a tag byte, then the value when present.
pub open spec fn spec_enc_opt_quat(v: Option<Quat>) -> Seq<u8> {
    match v {
        None => seq![0u8],
        Some(x) => seq![1u8] + spec_enc_quat(x),
    }
}

/// Decoding of an optional quaternion.
pub open spec fn spec_dec_opt_quat(bytes: Seq<u8>, pos: int) -> Option<(Option<Quat>, int)> {
    if 0 <= pos < bytes.len() {
        if bytes[pos] == 0 {
            Some((None, pos + 1))
        } else if bytes[pos] == 1 {
            match spec_dec_quat(bytes, pos + 1) {
                Some((x, end)) => Some((Some(x), end)),
                None => None,
            }
        } else {
            None
        }
    } else {
        None
    }
}

/// Appends an optional quaternion.
pub fn encode_opt_quat(buf: &mut Vec<u8>, v: Option<Quat>)
    ensures
        final(buf)@ == old(buf)@ + spec_enc_opt_quat(v),
{
    match v {
        None => {
            buf.push(0u8);
        },
        Some(x) => {
            buf.push(1u8);
            encode_quat(buf, x);
        },
    }
    assert(buf@ =~= old(buf)@ + spec_enc_opt_quat(v));
}

/// Reads an optional quaternion.
pub fn decode_opt_quat(bytes: &Vec<u8>, pos: usize) -> (r: Option<(Option<Quat>, usize)>)
    ensures
        (match r {
            Some((v, end)) => pos < end <= bytes@.len() && spec_dec_opt_quat(bytes@, pos as int)
                == Some((v, end as int)),
            None => spec_dec_opt_quat(bytes@, pos as int) is None,
        }),
{
    if pos < bytes.len() {
        let tag = bytes[pos];
        if tag == 0 {
            Some((None, pos + 1))
        } else if tag == 1 {
            match decode_quat(bytes, pos + 1) {
                Some((x, end)) => Some((Some(x), end)),
                None => None,
            }
        } else {
            None
        }
    } else {
        None
    }
}

/// Round trip for an optional quaternion.
#[verifier::spinoff_prover]
#[verifier::rlimit(100)]
pub proof fn lemma_opt_quat_round_trip(bytes: Seq<u8>, pos: int, v: Option<Quat>)
    requires
        0 <= pos,
        pos + spec_enc_opt_quat(v).len() <= bytes.len(),
        bytes.subrange(pos, pos + spec_enc_opt_quat(v).len()) == spec_enc_opt_quat(v),
    ensures
        spec_dec_opt_quat(bytes, pos) == Some((v, pos + spec_enc_opt_quat(v).len())),
{
    match v {
        None => {
            assert(bytes[pos] == 0) by {
                assert(bytes.subrange(pos, pos + 1)[0] == bytes[pos]);
            }
        },
        Some(x) => {
            let tag = seq![1u8];
            let rest = spec_enc_quat(x);
            assert(spec_enc_opt_quat(v) =~= tag + rest);
            lemma_concat_at(bytes, pos, tag, rest);
            lemma_quat_round_trip(bytes, pos + 1, x);
            assert(bytes[pos] == 1) by {
                assert(bytes.subrange(pos, pos + 1)[0] == bytes[pos]);
            }
        },
    }
}

/// Encoding of an air-data sample: its fields in declaration order.
pub open spec fn spec_enc_air(v: Air) -> Seq<u8> {
    spec_enc_varint_u32(v.time_stamp) + spec_enc_u16(v.status) + spec_enc_opt_w32(v.pressure_abs) + spec_enc_opt_w32(v.altitude) + spec_enc_opt_w32(v.pressure_diff) + spec_enc_opt_w32(v.true_airspeed) + spec_enc_opt_w32(v.air_temperature)
}

/// Decoding of an air-data sample.
pub open spec fn spec_dec_air(bytes: Seq<u8>, pos: int) -> Option<(Air, int)> {
    match spec_dec_varint_u32(bytes, pos) {
        Some((f_time_stamp, p1)) =>
        match spec_dec_u16(bytes, p1) {
            Some((f_status, p2)) =>
            match spec_dec_opt_w32(bytes, p2) {
                Some((f_pressure_abs, p3)) =>
                match spec_dec_opt_w32(bytes, p3) {
                    Some((f_altitude, p4)) =>
                    match spec_dec_opt_w32(bytes, p4) {
                        Some((f_pressure_diff, p5)) =>
                        match spec_dec_opt_w32(bytes, p5) {
                            Some((f_true_airspeed, p6)) =>
                            match spec_dec_opt_w32(bytes, p6) {
                                Some((f_air_temperature, p7)) =>
                                Some((Air { time_stamp: f_time_stamp, status: f_status, pressure_abs: f_pressure_abs, altitude: f_altitude, pressure_diff: f_pressure_diff, true_airspeed: f_true_airspeed, air_temperature: f_air_temperature }, p7)),
                                None => None,
                            },
                            None => None,
                        },
                        None => None,
                    },
                    None => None,
                },
                None => None,
            },
            None => None,
        },
        None => None,
    }
}

/// Appends an air-data sample.
pub fn encode_air(buf: &mut Vec<u8>, v: Air)
    ensures
        final(buf)@ == old(buf)@ + spec_enc_air(v),
{
    encode_varint_u32(buf, v.time_stamp);
    encode_u16(buf, v.status);
    encode_opt_w32(buf, v.pressure_abs);
    encode_opt_w32(buf, v.altitude);
    encode_opt_w32(buf, v.pressure_diff);
    encode_opt_w32(buf, v.true_airspeed);
    encode_opt_w32(buf, v.air_temperature);
    assert(buf@ =~= old(buf)@ + spec_enc_air(v));
}

/// Reads an air-data sample.
pub fn decode_air(bytes: &Vec<u8>, pos: usize) -> (r: Option<(Air, usize)>)
    ensures
        (match r {
            Some((v, end)) => pos < end <= bytes@.len() && spec_dec_air(bytes@, pos as int)
                == Some((v, end as int)),
            None => spec_dec_air(bytes@, pos as int) is None,
        }),
{
    let (f_time_stamp, p1) = match decode_varint_u32(bytes, pos) {
        Some(x) => x,
        None => {
            return None;
        },
    };
    let (f_status, p2) = match decode_u16(bytes, p1) {
        Some(x) => x,
        None => {
            return None;
        },
    };
    let (f_pressure_abs, p3) = match decode_opt_w32(bytes, p2) {
        Some(x) => x,
        None => {
            return None;
        },
    };
    let (f_altitude, p4) = match decode_opt_w32(bytes, p3) {
        Some(x) => x,
        None => {
            return None;
        },
    };
    let (f_pressure_diff, p5) = match decode_opt_w32(bytes, p4) {
        Some(x) => x,
        None => {
            return None;
        },
    };
    let (f_true_airspeed, p6) = match decode_opt_w32(bytes, p5) {
        Some(x) => x,
        None => {
            return None;
        },
    };
    let (f_air_temperature, p7) = match decode_opt_w32(bytes, p6) {
        Some(x) => x,
        None => {
            return None;
        },
    };
    Some((Air { time_stamp: f_time_stamp, status: f_status, pressure_abs: f_pressure_abs, altitude: f_altitude, pressure_diff: f_pressure_diff, true_airspeed: f_true_airspeed, air_temperature: f_air_temperature }, p7))
}

/// Round trip for an air-data sample.
#[verifier::spinoff_prover]
#[verifier::rlimit(100)]
pub proof fn lemma_air_round_trip(bytes: Seq<u8>, pos: int, v: Air)
    requires
        0 <= pos,
        pos + spec_enc_air(v).len() <= bytes.len(),
        bytes.subrange(pos, pos + spec_enc_air(v).len()) == spec_enc_air(v),
    ensures
        spec_dec_air(bytes, pos) == Some((v, pos + spec_enc_air(v).len())),
{
    let e1 = spec_enc_varint_u32(v.time_stamp);
    let e2 = spec_enc_u16(v.status);
    let e3 = spec_enc_opt_w32(v.pressure_abs);
    let e4 = spec_enc_opt_w32(v.altitude);
    let e5 = spec_enc_opt_w32(v.pressure_diff);
    let e6 = spec_enc_opt_w32(v.true_airspeed);
    let e7 = spec_enc_opt_w32(v.air_temperature);
    let r7 = e7;
    let r6 = e6 + r7;
    let r5 = e5 + r6;
    let r4 = e4 + r5;
    let r3 = e3 + r4;
    let r2 = e2 + r3;
    let r1 = e1 + r2;
    let l1 = e1;
    let l2 = l1 + e2;
    let l3 = l2 + e3;
    let l4 = l3 + e4;
    let l5 = l4 + e5;
    vstd::seq_lib::lemma_concat_associative(l5, e6, r7);
    vstd::seq_lib::lemma_concat_associative(l4, e5, r6);
    vstd::seq_lib::lemma_concat_associative(l3, e4, r5);
    vstd::seq_lib::lemma_concat_associative(l2, e3, r4);
    vstd::seq_lib::lemma_concat_associative(l1, e2, r3);
    assert(spec_enc_air(v) == r1);
    lemma_concat_at(bytes, pos, e1, r2);
    lemma_varint_u32_round_trip(bytes, pos, v.time_stamp);
    let q1: int = pos + e1.len();
    lemma_concat_at(bytes, q1, e2, r3);
    lemma_u16_round_trip(bytes, q1, v.status);
    let q2: int = q1 + e2.len();
    lemma_concat_at(bytes, q2, e3, r4);
    lemma_opt_w32_round_trip(bytes, q2, v.pressure_abs);
    let q3: int = q2 + e3.len();
    lemma_concat_at(bytes, q3, e4, r5);
    lemma_opt_w32_round_trip(bytes, q3, v.altitude);
    let q4: int = q3 + e4.len();
    lemma_concat_at(bytes, q4, e5, r6);
    lemma_opt_w32_round_trip(bytes, q4, v.pressure_diff);
    let q5: int = q4 + e5.len();
    lemma_concat_at(bytes, q5, e6, r7);
    lemma_opt_w32_round_trip(bytes, q5, v.true_airspeed);
    let q6: int = q5 + e6.len();
    lemma_opt_w32_round_trip(bytes, q6, v.air_temperature);
    assert(v == (Air { time_stamp: v.time_stamp, status: v.status, pressure_abs: v.pressure_abs, altitude: v.altitude, pressure_diff: v.pressure_diff, true_airspeed: v.true_airspeed, air_temperature: v.air_temperature }));
}

/// Encoding of an inertial sample: its fields in declaration order.
pub open spec fn spec_enc_imu(v: Imu) -> Seq<u8> {
    spec_enc_varint_u32(v.time_stamp) + spec_enc_u16(v.status) + spec_enc_opt_vec3(v.accelerometers) + spec_enc_opt_vec3(v.gyroscopes) + spec_enc_opt_w32(v.temperature) + spec_enc_opt_vec3(v.delta_velocity) + spec_enc_opt_vec3(v.delta_angle)
}

/// Decoding of an inertial sample.
pub open spec fn spec_dec_imu(bytes: Seq<u8>, pos: int) -> Option<(Imu, int)> {
    match spec_dec_varint_u32(bytes, pos) {
        Some((f_time_stamp, p1)) =>
        match spec_dec_u16(bytes, p1) {
            Some((f_status, p2)) =>
            match spec_dec_opt_vec3(bytes, p2) {
                Some((f_accelerometers, p3)) =>
                match spec_dec_opt_vec3(bytes, p3) {
                    Some((f_gyroscopes, p4)) =>
                    match spec_dec_opt_w32(bytes, p4) {
                        Some((f_temperature, p5)) =>
                        match spec_dec_opt_vec3(bytes, p5) {
                            Some((f_delta_velocity, p6)) =>
                            match spec_dec_opt_vec3(bytes, p6) {
                                Some((f_delta_angle, p7)) =>
                                Some((Imu { time_stamp: f_time_stamp, status: f_status, accelerometers: f_accelerometers, gyroscopes: f_gyroscopes, temperature: f_temperature, delta_velocity: f_delta_velocity, delta_angle: f_delta_angle }, p7)),
                                None => None,
                            },
                            None => None,
                        },
                        None => None,
                    },
                    None => None,
                },
                None => None,
            },
            None => None,
        },
        None => None,
    }
}

/// Appends an inertial sample.
pub fn encode_imu(buf: &mut Vec<u8>, v: Imu)
    ensures
        final(buf)@ == old(buf)@ + spec_enc_imu(v),
{
    encode_varint_u32(buf, v.time_stamp);
    encode_u16(buf, v.status);
    encode_opt_vec3(buf, v.accelerometers);
    encode_opt_vec3(buf, v.gyroscopes);
    encode_opt_w32(buf, v.temperature);
    encode_opt_vec3(buf, v.delta_velocity);
    encode_opt_vec3(buf, v.delta_angle);
    assert(buf@ =~= old(buf)@ + spec_enc_imu(v));
}

/// Reads an inertial sample.
pub fn decode_imu(bytes: &Vec<u8>, pos: usize) -> (r: Option<(Imu, usize)>)
    ensures
        (match r {
            Some((v, end)) => pos < end <= bytes@.len() && spec_dec_imu(bytes@, pos as int)
                == Some((v, end as int)),
            None => spec_dec_imu(bytes@, pos as int) is None,
        }),
{
    let (f_time_stamp, p1) = match decode_varint_u32(bytes, pos) {
        Some(x) => x,
        None => {
            return None;
        },
    };
    let (f_status, p2) = match decode_u16(bytes, p1) {
        Some(x) => x,
        None => {
            return None;
        },
    };
    let (f_accelerometers, p3) = match decode_opt_vec3(bytes, p2) {
        Some(x) => x,
        None => {
            return None;
        },
    };
    let (f_gyroscopes, p4) = match decode_opt_vec3(bytes, p3) {
        Some(x) => x,
        None => {
            return None;
        },
    };
    let (f_temperature, p5) = match decode_opt_w32(bytes, p4) {
        Some(x) => x,
        None => {
            return None;
        },
    };
    let (f_delta_velocity, p6) = match decode_opt_vec3(bytes, p5) {
        Some(x) => x,
        None => {
            return None;
        },
    };
    let (f_delta_angle, p7) = match decode_opt_vec3(bytes, p6) {
        Some(x) => x,
        None => {
            return None;
        },
    };
    Some((Imu { time_stamp: f_time_stamp, status: f_status, accelerometers: f_accelerometers, gyroscopes: f_gyroscopes, temperature: f_temperature, delta_velocity: f_delta_velocity, delta_angle: f_delta_angle }, p7))
}

/// Round trip for an inertial sample.
#[verifier::spinoff_prover]
#[verifier::rlimit(100)]
pub proof fn lemma_imu_round_trip(bytes: Seq<u8>, pos: int, v: Imu)
    requires
        0 <= pos,
        pos + spec_enc_imu(v).len() <= bytes.len(),
        bytes.subrange(pos, pos + spec_enc_imu(v).len()) == spec_enc_imu(v),
    ensures
        spec_dec_imu(bytes, pos) == Some((v, pos + spec_enc_imu(v).len())),
{
    let e1 = spec_enc_varint_u32(v.time_stamp);
    let e2 = spec_enc_u16(v.status);
    let e3 = spec_enc_opt_vec3(v.accelerometers);
    let e4 = spec_enc_opt_vec3(v.gyroscopes);
    let e5 = spec_enc_opt_w32(v.temperature);
    let e6 = spec_enc_opt_vec3(v.delta_velocity);
    let e7 = spec_enc_opt_vec3(v.delta_angle);
    let r7 = e7;
    let r6 = e6 + r7;
    let r5 = e5 + r6;
    let r4 = e4 + r5;
    let r3 = e3 + r4;
    let r2 = e2 + r3;
    let r1 = e1 + r2;
    let l1 = e1;
    let l2 = l1 + e2;
    let l3 = l2 + e3;
    let l4 = l3 + e4;
    let l5 = l4 + e5;
    vstd::seq_lib::lemma_concat_associative(l5, e6, r7);
    vstd::seq_lib::lemma_concat_associative(l4, e5, r6);
    vstd::seq_lib::lemma_concat_associative(l3, e4, r5);
    vstd::seq_lib::lemma_concat_associative(l2, e3, r4);
    vstd::seq_lib::lemma_concat_associative(l1, e2, r3);
    assert(spec_enc_imu(v) == r1);
    lemma_concat_at(bytes, pos, e1, r2);
    lemma_varint_u32_round_trip(bytes, pos, v.time_stamp);
    let q1: int = pos + e1.len();
    lemma_concat_at(bytes, q1, e2, r3);
    lemma_u16_round_trip(bytes, q1, v.status);
    let q2: int = q1 + e2.len();
    lemma_concat_at(bytes, q2, e3, r4);
    lemma_opt_vec3_round_trip(bytes, q2, v.accelerometers);
    let q3: int = q2 + e3.len();
    lemma_concat_at(bytes, q3, e4, r5);
    lemma_opt_vec3_round_trip(bytes, q3, v.gyroscopes);
    let q4: int = q3 + e4.len();
    lemma_concat_at(bytes, q4, e5, r6);
    lemma_opt_w32_round_trip(bytes, q4, v.temperature);
    let q5: int = q4 + e5.len();
    lemma_concat_at(bytes, q5, e6, r7);
    lemma_opt_vec3_round_trip(bytes, q5, v.delta_velocity);
    let q6: int = q5 + e6.len();
    lemma_opt_vec3_round_trip(bytes, q6, v.delta_angle);
    assert(v == (Imu { time_stamp: v.time_stamp, status: v.status, accelerometers: v.accelerometers, gyroscopes: v.gyroscopes, temperature: v.temperature, delta_velocity: v.delta_velocity, delta_angle: v.delta_angle }));
}

/// Encoding of a navigation solution: its fields in declaration order.
pub open spec fn spec_enc_ekf_nav(v: EkfNav) -> Seq<u8> {
    spec_enc_varint_u32(v.time_stamp) + spec_enc_varint_u32(v.status) + spec_enc_opt_vec3(v.velocity) + spec_enc_opt_vec3(v.velocity_std_dev) + spec_enc_opt_vec3w(v.position) + spec_enc_opt_vec3(v.position_std_dev) + spec_enc_opt_w32(v.undulation)
}

/// Decoding of a navigation solution.
pub open spec fn spec_dec_ekf_nav(bytes: Seq<u8>, pos: int) -> Option<(EkfNav, int)> {
    match spec_dec_varint_u32(bytes, pos) {
        Some((f_time_stamp, p1)) =>
        match spec_dec_varint_u32(bytes, p1) {
            Some((f_status, p2)) =>
            match spec_dec_opt_vec3(bytes, p2) {
                Some((f_velocity, p3)) =>
                match spec_dec_opt_vec3(bytes, p3) {
                    Some((f_velocity_std_dev, p4)) =>
                    match spec_dec_opt_vec3w(bytes, p4) {
                        Some((f_position, p5)) =>
                        match spec_dec_opt_vec3(bytes, p5) {
                            Some((f_position_std_dev, p6)) =>
                            match spec_dec_opt_w32(bytes, p6) {
                                Some((f_undulation, p7)) =>
                                Some((EkfNav { time_stamp: f_time_stamp, status: f_status, velocity: f_velocity, velocity_std_dev: f_velocity_std_dev, position: f_position, position_std_dev: f_position_std_dev, undulation: f_undulation }, p7)),
                                None => None,
                            },
                            None => None,
                        },
                        None => None,
                    },
                    None => None,
                },
                None => None,
            },
            None => None,
        },
        None => None,
    }
}

/// Appends a navigation solution.
pub fn encode_ekf_nav(buf: &mut Vec<u8>, v: EkfNav)
    ensures
        final(buf)@ == old(buf)@ + spec_enc_ekf_nav(v),
{
    encode_varint_u32(buf, v.time_stamp);
    encode_varint_u32(buf, v.status);
    encode_opt_vec3(buf, v.velocity);
    encode_opt_vec3(buf, v.velocity_std_dev);
    encode_opt_vec3w(buf, v.position);
    encode_opt_vec3(buf, v.position_std_dev);
    encode_opt_w32(buf, v.undulation);
    assert(buf@ =~= old(buf)@ + spec_enc_ekf_nav(v));
}

/// Reads a navigation solution.
pub fn decode_ekf_nav(bytes: &Vec<u8>, pos: usize) -> (r: Option<(EkfNav, usize)>)
    ensures
        (match r {
            Some((v, end)) => pos < end <= bytes@.len() && spec_dec_ekf_nav(bytes@, pos as int)
                == Some((v, end as int)),
            None => spec_dec_ekf_nav(bytes@, pos as int) is None,
        }),
{
    let (f_time_stamp, p1) = match decode_varint_u32(bytes, pos) {
        Some(x) => x,
        None => {
            return None;
        },
    };
    let (f_status, p2) = match decode_varint_u32(bytes, p1) {
        Some(x) => x,
        None => {
            return None;
        },
    };
    let (f_velocity, p3) = match decode_opt_vec3(bytes, p2) {
        Some(x) => x,
        None => {
            return None;
        },
    };
    let (f_velocity_std_dev, p4) = match decode_opt_vec3(bytes, p3) {
        Some(x) => x,
        None => {
            return None;
        },
    };
    let (f_position, p5) = match decode_opt_vec3w(bytes, p4) {
        Some(x) => x,
        None => {
            return None;
        },
    };
    let (f_position_std_dev, p6) = match decode_opt_vec3(bytes, p5) {
        Some(x) => x,
        None => {
            return None;
        },
    };
    let (f_undulation, p7) = match decode_opt_w32(bytes, p6) {
        Some(x) => x,
        None => {
            return None;
        },
    };
    Some((EkfNav { time_stamp: f_time_stamp, status: f_status, velocity: f_velocity, velocity_std_dev: f_velocity_std_dev, position: f_position, position_std_dev: f_position_std_dev, undulation: f_undulation }, p7))
}

/// Round trip for a navigation solution.
#[verifier::spinoff_prover]
#[verifier::rlimit(100)]
pub proof fn lemma_ekf_nav_round_trip(bytes: Seq<u8>, pos: int, v: EkfNav)
    requires
        0 <= pos,
        pos + spec_enc_ekf_nav(v).len() <= bytes.len(),
        bytes.subrange(pos, pos + spec_enc_ekf_nav(v).len()) == spec_enc_ekf_nav(v),
    ensures
        spec_dec_ekf_nav(bytes, pos) == Some((v, pos + spec_enc_ekf_nav(v).len())),
{
    let e1 = spec_enc_varint_u32(v.time_stamp);
    let e2 = spec_enc_varint_u32(v.status);
    let e3 = spec_enc_opt_vec3(v.velocity);
    let e4 = spec_enc_opt_vec3(v.velocity_std_dev);
    let e5 = spec_enc_opt_vec3w(v.position);
    let e6 = spec_enc_opt_vec3(v.position_std_dev);
    let e7 = spec_enc_opt_w32(v.undulation);
    let r7 = e7;
    let r6 = e6 + r7;
    let r5 = e5 + r6;
    let r4 = e4 + r5;
    let r3 = e3 + r4;
    let r2 = e2 + r3;
    let r1 = e1 + r2;
    let l1 = e1;
    let l2 = l1 + e2;
    let l3 = l2 + e3;
    let l4 = l3 + e4;
    let l5 = l4 + e5;
    vstd::seq_lib::lemma_concat_associative(l5, e6, r7);
    vstd::seq_lib::lemma_concat_associative(l4, e5, r6);
    vstd::seq_lib::lemma_concat_associative(l3, e4, r5);
    vstd::seq_lib::lemma_concat_associative(l2, e3, r4);
    vstd::seq_lib::lemma_concat_associative(l1, e2, r3);
    assert(spec_enc_ekf_nav(v) == r1);
    lemma_concat_at(bytes, pos, e1, r2);
    lemma_varint_u32_round_trip(bytes, pos, v.time_stamp);
    let q1: int = pos + e1.len();
    lemma_concat_at(bytes, q1, e2, r3);
    lemma_varint_u32_round_trip(bytes, q1, v.status);
    let q2: int = q1 + e2.len();
    lemma_concat_at(bytes, q2, e3, r4);
    lemma_opt_vec3_round_trip(bytes, q2, v.velocity);
    let q3: int = q2 + e3.len();
    lemma_concat_at(bytes, q3, e4, r5);
    lemma_opt_vec3_round_trip(bytes, q3, v.velocity_std_dev);
    let q4: int = q3 + e4.len();
    lemma_concat_at(bytes, q4, e5, r6);
    lemma_opt_vec3w_round_trip(bytes, q4, v.position);
    let q5: int = q4 + e5.len();
    lemma_concat_at(bytes, q5, e6, r7);
    lemma_opt_vec3_round_trip(bytes, q5, v.position_std_dev);
    let q6: int = q5 + e6.len();
    lemma_opt_w32_round_trip(bytes, q6, v.undulation);
    assert(v == (EkfNav { time_stamp: v.time_stamp, status: v.status, velocity: v.velocity, velocity_std_dev: v.velocity_std_dev, position: v.position, position_std_dev: v.position_std_dev, undulation: v.undulation }));
}

/// Encoding of an orientation estimate: its fields in declaration order.
pub open spec fn spec_enc_ekf_quat(v: EkfQuat) -> Seq<u8> {
    spec_enc_varint_u32(v.time_stamp) + spec_enc_opt_quat(v.quaternion) + spec_enc_opt_vec3(v.euler_std_dev) + spec_enc_varint_u32(v.status)
}

/// Decoding of an orientation estimate.
pub open spec fn spec_dec_ekf_quat(bytes: Seq<u8>, pos: int) -> Option<(EkfQuat, int)> {
    match spec_dec_varint_u32(bytes, pos) {
        Some((f_time_stamp, p1)) =>
        match spec_dec_opt_quat(bytes, p1) {
            Some((f_quaternion, p2)) =>
            match spec_dec_opt_vec3(bytes, p2) {
                Some((f_euler_std_dev, p3)) =>
                match spec_dec_varint_u32(bytes, p3) {
                    Some((f_status, p4)) =>
                    Some((EkfQuat { time_stamp: f_time_stamp, quaternion: f_quaternion, euler_std_dev: f_euler_std_dev, status: f_status }, p4)),
                    None => None,
                },
                None => None,
            },
            None => None,
        },
        None => None,
    }
}

/// Appends an orientation estimate.
pub fn encode_ekf_quat(buf: &mut Vec<u8>, v: EkfQuat)
    ensures
        final(buf)@ == old(buf)@ + spec_enc_ekf_quat(v),
{
    encode_varint_u32(buf, v.time_stamp);
    encode_opt_quat(buf, v.quaternion);
    encode_opt_vec3(buf, v.euler_std_dev);
    encode_varint_u32(buf, v.status);
    assert(buf@ =~= old(buf)@ + spec_enc_ekf_quat(v));
}

/// Reads an orientation estimate.
pub fn decode_ekf_quat(bytes: &Vec<u8>, pos: usize) -> (r: Option<(EkfQuat, usize)>)
    ensures
        (match r {
            Some((v, end)) => pos < end <= bytes@.len() && spec_dec_ekf_quat(bytes@, pos as int)
                == Some((v, end as int)),
            None => spec_dec_ekf_quat(bytes@, pos as int) is None,
        }),
{
    let (f_time_stamp, p1) = match decode_varint_u32(bytes, pos) {
        Some(x) => x,
        None => {
            return None;
        },
    };
    let (f_quaternion, p2) = match decode_opt_quat(bytes, p1) {
        Some(x) => x,
        None => {
            return None;
        },
    };
    let (f_euler_std_dev, p3) = match decode_opt_vec3(bytes, p2) {
        Some(x) => x,
        None => {
            return None;
        },
    };
    let (f_status, p4) = match decode_varint_u32(bytes, p3) {
        Some(x) => x,
        None => {
            return None;
        },
    };
    Some((EkfQuat { time_stamp: f_time_stamp, quaternion: f_quaternion, euler_std_dev: f_euler_std_dev, status: f_status }, p4))
}

/// Round trip for an orientation estimate.
#[verifier::spinoff_prover]
#[verifier::rlimit(100)]
pub proof fn lemma_ekf_quat_round_trip(bytes: Seq<u8>, pos: int, v: EkfQuat)
    requires
        0 <= pos,
        pos + spec_enc_ekf_quat(v).len() <= bytes.len(),
        bytes.subrange(pos, pos + spec_enc_ekf_quat(v).len()) == spec_enc_ekf_quat(v),
    ensures
        spec_dec_ekf_quat(bytes, pos) == Some((v, pos + spec_enc_ekf_quat(v).len())),
{
    let e1 = spec_enc_varint_u32(v.time_stamp);
    let e2 = spec_enc_opt_quat(v.quaternion);
    let e3 = spec_enc_opt_vec3(v.euler_std_dev);
    let e4 = spec_enc_varint_u32(v.status);
    let r4 = e4;
    let r3 = e3 + r4;
    let r2 = e2 + r3;
    let r1 = e1 + r2;
    let l1 = e1;
    let l2 = l1 + e2;
    vstd::seq_lib::lemma_concat_associative(l2, e3, r4);
    vstd::seq_lib::lemma_concat_associative(l1, e2, r3);
    assert(spec_enc_ekf_quat(v) == r1);
    lemma_concat_at(bytes, pos, e1, r2);
    lemma_varint_u32_round_trip(bytes, pos, v.time_stamp);
    let q1: int = pos + e1.len();
    lemma_concat_at(bytes, q1, e2, r3);
    lemma_opt_quat_round_trip(bytes, q1, v.quaternion);
    let q2: int = q1 + e2.len();
    lemma_concat_at(bytes, q2, e3, r4);
    lemma_opt_vec3_round_trip(bytes, q2, v.euler_std_dev);
    let q3: int = q2 + e3.len();
    lemma_varint_u32_round_trip(bytes, q3, v.status);
    assert(v == (EkfQuat { time_stamp: v.time_stamp, quaternion: v.quaternion, euler_std_dev: v.euler_std_dev, status: v.status }));
}

/// Encoding of a position fix: its fields in declaration order.
pub open spec fn spec_enc_gps_pos(v: GpsPos) -> Seq<u8> {
    spec_enc_varint_u32(v.time_stamp) + spec_enc_varint_u32(v.status) + spec_enc_opt_w64(v.latitude) + spec_enc_opt_w64(v.longitude) + spec_enc_opt_w64(v.altitude) + spec_enc_opt_w32(v.undulation) + spec_enc_opt_u32v(v.time_of_week) + spec_enc_opt_w32(v.latitude_accuracy) + spec_enc_opt_w32(v.longitude_accuracy) + spec_enc_opt_w32(v.altitude_accuracy) + spec_enc_opt_u8(v.num_sv_used) + spec_enc_opt_u16(v.base_station_id) + spec_enc_opt_u16(v.differential_age)
}

/// Decoding of a position fix.
pub open spec fn spec_dec_gps_pos(bytes: Seq<u8>, pos: int) -> Option<(GpsPos, int)> {
    match spec_dec_varint_u32(bytes, pos) {
        Some((f_time_stamp, p1)) =>
        match spec_dec_varint_u32(bytes, p1) {
            Some((f_status, p2)) =>
            match spec_dec_opt_w64(bytes, p2) {
                Some((f_latitude, p3)) =>
                match spec_dec_opt_w64(bytes, p3) {
                    Some((f_longitude, p4)) =>
                    match spec_dec_opt_w64(bytes, p4) {
                        Some((f_altitude, p5)) =>
                        match spec_dec_opt_w32(bytes, p5) {
                            Some((f_undulation, p6)) =>
                            match spec_dec_opt_u32v(bytes, p6) {
                                Some((f_time_of_week, p7)) =>
                                match spec_dec_opt_w32(bytes, p7) {
                                    Some((f_latitude_accuracy, p8)) =>
                                    match spec_dec_opt_w32(bytes, p8) {
                                        Some((f_longitude_accuracy, p9)) =>
                                        match spec_dec_opt_w32(bytes, p9) {
                                            Some((f_altitude_accuracy, p10)) =>
                                            match spec_dec_opt_u8(bytes, p10) {
                                                Some((f_num_sv_used, p11)) =>
                                                match spec_dec_opt_u16(bytes, p11) {
                                                    Some((f_base_station_id, p12)) =>
                                                    match spec_dec_opt_u16(bytes, p12) {
                                                        Some((f_differential_age, p13)) =>
                                                        Some((GpsPos { time_stamp: f_time_stamp, status: f_status, latitude: f_latitude, longitude: f_longitude, altitude: f_altitude, undulation: f_undulation, time_of_week: f_time_of_week, latitude_accuracy: f_latitude_accuracy, longitude_accuracy: f_longitude_accuracy, altitude_accuracy: f_altitude_accuracy, num_sv_used: f_num_sv_used, base_station_id: f_base_station_id, differential_age: f_differential_age }, p13)),
                                                        None => None,
                                                    },
                                                    None => None,
                                                },
                                                None => None,
                                            },
                                            None => None,
                                        },
                                        None => None,
                                    },
                                    None => None,
                                },
                                None => None,
                            },
                            None => None,
                        },
                        None => None,
                    },
                    None => None,
                },
                None => None,
            },
            None => None,
        },
        None => None,
    }
}

/// Appends a position fix.
pub fn encode_gps_pos(buf: &mut Vec<u8>, v: GpsPos)
    ensures
        final(buf)@ == old(buf)@ + spec_enc_gps_pos(v),
{
    encode_varint_u32(buf, v.time_stamp);
    encode_varint_u32(buf, v.status);
    encode_opt_w64(buf, v.latitude);
    encode_opt_w64(buf, v.longitude);
    encode_opt_w64(buf, v.altitude);
    encode_opt_w32(buf, v.undulation);
    encode_opt_u32v(buf, v.time_of_week);
    encode_opt_w32(buf, v.latitude_accuracy);
    encode_opt_w32(buf, v.longitude_accuracy);
    encode_opt_w32(buf, v.altitude_accuracy);
    encode_opt_u8(buf, v.num_sv_used);
    encode_opt_u16(buf, v.base_station_id);
    encode_opt_u16(buf, v.differential_age);
    assert(buf@ =~= old(buf)@ + spec_enc_gps_pos(v));
}

/// Reads a position fix.
pub fn decode_gps_pos(bytes: &Vec<u8>, pos: usize) -> (r: Option<(GpsPos, usize)>)
    ensures
        (match r {
            Some((v, end)) => pos < end <= bytes@.len() && spec_dec_gps_pos(bytes@, pos as int)
                == Some((v, end as int)),
            None => spec_dec_gps_pos(bytes@, pos as int) is None,
        }),
{
    let (f_time_stamp, p1) = match decode_varint_u32(bytes, pos) {
        Some(x) => x,
        None => {
            return None;
        },
    };
    let (f_status, p2) = match decode_varint_u32(bytes, p1) {
        Some(x) => x,
        None => {
            return None;
        },
    };
    let (f_latitude, p3) = match decode_opt_w64(bytes, p2) {
        Some(x) => x,
        None => {
            return None;
        },
    };
    let (f_longitude, p4) = match decode_opt_w64(bytes, p3) {
        Some(x) => x,
        None => {
            return None;
        },
    };
    let (f_altitude, p5) = match decode_opt_w64(bytes, p4) {
        Some(x) => x,
        None => {
            return None;
        },
    };
    let (f_undulation, p6) = match decode_opt_w32(bytes, p5) {
        Some(x) => x,
        None => {
            return None;
        },
    };
    let (f_time_of_week, p7) = match decode_opt_u32v(bytes, p6) {
        Some(x) => x,
        None => {
            return None;
        },
    };
    let (f_latitude_accuracy, p8) = match decode_opt_w32(bytes, p7) {
        Some(x) => x,
        None => {
            return None;
        },
    };
    let (f_longitude_accuracy, p9) = match decode_opt_w32(bytes, p8) {
        Some(x) => x,
        None => {
            return None;
        },
    };
    let (f_altitude_accuracy, p10) = match decode_opt_w32(bytes, p9) {
        Some(x) => x,
        None => {
            return None;
        },
    };
    let (f_num_sv_used, p11) = match decode_opt_u8(bytes, p10) {
        Some(x) => x,
        None => {
            return None;
        },
    };
    let (f_base_station_id, p12) = match decode_opt_u16(bytes, p11) {
        Some(x) => x,
        None => {
            return None;
        },
    };
    let (f_differential_age, p13) = match decode_opt_u16(bytes, p12) {
        Some(x) => x,
        None => {
            return None;
        },
    };
    Some((GpsPos { time_stamp: f_time_stamp, status: f_status, latitude: f_latitude, longitude: f_longitude, altitude: f_altitude, undulation: f_undulation, time_of_week: f_time_of_week, latitude_accuracy: f_latitude_accuracy, longitude_accuracy: f_longitude_accuracy, altitude_accuracy: f_altitude_accuracy, num_sv_used: f_num_sv_used, base_station_id: f_base_station_id, differential_age: f_differential_age }, p13))
}

/// Decode facts for the later fields of a position fix, given their bytes at `q`.
#[verifier::spinoff_prover]
#[verifier::rlimit(100)]
proof fn lemma_gps_pos_fields_tail(bytes: Seq<u8>, q: int, v: GpsPos)
    requires
        0 <= q,
        q + (spec_enc_opt_u32v(v.time_of_week) + (spec_enc_opt_w32(v.latitude_accuracy) + (spec_enc_opt_w32(v.longitude_accuracy) + (spec_enc_opt_w32(v.altitude_accuracy) + (spec_enc_opt_u8(v.num_sv_used) + (spec_enc_opt_u16(v.base_station_id) + (spec_enc_opt_u16(v.differential_age)))))))).len() <= bytes.len(),
        bytes.subrange(q, q + (spec_enc_opt_u32v(v.time_of_week) + (spec_enc_opt_w32(v.latitude_accuracy) + (spec_enc_opt_w32(v.longitude_accuracy) + (spec_enc_opt_w32(v.altitude_accuracy) + (spec_enc_opt_u8(v.num_sv_used) + (spec_enc_opt_u16(v.base_station_id) + (spec_enc_opt_u16(v.differential_age)))))))).len()) == (spec_enc_opt_u32v(v.time_of_week) + (spec_enc_opt_w32(v.latitude_accuracy) + (spec_enc_opt_w32(v.longitude_accuracy) + (spec_enc_opt_w32(v.altitude_accuracy) + (spec_enc_opt_u8(v.num_sv_used) + (spec_enc_opt_u16(v.base_station_id) + (spec_enc_opt_u16(v.differential_age)))))))),
    ensures
        spec_dec_opt_u32v(bytes, q) == Some((v.time_of_week, q + spec_enc_opt_u32v(v.time_of_week).len())),
        spec_dec_opt_w32(bytes, q + spec_enc_opt_u32v(v.time_of_week).len()) == Some((v.latitude_accuracy, q + spec_enc_opt_u32v(v.time_of_week).len() + spec_enc_opt_w32(v.latitude_accuracy).len())),
        spec_dec_opt_w32(bytes, q + spec_enc_opt_u32v(v.time_of_week).len() + spec_enc_opt_w32(v.latitude_accuracy).len()) == Some((v.longitude_accuracy, q + spec_enc_opt_u32v(v.time_of_week).len() + spec_enc_opt_w32(v.latitude_accuracy).len() + spec_enc_opt_w32(v.longitude_accuracy).len())),
        spec_dec_opt_w32(bytes, q + spec_enc_opt_u32v(v.time_of_week).len() + spec_enc_opt_w32(v.latitude_accuracy).len() + spec_enc_opt_w32(v.longitude_accuracy).len()) == Some((v.altitude_accuracy, q + spec_enc_opt_u32v(v.time_of_week).len() + spec_enc_opt_w32(v.latitude_accuracy).len() + spec_enc_opt_w32(v.longitude_accuracy).len() + spec_enc_opt_w32(v.altitude_accuracy).len())),
        spec_dec_opt_u8(bytes, q + spec_enc_opt_u32v(v.time_of_week).len() + spec_enc_opt_w32(v.latitude_accuracy).len() + spec_enc_opt_w32(v.longitude_accuracy).len() + spec_enc_opt_w32(v.altitude_accuracy).len()) == Some((v.num_sv_used, q + spec_enc_opt_u32v(v.time_of_week).len() + spec_enc_opt_w32(v.latitude_accuracy).len() + spec_enc_opt_w32(v.longitude_accuracy).len() + spec_enc_opt_w32(v.altitude_accuracy).len() + spec_enc_opt_u8(v.num_sv_used).len())),
        spec_dec_opt_u16(bytes, q + spec_enc_opt_u32v(v.time_of_week).len() + spec_enc_opt_w32(v.latitude_accuracy).len() + spec_enc_opt_w32(v.longitude_accuracy).len() + spec_enc_opt_w32(v.altitude_accuracy).len() + spec_enc_opt_u8(v.num_sv_used).len()) == Some((v.base_station_id, q + spec_enc_opt_u32v(v.time_of_week).len() + spec_enc_opt_w32(v.latitude_accuracy).len() + spec_enc_opt_w32(v.longitude_accuracy).len() + spec_enc_opt_w32(v.altitude_accuracy).len() + spec_enc_opt_u8(v.num_sv_used).len() + spec_enc_opt_u16(v.base_station_id).len())),
        spec_dec_opt_u16(bytes, q + spec_enc_opt_u32v(v.time_of_week).len() + spec_enc_opt_w32(v.latitude_accuracy).len() + spec_enc_opt_w32(v.longitude_accuracy).len() + spec_enc_opt_w32(v.altitude_accuracy).len() + spec_enc_opt_u8(v.num_sv_used).len() + spec_enc_opt_u16(v.base_station_id).len()) == Some((v.differential_age, q + spec_enc_opt_u32v(v.time_of_week).len() + spec_enc_opt_w32(v.latitude_accuracy).len() + spec_enc_opt_w32(v.longitude_accuracy).len() + spec_enc_opt_w32(v.altitude_accuracy).len() + spec_enc_opt_u8(v.num_sv_used).len() + spec_enc_opt_u16(v.base_station_id).len() + spec_enc_opt_u16(v.differential_age).len())),
{
    let e7 = spec_enc_opt_u32v(v.time_of_week);
    let e8 = spec_enc_opt_w32(v.latitude_accuracy);
    let e9 = spec_enc_opt_w32(v.longitude_accuracy);
    let e10 = spec_enc_opt_w32(v.altitude_accuracy);
    let e11 = spec_enc_opt_u8(v.num_sv_used);
    let e12 = spec_enc_opt_u16(v.base_station_id);
    let e13 = spec_enc_opt_u16(v.differential_age);
    let r13 = e13;
    let r12 = e12 + r13;
    let r11 = e11 + r12;
    let r10 = e10 + r11;
    let r9 = e9 + r10;
    let r8 = e8 + r9;
    let r7 = e7 + r8;
    lemma_concat_at(bytes, q, e7, r8);
    lemma_opt_u32v_round_trip(bytes, q, v.time_of_week);
    let q7: int = q + e7.len();
    lemma_concat_at(bytes, q7, e8, r9);
    lemma_opt_w32_round_trip(bytes, q7, v.latitude_accuracy);
    let q8: int = q7 + e8.len();
    lemma_concat_at(bytes, q8, e9, r10);
    lemma_opt_w32_round_trip(bytes, q8, v.longitude_accuracy);
    let q9: int = q8 + e9.len();
    lemma_concat_at(bytes, q9, e10, r11);
    lemma_opt_w32_round_trip(bytes, q9, v.altitude_accuracy);
    let q10: int = q9 + e10.len();
    lemma_concat_at(bytes, q10, e11, r12);
    lemma_opt_u8_round_trip(bytes, q10, v.num_sv_used);
    let q11: int = q10 + e11.len();
    lemma_concat_at(bytes, q11, e12, r13);
    lemma_opt_u16_round_trip(bytes, q11, v.base_station_id);
    let q12: int = q11 + e12.len();
    lemma_opt_u16_round_trip(bytes, q12, v.differential_age);
}

/// Round trip for a position fix.
#[verifier::spinoff_prover]
#[verifier::rlimit(100)]
pub proof fn lemma_gps_pos_round_trip(bytes: Seq<u8>, pos: int, v: GpsPos)
    requires
        0 <= pos,
        pos + spec_enc_gps_pos(v).len() <= bytes.len(),
        bytes.subrange(pos, pos + spec_enc_gps_pos(v).len()) == spec_enc_gps_pos(v),
    ensures
        spec_dec_gps_pos(bytes, pos) == Some((v, pos + spec_enc_gps_pos(v).len())),
{
    let e1 = spec_enc_varint_u32(v.time_stamp);
    let e2 = spec_enc_varint_u32(v.status);
    let e3 = spec_enc_opt_w64(v.latitude);
    let e4 = spec_enc_opt_w64(v.longitude);
    let e5 = spec_enc_opt_w64(v.altitude);
    let e6 = spec_enc_opt_w32(v.undulation);
    let e7 = spec_enc_opt_u32v(v.time_of_week);
    let e8 = spec_enc_opt_w32(v.latitude_accuracy);
    let e9 = spec_enc_opt_w32(v.longitude_accuracy);
    let e10 = spec_enc_opt_w32(v.altitude_accuracy);
    let e11 = spec_enc_opt_u8(v.num_sv_used);
    let e12 = spec_enc_opt_u16(v.base_station_id);
    let e13 = spec_enc_opt_u16(v.differential_age);
    let r13 = e13;
    let r12 = e12 + r13;
    let r11 = e11 + r12;
    let r10 = e10 + r11;
    let r9 = e9 + r10;
    let r8 = e8 + r9;
    let r7 = e7 + r8;
    let r6 = e6 + r7;
    let r5 = e5 + r6;
    let r4 = e4 + r5;
    let r3 = e3 + r4;
    let r2 = e2 + r3;
    let r1 = e1 + r2;
    let l1 = e1;
    let l2 = l1 + e2;
    let l3 = l2 + e3;
    let l4 = l3 + e4;
    let l5 = l4 + e5;
    let l6 = l5 + e6;
    let l7 = l6 + e7;
    let l8 = l7 + e8;
    let l9 = l8 + e9;
    let l10 = l9 + e10;
    let l11 = l10 + e11;
    vstd::seq_lib::lemma_concat_associative(l11, e12, r13);
    vstd::seq_lib::lemma_concat_associative(l10, e11, r12);
    vstd::seq_lib::lemma_concat_associative(l9, e10, r11);
    vstd::seq_lib::lemma_concat_associative(l8, e9, r10);
    vstd::seq_lib::lemma_concat_associative(l7, e8, r9);
    vstd::seq_lib::lemma_concat_associative(l6, e7, r8);
    vstd::seq_lib::lemma_concat_associative(l5, e6, r7);
    vstd::seq_lib::lemma_concat_associative(l4, e5, r6);
    vstd::seq_lib::lemma_concat_associative(l3, e4, r5);
    vstd::seq_lib::lemma_concat_associative(l2, e3, r4);
    vstd::seq_lib::lemma_concat_associative(l1, e2, r3);
    assert(spec_enc_gps_pos(v) == r1);
    lemma_concat_at(bytes, pos, e1, r2);
    lemma_varint_u32_round_trip(bytes, pos, v.time_stamp);
    let q1: int = pos + e1.len();
    lemma_concat_at(bytes, q1, e2, r3);
    lemma_varint_u32_round_trip(bytes, q1, v.status);
    let q2: int = q1 + e2.len();
    lemma_concat_at(bytes, q2, e3, r4);
    lemma_opt_w64_round_trip(bytes, q2, v.latitude);
    let q3: int = q2 + e3.len();
    lemma_concat_at(bytes, q3, e4, r5);
    lemma_opt_w64_round_trip(bytes, q3, v.longitude);
    let q4: int = q3 + e4.len();
    lemma_concat_at(bytes, q4, e5, r6);
    lemma_opt_w64_round_trip(bytes, q4, v.altitude);
    let q5: int = q4 + e5.len();
    lemma_concat_at(bytes, q5, e6, r7);
    lemma_opt_w32_round_trip(bytes, q5, v.undulation);
    let q6: int = q5 + e6.len();
    lemma_gps_pos_fields_tail(bytes, q6, v);
    assert(v == (GpsPos { time_stamp: v.time_stamp, status: v.status, latitude: v.latitude, longitude: v.longitude, altitude: v.altitude, undulation: v.undulation, time_of_week: v.time_of_week, latitude_accuracy: v.latitude_accuracy, longitude_accuracy: v.longitude_accuracy, altitude_accuracy: v.altitude_accuracy, num_sv_used: v.num_sv_used, base_station_id: v.base_station_id, differential_age: v.differential_age }));
}

/// Encoding of a velocity fix: its fields in declaration order.
pub open spec fn spec_enc_gps_vel(v: GpsVel) -> Seq<u8> {
    spec_enc_varint_u32(v.time_stamp) + spec_enc_varint_u32(v.status) + spec_enc_opt_u32v(v.time_of_week) + spec_enc_opt_vec3(v.velocity) + spec_enc_opt_vec3(v.velocity_acc) + spec_enc_opt_w32(v.course) + spec_enc_opt_w32(v.course_acc)
}

/// Decoding of a velocity fix.
pub open spec fn spec_dec_gps_vel(bytes: Seq<u8>, pos: int) -> Option<(GpsVel, int)> {
    match spec_dec_varint_u32(bytes, pos) {
        Some((f_time_stamp, p1)) =>
        match spec_dec_varint_u32(bytes, p1) {
            Some((f_status, p2)) =>
            match spec_dec_opt_u32v(bytes, p2) {
                Some((f_time_of_week, p3)) =>
                match spec_dec_opt_vec3(bytes, p3) {
                    Some((f_velocity, p4)) =>
                    match spec_dec_opt_vec3(bytes, p4) {
                        Some((f_velocity_acc, p5)) =>
                        match spec_dec_opt_w32(bytes, p5) {
                            Some((f_course, p6)) =>
                            match spec_dec_opt_w32(bytes, p6) {
                                Some((f_course_acc, p7)) =>
                                Some((GpsVel { time_stamp: f_time_stamp, status: f_status, time_of_week: f_time_of_week, velocity: f_velocity, velocity_acc: f_velocity_acc, course: f_course, course_acc: f_course_acc }, p7)),
                                None => None,
                            },
                            None => None,
                        },
                        None => None,
                    },
                    None => None,
                },
                None => None,
            },
            None => None,
        },
        None => None,
    }
}

/// Appends a velocity fix.
pub fn encode_gps_vel(buf: &mut Vec<u8>, v: GpsVel)
    ensures
        final(buf)@ == old(buf)@ + spec_enc_gps_vel(v),
{
    encode_varint_u32(buf, v.time_stamp);
    encode_varint_u32(buf, v.status);
    encode_opt_u32v(buf, v.time_of_week);
    encode_opt_vec3(buf, v.velocity);
    encode_opt_vec3(buf, v.velocity_acc);
    encode_opt_w32(buf, v.course);
    encode_opt_w32(buf, v.course_acc);
    assert(buf@ =~= old(buf)@ + spec_enc_gps_vel(v));
}

/// Reads a velocity fix.
pub fn decode_gps_vel(bytes: &Vec<u8>, pos: usize) -> (r: Option<(GpsVel, usize)>)
    ensures
        (match r {
            Some((v, end)) => pos < end <= bytes@.len() && spec_dec_gps_vel(bytes@, pos as int)
                == Some((v, end as int)),
            None => spec_dec_gps_vel(bytes@, pos as int) is None,
        }),
{
    let (f_time_stamp, p1) = match decode_varint_u32(bytes, pos) {
        Some(x) => x,
        None => {
            return None;
        },
    };
    let (f_status, p2) = match decode_varint_u32(bytes, p1) {
        Some(x) => x,
        None => {
            return None;
        },
    };
    let (f_time_of_week, p3) = match decode_opt_u32v(bytes, p2) {
        Some(x) => x,
        None => {
            return None;
        },
    };
    let (f_velocity, p4) = match decode_opt_vec3(bytes, p3) {
        Some(x) => x,
        None => {
            return None;
        },
    };
    let (f_velocity_acc, p5) = match decode_opt_vec3(bytes, p4) {
        Some(x) => x,
        None => {
            return None;
        },
    };
    let (f_course, p6) = match decode_opt_w32(bytes, p5) {
        Some(x) => x,
        None => {
            return None;
        },
    };
    let (f_course_acc, p7) = match decode_opt_w32(bytes, p6) {
        Some(x) => x,
        None => {
            return None;
        },
    };
    Some((GpsVel { time_stamp: f_time_stamp, status: f_status, time_of_week: f_time_of_week, velocity: f_velocity, velocity_acc: f_velocity_acc, course: f_course, course_acc: f_course_acc }, p7))
}

/// Round trip for a velocity fix.
#[verifier::spinoff_prover]
#[verifier::rlimit(100)]
pub proof fn lemma_gps_vel_round_trip(bytes: Seq<u8>, pos: int, v: GpsVel)
    requires
        0 <= pos,
        pos + spec_enc_gps_vel(v).len() <= bytes.len(),
        bytes.subrange(pos, pos + spec_enc_gps_vel(v).len()) == spec_enc_gps_vel(v),
    ensures
        spec_dec_gps_vel(bytes, pos) == Some((v, pos + spec_enc_gps_vel(v).len())),
{
    let e1 = spec_enc_varint_u32(v.time_stamp);
    let e2 = spec_enc_varint_u32(v.status);
    let e3 = spec_enc_opt_u32v(v.time_of_week);
    let e4 = spec_enc_opt_vec3(v.velocity);
    let e5 = spec_enc_opt_vec3(v.velocity_acc);
    let e6 = spec_enc_opt_w32(v.course);
    let e7 = spec_enc_opt_w32(v.course_acc);
    let r7 = e7;
    let r6 = e6 + r7;
    let r5 = e5 + r6;
    let r4 = e4 + r5;
    let r3 = e3 + r4;
    let r2 = e2 + r3;
    let r1 = e1 + r2;
    let l1 = e1;
    let l2 = l1 + e2;
    let l3 = l2 + e3;
    let l4 = l3 + e4;
    let l5 = l4 + e5;
    vstd::seq_lib::lemma_concat_associative(l5, e6, r7);
    vstd::seq_lib::lemma_concat_associative(l4, e5, r6);
    vstd::seq_lib::lemma_concat_associative(l3, e4, r5);
    vstd::seq_lib::lemma_concat_associative(l2, e3, r4);
    vstd::seq_lib::lemma_concat_associative(l1, e2, r3);
    assert(spec_enc_gps_vel(v) == r1);
    lemma_concat_at(bytes, pos, e1, r2);
    lemma_varint_u32_round_trip(bytes, pos, v.time_stamp);
    let q1: int = pos + e1.len();
    lemma_concat_at(bytes, q1, e2, r3);
    lemma_varint_u32_round_trip(bytes, q1, v.status);
    let q2: int = q1 + e2.len();
    lemma_concat_at(bytes, q2, e3, r4);
    lemma_opt_u32v_round_trip(bytes, q2, v.time_of_week);
    let q3: int = q2 + e3.len();
    lemma_concat_at(bytes, q3, e4, r5);
    lemma_opt_vec3_round_trip(bytes, q3, v.velocity);
    let q4: int = q3 + e4.len();
    lemma_concat_at(bytes, q4, e5, r6);
    lemma_opt_vec3_round_trip(bytes, q4, v.velocity_acc);
    let q5: int = q4 + e5.len();
    lemma_concat_at(bytes, q5, e6, r7);
    lemma_opt_w32_round_trip(bytes, q5, v.course);
    let q6: int = q5 + e6.len();
    lemma_opt_w32_round_trip(bytes, q6, v.course_acc);
    assert(v == (GpsVel { time_stamp: v.time_stamp, status: v.status, time_of_week: v.time_of_week, velocity: v.velocity, velocity_acc: v.velocity_acc, course: v.course, course_acc: v.course_acc }));
}

/// Encoding of a UTC time report: its fields in declaration order.
pub open spec fn spec_enc_utc_time(v: UtcTime) -> Seq<u8> {
    spec_enc_varint_u32(v.time_stamp) + spec_enc_varint_u32(v.status) + spec_enc_opt_u16(v.year) + spec_enc_opt_u8(v.month) + spec_enc_opt_u8(v.day) + spec_enc_opt_u8(v.hour) + spec_enc_opt_u8(v.minute) + spec_enc_opt_u8(v.second) + spec_enc_opt_u32v(v.nano_second) + spec_enc_opt_u32v(v.gps_time_of_week)
}

/// Decoding of a UTC time report.
pub open spec fn spec_dec_utc_time(bytes: Seq<u8>, pos: int) -> Option<(UtcTime, int)> {
    match spec_dec_varint_u32(bytes, pos) {
        Some((f_time_stamp, p1)) =>
        match spec_dec_varint_u32(bytes, p1) {
            Some((f_status, p2)) =>
            match spec_dec_opt_u16(bytes, p2) {
                Some((f_year, p3)) =>
                match spec_dec_opt_u8(bytes, p3) {
                    Some((f_month, p4)) =>
                    match spec_dec_opt_u8(bytes, p4) {
                        Some((f_day, p5)) =>
                        match spec_dec_opt_u8(bytes, p5) {
                            Some((f_hour, p6)) =>
                            match spec_dec_opt_u8(bytes, p6) {
                                Some((f_minute, p7)) =>
                                match spec_dec_opt_u8(bytes, p7) {
                                    Some((f_second, p8)) =>
                                    match spec_dec_opt_u32v(bytes, p8) {
                                        Some((f_nano_second, p9)) =>
                                        match spec_dec_opt_u32v(bytes, p9) {
                                            Some((f_gps_time_of_week, p10)) =>
                                            Some((UtcTime { time_stamp: f_time_stamp, status: f_status, year: f_year, month: f_month, day: f_day, hour: f_hour, minute: f_minute, second: f_second, nano_second: f_nano_second, gps_time_of_week: f_gps_time_of_week }, p10)),
                                            None => None,
                                        },
                                        None => None,
                                    },
                                    None => None,
                                },
                                None => None,
                            },
                            None => None,
                        },
                        None => None,
                    },
                    None => None,
                },
                None => None,
            },
            None => None,
        },
        None => None,
    }
}

/// Appends a UTC time report.
pub fn encode_utc_time(buf: &mut Vec<u8>, v: UtcTime)
    ensures
        final(buf)@ == old(buf)@ + spec_enc_utc_time(v),
{
    encode_varint_u32(buf, v.time_stamp);
    encode_varint_u32(buf, v.status);
    encode_opt_u16(buf, v.year);
    encode_opt_u8(buf, v.month);
    encode_opt_u8(buf, v.day);
    encode_opt_u8(buf, v.hour);
    encode_opt_u8(buf, v.minute);
    encode_opt_u8(buf, v.second);
    encode_opt_u32v(buf, v.nano_second);
    encode_opt_u32v(buf, v.gps_time_of_week);
    assert(buf@ =~= old(buf)@ + spec_enc_utc_time(v));
}

/// Reads a UTC time report.
pub fn decode_utc_time(bytes: &Vec<u8>, pos: usize) -> (r: Option<(UtcTime, usize)>)
    ensures
        (match r {
            Some((v, end)) => pos < end <= bytes@.len() && spec_dec_utc_time(bytes@, pos as int)
                == Some((v, end as int)),
            None => spec_dec_utc_time(bytes@, pos as int) is None,
        }),
{
    let (f_time_stamp, p1) = match decode_varint_u32(bytes, pos) {
        Some(x) => x,
        None => {
            return None;
        },
    };
    let (f_status, p2) = match decode_varint_u32(bytes, p1) {
        Some(x) => x,
        None => {
            return None;
        },
    };
    let (f_year, p3) = match decode_opt_u16(bytes, p2) {
        Some(x) => x,
        None => {
            return None;
        },
    };
    let (f_month, p4) = match decode_opt_u8(bytes, p3) {
        Some(x) => x,
        None => {
            return None;
        },
    };
    let (f_day, p5) = match decode_opt_u8(bytes, p4) {
        Some(x) => x,
        None => {
            return None;
        },
    };
    let (f_hour, p6) = match decode_opt_u8(bytes, p5) {
        Some(x) => x,
        None => {
            return None;
        },
    };
    let (f_minute, p7) = match decode_opt_u8(bytes, p6) {
        Some(x) => x,
        None => {
            return None;
        },
    };
    let (f_second, p8) = match decode_opt_u8(bytes, p7) {
        Some(x) => x,
        None => {
            return None;
        },
    };
    let (f_nano_second, p9) = match decode_opt_u32v(bytes, p8) {
        Some(x) => x,
        None => {
            return None;
        },
    };
    let (f_gps_time_of_week, p10) = match decode_opt_u32v(bytes, p9) {
        Some(x) => x,
        None => {
            return None;
        },
    };
    Some((UtcTime { time_stamp: f_time_stamp, status: f_status, year: f_year, month: f_month, day: f_day, hour: f_hour, minute: f_minute, second: f_second, nano_second: f_nano_second, gps_time_of_week: f_gps_time_of_week }, p10))
}

/// Decode facts for the later fields of a UTC time report, given their bytes at `q`.
#[verifier::spinoff_prover]
#[verifier::rlimit(100)]
proof fn lemma_utc_time_fields_tail(bytes: Seq<u8>, q: int, v: UtcTime)
    requires
        0 <= q,
        q + (spec_enc_opt_u8(v.hour) + (spec_enc_opt_u8(v.minute) + (spec_enc_opt_u8(v.second) + (spec_enc_opt_u32v(v.nano_second) + (spec_enc_opt_u32v(v.gps_time_of_week)))))).len() <= bytes.len(),
        bytes.subrange(q, q + (spec_enc_opt_u8(v.hour) + (spec_enc_opt_u8(v.minute) + (spec_enc_opt_u8(v.second) + (spec_enc_opt_u32v(v.nano_second) + (spec_enc_opt_u32v(v.gps_time_of_week)))))).len()) == (spec_enc_opt_u8(v.hour) + (spec_enc_opt_u8(v.minute) + (spec_enc_opt_u8(v.second) + (spec_enc_opt_u32v(v.nano_second) + (spec_enc_opt_u32v(v.gps_time_of_week)))))),
    ensures
        spec_dec_opt_u8(bytes, q) == Some((v.hour, q + spec_enc_opt_u8(v.hour).len())),
        spec_dec_opt_u8(bytes, q + spec_enc_opt_u8(v.hour).len()) == Some((v.minute, q + spec_enc_opt_u8(v.hour).len() + spec_enc_opt_u8(v.minute).len())),
        spec_dec_opt_u8(bytes, q + spec_enc_opt_u8(v.hour).len() + spec_enc_opt_u8(v.minute).len()) == Some((v.second, q + spec_enc_opt_u8(v.hour).len() + spec_enc_opt_u8(v.minute).len() + spec_enc_opt_u8(v.second).len())),
        spec_dec_opt_u32v(bytes, q + spec_enc_opt_u8(v.hour).len() + spec_enc_opt_u8(v.minute).len() + spec_enc_opt_u8(v.second).len()) == Some((v.nano_second, q + spec_enc_opt_u8(v.hour).len() + spec_enc_opt_u8(v.minute).len() + spec_enc_opt_u8(v.second).len() + spec_enc_opt_u32v(v.nano_second).len())),
        spec_dec_opt_u32v(bytes, q + spec_enc_opt_u8(v.hour).len() + spec_enc_opt_u8(v.minute).len() + spec_enc_opt_u8(v.second).len() + spec_enc_opt_u32v(v.nano_second).len()) == Some((v.gps_time_of_week, q + spec_enc_opt_u8(v.hour).len() + spec_enc_opt_u8(v.minute).len() + spec_enc_opt_u8(v.second).len() + spec_enc_opt_u32v(v.nano_second).len() + spec_enc_opt_u32v(v.gps_time_of_week).len())),
{
    let e6 = spec_enc_opt_u8(v.hour);
    let e7 = spec_enc_opt_u8(v.minute);
    let e8 = spec_enc_opt_u8(v.second);
    let e9 = spec_enc_opt_u32v(v.nano_second);
    let e10 = spec_enc_opt_u32v(v.gps_time_of_week);
    let r10 = e10;
    let r9 = e9 + r10;
    let r8 = e8 + r9;
    let r7 = e7 + r8;
    let r6 = e6 + r7;
    lemma_concat_at(bytes, q, e6, r7);
    lemma_opt_u8_round_trip(bytes, q, v.hour);
    let q6: int = q + e6.len();
    lemma_concat_at(bytes, q6, e7, r8);
    lemma_opt_u8_round_trip(bytes, q6, v.minute);
    let q7: int = q6 + e7.len();
    lemma_concat_at(bytes, q7, e8, r9);
    lemma_opt_u8_round_trip(bytes, q7, v.second);
    let q8: int = q7 + e8.len();
    lemma_concat_at(bytes, q8, e9, r10);
    lemma_opt_u32v_round_trip(bytes, q8, v.nano_second);
    let q9: int = q8 + e9.len();
    lemma_opt_u32v_round_trip(bytes, q9, v.gps_time_of_week);
}

/// Round trip for a UTC time report.
#[verifier::spinoff_prover]
#[verifier::rlimit(100)]
pub proof fn lemma_utc_time_round_trip(bytes: Seq<u8>, pos: int, v: UtcTime)
    requires
        0 <= pos,
        pos + spec_enc_utc_time(v).len() <= bytes.len(),
        bytes.subrange(pos, pos + spec_enc_utc_time(v).len()) == spec_enc_utc_time(v),
    ensures
        spec_dec_utc_time(bytes, pos) == Some((v, pos + spec_enc_utc_time(v).len())),
{
    let e1 = spec_enc_varint_u32(v.time_stamp);
    let e2 = spec_enc_varint_u32(v.status);
    let e3 = spec_enc_opt_u16(v.year);
    let e4 = spec_enc_opt_u8(v.month);
    let e5 = spec_enc_opt_u8(v.day);
    let e6 = spec_enc_opt_u8(v.hour);
    let e7 = spec_enc_opt_u8(v.minute);
    let e8 = spec_enc_opt_u8(v.second);
    let e9 = spec_enc_opt_u32v(v.nano_second);
    let e10 = spec_enc_opt_u32v(v.gps_time_of_week);
    let r10 = e10;
    let r9 = e9 + r10;
    let r8 = e8 + r9;
    let r7 = e7 + r8;
    let r6 = e6 + r7;
    let r5 = e5 + r6;
    let r4 = e4 + r5;
    let r3 = e3 + r4;
    let r2 = e2 + r3;
    let r1 = e1 + r2;
    let l1 = e1;
    let l2 = l1 + e2;
    let l3 = l2 + e3;
    let l4 = l3 + e4;
    let l5 = l4 + e5;
    let l6 = l5 + e6;
    let l7 = l6 + e7;
    let l8 = l7 + e8;
    vstd::seq_lib::lemma_concat_associative(l8, e9, r10);
    vstd::seq_lib::lemma_concat_associative(l7, e8, r9);
    vstd::seq_lib::lemma_concat_associative(l6, e7, r8);
    vstd::seq_lib::lemma_concat_associative(l5, e6, r7);
    vstd::seq_lib::lemma_concat_associative(l4, e5, r6);
    vstd::seq_lib::lemma_concat_associative(l3, e4, r5);
    vstd::seq_lib::lemma_concat_associative(l2, e3, r4);
    vstd::seq_lib::lemma_concat_associative(l1, e2, r3);
    assert(spec_enc_utc_time(v) == r1);
    lemma_concat_at(bytes, pos, e1, r2);
    lemma_varint_u32_round_trip(bytes, pos, v.time_stamp);
    let q1: int = pos + e1.len();
    lemma_concat_at(bytes, q1, e2, r3);
    lemma_varint_u32_round_trip(bytes, q1, v.status);
    let q2: int = q1 + e2.len();
    lemma_concat_at(bytes, q2, e3, r4);
    lemma_opt_u16_round_trip(bytes, q2, v.year);
    let q3: int = q2 + e3.len();
    lemma_concat_at(bytes, q3, e4, r5);
    lemma_opt_u8_round_trip(bytes, q3, v.month);
    let q4: int = q3 + e4.len();
    lemma_concat_at(bytes, q4, e5, r6);
    lemma_opt_u8_round_trip(bytes, q4, v.day);
    let q5: int = q4 + e5.len();
    lemma_utc_time_fields_tail(bytes, q5, v);
    assert(v == (UtcTime { time_stamp: v.time_stamp, status: v.status, year: v.year, month: v.month, day: v.day, hour: v.hour, minute: v.minute, second: v.second, nano_second: v.nano_second, gps_time_of_week: v.gps_time_of_week }));
}

/// Encoding of a barometer reading: its fields in declaration order.
pub open spec fn spec_enc_barometer(v: Barometer) -> Seq<u8> {
    spec_enc_varint_u32(v.time_stamp) + spec_enc_opt_w32(v.temperature) + spec_enc_opt_w32(v.pressure)
}

/// Decoding of a barometer reading.
pub open spec fn spec_dec_barometer(bytes: Seq<u8>, pos: int) -> Option<(Barometer, int)> {
    match spec_dec_varint_u32(bytes, pos) {
        Some((f_time_stamp, p1)) =>
        match spec_dec_opt_w32(bytes, p1) {
            Some((f_temperature, p2)) =>
            match spec_dec_opt_w32(bytes, p2) {
                Some((f_pressure, p3)) =>
                Some((Barometer { time_stamp: f_time_stamp, temperature: f_temperature, pressure: f_pressure }, p3)),
                None => None,
            },
            None => None,
        },
        None => None,
    }
}

/// Appends a barometer reading.
pub fn encode_barometer(buf: &mut Vec<u8>, v: Barometer)
    ensures
        final(buf)@ == old(buf)@ + spec_enc_barometer(v),
{
    encode_varint_u32(buf, v.time_stamp);
    encode_opt_w32(buf, v.temperature);
    encode_opt_w32(buf, v.pressure);
    assert(buf@ =~= old(buf)@ + spec_enc_barometer(v));
}

/// Reads a barometer reading.
pub fn decode_barometer(bytes: &Vec<u8>, pos: usize) -> (r: Option<(Barometer, usize)>)
    ensures
        (match r {
            Some((v, end)) => pos < end <= bytes@.len() && spec_dec_barometer(bytes@, pos as int)
                == Some((v, end as int)),
            None => spec_dec_barometer(bytes@, pos as int) is None,
        }),
{
    let (f_time_stamp, p1) = match decode_varint_u32(bytes, pos) {
        Some(x) => x,
        None => {
            return None;
        },
    };
    let (f_temperature, p2) = match decode_opt_w32(bytes, p1) {
        Some(x) => x,
        None => {
            return None;
        },
    };
    let (f_pressure, p3) = match decode_opt_w32(bytes, p2) {
        Some(x) => x,
        None => {
            return None;
        },
    };
    Some((Barometer { time_stamp: f_time_stamp, temperature: f_temperature, pressure: f_pressure }, p3))
}

/// Round trip for a barometer reading.
#[verifier::spinoff_prover]
#[verifier::rlimit(100)]
pub proof fn lemma_barometer_round_trip(bytes: Seq<u8>, pos: int, v: Barometer)
    requires
        0 <= pos,
        pos + spec_enc_barometer(v).len() <= bytes.len(),
        bytes.subrange(pos, pos + spec_enc_barometer(v).len()) == spec_enc_barometer(v),
    ensures
        spec_dec_barometer(bytes, pos) == Some((v, pos + spec_enc_barometer(v).len())),
{
    let e1 = spec_enc_varint_u32(v.time_stamp);
    let e2 = spec_enc_opt_w32(v.temperature);
    let e3 = spec_enc_opt_w32(v.pressure);
    let r3 = e3;
    let r2 = e2 + r3;
    let r1 = e1 + r2;
    let l1 = e1;
    vstd::seq_lib::lemma_concat_associative(l1, e2, r3);
    assert(spec_enc_barometer(v) == r1);
    lemma_concat_at(bytes, pos, e1, r2);
    lemma_varint_u32_round_trip(bytes, pos, v.time_stamp);
    let q1: int = pos + e1.len();
    lemma_concat_at(bytes, q1, e2, r3);
    lemma_opt_w32_round_trip(bytes, q1, v.temperature);
    let q2: int = q1 + e2.len();
    lemma_opt_w32_round_trip(bytes, q2, v.pressure);
    assert(v == (Barometer { time_stamp: v.time_stamp, temperature: v.temperature, pressure: v.pressure }));
}

/// Encoding of a reset reason: a tag byte, then the variant's payload if any.
pub open spec fn spec_enc_reset_reason(v: ResetReason) -> Seq<u8> {
    match v {
        ResetReason::BrownoutReset => seq![0u8],
        ResetReason::CpuReset => seq![1u8],
        ResetReason::D1EntersDStandbyErroneouslyOrCpuEntersCStopErroneously => seq![2u8],
        ResetReason::D1ExitsDStandbyMode => seq![3u8],
        ResetReason::D2ExitsDStandbyMode => seq![4u8],
        ResetReason::GenericWatchdogReset => seq![5u8],
        ResetReason::IndependentWatchdogReset => seq![6u8],
        ResetReason::PinReset => seq![7u8],
        ResetReason::PowerOnReset => seq![8u8],
        ResetReason::SystemReset => seq![9u8],
        ResetReason::WindowWatchdogReset => seq![10u8],
        ResetReason::Unknown { rcc_rsr: x } => seq![11u8] + spec_enc_varint_u32(x),
    }
}

/// Decoding of a reset reason.
pub open spec fn spec_dec_reset_reason(bytes: Seq<u8>, pos: int) -> Option<(ResetReason, int)> {
    if 0 <= pos < bytes.len() {
    if bytes[pos] == 0 {
        Some((ResetReason::BrownoutReset, pos + 1))
    } else if bytes[pos] == 1 {
        Some((ResetReason::CpuReset, pos + 1))
    } else if bytes[pos] == 2 {
        Some((ResetReason::D1EntersDStandbyErroneouslyOrCpuEntersCStopErroneously, pos + 1))
    } else if bytes[pos] == 3 {
        Some((ResetReason::D1ExitsDStandbyMode, pos + 1))
    } else if bytes[pos] == 4 {
        Some((ResetReason::D2ExitsDStandbyMode, pos + 1))
    } else if bytes[pos] == 5 {
        Some((ResetReason::GenericWatchdogReset, pos + 1))
    } else if bytes[pos] == 6 {
        Some((ResetReason::IndependentWatchdogReset, pos + 1))
    } else if bytes[pos] == 7 {
        Some((ResetReason::PinReset, pos + 1))
    } else if bytes[pos] == 8 {
        Some((ResetReason::PowerOnReset, pos + 1))
    } else if bytes[pos] == 9 {
        Some((ResetReason::SystemReset, pos + 1))
    } else if bytes[pos] == 10 {
        Some((ResetReason::WindowWatchdogReset, pos + 1))
    } else if bytes[pos] == 11 {
        match spec_dec_varint_u32(bytes, pos + 1) {
            Some((x, end)) => Some((ResetReason::Unknown { rcc_rsr: x }, end)),
            None => None,
        }
    } else {
        None
    }
    } else {
        None
    }
}

/// Appends a reset reason.
pub fn encode_reset_reason(buf: &mut Vec<u8>, v: ResetReason)
    ensures
        final(buf)@ == old(buf)@ + spec_enc_reset_reason(v),
{
    match v {
        ResetReason::BrownoutReset => {
            buf.push(0u8);
        },
        ResetReason::CpuReset => {
            buf.push(1u8);
        },
        ResetReason::D1EntersDStandbyErroneouslyOrCpuEntersCStopErroneously => {
            buf.push(2u8);
        },
        ResetReason::D1ExitsDStandbyMode => {
            buf.push(3u8);
        },
        ResetReason::D2ExitsDStandbyMode => {
            buf.push(4u8);
        },
        ResetReason::GenericWatchdogReset => {
            buf.push(5u8);
        },
        ResetReason::IndependentWatchdogReset => {
            buf.push(6u8);
        },
        ResetReason::PinReset => {
            buf.push(7u8);
        },
        ResetReason::PowerOnReset => {
            buf.push(8u8);
        },
        ResetReason::SystemReset => {
            buf.push(9u8);
        },
        ResetReason::WindowWatchdogReset => {
            buf.push(10u8);
        },
        ResetReason::Unknown { rcc_rsr: x } => {
            buf.push(11u8);
            encode_varint_u32(buf, x);
        },
    }
    assert(buf@ =~= old(buf)@ + spec_enc_reset_reason(v));
}

/// Reads a reset reason.
pub fn decode_reset_reason(bytes: &Vec<u8>, pos: usize) -> (r: Option<(ResetReason, usize)>)
    ensures
        (match r {
            Some((v, end)) => pos < end <= bytes@.len() && spec_dec_reset_reason(bytes@, pos as int)
                == Some((v, end as int)),
            None => spec_dec_reset_reason(bytes@, pos as int) is None,
        }),
{
    if pos >= bytes.len() {
        return None;
    }
    let tag = bytes[pos];
    if tag == 0 {
        Some((ResetReason::BrownoutReset, pos + 1))
    } else if tag == 1 {
        Some((ResetReason::CpuReset, pos + 1))
    } else if tag == 2 {
        Some((ResetReason::D1EntersDStandbyErroneouslyOrCpuEntersCStopErroneously, pos + 1))
    } else if tag == 3 {
        Some((ResetReason::D1ExitsDStandbyMode, pos + 1))
    } else if tag == 4 {
        Some((ResetReason::D2ExitsDStandbyMode, pos + 1))
    } else if tag == 5 {
        Some((ResetReason::GenericWatchdogReset, pos + 1))
    } else if tag == 6 {
        Some((ResetReason::IndependentWatchdogReset, pos + 1))
    } else if tag == 7 {
        Some((ResetReason::PinReset, pos + 1))
    } else if tag == 8 {
        Some((ResetReason::PowerOnReset, pos + 1))
    } else if tag == 9 {
        Some((ResetReason::SystemReset, pos + 1))
    } else if tag == 10 {
        Some((ResetReason::WindowWatchdogReset, pos + 1))
    } else if tag == 11 {
        match decode_varint_u32(bytes, pos + 1) {
            Some((x, end)) => Some((ResetReason::Unknown { rcc_rsr: x }, end)),
            None => None,
        }
    } else {
        None
    }
}

/// Round trip for a reset reason.
#[verifier::spinoff_prover]
#[verifier::rlimit(100)]
pub proof fn lemma_reset_reason_round_trip(bytes: Seq<u8>, pos: int, v: ResetReason)
    requires
        0 <= pos,
        pos + spec_enc_reset_reason(v).len() <= bytes.len(),
        bytes.subrange(pos, pos + spec_enc_reset_reason(v).len()) == spec_enc_reset_reason(v),
    ensures
        spec_dec_reset_reason(bytes, pos) == Some((v, pos + spec_enc_reset_reason(v).len())),
{
    match v {
        ResetReason::BrownoutReset => {
            assert(bytes[pos] == 0) by {
                assert(bytes.subrange(pos, pos + 1)[0] == bytes[pos]);
            }
        },
        ResetReason::CpuReset => {
            assert(bytes[pos] == 1) by {
                assert(bytes.subrange(pos, pos + 1)[0] == bytes[pos]);
            }
        },
        ResetReason::D1EntersDStandbyErroneouslyOrCpuEntersCStopErroneously => {
            assert(bytes[pos] == 2) by {
                assert(bytes.subrange(pos, pos + 1)[0] == bytes[pos]);
            }
        },
        ResetReason::D1ExitsDStandbyMode => {
            assert(bytes[pos] == 3) by {
                assert(bytes.subrange(pos, pos + 1)[0] == bytes[pos]);
            }
        },
        ResetReason::D2ExitsDStandbyMode => {
            assert(bytes[pos] == 4) by {
                assert(bytes.subrange(pos, pos + 1)[0] == bytes[pos]);
            }
        },
        ResetReason::GenericWatchdogReset => {
            assert(bytes[pos] == 5) by {
                assert(bytes.subrange(pos, pos + 1)[0] == bytes[pos]);
            }
        },
        ResetReason::IndependentWatchdogReset => {
            assert(bytes[pos] == 6) by {
                assert(bytes.subrange(pos, pos + 1)[0] == bytes[pos]);
            }
        },
        ResetReason::PinReset => {
            assert(bytes[pos] == 7) by {
                assert(bytes.subrange(pos, pos + 1)[0] == bytes[pos]);
            }
        },
        ResetReason::PowerOnReset => {
            assert(bytes[pos] == 8) by {
                assert(bytes.subrange(pos, pos + 1)[0] == bytes[pos]);
            }
        },
        ResetReason::SystemReset => {
            assert(bytes[pos] == 9) by {
                assert(bytes.subrange(pos, pos + 1)[0] == bytes[pos]);
            }
        },
        ResetReason::WindowWatchdogReset => {
            assert(bytes[pos] == 10) by {
                assert(bytes.subrange(pos, pos + 1)[0] == bytes[pos]);
            }
        },
        ResetReason::Unknown { rcc_rsr: x } => {
            let tag = seq![11u8];
            let rest = spec_enc_varint_u32(x);
            assert(spec_enc_reset_reason(v) =~= tag + rest);
            lemma_concat_at(bytes, pos, tag, rest);
            lemma_varint_u32_round_trip(bytes, pos + 1, x);
            assert(bytes[pos] == 11) by {
                assert(bytes.subrange(pos, pos + 1)[0] == bytes[pos]);
            }
        },
    }
}

/// Encoding of a vehicle state: a tag byte, then the variant's payload if any.
pub open spec fn spec_enc_state_data(v: StateData) -> Seq<u8> {
    match v {
        StateData::Initializing => seq![0u8],
        StateData::WaitForTakeoff => seq![1u8],
        StateData::Ascent => seq![2u8],
        StateData::Descent => seq![3u8],
        StateData::TerminalDescent => seq![4u8],
        StateData::WaitForRecovery => seq![5u8],
        StateData::Abort => seq![6u8],
    }
}

/// Decoding of a vehicle state.
pub open spec fn spec_dec_state_data(bytes: Seq<u8>, pos: int) -> Option<(StateData, int)> {
    if 0 <= pos < bytes.len() {
    if bytes[pos] == 0 {
        Some((StateData::Initializing, pos + 1))
    } else if bytes[pos] == 1 {
        Some((StateData::WaitForTakeoff, pos + 1))
    } else if bytes[pos] == 2 {
        Some((StateData::Ascent, pos + 1))
    } else if bytes[pos] == 3 {
        Some((StateData::Descent, pos + 1))
    } else if bytes[pos] == 4 {
        Some((StateData::TerminalDescent, pos + 1))
    } else if bytes[pos] == 5 {
        Some((StateData::WaitForRecovery, pos + 1))
    } else if bytes[pos] == 6 {
        Some((StateData::Abort, pos + 1))
    } else {
        None
    }
    } else {
        None
    }
}

/// Appends a vehicle state.
pub fn encode_state_data(buf: &mut Vec<u8>, v: StateData)
    ensures
        final(buf)@ == old(buf)@ + spec_enc_state_data(v),
{
    match v {
        StateData::Initializing => {
            buf.push(0u8);
        },
        StateData::WaitForTakeoff => {
            buf.push(1u8);
        },
        StateData::Ascent => {
            buf.push(2u8);
        },
        StateData::Descent => {
            buf.push(3u8);
        },
        StateData::TerminalDescent => {
            buf.push(4u8);
        },
        StateData::WaitForRecovery => {
            buf.push(5u8);
        },
        StateData::Abort => {
            buf.push(6u8);
        },
    }
    assert(buf@ =~= old(buf)@ + spec_enc_state_data(v));
}

/// Reads a vehicle state.
pub fn decode_state_data(bytes: &Vec<u8>, pos: usize) -> (r: Option<(StateData, usize)>)
    ensures
        (match r {
            Some((v, end)) => pos < end <= bytes@.len() && spec_dec_state_data(bytes@, pos as int)
                == Some((v, end as int)),
            None => spec_dec_state_data(bytes@, pos as int) is None,
        }),
{
    if pos >= bytes.len() {
        return None;
    }
    let tag = bytes[pos];
    if tag == 0 {
        Some((StateData::Initializing, pos + 1))
    } else if tag == 1 {
        Some((StateData::WaitForTakeoff, pos + 1))
    } else if tag == 2 {
        Some((StateData::Ascent, pos + 1))
    } else if tag == 3 {
        Some((StateData::Descent, pos + 1))
    } else if tag == 4 {
        Some((StateData::TerminalDescent, pos + 1))
    } else if tag == 5 {
        Some((StateData::WaitForRecovery, pos + 1))
    } else if tag == 6 {
        Some((StateData::Abort, pos + 1))
    } else {
        None
    }
}

/// Round trip for a vehicle state.
#[verifier::spinoff_prover]
#[verifier::rlimit(100)]
pub proof fn lemma_state_data_round_trip(bytes: Seq<u8>, pos: int, v: StateData)
    requires
        0 <= pos,
        pos + spec_enc_state_data(v).len() <= bytes.len(),
        bytes.subrange(pos, pos + spec_enc_state_data(v).len()) == spec_enc_state_data(v),
    ensures
        spec_dec_state_data(bytes, pos) == Some((v, pos + spec_enc_state_data(v).len())),
{
    match v {
        StateData::Initializing => {
            assert(bytes[pos] == 0) by {
                assert(bytes.subrange(pos, pos + 1)[0] == bytes[pos]);
            }
        },
        StateData::WaitForTakeoff => {
            assert(bytes[pos] == 1) by {
                assert(bytes.subrange(pos, pos + 1)[0] == bytes[pos]);
            }
        },
        StateData::Ascent => {
            assert(bytes[pos] == 2) by {
                assert(bytes.subrange(pos, pos + 1)[0] == bytes[pos]);
            }
        },
        StateData::Descent => {
            assert(bytes[pos] == 3) by {
                assert(bytes.subrange(pos, pos + 1)[0] == bytes[pos]);
            }
        },
        StateData::TerminalDescent => {
            assert(bytes[pos] == 4) by {
                assert(bytes.subrange(pos, pos + 1)[0] == bytes[pos]);
            }
        },
        StateData::WaitForRecovery => {
            assert(bytes[pos] == 5) by {
                assert(bytes.subrange(pos, pos + 1)[0] == bytes[pos]);
            }
        },
        StateData::Abort => {
            assert(bytes[pos] == 6) by {
                assert(bytes.subrange(pos, pos + 1)[0] == bytes[pos]);
            }
        },
    }
}

/// Encoding of a telemetry rate: a tag byte, then the variant's payload if any.
pub open spec fn spec_enc_radio_rate(v: RadioRate) -> Seq<u8> {
    match v {
        RadioRate::Fast => seq![0u8],
        RadioRate::Slow => seq![1u8],
    }
}

/// Decoding of a telemetry rate.
pub open spec fn spec_dec_radio_rate(bytes: Seq<u8>, pos: int) -> Option<(RadioRate, int)> {
    if 0 <= pos < bytes.len() {
    if bytes[pos] == 0 {
        Some((RadioRate::Fast, pos + 1))
    } else if bytes[pos] == 1 {
        Some((RadioRate::Slow, pos + 1))
    } else {
        None
    }
    } else {
        None
    }
}

/// Appends a telemetry rate.
pub fn encode_radio_rate(buf: &mut Vec<u8>, v: RadioRate)
    ensures
        final(buf)@ == old(buf)@ + spec_enc_radio_rate(v),
{
    match v {
        RadioRate::Fast => {
            buf.push(0u8);
        },
        RadioRate::Slow => {
            buf.push(1u8);
        },
    }
    assert(buf@ =~= old(buf)@ + spec_enc_radio_rate(v));
}

/// Reads a telemetry rate.
pub fn decode_radio_rate(bytes: &Vec<u8>, pos: usize) -> (r: Option<(RadioRate, usize)>)
    ensures
        (match r {
            Some((v, end)) => pos < end <= bytes@.len() && spec_dec_radio_rate(bytes@, pos as int)
                == Some((v, end as int)),
            None => spec_dec_radio_rate(bytes@, pos as int) is None,
        }),
{
    if pos >= bytes.len() {
        return None;
    }
    let tag = bytes[pos];
    if tag == 0 {
        Some((RadioRate::Fast, pos + 1))
    } else if tag == 1 {
        Some((RadioRate::Slow, pos + 1))
    } else {
        None
    }
}

/// Round trip for a telemetry rate.
#[verifier::spinoff_prover]
#[verifier::rlimit(100)]
pub proof fn lemma_radio_rate_round_trip(bytes: Seq<u8>, pos: int, v: RadioRate)
    requires
        0 <= pos,
        pos + spec_enc_radio_rate(v).len() <= bytes.len(),
        bytes.subrange(pos, pos + spec_enc_radio_rate(v).len()) == spec_enc_radio_rate(v),
    ensures
        spec_dec_radio_rate(bytes, pos) == Some((v, pos + spec_enc_radio_rate(v).len())),
{
    match v {
        RadioRate::Fast => {
            assert(bytes[pos] == 0) by {
                assert(bytes.subrange(pos, pos + 1)[0] == bytes[pos]);
            }
        },
        RadioRate::Slow => {
            assert(bytes[pos] == 1) by {
                assert(bytes.subrange(pos, pos + 1)[0] == bytes[pos]);
            }
        },
    }
}

/// Encoding of a rate-change request: its fields in declaration order.
pub open spec fn spec_enc_radio_rate_change(v: RadioRateChange) -> Seq<u8> {
    spec_enc_radio_rate(v.rate)
}

/// Decoding of a rate-change request.
pub open spec fn spec_dec_radio_rate_change(bytes: Seq<u8>, pos: int) -> Option<(RadioRateChange, int)> {
    match spec_dec_radio_rate(bytes, pos) {
        Some((f_rate, p1)) =>
        Some((RadioRateChange { rate: f_rate }, p1)),
        None => None,
    }
}

/// Appends a rate-change request.
pub fn encode_radio_rate_change(buf: &mut Vec<u8>, v: RadioRateChange)
    ensures
        final(buf)@ == old(buf)@ + spec_enc_radio_rate_change(v),
{
    encode_radio_rate(buf, v.rate);
    assert(buf@ =~= old(buf)@ + spec_enc_radio_rate_change(v));
}

/// Reads a rate-change request.
pub fn decode_radio_rate_change(bytes: &Vec<u8>, pos: usize) -> (r: Option<(RadioRateChange, usize)>)
    ensures
        (match r {
            Some((v, end)) => pos < end <= bytes@.len() && spec_dec_radio_rate_change(bytes@, pos as int)
                == Some((v, end as int)),
            None => spec_dec_radio_rate_change(bytes@, pos as int) is None,
        }),
{
    let (f_rate, p1) = match decode_radio_rate(bytes, pos) {
        Some(x) => x,
        None => {
            return None;
        },
    };
    Some((RadioRateChange { rate: f_rate }, p1))
}

/// Round trip for a rate-change request.
#[verifier::spinoff_prover]
#[verifier::rlimit(100)]
pub proof fn lemma_radio_rate_change_round_trip(bytes: Seq<u8>, pos: int, v: RadioRateChange)
    requires
        0 <= pos,
        pos + spec_enc_radio_rate_change(v).len() <= bytes.len(),
        bytes.subrange(pos, pos + spec_enc_radio_rate_change(v).len()) == spec_enc_radio_rate_change(v),
    ensures
        spec_dec_radio_rate_change(bytes, pos) == Some((v, pos + spec_enc_radio_rate_change(v).len())),
{
    let e1 = spec_enc_radio_rate(v.rate);
    lemma_radio_rate_round_trip(bytes, pos, v.rate);
    assert(v == (RadioRateChange { rate: v.rate }));
}

/// Encoding of a command: a tag byte, then the variant's payload if any.
pub open spec fn spec_enc_command_data(v: CommandData) -> Seq<u8> {
    match v {
        CommandData::RadioRateChange(x) => seq![0u8] + spec_enc_radio_rate_change(x),
        CommandData::DeployDrogue => seq![1u8],
        CommandData::DeployMain => seq![2u8],
        CommandData::PowerDown => seq![3u8],
    }
}

/// Decoding of a command.
pub open spec fn spec_dec_command_data(bytes: Seq<u8>, pos: int) -> Option<(CommandData, int)> {
    if 0 <= pos < bytes.len() {
    if bytes[pos] == 0 {
        match spec_dec_radio_rate_change(bytes, pos + 1) {
            Some((x, end)) => Some((CommandData::RadioRateChange(x), end)),
            None => None,
        }
    } else if bytes[pos] == 1 {
        Some((CommandData::DeployDrogue, pos + 1))
    } else if bytes[pos] == 2 {
        Some((CommandData::DeployMain, pos + 1))
    } else if bytes[pos] == 3 {
        Some((CommandData::PowerDown, pos + 1))
    } else {
        None
    }
    } else {
        None
    }
}

/// Appends a command.
pub fn encode_command_data(buf: &mut Vec<u8>, v: CommandData)
    ensures
        final(buf)@ == old(buf)@ + spec_enc_command_data(v),
{
    match v {
        CommandData::RadioRateChange(x) => {
            buf.push(0u8);
            encode_radio_rate_change(buf, x);
        },
        CommandData::DeployDrogue => {
            buf.push(1u8);
        },
        CommandData::DeployMain => {
            buf.push(2u8);
        },
        CommandData::PowerDown => {
            buf.push(3u8);
        },
    }
    assert(buf@ =~= old(buf)@ + spec_enc_command_data(v));
}

/// Reads a command.
pub fn decode_command_data(bytes: &Vec<u8>, pos: usize) -> (r: Option<(CommandData, usize)>)
    ensures
        (match r {
            Some((v, end)) => pos < end <= bytes@.len() && spec_dec_command_data(bytes@, pos as int)
                == Some((v, end as int)),
            None => spec_dec_command_data(bytes@, pos as int) is None,
        }),
{
    if pos >= bytes.len() {
        return None;
    }
    let tag = bytes[pos];
    if tag == 0 {
        match decode_radio_rate_change(bytes, pos + 1) {
            Some((x, end)) => Some((CommandData::RadioRateChange(x), end)),
            None => None,
        }
    } else if tag == 1 {
        Some((CommandData::DeployDrogue, pos + 1))
    } else if tag == 2 {
        Some((CommandData::DeployMain, pos + 1))
    } else if tag == 3 {
        Some((CommandData::PowerDown, pos + 1))
    } else {
        None
    }
}

/// Round trip for a command.
#[verifier::spinoff_prover]
#[verifier::rlimit(100)]
pub proof fn lemma_command_data_round_trip(bytes: Seq<u8>, pos: int, v: CommandData)
    requires
        0 <= pos,
        pos + spec_enc_command_data(v).len() <= bytes.len(),
        bytes.subrange(pos, pos + spec_enc_command_data(v).len()) == spec_enc_command_data(v),
    ensures
        spec_dec_command_data(bytes, pos) == Some((v, pos + spec_enc_command_data(v).len())),
{
    match v {
        CommandData::RadioRateChange(x) => {
            let tag = seq![0u8];
            let rest = spec_enc_radio_rate_change(x);
            assert(spec_enc_command_data(v) =~= tag + rest);
            lemma_concat_at(bytes, pos, tag, rest);
            lemma_radio_rate_change_round_trip(bytes, pos + 1, x);
            assert(bytes[pos] == 0) by {
                assert(bytes.subrange(pos, pos + 1)[0] == bytes[pos]);
            }
        },
        CommandData::DeployDrogue => {
            assert(bytes[pos] == 1) by {
                assert(bytes.subrange(pos, pos + 1)[0] == bytes[pos]);
            }
        },
        CommandData::DeployMain => {
            assert(bytes[pos] == 2) by {
                assert(bytes.subrange(pos, pos + 1)[0] == bytes[pos]);
            }
        },
        CommandData::PowerDown => {
            assert(bytes[pos] == 3) by {
                assert(bytes.subrange(pos, pos + 1)[0] == bytes[pos]);
            }
        },
    }
}

/// Encoding of a state payload: its fields in declaration order.
pub open spec fn spec_enc_state(v: State) -> Seq<u8> {
    spec_enc_state_data(v.data)
}

/// Decoding of a state payload.
pub open spec fn spec_dec_state(bytes: Seq<u8>, pos: int) -> Option<(State, int)> {
    match spec_dec_state_data(bytes, pos) {
        Some((f_data, p1)) =>
        Some((State { data: f_data }, p1)),
        None => None,
    }
}

/// Appends a state payload.
pub fn encode_state(buf: &mut Vec<u8>, v: State)
    ensures
        final(buf)@ == old(buf)@ + spec_enc_state(v),
{
    encode_state_data(buf, v.data);
    assert(buf@ =~= old(buf)@ + spec_enc_state(v));
}

/// Reads a state payload.
pub fn decode_state(bytes: &Vec<u8>, pos: usize) -> (r: Option<(State, usize)>)
    ensures
        (match r {
            Some((v, end)) => pos < end <= bytes@.len() && spec_dec_state(bytes@, pos as int)
                == Some((v, end as int)),
            None => spec_dec_state(bytes@, pos as int) is None,
        }),
{
    let (f_data, p1) = match decode_state_data(bytes, pos) {
        Some(x) => x,
        None => {
            return None;
        },
    };
    Some((State { data: f_data }, p1))
}

/// Round trip for a state payload.
#[verifier::spinoff_prover]
#[verifier::rlimit(100)]
pub proof fn lemma_state_round_trip(bytes: Seq<u8>, pos: int, v: State)
    requires
        0 <= pos,
        pos + spec_enc_state(v).len() <= bytes.len(),
        bytes.subrange(pos, pos + spec_enc_state(v).len()) == spec_enc_state(v),
    ensures
        spec_dec_state(bytes, pos) == Some((v, pos + spec_enc_state(v).len())),
{
    let e1 = spec_enc_state_data(v.data);
    lemma_state_data_round_trip(bytes, pos, v.data);
    assert(v == (State { data: v.data }));
}

/// Encoding of a command payload: its fields in declaration order.
pub open spec fn spec_enc_command(v: Command) -> Seq<u8> {
    spec_enc_command_data(v.data)
}

/// Decoding of a command payload.
pub open spec fn spec_dec_command(bytes: Seq<u8>, pos: int) -> Option<(Command, int)> {
    match spec_dec_command_data(bytes, pos) {
        Some((f_data, p1)) =>
        Some((Command { data: f_data }, p1)),
        None => None,
    }
}

/// Appends a command payload.
pub fn encode_command(buf: &mut Vec<u8>, v: Command)
    ensures
        final(buf)@ == old(buf)@ + spec_enc_command(v),
{
    encode_command_data(buf, v.data);
    assert(buf@ =~= old(buf)@ + spec_enc_command(v));
}

/// Reads a command payload.
pub fn decode_command(bytes: &Vec<u8>, pos: usize) -> (r: Option<(Command, usize)>)
    ensures
        (match r {
            Some((v, end)) => pos < end <= bytes@.len() && spec_dec_command(bytes@, pos as int)
                == Some((v, end as int)),
            None => spec_dec_command(bytes@, pos as int) is None,
        }),
{
    let (f_data, p1) = match decode_command_data(bytes, pos) {
        Some(x) => x,
        None => {
            return None;
        },
    };
    Some((Command { data: f_data }, p1))
}

/// Round trip for a command payload.
#[verifier::spinoff_prover]
#[verifier::rlimit(100)]
pub proof fn lemma_command_round_trip(bytes: Seq<u8>, pos: int, v: Command)
    requires
        0 <= pos,
        pos + spec_enc_command(v).len() <= bytes.len(),
        bytes.subrange(pos, pos + spec_enc_command(v).len()) == spec_enc_command(v),
    ensures
        spec_dec_command(bytes, pos) == Some((v, pos + spec_enc_command(v).len())),
{
    let e1 = spec_enc_command_data(v.data);
    lemma_command_data_round_trip(bytes, pos, v.data);
    assert(v == (Command { data: v.data }));
}

/// Encoding of a sensor sample: a tag byte, then the variant's payload if any.
pub open spec fn spec_enc_sensor_data(v: SensorData) -> Seq<u8> {
    match v {
        SensorData::Air(x) => seq![0u8] + spec_enc_air(x),
        SensorData::Imu(x) => seq![1u8] + spec_enc_imu(x),
        SensorData::EkfNav(x) => seq![2u8] + spec_enc_ekf_nav(x),
        SensorData::EkfQuat(x) => seq![3u8] + spec_enc_ekf_quat(x),
        SensorData::GpsPos(x) => seq![4u8] + spec_enc_gps_pos(x),
        SensorData::GpsVel(x) => seq![5u8] + spec_enc_gps_vel(x),
        SensorData::UtcTime(x) => seq![6u8] + spec_enc_utc_time(x),
        SensorData::Barometer(x) => seq![7u8] + spec_enc_barometer(x),
        SensorData::ResetReason(x) => seq![8u8] + spec_enc_reset_reason(x),
    }
}

/// Decoding of a sensor sample.
pub open spec fn spec_dec_sensor_data(bytes: Seq<u8>, pos: int) -> Option<(SensorData, int)> {
    if 0 <= pos < bytes.len() {
    if bytes[pos] == 0 {
        match spec_dec_air(bytes, pos + 1) {
            Some((x, end)) => Some((SensorData::Air(x), end)),
            None => None,
        }
    } else if bytes[pos] == 1 {
        match spec_dec_imu(bytes, pos + 1) {
            Some((x, end)) => Some((SensorData::Imu(x), end)),
            None => None,
        }
    } else if bytes[pos] == 2 {
        match spec_dec_ekf_nav(bytes, pos + 1) {
            Some((x, end)) => Some((SensorData::EkfNav(x), end)),
            None => None,
        }
    } else if bytes[pos] == 3 {
        match spec_dec_ekf_quat(bytes, pos + 1) {
            Some((x, end)) => Some((SensorData::EkfQuat(x), end)),
            None => None,
        }
    } else if bytes[pos] == 4 {
        match spec_dec_gps_pos(bytes, pos + 1) {
            Some((x, end)) => Some((SensorData::GpsPos(x), end)),
            None => None,
        }
    } else if bytes[pos] == 5 {
        match spec_dec_gps_vel(bytes, pos + 1) {
            Some((x, end)) => Some((SensorData::GpsVel(x), end)),
            None => None,
        }
    } else if bytes[pos] == 6 {
        match spec_dec_utc_time(bytes, pos + 1) {
            Some((x, end)) => Some((SensorData::UtcTime(x), end)),
            None => None,
        }
    } else if bytes[pos] == 7 {
        match spec_dec_barometer(bytes, pos + 1) {
            Some((x, end)) => Some((SensorData::Barometer(x), end)),
            None => None,
        }
    } else if bytes[pos] == 8 {
        match spec_dec_reset_reason(bytes, pos + 1) {
            Some((x, end)) => Some((SensorData::ResetReason(x), end)),
            None => None,
        }
    } else {
        None
    }
    } else {
        None
    }
}

/// Appends a sensor sample.
pub fn encode_sensor_data(buf: &mut Vec<u8>, v: SensorData)
    ensures
        final(buf)@ == old(buf)@ + spec_enc_sensor_data(v),
{
    match v {
        SensorData::Air(x) => {
            buf.push(0u8);
            encode_air(buf, x);
        },
        SensorData::Imu(x) => {
            buf.push(1u8);
            encode_imu(buf, x);
        },
        SensorData::EkfNav(x) => {
            buf.push(2u8);
            encode_ekf_nav(buf, x);
        },
        SensorData::EkfQuat(x) => {
            buf.push(3u8);
            encode_ekf_quat(buf, x);
        },
        SensorData::GpsPos(x) => {
            buf.push(4u8);
            encode_gps_pos(buf, x);
        },
        SensorData::GpsVel(x) => {
            buf.push(5u8);
            encode_gps_vel(buf, x);
        },
        SensorData::UtcTime(x) => {
            buf.push(6u8);
            encode_utc_time(buf, x);
        },
        SensorData::Barometer(x) => {
            buf.push(7u8);
            encode_barometer(buf, x);
        },
        SensorData::ResetReason(x) => {
            buf.push(8u8);
            encode_reset_reason(buf, x);
        },
    }
    assert(buf@ =~= old(buf)@ + spec_enc_sensor_data(v));
}

/// Reads a sensor sample.
pub fn decode_sensor_data(bytes: &Vec<u8>, pos: usize) -> (r: Option<(SensorData, usize)>)
    ensures
        (match r {
            Some((v, end)) => pos < end <= bytes@.len() && spec_dec_sensor_data(bytes@, pos as int)
                == Some((v, end as int)),
            None => spec_dec_sensor_data(bytes@, pos as int) is None,
        }),
{
    if pos >= bytes.len() {
        return None;
    }
    let tag = bytes[pos];
    if tag == 0 {
        match decode_air(bytes, pos + 1) {
            Some((x, end)) => Some((SensorData::Air(x), end)),
            None => None,
        }
    } else if tag == 1 {
        match decode_imu(bytes, pos + 1) {
            Some((x, end)) => Some((SensorData::Imu(x), end)),
            None => None,
        }
    } else if tag == 2 {
        match decode_ekf_nav(bytes, pos + 1) {
            Some((x, end)) => Some((SensorData::EkfNav(x), end)),
            None => None,
        }
    } else if tag == 3 {
        match decode_ekf_quat(bytes, pos + 1) {
            Some((x, end)) => Some((SensorData::EkfQuat(x), end)),
            None => None,
        }
    } else if tag == 4 {
        match decode_gps_pos(bytes, pos + 1) {
            Some((x, end)) => Some((SensorData::GpsPos(x), end)),
            None => None,
        }
    } else if tag == 5 {
        match decode_gps_vel(bytes, pos + 1) {
            Some((x, end)) => Some((SensorData::GpsVel(x), end)),
            None => None,
        }
    } else if tag == 6 {
        match decode_utc_time(bytes, pos + 1) {
            Some((x, end)) => Some((SensorData::UtcTime(x), end)),
            None => None,
        }
    } else if tag == 7 {
        match decode_barometer(bytes, pos + 1) {
            Some((x, end)) => Some((SensorData::Barometer(x), end)),
            None => None,
        }
    } else if tag == 8 {
        match decode_reset_reason(bytes, pos + 1) {
            Some((x, end)) => Some((SensorData::ResetReason(x), end)),
            None => None,
        }
    } else {
        None
    }
}

/// Round trip for a sensor sample.
#[verifier::spinoff_prover]
#[verifier::rlimit(100)]
pub proof fn lemma_sensor_data_round_trip(bytes: Seq<u8>, pos: int, v: SensorData)
    requires
        0 <= pos,
        pos + spec_enc_sensor_data(v).len() <= bytes.len(),
        bytes.subrange(pos, pos + spec_enc_sensor_data(v).len()) == spec_enc_sensor_data(v),
    ensures
        spec_dec_sensor_data(bytes, pos) == Some((v, pos + spec_enc_sensor_data(v).len())),
{
    match v {
        SensorData::Air(x) => {
            let tag = seq![0u8];
            let rest = spec_enc_air(x);
            assert(spec_enc_sensor_data(v) =~= tag + rest);
            lemma_concat_at(bytes, pos, tag, rest);
            lemma_air_round_trip(bytes, pos + 1, x);
            assert(bytes[pos] == 0) by {
                assert(bytes.subrange(pos, pos + 1)[0] == bytes[pos]);
            }
        },
        SensorData::Imu(x) => {
            let tag = seq![1u8];
            let rest = spec_enc_imu(x);
            assert(spec_enc_sensor_data(v) =~= tag + rest);
            lemma_concat_at(bytes, pos, tag, rest);
            lemma_imu_round_trip(bytes, pos + 1, x);
            assert(bytes[pos] == 1) by {
                assert(bytes.subrange(pos, pos + 1)[0] == bytes[pos]);
            }
        },
        SensorData::EkfNav(x) => {
            let tag = seq![2u8];
            let rest = spec_enc_ekf_nav(x);
            assert(spec_enc_sensor_data(v) =~= tag + rest);
            lemma_concat_at(bytes, pos, tag, rest);
            lemma_ekf_nav_round_trip(bytes, pos + 1, x);
            assert(bytes[pos] == 2) by {
                assert(bytes.subrange(pos, pos + 1)[0] == bytes[pos]);
            }
        },
        SensorData::EkfQuat(x) => {
            let tag = seq![3u8];
            let rest = spec_enc_ekf_quat(x);
            assert(spec_enc_sensor_data(v) =~= tag + rest);
            lemma_concat_at(bytes, pos, tag, rest);
            lemma_ekf_quat_round_trip(bytes, pos + 1, x);
            assert(bytes[pos] == 3) by {
                assert(bytes.subrange(pos, pos + 1)[0] == bytes[pos]);
            }
        },
        SensorData::GpsPos(x) => {
            let tag = seq![4u8];
            let rest = spec_enc_gps_pos(x);
            assert(spec_enc_sensor_data(v) =~= tag + rest);
            lemma_concat_at(bytes, pos, tag, rest);
            lemma_gps_pos_round_trip(bytes, pos + 1, x);
            assert(bytes[pos] == 4) by {
                assert(bytes.subrange(pos, pos + 1)[0] == bytes[pos]);
            }
        },
        SensorData::GpsVel(x) => {
            let tag = seq![5u8];
            let rest = spec_enc_gps_vel(x);
            assert(spec_enc_sensor_data(v) =~= tag + rest);
            lemma_concat_at(bytes, pos, tag, rest);
            lemma_gps_vel_round_trip(bytes, pos + 1, x);
            assert(bytes[pos] == 5) by {
                assert(bytes.subrange(pos, pos + 1)[0] == bytes[pos]);
            }
        },
        SensorData::UtcTime(x) => {
            let tag = seq![6u8];
            let rest = spec_enc_utc_time(x);
            assert(spec_enc_sensor_data(v) =~= tag + rest);
            lemma_concat_at(bytes, pos, tag, rest);
            lemma_utc_time_round_trip(bytes, pos + 1, x);
            assert(bytes[pos] == 6) by {
                assert(bytes.subrange(pos, pos + 1)[0] == bytes[pos]);
            }
        },
        SensorData::Barometer(x) => {
            let tag = seq![7u8];
            let rest = spec_enc_barometer(x);
            assert(spec_enc_sensor_data(v) =~= tag + rest);
            lemma_concat_at(bytes, pos, tag, rest);
            lemma_barometer_round_trip(bytes, pos + 1, x);
            assert(bytes[pos] == 7) by {
                assert(bytes.subrange(pos, pos + 1)[0] == bytes[pos]);
            }
        },
        SensorData::ResetReason(x) => {
            let tag = seq![8u8];
            let rest = spec_enc_reset_reason(x);
            assert(spec_enc_sensor_data(v) =~= tag + rest);
            lemma_concat_at(bytes, pos, tag, rest);
            lemma_reset_reason_round_trip(bytes, pos + 1, x);
            assert(bytes[pos] == 8) by {
                assert(bytes.subrange(pos, pos + 1)[0] == bytes[pos]);
            }
        },
    }
}

/// Encoding of a sensor payload: its fields in declaration order.
pub open spec fn spec_enc_sensor(v: Sensor) -> Seq<u8> {
    spec_enc_sensor_data(v.data)
}

/// Decoding of a sensor payload.
pub open spec fn spec_dec_sensor(bytes: Seq<u8>, pos: int) -> Option<(Sensor, int)> {
    match spec_dec_sensor_data(bytes, pos) {
        Some((f_data, p1)) =>
        Some((Sensor { data: f_data }, p1)),
        None => None,
    }
}

/// Appends a sensor payload.
pub fn encode_sensor(buf: &mut Vec<u8>, v: Sensor)
    ensures
        final(buf)@ == old(buf)@ + spec_enc_sensor(v),
{
    encode_sensor_data(buf, v.data);
    assert(buf@ =~= old(buf)@ + spec_enc_sensor(v));
}

/// Reads a sensor payload.
pub fn decode_sensor(bytes: &Vec<u8>, pos: usize) -> (r: Option<(Sensor, usize)>)
    ensures
        (match r {
            Some((v, end)) => pos < end <= bytes@.len() && spec_dec_sensor(bytes@, pos as int)
                == Some((v, end as int)),
            None => spec_dec_sensor(bytes@, pos as int) is None,
        }),
{
    let (f_data, p1) = match decode_sensor_data(bytes, pos) {
        Some(x) => x,
        None => {
            return None;
        },
    };
    Some((Sensor { data: f_data }, p1))
}

/// Round trip for a sensor payload.
#[verifier::spinoff_prover]
#[verifier::rlimit(100)]
pub proof fn lemma_sensor_round_trip(bytes: Seq<u8>, pos: int, v: Sensor)
    requires
        0 <= pos,
        pos + spec_enc_sensor(v).len() <= bytes.len(),
        bytes.subrange(pos, pos + spec_enc_sensor(v).len()) == spec_enc_sensor(v),
    ensures
        spec_dec_sensor(bytes, pos) == Some((v, pos + spec_enc_sensor(v).len())),
{
    let e1 = spec_enc_sensor_data(v.data);
    lemma_sensor_data_round_trip(bytes, pos, v.data);
    assert(v == (Sensor { data: v.data }));
}

/// Encoding of an envelope payload: a tag byte, then the variant's payload if any.
pub open spec fn spec_enc_data(v: Data) -> Seq<u8> {
    match v {
        Data::Sensor(x) => seq![0u8] + spec_enc_sensor(x),
        Data::State(x) => seq![1u8] + spec_enc_state(x),
        Data::Command(x) => seq![2u8] + spec_enc_command(x),
    }
}

/// Decoding of an envelope payload.
pub open spec fn spec_dec_data(bytes: Seq<u8>, pos: int) -> Option<(Data, int)> {
    if 0 <= pos < bytes.len() {
    if bytes[pos] == 0 {
        match spec_dec_sensor(bytes, pos + 1) {
            Some((x, end)) => Some((Data::Sensor(x), end)),
            None => None,
        }
    } else if bytes[pos] == 1 {
        match spec_dec_state(bytes, pos + 1) {
            Some((x, end)) => Some((Data::State(x), end)),
            None => None,
        }
    } else if bytes[pos] == 2 {
        match spec_dec_command(bytes, pos + 1) {
            Some((x, end)) => Some((Data::Command(x), end)),
            None => None,
        }
    } else {
        None
    }
    } else {
        None
    }
}

/// Appends an envelope payload.
pub fn encode_data(buf: &mut Vec<u8>, v: Data)
    ensures
        final(buf)@ == old(buf)@ + spec_enc_data(v),
{
    match v {
        Data::Sensor(x) => {
            buf.push(0u8);
            encode_sensor(buf, x);
        },
        Data::State(x) => {
            buf.push(1u8);
            encode_state(buf, x);
        },
        Data::Command(x) => {
            buf.push(2u8);
            encode_command(buf, x);
        },
    }
    assert(buf@ =~= old(buf)@ + spec_enc_data(v));
}

/// Reads an envelope payload.
pub fn decode_data(bytes: &Vec<u8>, pos: usize) -> (r: Option<(Data, usize)>)
    ensures
        (match r {
            Some((v, end)) => pos < end <= bytes@.len() && spec_dec_data(bytes@, pos as int)
                == Some((v, end as int)),
            None => spec_dec_data(bytes@, pos as int) is None,
        }),
{
    if pos >= bytes.len() {
        return None;
    }
    let tag = bytes[pos];
    if tag == 0 {
        match decode_sensor(bytes, pos + 1) {
            Some((x, end)) => Some((Data::Sensor(x), end)),
            None => None,
        }
    } else if tag == 1 {
        match decode_state(bytes, pos + 1) {
            Some((x, end)) => Some((Data::State(x), end)),
            None => None,
        }
    } else if tag == 2 {
        match decode_command(bytes, pos + 1) {
            Some((x, end)) => Some((Data::Command(x), end)),
            None => None,
        }
    } else {
        None
    }
}

/// Round trip for an envelope payload.
#[verifier::spinoff_prover]
#[verifier::rlimit(100)]
pub proof fn lemma_data_round_trip(bytes: Seq<u8>, pos: int, v: Data)
    requires
        0 <= pos,
        pos + spec_enc_data(v).len() <= bytes.len(),
        bytes.subrange(pos, pos + spec_enc_data(v).len()) == spec_enc_data(v),
    ensures
        spec_dec_data(bytes, pos) == Some((v, pos + spec_enc_data(v).len())),
{
    match v {
        Data::Sensor(x) => {
            let tag = seq![0u8];
            let rest = spec_enc_sensor(x);
            assert(spec_enc_data(v) =~= tag + rest);
            lemma_concat_at(bytes, pos, tag, rest);
            lemma_sensor_round_trip(bytes, pos + 1, x);
            assert(bytes[pos] == 0) by {
                assert(bytes.subrange(pos, pos + 1)[0] == bytes[pos]);
            }
        },
        Data::State(x) => {
            let tag = seq![1u8];
            let rest = spec_enc_state(x);
            assert(spec_enc_data(v) =~= tag + rest);
            lemma_concat_at(bytes, pos, tag, rest);
            lemma_state_round_trip(bytes, pos + 1, x);
            assert(bytes[pos] == 1) by {
                assert(bytes.subrange(pos, pos + 1)[0] == bytes[pos]);
            }
        },
        Data::Command(x) => {
            let tag = seq![2u8];
            let rest = spec_enc_command(x);
            assert(spec_enc_data(v) =~= tag + rest);
            lemma_concat_at(bytes, pos, tag, rest);
            lemma_command_round_trip(bytes, pos + 1, x);
            assert(bytes[pos] == 2) by {
                assert(bytes.subrange(pos, pos + 1)[0] == bytes[pos]);
            }
        },
    }
}

/// Encoding of a calendar timestamp: its fields in declaration order.
pub open spec fn spec_enc_formatted_time(v: FormattedTime) -> Seq<u8> {
    spec_enc_u16(v.year) + spec_enc_u8(v.month) + spec_enc_u8(v.day) + spec_enc_u8(v.hour) + spec_enc_u8(v.minute) + spec_enc_u8(v.second)
}

/// Decoding of a calendar timestamp.
pub open spec fn spec_dec_formatted_time(bytes: Seq<u8>, pos: int) -> Option<(FormattedTime, int)> {
    match spec_dec_u16(bytes, pos) {
        Some((f_year, p1)) =>
        match spec_dec_u8(bytes, p1) {
            Some((f_month, p2)) =>
            match spec_dec_u8(bytes, p2) {
                Some((f_day, p3)) =>
                match spec_dec_u8(bytes, p3) {
                    Some((f_hour, p4)) =>
                    match spec_dec_u8(bytes, p4) {
                        Some((f_minute, p5)) =>
                        match spec_dec_u8(bytes, p5) {
                            Some((f_second, p6)) =>
                            Some((FormattedTime { year: f_year, month: f_month, day: f_day, hour: f_hour, minute: f_minute, second: f_second }, p6)),
                            None => None,
                        },
                        None => None,
                    },
                    None => None,
                },
                None => None,
            },
            None => None,
        },
        None => None,
    }
}

/// Appends a calendar timestamp.
pub fn encode_formatted_time(buf: &mut Vec<u8>, v: FormattedTime)
    ensures
        final(buf)@ == old(buf)@ + spec_enc_formatted_time(v),
{
    encode_u16(buf, v.year);
    encode_u8(buf, v.month);
    encode_u8(buf, v.day);
    encode_u8(buf, v.hour);
    encode_u8(buf, v.minute);
    encode_u8(buf, v.second);
    assert(buf@ =~= old(buf)@ + spec_enc_formatted_time(v));
}

/// Reads a calendar timestamp.
pub fn decode_formatted_time(bytes: &Vec<u8>, pos: usize) -> (r: Option<(FormattedTime, usize)>)
    ensures
        (match r {
            Some((v, end)) => pos < end <= bytes@.len() && spec_dec_formatted_time(bytes@, pos as int)
                == Some((v, end as int)),
            None => spec_dec_formatted_time(bytes@, pos as int) is None,
        }),
{
    let (f_year, p1) = match decode_u16(bytes, pos) {
        Some(x) => x,
        None => {
            return None;
        },
    };
    let (f_month, p2) = match decode_u8(bytes, p1) {
        Some(x) => x,
        None => {
            return None;
        },
    };
    let (f_day, p3) = match decode_u8(bytes, p2) {
        Some(x) => x,
        None => {
            return None;
        },
    };
    let (f_hour, p4) = match decode_u8(bytes, p3) {
        Some(x) => x,
        None => {
            return None;
        },
    };
    let (f_minute, p5) = match decode_u8(bytes, p4) {
        Some(x) => x,
        None => {
            return None;
        },
    };
    let (f_second, p6) = match decode_u8(bytes, p5) {
        Some(x) => x,
        None => {
            return None;
        },
    };
    Some((FormattedTime { year: f_year, month: f_month, day: f_day, hour: f_hour, minute: f_minute, second: f_second }, p6))
}

/// Round trip for a calendar timestamp.
#[verifier::spinoff_prover]
#[verifier::rlimit(100)]
pub proof fn lemma_formatted_time_round_trip(bytes: Seq<u8>, pos: int, v: FormattedTime)
    requires
        0 <= pos,
        pos + spec_enc_formatted_time(v).len() <= bytes.len(),
        bytes.subrange(pos, pos + spec_enc_formatted_time(v).len()) == spec_enc_formatted_time(v),
    ensures
        spec_dec_formatted_time(bytes, pos) == Some((v, pos + spec_enc_formatted_time(v).len())),
{
    let e1 = spec_enc_u16(v.year);
    let e2 = spec_enc_u8(v.month);
    let e3 = spec_enc_u8(v.day);
    let e4 = spec_enc_u8(v.hour);
    let e5 = spec_enc_u8(v.minute);
    let e6 = spec_enc_u8(v.second);
    let r6 = e6;
    let r5 = e5 + r6;
    let r4 = e4 + r5;
    let r3 = e3 + r4;
    let r2 = e2 + r3;
    let r1 = e1 + r2;
    let l1 = e1;
    let l2 = l1 + e2;
    let l3 = l2 + e3;
    let l4 = l3 + e4;
    vstd::seq_lib::lemma_concat_associative(l4, e5, r6);
    vstd::seq_lib::lemma_concat_associative(l3, e4, r5);
    vstd::seq_lib::lemma_concat_associative(l2, e3, r4);
    vstd::seq_lib::lemma_concat_associative(l1, e2, r3);
    assert(spec_enc_formatted_time(v) == r1);
    lemma_concat_at(bytes, pos, e1, r2);
    lemma_u16_round_trip(bytes, pos, v.year);
    let q1: int = pos + e1.len();
    lemma_concat_at(bytes, q1, e2, r3);
    lemma_u8_round_trip(bytes, q1, v.month);
    let q2: int = q1 + e2.len();
    lemma_concat_at(bytes, q2, e3, r4);
    lemma_u8_round_trip(bytes, q2, v.day);
    let q3: int = q2 + e3.len();
    lemma_concat_at(bytes, q3, e4, r5);
    lemma_u8_round_trip(bytes, q3, v.hour);
    let q4: int = q3 + e4.len();
    lemma_concat_at(bytes, q4, e5, r6);
    lemma_u8_round_trip(bytes, q4, v.minute);
    let q5: int = q4 + e5.len();
    lemma_u8_round_trip(bytes, q5, v.second);
    assert(v == (FormattedTime { year: v.year, month: v.month, day: v.day, hour: v.hour, minute: v.minute, second: v.second }));
}

/// Encoding of a whole envelope: its fields in declaration order.
pub open spec fn spec_enc_message(v: Message) -> Seq<u8> {
    spec_enc_formatted_time(v.timestamp) + spec_enc_u8(v.node) + spec_enc_data(v.data)
}

/// Decoding of a whole envelope.
pub open spec fn spec_dec_message(bytes: Seq<u8>, pos: int) -> Option<(Message, int)> {
    match spec_dec_formatted_time(bytes, pos) {
        Some((f_timestamp, p1)) =>
        match spec_dec_u8(bytes, p1) {
            Some((f_node, p2)) =>
            match spec_dec_data(bytes, p2) {
                Some((f_data, p3)) =>
                Some((Message { timestamp: f_timestamp, node: f_node, data: f_data }, p3)),
                None => None,
            },
            None => None,
        },
        None => None,
    }
}

/// Appends a whole envelope.
pub fn encode_message(buf: &mut Vec<u8>, v: Message)
    ensures
        final(buf)@ == old(buf)@ + spec_enc_message(v),
{
    encode_formatted_time(buf, v.timestamp);
    encode_u8(buf, v.node);
    encode_data(buf, v.data);
    assert(buf@ =~= old(buf)@ + spec_enc_message(v));
}

/// Reads a whole envelope.
pub fn decode_message(bytes: &Vec<u8>, pos: usize) -> (r: Option<(Message, usize)>)
    ensures
        (match r {
            Some((v, end)) => pos < end <= bytes@.len() && spec_dec_message(bytes@, pos as int)
                == Some((v, end as int)),
            None => spec_dec_message(bytes@, pos as int) is None,
        }),
{
    let (f_timestamp, p1) = match decode_formatted_time(bytes, pos) {
        Some(x) => x,
        None => {
            return None;
        },
    };
    let (f_node, p2) = match decode_u8(bytes, p1) {
        Some(x) => x,
        None => {
            return None;
        },
    };
    let (f_data, p3) = match decode_data(bytes, p2) {
        Some(x) => x,
        None => {
            return None;
        },
    };
    Some((Message { timestamp: f_timestamp, node: f_node, data: f_data }, p3))
}

/// Round trip for a whole envelope.
#[verifier::spinoff_prover]
#[verifier::rlimit(100)]
pub proof fn lemma_message_round_trip(bytes: Seq<u8>, pos: int, v: Message)
    requires
        0 <= pos,
        pos + spec_enc_message(v).len() <= bytes.len(),
        bytes.subrange(pos, pos + spec_enc_message(v).len()) == spec_enc_message(v),
    ensures
        spec_dec_message(bytes, pos) == Some((v, pos + spec_enc_message(v).len())),
{
    let e1 = spec_enc_formatted_time(v.timestamp);
    let e2 = spec_enc_u8(v.node);
    let e3 = spec_enc_data(v.data);
    let r3 = e3;
    let r2 = e2 + r3;
    let r1 = e1 + r2;
    let l1 = e1;
    vstd::seq_lib::lemma_concat_associative(l1, e2, r3);
    assert(spec_enc_message(v) == r1);
    lemma_concat_at(bytes, pos, e1, r2);
    lemma_formatted_time_round_trip(bytes, pos, v.timestamp);
    let q1: int = pos + e1.len();
    lemma_concat_at(bytes, q1, e2, r3);
    lemma_u8_round_trip(bytes, q1, v.node);
    let q2: int = q1 + e2.len();
    lemma_data_round_trip(bytes, q2, v.data);
    assert(v == (Message { timestamp: v.timestamp, node: v.node, data: v.data }));
}

} // verus!
