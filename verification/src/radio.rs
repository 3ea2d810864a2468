//! Ground-link telemetry framing.
//!
//! Envelopes travel to the ground station inside a sequenced outer frame: a
//! magic byte, the payload length, an 8-bit wrapping sequence number, the
//! sender's system and component identifiers, a payload-kind byte, the
//! payload itself (at most [`MAX_PAYLOAD`] bytes — longer payloads are
//! truncated, an accepted lossy behaviour at this boundary, never an
//! error), and a 16-bit checksum.  Inbound frames are checked and
//! dispatched on their kind: data and command payloads decode to an
//! envelope; a heartbeat or an unrecognized kind yields a read error so
//! the caller's receive loop continues.

use vstd::prelude::*;

use crate::codec::{decode_message, lemma_message_round_trip, spec_dec_message, spec_enc_message};
use crate::error_manager::HydraError;
use crate::messages::Message;

verus! {

/// Longest payload an outer frame can carry.
pub const MAX_PAYLOAD: usize = 255;

/// First byte of every outer frame.
pub const FRAME_MAGIC: u8 = 0xfd;

/// System identifier of this flight computer on the ground link.
pub const SYSTEM_ID: u8 = 1;

/// Component identifier of this flight computer on the ground link.
pub const COMPONENT_ID: u8 = 1;

/// Payload-kind byte: a compact-encoded data envelope.
pub const FRAME_KIND_DATA: u8 = 0;

/// Payload-kind byte: raw command bytes, decoded like a data envelope.
pub const FRAME_KIND_COMMAND: u8 = 1;

/// Payload-kind byte: a heartbeat, carrying nothing.
pub const FRAME_KIND_HEARTBEAT: u8 = 2;

/// One step of the frame checksum (the 16-bit cyclic code used by the
/// ground-link protocol), folding one byte into the running value.
pub open spec fn spec_crc16_step(crc: u16, b: u8) -> u16 {
    let tmp0 = (crc ^ (b as u16)) & 0xff;
    let tmp = tmp0 ^ ((tmp0 << 4) & 0xff);
    ((crc >> 8) ^ (tmp << 8) ^ (tmp << 3) ^ (tmp >> 4)) as u16
}

/// Checksum of the first `n` bytes of `data`, from the standard seed.
pub open spec fn spec_crc16_upto(data: Seq<u8>, n: int) -> u16
    decreases n,
{
    if n <= 0 {
        0xffff
    } else {
        spec_crc16_step(spec_crc16_upto(data, n - 1), data[n - 1])
    }
}

/// Checksum of a whole byte sequence.
pub open spec fn spec_crc16(data: Seq<u8>) -> u16 {
    spec_crc16_upto(data, data.len() as int)
}

/// A payload cut down to what a frame can carry.
pub open spec fn spec_truncated(payload: Seq<u8>) -> Seq<u8> {
    if payload.len() <= MAX_PAYLOAD {
        payload
    } else {
        payload.subrange(0, MAX_PAYLOAD as int)
    }
}

/// The bytes of one outer frame around an already-truncated payload.
pub open spec fn spec_frame(kind: u8, seqn: u8, payload: Seq<u8>) -> Seq<u8> {
    let body = seq![payload.len() as u8, seqn, SYSTEM_ID, COMPONENT_ID, kind] + payload;
    let crc = spec_crc16(body);
    seq![FRAME_MAGIC] + body + seq![(crc & 0xff) as u8, ((crc >> 8) & 0xff) as u8]
}

/// What parsing a received byte string yields: the decoded envelope of a
/// data or command frame, or the error that makes the receive loop go on.
pub open spec fn spec_parse_frame(bytes: Seq<u8>) -> Result<Message, HydraError> {
    if bytes.len() < 8 || bytes[0] != FRAME_MAGIC || bytes.len() != 8 + bytes[1] as int {
        Err(HydraError::Transport)
    } else {
        let n = bytes[1] as int;
        let crc = spec_crc16(bytes.subrange(1, 6 + n));
        if bytes[6 + n] != (crc & 0xff) as u8 || bytes[7 + n] != ((crc >> 8) & 0xff) as u8 {
            Err(HydraError::Transport)
        } else if bytes[5] == FRAME_KIND_DATA || bytes[5] == FRAME_KIND_COMMAND {
            match spec_dec_message(bytes.subrange(6, 6 + n), 0) {
                Some((m, _)) => Ok(m),
                None => Err(HydraError::Decode),
            }
        } else {
            Err(HydraError::Decode)
        }
    }
}

/// Folds one byte into the running frame checksum.
fn crc16_step(crc: u16, b: u8) -> (r: u16)
    ensures
        r == spec_crc16_step(crc, b),
{
    let tmp0 = (crc ^ (b as u16)) & 0xff;
    let tmp = tmp0 ^ ((tmp0 << 4u16) & 0xff);
    (crc >> 8u16) ^ (tmp << 8u16) ^ (tmp << 3u16) ^ (tmp >> 4u16)
}

/// Checksum of `bytes[start..end]`.
fn crc16_range(bytes: &Vec<u8>, start: usize, end: usize) -> (r: u16)
    requires
        start <= end <= bytes@.len(),
    ensures
        r == spec_crc16(bytes@.subrange(start as int, end as int)),
{
    let ghost data = bytes@.subrange(start as int, end as int);
    let mut crc: u16 = 0xffff;
    let mut i: usize = start;
    while i < end
        invariant
            start <= i <= end <= bytes@.len(),
            data == bytes@.subrange(start as int, end as int),
            crc == spec_crc16_upto(data, i - start),
        decreases end - i,
    {
        assert(data[i - start] == bytes@[i as int]);
        crc = crc16_step(crc, bytes[i]);
        i = i + 1;
    }
    crc
}

/// Ground-link manager: owns the outbound sequence counter and the framing
/// rules; the byte transport around it stays outside the library.
pub struct RadioManager {
    pub mav_sequence: u8,
}

impl RadioManager {
    /// A fresh manager whose next frame will carry sequence number one.
    pub fn new() -> (r: RadioManager)
        ensures
            r.mav_sequence == 0,
    {
        RadioManager { mav_sequence: 0 }
    }

    /// Advances the wrapping sequence counter and reports the new value.
    pub fn increment_mav_sequence(&mut self) -> (r: u8)
        ensures
            final(self).mav_sequence == ((old(self).mav_sequence + 1) % 256),
            r == final(self).mav_sequence,
    {
        self.mav_sequence = self.mav_sequence.wrapping_add(1);
        self.mav_sequence
    }

    /// Builds the outer frame for one outbound payload: advances the
    /// sequence number, truncates the payload to what a frame can carry,
    /// and appends the checksum.  Truncation is deliberate — an oversized
    /// payload is never an error at this layer.
    pub fn send_message(&mut self, payload: &Vec<u8>) -> (frame: Vec<u8>)
        ensures
            final(self).mav_sequence == ((old(self).mav_sequence + 1) % 256),
            frame@ == spec_frame(
                FRAME_KIND_DATA,
                final(self).mav_sequence,
                spec_truncated(payload@),
            ),
    {
        let seqn = self.increment_mav_sequence();
        let len: usize = if payload.len() < MAX_PAYLOAD {
            payload.len()
        } else {
            MAX_PAYLOAD
        };
        let mut body: Vec<u8> = Vec::new();
        body.push(len as u8);
        body.push(seqn);
        body.push(SYSTEM_ID);
        body.push(COMPONENT_ID);
        body.push(FRAME_KIND_DATA);
        let mut i: usize = 0;
        while i < len
            invariant
                i <= len,
                len <= payload@.len(),
                len <= MAX_PAYLOAD,
                body@ == seq![
                    len as u8,
                    seqn,
                    SYSTEM_ID,
                    COMPONENT_ID,
                    FRAME_KIND_DATA,
                ] + payload@.subrange(0, i as int),
            decreases len - i,
        {
            body.push(payload[i]);
            assert(payload@.subrange(0, i + 1) =~= payload@.subrange(0, i as int) + seq![
                payload@[i as int],
            ]);
            assert(body@ =~= seq![len as u8, seqn, SYSTEM_ID, COMPONENT_ID, FRAME_KIND_DATA]
                + payload@.subrange(0, i + 1));
            i = i + 1;
        }
        assert(payload@.subrange(0, len as int) =~= spec_truncated(payload@));
        let crc = crc16_range(&body, 0, body.len());
        assert(body@.subrange(0, body@.len() as int) =~= body@);
        let mut frame: Vec<u8> = Vec::new();
        frame.push(FRAME_MAGIC);
        let mut j: usize = 0;
        let body_len = body.len();
        while j < body_len
            invariant
                j <= body_len,
                body_len == body@.len(),
                frame@ == seq![FRAME_MAGIC] + body@.subrange(0, j as int),
            decreases body_len - j,
        {
            frame.push(body[j]);
            assert(body@.subrange(0, j + 1) =~= body@.subrange(0, j as int) + seq![body@[j as int]]);
            assert(frame@ =~= seq![FRAME_MAGIC] + body@.subrange(0, j + 1));
            j = j + 1;
        }
        assert(body@.subrange(0, body_len as int) =~= body@);
        frame.push((crc & 0xff) as u8);
        frame.push(((crc >> 8u16) & 0xff) as u8);
        assert(frame@ =~= spec_frame(FRAME_KIND_DATA, seqn, spec_truncated(payload@)));
        frame
    }

    /// Checks and parses one received frame: data and command payloads
    /// decode to an envelope; a corrupt frame, a heartbeat or an unknown
    /// kind yields the error that keeps the receive loop going.
    pub fn receive_message(&self, bytes: &Vec<u8>) -> (r: Result<Message, HydraError>)
        ensures
            r == spec_parse_frame(bytes@),
    {
        if bytes.len() < 8 {
            return Err(HydraError::Transport);
        }
        if bytes[0] != FRAME_MAGIC {
            return Err(HydraError::Transport);
        }
        let n = bytes[1] as usize;
        if bytes.len() != 8 + n {
            return Err(HydraError::Transport);
        }
        let crc = crc16_range(bytes, 1, 6 + n);
        if bytes[6 + n] != (crc & 0xff) as u8 || bytes[7 + n] != ((crc >> 8u16) & 0xff) as u8 {
            return Err(HydraError::Transport);
        }
        let kind = bytes[5];
        if kind == FRAME_KIND_DATA || kind == FRAME_KIND_COMMAND {
            let mut payload: Vec<u8> = Vec::new();
            let mut i: usize = 0;
            while i < n
                invariant
                    i <= n <= 255,
                    6 + n <= bytes@.len(),
                    payload@ == bytes@.subrange(6, 6 + i as int),
                decreases n - i,
            {
                payload.push(bytes[6 + i]);
                assert(payload@ =~= bytes@.subrange(6, 6 + (i + 1) as int));
                i = i + 1;
            }
            match decode_message(&payload, 0) {
                Some((m, _)) => Ok(m),
                None => Err(HydraError::Decode),
            }
        } else {
            Err(HydraError::Decode)
        }
    }
}

/// Ground-link round trip: a data or command frame built around the
/// encoding of an envelope, with any sequence number, parses back to
/// exactly that envelope.
#[verifier::spinoff_prover]
#[verifier::rlimit(100)]
pub proof fn lemma_radio_frame_round_trip(m: Message, seqn: u8, kind: u8)
    requires
        spec_enc_message(m).len() <= MAX_PAYLOAD,
        kind == FRAME_KIND_DATA || kind == FRAME_KIND_COMMAND,
    ensures
        spec_parse_frame(spec_frame(kind, seqn, spec_enc_message(m))) == Ok::<
            Message,
            HydraError,
        >(m),
{
    let p = spec_enc_message(m);
    let n = p.len() as int;
    let body = seq![n as u8, seqn, SYSTEM_ID, COMPONENT_ID, kind] + p;
    let crc = spec_crc16(body);
    let frame = spec_frame(kind, seqn, p);
    assert(frame =~= seq![FRAME_MAGIC] + body + seq![(crc & 0xff) as u8, ((crc >> 8) & 0xff) as u8]);
    assert(frame.len() == 8 + n);
    assert(frame[0] == FRAME_MAGIC);
    assert(frame[1] == n as u8);
    assert(frame[5] == kind);
    assert(frame[6 + n] == (crc & 0xff) as u8);
    assert(frame[7 + n] == ((crc >> 8) & 0xff) as u8);
    assert(frame.subrange(1, 6 + n) =~= body);
    assert(frame.subrange(6, 6 + n) =~= p);
    assert(p.subrange(0, n) =~= p);
    lemma_message_round_trip(p, 0, m);
    assert(spec_dec_message(frame.subrange(6, 6 + n), 0) == Some((m, n)));
}

/// Truncation law: the payload a frame carries is never longer than
/// [`MAX_PAYLOAD`]; an oversized payload is cut to exactly that length and
/// keeps its leading bytes, and a fitting payload travels whole.
pub proof fn lemma_send_truncates(payload: Seq<u8>)
    ensures
        spec_truncated(payload).len() <= MAX_PAYLOAD,
        payload.len() <= MAX_PAYLOAD ==> spec_truncated(payload) == payload,
        payload.len() > MAX_PAYLOAD ==> spec_truncated(payload) == payload.subrange(
            0,
            MAX_PAYLOAD as int,
        ),
{
}

} // verus!
