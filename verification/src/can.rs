//! Dual-channel CAN message bus: framing and fault isolation.
//!
//! Each logical channel (low-rate command, high-rate data) wraps one
//! CAN-FD controller.  Outbound envelopes are serialized with the compact
//! codec into a frame of at most [`CAN_MAX_PAYLOAD`] bytes under a
//! channel-fixed standard identifier; an envelope that does not fit is an
//! encode error, surfaced to the caller.  Inbound frames are decoded one
//! by one; a frame that does not decode is dropped and counted, and never
//! stops the poll loop.  The controller itself (configuration, FIFO
//! polling, transmission) stays outside the library.

use vstd::prelude::*;

use crate::codec::{decode_message, encode_message, spec_dec_message, spec_enc_message};
use crate::data_manager::DataManager;
use crate::error_manager::HydraError;
use crate::messages::{Message, COM_ID};

verus! {

/// Longest payload a CAN-FD frame can carry.
pub const CAN_MAX_PAYLOAD: usize = 64;

/// One outbound frame: the channel identifier, the encoded length the
/// header advertises, and the payload itself.
pub struct CanTxFrame {
    pub id: u16,
    pub len: u8,
    pub payload: Vec<u8>,
}

/// The store after handling a prefix of `n` received frames: each frame
/// that decodes is handed to the command handler in arrival order; the
/// rest change nothing.
pub open spec fn spec_process(dm: DataManager, frames: Seq<Vec<u8>>, n: int) -> DataManager
    decreases n,
{
    if n <= 0 {
        dm
    } else {
        let prev = spec_process(dm, frames, n - 1);
        match spec_dec_message(frames[n - 1]@, 0) {
            Some((m, end)) => prev.spec_handle_command(m),
            None => prev,
        }
    }
}

/// How many of the first `n` received frames do not decode as envelopes.
pub open spec fn spec_drops(frames: Seq<Vec<u8>>, n: int) -> int
    decreases n,
{
    if n <= 0 {
        0
    } else {
        spec_drops(frames, n - 1) + (match spec_dec_message(frames[n - 1]@, 0) {
            Some(_) => 0int,
            None => 1int,
        })
    }
}

/// Bus round trip: an encoded envelope read back out of a fixed-size
/// receive buffer decodes to exactly the envelope that was sent, whatever
/// padding follows it in the buffer.
pub proof fn lemma_can_frame_round_trip(m: Message, padding: Seq<u8>)
    ensures
        spec_dec_message(spec_enc_message(m) + padding, 0) == Some(
            (m, spec_enc_message(m).len() as int),
        ),
{
    let enc = spec_enc_message(m);
    let bytes = enc + padding;
    assert(bytes.subrange(0, enc.len() as int) =~= enc);
    crate::codec::lemma_message_round_trip(bytes, 0, m);
}

/// One logical CAN channel: the framing rules plus the count of malformed
/// frames dropped so far (counted, not retried).
pub struct CanManager {
    pub dropped_frames: u32,
}

impl CanManager {
    /// A fresh channel with nothing dropped yet.
    pub fn new() -> (r: CanManager)
        ensures
            r.dropped_frames == 0,
    {
        CanManager { dropped_frames: 0 }
    }

    /// Serializes one envelope into a CAN-FD frame under this node's fixed
    /// identifier.  Succeeds exactly when the encoding fits a frame; an
    /// envelope too large for the bus is an encode error.
    pub fn send_message(&self, m: Message) -> (r: Result<CanTxFrame, HydraError>)
        ensures
            (match r {
                Ok(frame) => spec_enc_message(m).len() <= CAN_MAX_PAYLOAD && frame.payload@
                    == spec_enc_message(m) && frame.id == COM_ID as u16 && frame.len
                    == spec_enc_message(m).len(),
                Err(e) => e == HydraError::Encode && spec_enc_message(m).len() > CAN_MAX_PAYLOAD,
            }),
    {
        let mut payload: Vec<u8> = Vec::new();
        encode_message(&mut payload, m);
        if payload.len() > CAN_MAX_PAYLOAD {
            return Err(HydraError::Encode);
        }
        let len = payload.len() as u8;
        Ok(CanTxFrame { id: COM_ID as u16, len, payload })
    }

    /// Polls one batch of received frames into the store: every frame that
    /// decodes as an envelope is handed to the command handler, in order;
    /// a malformed frame is dropped and counted, and the loop goes on.
    pub fn process_data(&mut self, frames: &Vec<Vec<u8>>, data_manager: &mut DataManager) -> (r:
        Result<(), HydraError>)
        ensures
            r is Ok,
            *final(data_manager) == spec_process(
                *old(data_manager),
                frames@,
                frames@.len() as int,
            ),
            final(self).dropped_frames as int == vstd::math::min(
                old(self).dropped_frames as int + spec_drops(frames@, frames@.len() as int),
                u32::MAX as int,
            ),
    {
        let ghost dm0 = *data_manager;
        let ghost d0 = self.dropped_frames as int;
        let n = frames.len();
        let mut i: usize = 0;
        while i < n
            invariant
                i <= n,
                n == frames@.len(),
                *data_manager == spec_process(dm0, frames@, i as int),
                self.dropped_frames as int == vstd::math::min(
                    d0 + spec_drops(frames@, i as int),
                    u32::MAX as int,
                ),
            decreases n - i,
        {
            match decode_message(&frames[i], 0) {
                Some((m, _end)) => {
                    let _ = data_manager.handle_command(m);
                },
                None => {
                    if self.dropped_frames < u32::MAX {
                        self.dropped_frames = self.dropped_frames + 1;
                    }
                },
            }
            i = i + 1;
        }
        Ok(())
    }
}

} // verus!
