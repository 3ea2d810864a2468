//! Tests for the ground-link framing: sequence numbering, truncation, and
//! the parse of inbound frames.

use phoenix::codec::encode_message;
use phoenix::error_manager::HydraError;
use phoenix::messages::{Data, FormattedTime, Message, State, StateData};
use phoenix::radio::{RadioManager, FRAME_KIND_COMMAND, FRAME_KIND_HEARTBEAT, FRAME_MAGIC};

fn stamp() -> FormattedTime {
    FormattedTime { year: 2024, month: 6, day: 7, hour: 8, minute: 9, second: 10 }
}

fn state_message() -> Message {
    Message::new(stamp(), 4, Data::State(State::new(StateData::WaitForTakeoff)))
}

#[test]
fn sequence_wraps_at_byte_range() {
    let mut radio = RadioManager::new();
    assert_eq!(radio.mav_sequence, 0);
    assert_eq!(radio.increment_mav_sequence(), 1);
    radio.mav_sequence = 255;
    assert_eq!(radio.increment_mav_sequence(), 0);
}

#[test]
fn frame_layout_and_round_trip() {
    let mut radio = RadioManager::new();
    let mut payload: Vec<u8> = Vec::new();
    encode_message(&mut payload, state_message());
    let frame = radio.send_message(&payload);
    assert_eq!(frame[0], FRAME_MAGIC);
    assert_eq!(frame[1] as usize, payload.len());
    assert_eq!(frame[2], 1); // first sequence number
    assert_eq!(frame[3], 1); // system id
    assert_eq!(frame[4], 1); // component id
    assert_eq!(frame[5], 0); // data kind
    assert_eq!(&frame[6..6 + payload.len()], &payload[..]);
    assert_eq!(frame.len(), payload.len() + 8);
    // The receiver recovers exactly the sent envelope.
    assert_eq!(radio.receive_message(&frame), Ok(state_message()));
}

#[test]
fn oversized_payload_truncates_instead_of_erroring() {
    let mut radio = RadioManager::new();
    let payload: Vec<u8> = (0..400u32).map(|i| (i % 251) as u8).collect();
    let frame = radio.send_message(&payload);
    // Truncated to exactly the frame maximum, leading bytes kept.
    assert_eq!(frame[1], 255);
    assert_eq!(frame.len(), 255 + 8);
    assert_eq!(&frame[6..6 + 255], &payload[..255]);
}

#[test]
fn corrupt_frames_are_read_errors() {
    let mut radio = RadioManager::new();
    let mut payload: Vec<u8> = Vec::new();
    encode_message(&mut payload, state_message());
    let good = radio.send_message(&payload);

    // Too short.
    assert_eq!(radio.receive_message(&good[..7].to_vec()), Err(HydraError::Transport));
    // Wrong magic.
    let mut bad_magic = good.clone();
    bad_magic[0] = 0x55;
    assert_eq!(radio.receive_message(&bad_magic), Err(HydraError::Transport));
    // Wrong declared length.
    let mut bad_len = good.clone();
    bad_len[1] = bad_len[1].wrapping_add(1);
    assert_eq!(radio.receive_message(&bad_len), Err(HydraError::Transport));
    // Flipped checksum.
    let mut bad_crc = good.clone();
    let last = bad_crc.len() - 1;
    bad_crc[last] ^= 0xff;
    assert_eq!(radio.receive_message(&bad_crc), Err(HydraError::Transport));
    // Valid frame, garbage payload.
    let garbage = vec![0xfeu8; 10];
    let mut garbage_frame = RadioManager::new().send_message(&garbage);
    assert_eq!(radio.receive_message(&garbage_frame), Err(HydraError::Decode));
    // The error cases never disturb a following good frame.
    garbage_frame.clear();
    assert_eq!(radio.receive_message(&good), Ok(state_message()));
}

#[test]
fn command_frames_decode_like_data_frames() {
    let mut radio = RadioManager::new();
    let mut payload: Vec<u8> = Vec::new();
    encode_message(&mut payload, state_message());
    let mut frame = radio.send_message(&payload);
    // Rewrite the kind byte to "command" and repair the checksum by
    // rebuilding it the way the sender does.
    frame[5] = FRAME_KIND_COMMAND;
    let n = frame[1] as usize;
    let crc = crc16_reference(&frame[1..6 + n]);
    frame[6 + n] = (crc & 0xff) as u8;
    frame[7 + n] = (crc >> 8) as u8;
    assert_eq!(radio.receive_message(&frame), Ok(state_message()));
    // A heartbeat or unknown kind is a read error, not a crash.
    for kind in [FRAME_KIND_HEARTBEAT, 9] {
        frame[5] = kind;
        let crc = crc16_reference(&frame[1..6 + n]);
        frame[6 + n] = (crc & 0xff) as u8;
        frame[7 + n] = (crc >> 8) as u8;
        assert_eq!(radio.receive_message(&frame), Err(HydraError::Decode));
    }
}

/// Reference checksum (the 16-bit cyclic code the link uses), written
/// independently of the library.
fn crc16_reference(data: &[u8]) -> u16 {
    let mut crc: u16 = 0xffff;
    for &b in data {
        let tmp0 = (crc ^ (b as u16)) & 0xff;
        let tmp = tmp0 ^ ((tmp0 << 4) & 0xff);
        crc = (crc >> 8) ^ (tmp << 8) ^ (tmp << 3) ^ (tmp >> 4);
    }
    crc
}
