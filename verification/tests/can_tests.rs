//! Tests for the CAN channel: frame size enforcement and the receive loop's
//! fault isolation.

use phoenix::can::{CanManager, CAN_MAX_PAYLOAD};
use phoenix::codec::encode_message;
use phoenix::data_manager::DataManager;
use phoenix::error_manager::HydraError;
use phoenix::messages::{
    Command, CommandData, Data, FormattedTime, GpsPos, Message, RadioRate, RadioRateChange,
    Sensor, SensorData, State, StateData, COM_ID,
};

fn stamp() -> FormattedTime {
    FormattedTime { year: 2024, month: 2, day: 3, hour: 4, minute: 5, second: 6 }
}

fn rate_command(rate: RadioRate) -> Message {
    Message::new(
        stamp(),
        COM_ID,
        Data::Command(Command::new(CommandData::RadioRateChange(RadioRateChange { rate }))),
    )
}

fn big_message() -> Message {
    // A fully populated position fix encodes to more than one CAN frame.
    Message::new(
        stamp(),
        COM_ID,
        Data::Sensor(Sensor::new(SensorData::GpsPos(GpsPos {
            time_stamp: u32::MAX,
            status: u32::MAX,
            latitude: Some(u64::MAX),
            longitude: Some(u64::MAX),
            altitude: Some(u64::MAX),
            undulation: Some(u32::MAX),
            time_of_week: Some(u32::MAX),
            latitude_accuracy: Some(u32::MAX),
            longitude_accuracy: Some(u32::MAX),
            altitude_accuracy: Some(u32::MAX),
            num_sv_used: Some(u8::MAX),
            base_station_id: Some(u16::MAX),
            differential_age: Some(u16::MAX),
        }))),
    )
}

#[test]
fn send_builds_frame_under_fixed_id() {
    let can = CanManager::new();
    let msg = Message::new(stamp(), COM_ID, Data::State(State::new(StateData::Abort)));
    let mut expect: Vec<u8> = Vec::new();
    encode_message(&mut expect, msg.clone());
    let frame = can.send_message(msg).expect("a state envelope fits one frame");
    assert_eq!(frame.id, COM_ID as u16);
    assert_eq!(frame.len as usize, expect.len());
    assert_eq!(frame.payload, expect);
    assert!(frame.payload.len() <= CAN_MAX_PAYLOAD);
}

#[test]
fn oversized_envelope_is_encode_error() {
    let can = CanManager::new();
    match can.send_message(big_message()) {
        Err(HydraError::Encode) => (),
        other => panic!("expected an encode error, got {:?}", other.map(|f| f.payload)),
    }
}

#[test]
fn receive_loop_applies_commands_and_counts_drops() {
    let mut can = CanManager::new();
    let mut dm = DataManager::new();
    let mut good: Vec<u8> = Vec::new();
    encode_message(&mut good, rate_command(RadioRate::Fast));
    // Decoding ignores the zero padding a fixed-size receive buffer adds.
    let mut padded = good.clone();
    padded.resize(64, 0);
    let frames: Vec<Vec<u8>> = vec![
        vec![0xff, 0xff, 0xff],  // malformed: dropped, counted, loop goes on
        padded,
        Vec::new(),              // malformed as well
    ];
    can.process_data(&frames, &mut dm).unwrap();
    assert_eq!(can.dropped_frames, 2);
    assert_eq!(dm.get_logging_rate(), RadioRate::Fast);
}

#[test]
fn receive_loop_applies_latest_command_last() {
    let mut can = CanManager::new();
    let mut dm = DataManager::new();
    let mut first: Vec<u8> = Vec::new();
    encode_message(&mut first, rate_command(RadioRate::Fast));
    let mut second: Vec<u8> = Vec::new();
    encode_message(&mut second, rate_command(RadioRate::Slow));
    can.process_data(&vec![first, second], &mut dm).unwrap();
    assert_eq!(can.dropped_frames, 0);
    assert_eq!(dm.get_logging_rate(), RadioRate::Slow);
}
