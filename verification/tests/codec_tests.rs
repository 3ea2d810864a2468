//! Tests for the compact binary codec: exact byte layouts for the
//! primitives and round trips for every payload kind.

use phoenix::codec::{decode_message, encode_message, decode_gps_pos, encode_gps_pos};
use phoenix::messages::{
    Air, Barometer, Command, CommandData, Data, EkfNav, EkfQuat, FormattedTime, GpsPos, GpsVel,
    Imu, Message, Quat, RadioRate, RadioRateChange, ResetReason, Sensor, SensorData, State,
    StateData, UtcTime, Vec3, Vec3Wide,
};
use phoenix::wire::{decode_varint_u32, encode_varint_u32, decode_w32, encode_w32};

fn stamp() -> FormattedTime {
    FormattedTime { year: 2024, month: 1, day: 2, hour: 3, minute: 4, second: 5 }
}

fn round_trip(msg: Message) {
    let mut buf: Vec<u8> = Vec::new();
    encode_message(&mut buf, msg.clone());
    let decoded = decode_message(&buf, 0).expect("an encoded envelope must decode");
    assert_eq!(decoded.0, msg);
    assert_eq!(decoded.1, buf.len());
    // Arbitrary trailing bytes change nothing.
    let mut padded = buf.clone();
    padded.extend_from_slice(&[0xaa, 0x55, 0x00]);
    let padded_decoded = decode_message(&padded, 0).expect("trailing bytes are ignored");
    assert_eq!(padded_decoded.0, msg);
    assert_eq!(padded_decoded.1, buf.len());
    // A truncated encoding never decodes.
    if buf.len() > 1 {
        let cut = buf[..buf.len() - 1].to_vec();
        assert!(decode_message(&cut, 0).is_none());
    }
}

#[test]
fn varint_exact_bytes() {
    for (value, expect) in [
        (0u32, vec![0u8]),
        (1, vec![1]),
        (127, vec![127]),
        (128, vec![0x80, 0x01]),
        (300, vec![0xac, 0x02]),
        (u32::MAX, vec![0xff, 0xff, 0xff, 0xff, 0x0f]),
    ] {
        let mut buf: Vec<u8> = Vec::new();
        encode_varint_u32(&mut buf, value);
        assert_eq!(buf, expect);
        assert_eq!(decode_varint_u32(&buf, 0), Some((value, buf.len())));
    }
    // A non-minimal continuation of zeros still folds to the value.
    assert_eq!(decode_varint_u32(&vec![0x80, 0x00], 0), Some((0, 2)));
    // An unterminated varint never decodes.
    assert_eq!(decode_varint_u32(&vec![0x80], 0), None);
    // A five-byte varint whose value leaves 32 bits is rejected.
    assert_eq!(decode_varint_u32(&vec![0xff, 0xff, 0xff, 0xff, 0x1f], 0), None);
}

#[test]
fn word_exact_bytes() {
    let mut buf: Vec<u8> = Vec::new();
    encode_w32(&mut buf, 0x11223344);
    assert_eq!(buf, vec![0x44, 0x33, 0x22, 0x11]);
    assert_eq!(decode_w32(&buf, 0), Some((0x11223344, 4)));
    assert_eq!(decode_w32(&vec![1, 2, 3], 0), None);
}

#[test]
fn gps_pos_round_trip_standalone() {
    let pos = GpsPos {
        time_stamp: 123456,
        status: 0,
        latitude: Some(0x4047800000000000),
        longitude: Some(0xc052800000000000),
        altitude: Some(0x4087600000000000),
        undulation: Some(0x41b80000),
        time_of_week: Some(421000),
        latitude_accuracy: Some(0x3f000000),
        longitude_accuracy: Some(0x3f000000),
        altitude_accuracy: Some(0x40000000),
        num_sv_used: Some(11),
        base_station_id: Some(512),
        differential_age: None,
    };
    let mut buf: Vec<u8> = Vec::new();
    encode_gps_pos(&mut buf, pos);
    assert_eq!(decode_gps_pos(&buf, 0), Some((pos, buf.len())));
}

#[test]
fn message_round_trip_every_sensor_kind() {
    let kinds = vec![
        SensorData::Air(Air {
            time_stamp: 1,
            status: 0x3f,
            pressure_abs: Some(0x447a0000),
            altitude: Some(0x43480000),
            pressure_diff: None,
            true_airspeed: Some(0),
            air_temperature: Some(0x41a00000),
        }),
        SensorData::Imu(Imu {
            time_stamp: 2,
            status: 0x30,
            accelerometers: Some(Vec3 { x: 0, y: 0x3f800000, z: 0 }),
            gyroscopes: Some(Vec3 { x: 0, y: 0, z: 0x3dcccccd }),
            temperature: Some(0x41c80000),
            delta_velocity: None,
            delta_angle: None,
        }),
        SensorData::EkfNav(EkfNav {
            time_stamp: 3,
            status: 0xf0,
            velocity: Some(Vec3 { x: 1, y: 2, z: 3 }),
            velocity_std_dev: None,
            position: Some(Vec3Wide { x: 10, y: 20, z: 30 }),
            position_std_dev: Some(Vec3 { x: 4, y: 5, z: 6 }),
            undulation: None,
        }),
        SensorData::EkfQuat(EkfQuat {
            time_stamp: 4,
            quaternion: Some(Quat { w: 0x3f800000, x: 0, y: 0, z: 0 }),
            euler_std_dev: None,
            status: 0x20,
        }),
        SensorData::GpsPos(GpsPos {
            time_stamp: 5,
            status: 0,
            latitude: Some(1),
            longitude: None,
            altitude: None,
            undulation: None,
            time_of_week: Some(7),
            latitude_accuracy: None,
            longitude_accuracy: None,
            altitude_accuracy: None,
            num_sv_used: None,
            base_station_id: None,
            differential_age: Some(9),
        }),
        SensorData::GpsVel(GpsVel {
            time_stamp: 6,
            status: 0,
            time_of_week: Some(8),
            velocity: Some(Vec3 { x: 7, y: 8, z: 9 }),
            velocity_acc: None,
            course: Some(0x42b40000),
            course_acc: None,
        }),
        SensorData::UtcTime(UtcTime {
            time_stamp: 7,
            status: 0x80,
            year: Some(2024),
            month: Some(12),
            day: Some(31),
            hour: Some(23),
            minute: Some(59),
            second: Some(58),
            nano_second: Some(999_999_999),
            gps_time_of_week: Some(123_456_789),
        }),
        SensorData::Barometer(Barometer {
            time_stamp: 8,
            temperature: Some(0x41a07ae1),
            pressure: Some(0x447a1eb8),
        }),
        SensorData::ResetReason(ResetReason::WindowWatchdogReset),
        SensorData::ResetReason(ResetReason::Unknown { rcc_rsr: 0xdeadbeef }),
    ];
    for kind in kinds {
        round_trip(Message::new(stamp(), 4, Data::Sensor(Sensor::new(kind))));
    }
}

#[test]
fn message_round_trip_states_and_commands() {
    for state in [
        StateData::Initializing,
        StateData::WaitForTakeoff,
        StateData::Ascent,
        StateData::Descent,
        StateData::TerminalDescent,
        StateData::WaitForRecovery,
        StateData::Abort,
    ] {
        round_trip(Message::new(stamp(), 4, Data::State(State::new(state))));
    }
    for command in [
        CommandData::RadioRateChange(RadioRateChange { rate: RadioRate::Fast }),
        CommandData::RadioRateChange(RadioRateChange { rate: RadioRate::Slow }),
        CommandData::DeployDrogue,
        CommandData::DeployMain,
        CommandData::PowerDown,
    ] {
        round_trip(Message::new(stamp(), 4, Data::Command(Command::new(command))));
    }
}

#[test]
fn decode_rejects_unknown_tags() {
    // A valid message whose payload tag is then corrupted must not decode.
    let msg = Message::new(stamp(), 4, Data::State(State::new(StateData::Ascent)));
    let mut buf: Vec<u8> = Vec::new();
    encode_message(&mut buf, msg);
    // The payload tag byte follows the timestamp (3 bytes: year varint of
    // 2024 is 2 bytes, then 5 single bytes) and the node byte.
    let tag_at = 2 + 5 + 1;
    let mut corrupt = buf.clone();
    corrupt[tag_at] = 77;
    assert!(decode_message(&corrupt, 0).is_none());
    assert_eq!(decode_message(&buf, 0).map(|d| d.1), Some(buf.len()));
}

#[test]
fn empty_input_never_decodes() {
    assert!(decode_message(&Vec::new(), 0).is_none());
}
