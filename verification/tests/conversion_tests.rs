//! Tests for the validity-gated conversions: a field is populated only when
//! the source's status flags assert it, never copied through unchecked.

use phoenix::conversions::{
    SbgLogAirData, SbgLogEkfNavData, SbgLogEkfQuatData, SbgLogGpsPos, SbgLogGpsVel,
    SbgLogImuData, SbgLogUtcData,
};
use phoenix::messages::{Air, EkfNav, EkfQuat, GpsPos, GpsVel, Imu, Quat, UtcTime, Vec3, Vec3Wide};

fn imu_log(status: u16) -> SbgLogImuData {
    SbgLogImuData {
        time_stamp: 77,
        status,
        accelerometers: Vec3 { x: 0x3f800000, y: 0, z: 0 },
        gyroscopes: Vec3 { x: 0, y: 0x3f800000, z: 0 },
        temperature: 0x41c80000,
        delta_velocity: Vec3 { x: 1, y: 2, z: 3 },
        delta_angle: Vec3 { x: 4, y: 5, z: 6 },
    }
}

#[test]
fn imu_fields_follow_their_flags() {
    // Both in-range flags set: everything present.
    let full = Imu::from(imu_log(0x30));
    assert_eq!(full.accelerometers, Some(Vec3 { x: 0x3f800000, y: 0, z: 0 }));
    assert_eq!(full.gyroscopes, Some(Vec3 { x: 0, y: 0x3f800000, z: 0 }));
    assert_eq!(full.delta_velocity, Some(Vec3 { x: 1, y: 2, z: 3 }));
    assert_eq!(full.delta_angle, Some(Vec3 { x: 4, y: 5, z: 6 }));
    // The device defines no temperature flag; the value is kept.
    assert_eq!(full.temperature, Some(0x41c80000));
    assert_eq!(full.time_stamp, 77);

    // Only the accelerometers in range: the gyroscope fields are absent.
    let accel_only = Imu::from(imu_log(0x10));
    assert_eq!(accel_only.accelerometers, Some(Vec3 { x: 0x3f800000, y: 0, z: 0 }));
    assert_eq!(accel_only.gyroscopes, None);
    assert_eq!(accel_only.delta_velocity, Some(Vec3 { x: 1, y: 2, z: 3 }));
    assert_eq!(accel_only.delta_angle, None);
}

#[test]
fn unknown_status_bit_invalidates_the_whole_imu_record() {
    // An undefined bit set in the status word: nothing gated is populated,
    // even though the in-range bits are also set.
    let poisoned = Imu::from(imu_log(0x30 | 0x4000));
    assert_eq!(poisoned.accelerometers, None);
    assert_eq!(poisoned.gyroscopes, None);
    assert_eq!(poisoned.delta_velocity, None);
    assert_eq!(poisoned.delta_angle, None);
}

#[test]
fn air_fields_follow_their_flags() {
    let log = SbgLogAirData {
        time_stamp: 5,
        status: 0x02 | 0x20,
        pressure_abs: 0x447a0000,
        altitude: 0x43480000,
        pressure_diff: 0x3f000000,
        true_airspeed: 0x40a00000,
        air_temperature: 0x41a00000,
    };
    let air = Air::from(log);
    assert_eq!(air.pressure_abs, Some(0x447a0000));
    assert_eq!(air.air_temperature, Some(0x41a00000));
    // Flags not asserted: absent, never a copied raw value.
    assert_eq!(air.altitude, None);
    assert_eq!(air.pressure_diff, None);
    assert_eq!(air.true_airspeed, None);

    let poisoned = Air::from(SbgLogAirData { status: 0x40, ..log });
    assert_eq!(poisoned.pressure_abs, None);
    assert_eq!(poisoned.altitude, None);
}

#[test]
fn gps_position_requires_computed_solution() {
    let log = SbgLogGpsPos {
        time_stamp: 9,
        status: 0,
        latitude: 0x4047800000000000,
        longitude: 0xc052800000000000,
        altitude: 0x4087600000000000,
        undulation: 0x41b80000,
        time_of_week: 421000,
        latitude_accuracy: 1,
        longitude_accuracy: 2,
        altitude_accuracy: 3,
        num_sv_used: 11,
        base_station_id: 512,
        differential_age: 30,
    };
    let good = GpsPos::from(log);
    assert_eq!(good.latitude, Some(0x4047800000000000));
    assert_eq!(good.num_sv_used, Some(11));
    assert_eq!(good.status, 0);

    for bad_status in [1u32, 2, 3, 17] {
        let bad = GpsPos::from(SbgLogGpsPos { status: bad_status, ..log });
        assert_eq!(bad.latitude, None);
        assert_eq!(bad.longitude, None);
        assert_eq!(bad.altitude, None);
        assert_eq!(bad.num_sv_used, None);
        assert_eq!(bad.base_station_id, None);
        // The raw status itself is kept for diagnosis.
        assert_eq!(bad.status, bad_status);
    }
}

#[test]
fn gps_velocity_requires_computed_solution() {
    let log = SbgLogGpsVel {
        time_stamp: 10,
        status: 0,
        time_of_week: 5,
        velocity: Vec3 { x: 1, y: 2, z: 3 },
        velocity_acc: Vec3 { x: 4, y: 5, z: 6 },
        course: 7,
        course_acc: 8,
    };
    assert_eq!(GpsVel::from(log).velocity, Some(Vec3 { x: 1, y: 2, z: 3 }));
    let bad = GpsVel::from(SbgLogGpsVel { status: 2, ..log });
    assert_eq!(bad.velocity, None);
    assert_eq!(bad.course, None);
}

#[test]
fn utc_time_accepts_valid_and_no_leap_second() {
    let log = SbgLogUtcData {
        time_stamp: 3,
        status: 2 << 6, // fully valid
        year: 2024,
        month: 6,
        day: 1,
        hour: 2,
        minute: 3,
        second: 4,
        nano_second: 5,
        gps_time_of_week: 6,
    };
    assert_eq!(UtcTime::from(log).year, Some(2024));
    let no_leap = UtcTime::from(SbgLogUtcData { status: 1 << 6, ..log });
    assert_eq!(no_leap.month, Some(6));
    let invalid = UtcTime::from(SbgLogUtcData { status: 0, ..log });
    assert_eq!(invalid.year, None);
    assert_eq!(invalid.nano_second, None);
    let undefined = UtcTime::from(SbgLogUtcData { status: 9 << 6, ..log });
    assert_eq!(undefined.year, None);
}

#[test]
fn filter_records_follow_validity_flags() {
    let nav_log = SbgLogEkfNavData {
        time_stamp: 1,
        status: 0x40 | 0x10, // velocity and attitude valid, position not
        velocity: Vec3 { x: 1, y: 2, z: 3 },
        velocity_std_dev: Vec3 { x: 4, y: 5, z: 6 },
        position: Vec3Wide { x: 7, y: 8, z: 9 },
        position_std_dev: Vec3 { x: 10, y: 11, z: 12 },
        undulation: 13,
    };
    let nav = EkfNav::from(nav_log);
    assert_eq!(nav.velocity, Some(Vec3 { x: 1, y: 2, z: 3 }));
    assert_eq!(nav.velocity_std_dev, Some(Vec3 { x: 4, y: 5, z: 6 }));
    assert_eq!(nav.position, None);
    assert_eq!(nav.position_std_dev, None);
    assert_eq!(nav.undulation, Some(13));

    let quat_log = SbgLogEkfQuatData {
        time_stamp: 2,
        quaternion: Quat { w: 0x3f800000, x: 0, y: 0, z: 0 },
        euler_std_dev: Vec3 { x: 1, y: 2, z: 3 },
        status: 0x20, // heading valid
    };
    let quat = EkfQuat::from(quat_log);
    assert_eq!(quat.quaternion, Some(Quat { w: 0x3f800000, x: 0, y: 0, z: 0 }));
    let stale = EkfQuat::from(SbgLogEkfQuatData { status: 0x40, ..quat_log });
    assert_eq!(stale.quaternion, None);
    assert_eq!(stale.euler_std_dev, None);
    // The solution-mode field alone neither validates nor poisons.
    let mode_only = EkfQuat::from(SbgLogEkfQuatData { status: 0x04, ..quat_log });
    assert_eq!(mode_only.quaternion, None);
}
