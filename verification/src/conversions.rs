//! Validity-gated conversion of raw inertial-navigation log records into
//! sensor samples.
//!
//! Each raw record arrives with a status word; a measurement field of the
//! resulting sample is populated only when the device's status asserts that
//! the value is trustworthy.  A stale or invalid reading becomes `None`,
//! never a copied zero or raw value — the conversion here is the one place
//! where that invariant is established.

use vstd::prelude::*;

use crate::messages::{Air, EkfNav, EkfQuat, GpsPos, GpsVel, Imu, Quat, UtcTime, Vec3, Vec3Wide};
use crate::sensor_status::{
    spec_ekf_flags, spec_gps_pos_status, spec_gps_vel_status, spec_known_flags_u16,
    spec_utc_status, GpsPositionStatus, GpsPositionStatusE, GpsVelStatus, GpsVelStatusE,
    UtcStatus, UtcTimeStatus, AIR_AIRSPEED_VALID, AIR_ALTITUDE_VALID, AIR_FLAGS_MASK,
    AIR_PRESSURE_ABS_VALID, AIR_PRESSURE_DIFF_VALID, AIR_TEMPERATURE_VALID, EKF_HEADING_VALID,
    EKF_POSITION_VALID, EKF_VELOCITY_VALID, IMU_ACCELS_IN_RANGE, IMU_FLAGS_MASK,
    IMU_GYROS_IN_RANGE,
};

verus! {

/// Raw GNSS position record, as the device logs it.  Floating-point
/// measurements are carried as bit patterns.
#[derive(Clone, Copy, PartialEq, Eq, Structural, Debug)]
pub struct SbgLogGpsPos {
    pub time_stamp: u32,
    pub status: u32,
    pub latitude: u64,
    pub longitude: u64,
    pub altitude: u64,
    pub undulation: u32,
    pub time_of_week: u32,
    pub latitude_accuracy: u32,
    pub longitude_accuracy: u32,
    pub altitude_accuracy: u32,
    pub num_sv_used: u8,
    pub base_station_id: u16,
    pub differential_age: u16,
}

/// Raw UTC time record.
#[derive(Clone, Copy, PartialEq, Eq, Structural, Debug)]
pub struct SbgLogUtcData {
    pub time_stamp: u32,
    pub status: u32,
    pub year: u16,
    pub month: u8,
    pub day: u8,
    pub hour: u8,
    pub minute: u8,
    pub second: u8,
    pub nano_second: u32,
    pub gps_time_of_week: u32,
}

/// Raw air-data record.
#[derive(Clone, Copy, PartialEq, Eq, Structural, Debug)]
pub struct SbgLogAirData {
    pub time_stamp: u32,
    pub status: u16,
    pub pressure_abs: u32,
    pub altitude: u32,
    pub pressure_diff: u32,
    pub true_airspeed: u32,
    pub air_temperature: u32,
}

/// Raw orientation-quaternion record.
#[derive(Clone, Copy, PartialEq, Eq, Structural, Debug)]
pub struct SbgLogEkfQuatData {
    pub time_stamp: u32,
    pub quaternion: Quat,
    pub euler_std_dev: Vec3,
    pub status: u32,
}

/// Raw navigation-solution record.
#[derive(Clone, Copy, PartialEq, Eq, Structural, Debug)]
pub struct SbgLogEkfNavData {
    pub time_stamp: u32,
    pub status: u32,
    pub velocity: Vec3,
    pub velocity_std_dev: Vec3,
    pub position: Vec3Wide,
    pub position_std_dev: Vec3,
    pub undulation: u32,
}

/// Raw inertial record.
#[derive(Clone, Copy, PartialEq, Eq, Structural, Debug)]
pub struct SbgLogImuData {
    pub time_stamp: u32,
    pub status: u16,
    pub accelerometers: Vec3,
    pub gyroscopes: Vec3,
    pub temperature: u32,
    pub delta_velocity: Vec3,
    pub delta_angle: Vec3,
}

/// Raw GNSS velocity record.
#[derive(Clone, Copy, PartialEq, Eq, Structural, Debug)]
pub struct SbgLogGpsVel {
    pub time_stamp: u32,
    pub status: u32,
    pub time_of_week: u32,
    pub velocity: Vec3,
    pub velocity_acc: Vec3,
    pub course: u32,
    pub course_acc: u32,
}

/// A value gated by a flags word: present exactly when the word is
/// trustworthy and contains the tested bits.
pub open spec fn spec_check<T>(flags: Option<u16>, test: u16, value: T) -> Option<T> {
    match flags {
        Some(f) => if f & test == test {
            Some(value)
        } else {
            None
        },
        None => None,
    }
}

/// Keeps `value` only when the flags word is trustworthy and contains the
/// tested bits.
pub fn check<T>(flags: &Option<u16>, test: u16, value: T) -> (r: Option<T>)
    ensures
        r == spec_check(*flags, test, value),
{
    match flags {
        Some(f) => if *f & test == test {
            Some(value)
        } else {
            None
        },
        None => None,
    }
}

/// A value gated by one validity decision.
pub open spec fn spec_gate<T>(valid: bool, value: T) -> Option<T> {
    if valid {
        Some(value)
    } else {
        None
    }
}

/// Keeps `value` only when `valid` holds.
pub fn gate<T>(valid: bool, value: T) -> (r: Option<T>)
    ensures
        r == spec_gate(valid, value),
{
    if valid {
        Some(value)
    } else {
        None
    }
}

/// A value gated by a 32-bit flags word, for the filter records.
pub open spec fn spec_check32<T>(flags: Option<u32>, test: u32, value: T) -> Option<T> {
    match flags {
        Some(f) => if f & test == test {
            Some(value)
        } else {
            None
        },
        None => None,
    }
}

/// Keeps `value` only when the 32-bit flags word is trustworthy and
/// contains the tested bits.
pub fn check32<T>(flags: &Option<u32>, test: u32, value: T) -> (r: Option<T>)
    ensures
        r == spec_check32(*flags, test, value),
{
    match flags {
        Some(f) => if *f & test == test {
            Some(value)
        } else {
            None
        },
        None => None,
    }
}

/// The position sample a raw position record converts to.
pub open spec fn spec_gps_pos_from(value: SbgLogGpsPos) -> GpsPos {
    let valid = spec_gps_pos_status(value.status) == Some(GpsPositionStatusE::SolComputed);
    GpsPos {
        time_stamp: value.time_stamp,
        status: value.status,
        latitude: spec_gate(valid, value.latitude),
        longitude: spec_gate(valid, value.longitude),
        altitude: spec_gate(valid, value.altitude),
        undulation: spec_gate(valid, value.undulation),
        time_of_week: spec_gate(valid, value.time_of_week),
        latitude_accuracy: spec_gate(valid, value.latitude_accuracy),
        longitude_accuracy: spec_gate(valid, value.longitude_accuracy),
        altitude_accuracy: spec_gate(valid, value.altitude_accuracy),
        num_sv_used: spec_gate(valid, value.num_sv_used),
        base_station_id: spec_gate(valid, value.base_station_id),
        differential_age: spec_gate(valid, value.differential_age),
    }
}

impl vstd::std_specs::convert::FromSpecImpl<SbgLogGpsPos> for GpsPos {
    open spec fn obeys_from_spec() -> bool {
        true
    }

    open spec fn from_spec(v: SbgLogGpsPos) -> GpsPos {
        spec_gps_pos_from(v)
    }
}

impl From<SbgLogGpsPos> for GpsPos {
    /// Converts a raw position record: every measurement is present
    /// exactly when the receiver computed a valid solution.
    fn from(value: SbgLogGpsPos) -> (r: GpsPos) {
        let status = GpsPositionStatus::new(value.status);
        let valid = matches!(status.get_status(), Some(GpsPositionStatusE::SolComputed));
        GpsPos {
            time_stamp: value.time_stamp,
            status: value.status,
            latitude: gate(valid, value.latitude),
            longitude: gate(valid, value.longitude),
            altitude: gate(valid, value.altitude),
            undulation: gate(valid, value.undulation),
            time_of_week: gate(valid, value.time_of_week),
            latitude_accuracy: gate(valid, value.latitude_accuracy),
            longitude_accuracy: gate(valid, value.longitude_accuracy),
            altitude_accuracy: gate(valid, value.altitude_accuracy),
            num_sv_used: gate(valid, value.num_sv_used),
            base_station_id: gate(valid, value.base_station_id),
            differential_age: gate(valid, value.differential_age),
        }
    }
}

/// The UTC sample a raw UTC record converts to.
pub open spec fn spec_utc_time_from(value: SbgLogUtcData) -> UtcTime {
    let valid = spec_utc_status(value.status) == Some(UtcStatus::Valid) || spec_utc_status(
        value.status,
    ) == Some(UtcStatus::NoLeapSec);
    UtcTime {
        time_stamp: value.time_stamp,
        status: value.status,
        year: spec_gate(valid, value.year),
        month: spec_gate(valid, value.month),
        day: spec_gate(valid, value.day),
        hour: spec_gate(valid, value.hour),
        minute: spec_gate(valid, value.minute),
        second: spec_gate(valid, value.second),
        nano_second: spec_gate(valid, value.nano_second),
        gps_time_of_week: spec_gate(valid, value.gps_time_of_week),
    }
}

impl vstd::std_specs::convert::FromSpecImpl<SbgLogUtcData> for UtcTime {
    open spec fn obeys_from_spec() -> bool {
        true
    }

    open spec fn from_spec(v: SbgLogUtcData) -> UtcTime {
        spec_utc_time_from(v)
    }
}

impl From<SbgLogUtcData> for UtcTime {
    /// Converts a raw UTC record: the calendar fields are present exactly
    /// when the receiver reports its UTC time as usable (fully valid, or
    /// valid but for the leap-second count).
    fn from(value: SbgLogUtcData) -> (r: UtcTime) {
        let status = UtcTimeStatus::new(value.status);
        let valid = matches!(
            status.get_utc_status(),
            Some(UtcStatus::Valid) | Some(UtcStatus::NoLeapSec)
        );
        UtcTime {
            time_stamp: value.time_stamp,
            status: value.status,
            year: gate(valid, value.year),
            month: gate(valid, value.month),
            day: gate(valid, value.day),
            hour: gate(valid, value.hour),
            minute: gate(valid, value.minute),
            second: gate(valid, value.second),
            nano_second: gate(valid, value.nano_second),
            gps_time_of_week: gate(valid, value.gps_time_of_week),
        }
    }
}

/// The air-data sample a raw air record converts to.
pub open spec fn spec_air_from(value: SbgLogAirData) -> Air {
    let flags = spec_known_flags_u16(value.status, AIR_FLAGS_MASK);
    Air {
        time_stamp: value.time_stamp,
        status: value.status,
        pressure_abs: spec_check(flags, AIR_PRESSURE_ABS_VALID, value.pressure_abs),
        altitude: spec_check(flags, AIR_ALTITUDE_VALID, value.altitude),
        pressure_diff: spec_check(flags, AIR_PRESSURE_DIFF_VALID, value.pressure_diff),
        true_airspeed: spec_check(flags, AIR_AIRSPEED_VALID, value.true_airspeed),
        air_temperature: spec_check(flags, AIR_TEMPERATURE_VALID, value.air_temperature),
    }
}

impl vstd::std_specs::convert::FromSpecImpl<SbgLogAirData> for Air {
    open spec fn obeys_from_spec() -> bool {
        true
    }

    open spec fn from_spec(v: SbgLogAirData) -> Air {
        spec_air_from(v)
    }
}

impl From<SbgLogAirData> for Air {
    /// Converts a raw air record: each measurement is present exactly when
    /// its own validity flag is set in a trustworthy flags word.
    fn from(value: SbgLogAirData) -> (r: Air) {
        let status = crate::sensor_status::AirStatus::new(value.status);
        let flags = status.get_flags();
        Air {
            time_stamp: value.time_stamp,
            status: value.status,
            pressure_abs: check(&flags, AIR_PRESSURE_ABS_VALID, value.pressure_abs),
            altitude: check(&flags, AIR_ALTITUDE_VALID, value.altitude),
            pressure_diff: check(&flags, AIR_PRESSURE_DIFF_VALID, value.pressure_diff),
            true_airspeed: check(&flags, AIR_AIRSPEED_VALID, value.true_airspeed),
            air_temperature: check(&flags, AIR_TEMPERATURE_VALID, value.air_temperature),
        }
    }
}

/// The orientation sample a raw quaternion record converts to.
pub open spec fn spec_ekf_quat_from(value: SbgLogEkfQuatData) -> EkfQuat {
    let flags = spec_ekf_flags(value.status);
    EkfQuat {
        time_stamp: value.time_stamp,
        quaternion: spec_check32(flags, EKF_HEADING_VALID, value.quaternion),
        euler_std_dev: spec_check32(flags, EKF_HEADING_VALID, value.euler_std_dev),
        status: value.status,
    }
}

impl vstd::std_specs::convert::FromSpecImpl<SbgLogEkfQuatData> for EkfQuat {
    open spec fn obeys_from_spec() -> bool {
        true
    }

    open spec fn from_spec(v: SbgLogEkfQuatData) -> EkfQuat {
        spec_ekf_quat_from(v)
    }
}

impl From<SbgLogEkfQuatData> for EkfQuat {
    /// Converts a raw quaternion record: the estimate is present exactly
    /// when the filter reports a valid heading.
    fn from(value: SbgLogEkfQuatData) -> (r: EkfQuat) {
        let status = crate::sensor_status::EkfStatus::new(value.status);
        let flags = status.get_flags();
        EkfQuat {
            time_stamp: value.time_stamp,
            quaternion: check32(&flags, EKF_HEADING_VALID, value.quaternion),
            euler_std_dev: check32(&flags, EKF_HEADING_VALID, value.euler_std_dev),
            status: value.status,
        }
    }
}

/// The navigation sample a raw navigation record converts to.
pub open spec fn spec_ekf_nav_from(value: SbgLogEkfNavData) -> EkfNav {
    let flags = spec_ekf_flags(value.status);
    EkfNav {
        time_stamp: value.time_stamp,
        status: value.status,
        velocity: spec_check32(flags, EKF_VELOCITY_VALID, value.velocity),
        velocity_std_dev: spec_check32(flags, EKF_VELOCITY_VALID, value.velocity_std_dev),
        position: spec_check32(flags, EKF_POSITION_VALID, value.position),
        position_std_dev: spec_check32(flags, EKF_POSITION_VALID, value.position_std_dev),
        undulation: spec_check32(flags, crate::sensor_status::EKF_ATTITUDE_VALID, value.undulation),
    }
}

impl vstd::std_specs::convert::FromSpecImpl<SbgLogEkfNavData> for EkfNav {
    open spec fn obeys_from_spec() -> bool {
        true
    }

    open spec fn from_spec(v: SbgLogEkfNavData) -> EkfNav {
        spec_ekf_nav_from(v)
    }
}

impl From<SbgLogEkfNavData> for EkfNav {
    /// Converts a raw navigation record: velocity and position, with their
    /// standard deviations, are present exactly when the filter reports
    /// them valid; the undulation follows the attitude validity.
    fn from(value: SbgLogEkfNavData) -> (r: EkfNav) {
        let status = crate::sensor_status::EkfStatus::new(value.status);
        let flags = status.get_flags();
        EkfNav {
            time_stamp: value.time_stamp,
            status: value.status,
            velocity: check32(&flags, EKF_VELOCITY_VALID, value.velocity),
            velocity_std_dev: check32(&flags, EKF_VELOCITY_VALID, value.velocity_std_dev),
            position: check32(&flags, EKF_POSITION_VALID, value.position),
            position_std_dev: check32(&flags, EKF_POSITION_VALID, value.position_std_dev),
            undulation: check32(
                &flags,
                crate::sensor_status::EKF_ATTITUDE_VALID,
                value.undulation,
            ),
        }
    }
}

/// The inertial sample a raw inertial record converts to.
pub open spec fn spec_imu_from(value: SbgLogImuData) -> Imu {
    let flags = spec_known_flags_u16(value.status, IMU_FLAGS_MASK);
    Imu {
        time_stamp: value.time_stamp,
        status: value.status,
        accelerometers: spec_check(flags, IMU_ACCELS_IN_RANGE, value.accelerometers),
        gyroscopes: spec_check(flags, IMU_GYROS_IN_RANGE, value.gyroscopes),
        temperature: Some(value.temperature),
        delta_velocity: spec_check(flags, IMU_ACCELS_IN_RANGE, value.delta_velocity),
        delta_angle: spec_check(flags, IMU_GYROS_IN_RANGE, value.delta_angle),
    }
}

impl vstd::std_specs::convert::FromSpecImpl<SbgLogImuData> for Imu {
    open spec fn obeys_from_spec() -> bool {
        true
    }

    open spec fn from_spec(v: SbgLogImuData) -> Imu {
        spec_imu_from(v)
    }
}

impl From<SbgLogImuData> for Imu {
    /// Converts a raw inertial record: accelerations follow the
    /// accelerometer in-range flag, rotation rates the gyroscope in-range
    /// flag.  The device defines no flag for its temperature, which is
    /// kept as an option only for uniformity.
    fn from(value: SbgLogImuData) -> (r: Imu) {
        let status = crate::sensor_status::ImuStatus::new(value.status);
        let flags = status.get_flags();
        Imu {
            time_stamp: value.time_stamp,
            status: value.status,
            accelerometers: check(&flags, IMU_ACCELS_IN_RANGE, value.accelerometers),
            gyroscopes: check(&flags, IMU_GYROS_IN_RANGE, value.gyroscopes),
            temperature: Some(value.temperature),
            delta_velocity: check(&flags, IMU_ACCELS_IN_RANGE, value.delta_velocity),
            delta_angle: check(&flags, IMU_GYROS_IN_RANGE, value.delta_angle),
        }
    }
}

/// The velocity sample a raw velocity record converts to.
pub open spec fn spec_gps_vel_from(value: SbgLogGpsVel) -> GpsVel {
    let valid = spec_gps_vel_status(value.status) == Some(GpsVelStatusE::SolComputed);
    GpsVel {
        time_stamp: value.time_stamp,
        status: value.status,
        time_of_week: spec_gate(valid, value.time_of_week),
        velocity: spec_gate(valid, value.velocity),
        velocity_acc: spec_gate(valid, value.velocity_acc),
        course: spec_gate(valid, value.course),
        course_acc: spec_gate(valid, value.course_acc),
    }
}

impl vstd::std_specs::convert::FromSpecImpl<SbgLogGpsVel> for GpsVel {
    open spec fn obeys_from_spec() -> bool {
        true
    }

    open spec fn from_spec(v: SbgLogGpsVel) -> GpsVel {
        spec_gps_vel_from(v)
    }
}

impl From<SbgLogGpsVel> for GpsVel {
    /// Converts a raw velocity record: every measurement is present
    /// exactly when the receiver computed a valid solution.
    fn from(value: SbgLogGpsVel) -> (r: GpsVel) {
        let status = GpsVelStatus::new(value.status);
        let valid = matches!(status.get_status(), Some(GpsVelStatusE::SolComputed));
        GpsVel {
            time_stamp: value.time_stamp,
            status: value.status,
            time_of_week: gate(valid, value.time_of_week),
            velocity: gate(valid, value.velocity),
            velocity_acc: gate(valid, value.velocity_acc),
            course: gate(valid, value.course),
            course_acc: gate(valid, value.course_acc),
        }
    }
}

/// Validity gating: a measurement of a converted sample is present only
/// when the record's status asserts it — a source with an untrustworthy or
/// negative status flag yields absence, never a copied raw value.
pub proof fn lemma_invalid_status_gives_absent(
    imu: SbgLogImuData,
    air: SbgLogAirData,
    pos: SbgLogGpsPos,
    vel: SbgLogGpsVel,
    utc: SbgLogUtcData,
    nav: SbgLogEkfNavData,
    quat: SbgLogEkfQuatData,
)
    ensures
        spec_imu_from(imu).accelerometers is Some <==> (spec_known_flags_u16(
            imu.status,
            IMU_FLAGS_MASK,
        ) matches Some(f) && f & IMU_ACCELS_IN_RANGE == IMU_ACCELS_IN_RANGE),
        spec_imu_from(imu).gyroscopes is Some <==> (spec_known_flags_u16(
            imu.status,
            IMU_FLAGS_MASK,
        ) matches Some(f) && f & IMU_GYROS_IN_RANGE == IMU_GYROS_IN_RANGE),
        spec_air_from(air).pressure_abs is Some <==> (spec_known_flags_u16(
            air.status,
            AIR_FLAGS_MASK,
        ) matches Some(f) && f & AIR_PRESSURE_ABS_VALID == AIR_PRESSURE_ABS_VALID),
        spec_gps_pos_from(pos).latitude is Some <==> spec_gps_pos_status(pos.status) == Some(
            GpsPositionStatusE::SolComputed,
        ),
        spec_gps_vel_from(vel).velocity is Some <==> spec_gps_vel_status(vel.status) == Some(
            GpsVelStatusE::SolComputed,
        ),
        spec_utc_time_from(utc).year is Some <==> (spec_utc_status(utc.status) == Some(
            UtcStatus::Valid,
        ) || spec_utc_status(utc.status) == Some(UtcStatus::NoLeapSec)),
        spec_ekf_nav_from(nav).position is Some <==> (spec_ekf_flags(nav.status) matches Some(f)
            && f & EKF_POSITION_VALID == EKF_POSITION_VALID),
        spec_ekf_quat_from(quat).quaternion is Some <==> (spec_ekf_flags(quat.status) matches Some(
            f,
        ) && f & EKF_HEADING_VALID == EKF_HEADING_VALID),
{
}

} // verus!
