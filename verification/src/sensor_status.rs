//! Status words reported by the inertial navigation device.
//!
//! Each log record carries a status word whose bits assert which of the
//! record's measurements are trustworthy.  The wrappers here expose those
//! words the way the conversion layer needs them: a flags word is accepted
//! only when every set bit is a defined one (an unknown bit makes the whole
//! word untrustworthy), and enumerated status fields decode to `None` on
//! values the protocol does not define.  The bit assignments mirror the
//! device protocol's documentation and are deliberately kept in one place.

use vstd::prelude::*;

verus! {

/// Air-data flag: the timestamp field is a measurement delay.
pub const AIR_TIME_IS_DELAY: u16 = 0x01;

/// Air-data flag: the absolute pressure is valid.
pub const AIR_PRESSURE_ABS_VALID: u16 = 0x02;

/// Air-data flag: the altitude is valid.
pub const AIR_ALTITUDE_VALID: u16 = 0x04;

/// Air-data flag: the differential pressure is valid.
pub const AIR_PRESSURE_DIFF_VALID: u16 = 0x08;

/// Air-data flag: the true airspeed is valid.
pub const AIR_AIRSPEED_VALID: u16 = 0x10;

/// Air-data flag: the air temperature is valid.
pub const AIR_TEMPERATURE_VALID: u16 = 0x20;

/// Every defined air-data flag bit.
pub const AIR_FLAGS_MASK: u16 = 0x3f;

/// Inertial flag: communication with the unit is healthy.
pub const IMU_COM_OK: u16 = 0x01;

/// Inertial flag: the unit's self status is healthy.
pub const IMU_STATUS_OK: u16 = 0x02;

/// Inertial flag: the accelerometer self test passed.
pub const IMU_ACCEL_SELF_TEST: u16 = 0x04;

/// Inertial flag: the gyroscope self test passed.
pub const IMU_GYRO_SELF_TEST: u16 = 0x08;

/// Inertial flag: the accelerometers are within their measuring range.
pub const IMU_ACCELS_IN_RANGE: u16 = 0x10;

/// Inertial flag: the gyroscopes are within their measuring range.
pub const IMU_GYROS_IN_RANGE: u16 = 0x20;

/// Every defined inertial flag bit.
pub const IMU_FLAGS_MASK: u16 = 0x3f;

/// Filter flag: the attitude estimate is valid.
pub const EKF_ATTITUDE_VALID: u32 = 0x10;

/// Filter flag: the heading estimate is valid.
pub const EKF_HEADING_VALID: u32 = 0x20;

/// Filter flag: the velocity estimate is valid.
pub const EKF_VELOCITY_VALID: u32 = 0x40;

/// Filter flag: the position estimate is valid.
pub const EKF_POSITION_VALID: u32 = 0x80;

/// Filter flag: a vertical reference is in use.
pub const EKF_VERT_REF_USED: u32 = 0x100;

/// Filter flag: a magnetic reference is in use.
pub const EKF_MAG_REF_USED: u32 = 0x200;

/// Every defined filter flag bit (the low four bits are the solution-mode
/// field, not flags).
pub const EKF_FLAGS_MASK: u32 = 0x3f0;

/// Mask of the solution-mode field inside a filter status word.
pub const EKF_SOLUTION_MODE_MASK: u32 = 0x0f;

/// UTC time validity reported by the receiver.
#[derive(Clone, Copy, PartialEq, Eq, Structural, Debug)]
pub enum UtcStatus {
    /// The UTC time is not known.
    Invalid,
    /// UTC is known but the leap-second count is not.
    NoLeapSec,
    /// The UTC time is fully valid.
    Valid,
}

/// GNSS position solution status.
#[derive(Clone, Copy, PartialEq, Eq, Structural, Debug)]
pub enum GpsPositionStatusE {
    /// A valid solution was computed.
    SolComputed,
    /// Not enough observations to compute a solution.
    InsufficientObs,
    /// An internal receiver error.
    InternalError,
    /// The height limit was exceeded.
    HeightLimitExceeded,
}

/// GNSS velocity solution status.
#[derive(Clone, Copy, PartialEq, Eq, Structural, Debug)]
pub enum GpsVelStatusE {
    /// A valid solution was computed.
    SolComputed,
    /// Not enough observations to compute a solution.
    InsufficientObs,
    /// An internal receiver error.
    InternalError,
    /// The velocity limit was exceeded.
    LimitExceeded,
}

/// Flags word accepted only when every set bit is defined: an unknown bit
/// makes the whole word untrustworthy.
pub open spec fn spec_known_flags_u16(word: u16, mask: u16) -> Option<u16> {
    if word & !mask == 0 {
        Some(word)
    } else {
        None
    }
}

/// Air-data status word.
#[derive(Clone, Copy, PartialEq, Eq, Structural, Debug)]
pub struct AirStatus {
    pub status: u16,
}

impl AirStatus {
    pub fn new(status: u16) -> (r: AirStatus)
        ensures
            r.status == status,
    {
        AirStatus { status }
    }

    /// The flags word, accepted only when every set bit is a defined one.
    pub fn get_flags(&self) -> (r: Option<u16>)
        ensures
            r == spec_known_flags_u16(self.status, AIR_FLAGS_MASK),
    {
        if self.status & !AIR_FLAGS_MASK == 0 {
            Some(self.status)
        } else {
            None
        }
    }
}

/// Inertial status word.
#[derive(Clone, Copy, PartialEq, Eq, Structural, Debug)]
pub struct ImuStatus {
    pub status: u16,
}

impl ImuStatus {
    pub fn new(status: u16) -> (r: ImuStatus)
        ensures
            r.status == status,
    {
        ImuStatus { status }
    }

    /// The flags word, accepted only when every set bit is a defined one.
    pub fn get_flags(&self) -> (r: Option<u16>)
        ensures
            r == spec_known_flags_u16(self.status, IMU_FLAGS_MASK),
    {
        if self.status & !IMU_FLAGS_MASK == 0 {
            Some(self.status)
        } else {
            None
        }
    }
}

/// The flags part of a filter status word: the solution-mode field is
/// ignored, and any unknown bit invalidates the word.
pub open spec fn spec_ekf_flags(status: u32) -> Option<u32> {
    let flags = status & !EKF_SOLUTION_MODE_MASK;
    if flags & !EKF_FLAGS_MASK == 0 {
        Some(flags)
    } else {
        None
    }
}

/// Kalman-filter solution status word.
#[derive(Clone, Copy, PartialEq, Eq, Structural, Debug)]
pub struct EkfStatus {
    pub status: u32,
}

impl EkfStatus {
    pub fn new(status: u32) -> (r: EkfStatus)
        ensures
            r.status == status,
    {
        EkfStatus { status }
    }

    /// The validity flags, with the solution-mode field masked off; `None`
    /// when an undefined bit is set.
    pub fn get_flags(&self) -> (r: Option<u32>)
        ensures
            r == spec_ekf_flags(self.status),
    {
        let flags = self.status & !EKF_SOLUTION_MODE_MASK;
        if flags & !EKF_FLAGS_MASK == 0 {
            Some(flags)
        } else {
            None
        }
    }
}

/// The UTC validity field of a clock status word (bits six to nine).
pub open spec fn spec_utc_status(status: u32) -> Option<UtcStatus> {
    let field = (status >> 6) & 0xf;
    if field == 0 {
        Some(UtcStatus::Invalid)
    } else if field == 1 {
        Some(UtcStatus::NoLeapSec)
    } else if field == 2 {
        Some(UtcStatus::Valid)
    } else {
        None
    }
}

/// Clock and UTC status word.
#[derive(Clone, Copy, PartialEq, Eq, Structural, Debug)]
pub struct UtcTimeStatus {
    pub status: u32,
}

impl UtcTimeStatus {
    pub fn new(status: u32) -> (r: UtcTimeStatus)
        ensures
            r.status == status,
    {
        UtcTimeStatus { status }
    }

    /// The UTC validity field; `None` on a value the protocol does not
    /// define.
    pub fn get_utc_status(&self) -> (r: Option<UtcStatus>)
        ensures
            r == spec_utc_status(self.status),
    {
        let field = (self.status >> 6u32) & 0xf;
        if field == 0 {
            Some(UtcStatus::Invalid)
        } else if field == 1 {
            Some(UtcStatus::NoLeapSec)
        } else if field == 2 {
            Some(UtcStatus::Valid)
        } else {
            None
        }
    }
}

/// The solution field of a position status word (its low six bits).
pub open spec fn spec_gps_pos_status(status: u32) -> Option<GpsPositionStatusE> {
    let field = status & 0x3f;
    if field == 0 {
        Some(GpsPositionStatusE::SolComputed)
    } else if field == 1 {
        Some(GpsPositionStatusE::InsufficientObs)
    } else if field == 2 {
        Some(GpsPositionStatusE::InternalError)
    } else if field == 3 {
        Some(GpsPositionStatusE::HeightLimitExceeded)
    } else {
        None
    }
}

/// GNSS position status word.
#[derive(Clone, Copy, PartialEq, Eq, Structural, Debug)]
pub struct GpsPositionStatus {
    pub status: u32,
}

impl GpsPositionStatus {
    pub fn new(status: u32) -> (r: GpsPositionStatus)
        ensures
            r.status == status,
    {
        GpsPositionStatus { status }
    }

    /// The solution status; `None` on a value the protocol does not define.
    pub fn get_status(&self) -> (r: Option<GpsPositionStatusE>)
        ensures
            r == spec_gps_pos_status(self.status),
    {
        let field = self.status & 0x3f;
        if field == 0 {
            Some(GpsPositionStatusE::SolComputed)
        } else if field == 1 {
            Some(GpsPositionStatusE::InsufficientObs)
        } else if field == 2 {
            Some(GpsPositionStatusE::InternalError)
        } else if field == 3 {
            Some(GpsPositionStatusE::HeightLimitExceeded)
        } else {
            None
        }
    }
}

/// The solution field of a velocity status word (its low six bits).
pub open spec fn spec_gps_vel_status(status: u32) -> Option<GpsVelStatusE> {
    let field = status & 0x3f;
    if field == 0 {
        Some(GpsVelStatusE::SolComputed)
    } else if field == 1 {
        Some(GpsVelStatusE::InsufficientObs)
    } else if field == 2 {
        Some(GpsVelStatusE::InternalError)
    } else if field == 3 {
        Some(GpsVelStatusE::LimitExceeded)
    } else {
        None
    }
}

/// GNSS velocity status word.
#[derive(Clone, Copy, PartialEq, Eq, Structural, Debug)]
pub struct GpsVelStatus {
    pub status: u32,
}

impl GpsVelStatus {
    pub fn new(status: u32) -> (r: GpsVelStatus)
        ensures
            r.status == status,
    {
        GpsVelStatus { status }
    }

    /// The solution status; `None` on a value the protocol does not define.
    pub fn get_status(&self) -> (r: Option<GpsVelStatusE>)
        ensures
            r == spec_gps_vel_status(self.status),
    {
        let field = self.status & 0x3f;
        if field == 0 {
            Some(GpsVelStatusE::SolComputed)
        } else if field == 1 {
            Some(GpsVelStatusE::InsufficientObs)
        } else if field == 2 {
            Some(GpsVelStatusE::InternalError)
        } else if field == 3 {
            Some(GpsVelStatusE::LimitExceeded)
        } else {
            None
        }
    }
}

} // verus!
