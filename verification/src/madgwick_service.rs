//! Bookkeeping around the orientation fusion filter.
//!
//! The filter itself integrates accelerometer and gyroscope samples into a
//! unit quaternion in floating point, which this library does not compute;
//! it runs beside the library, and everything it consumes and produces
//! passes through here as IEEE-754 bit patterns.  This module owns the
//! decisions: which envelopes feed an update (only inertial samples whose
//! accelerometer and gyroscope are both present), the synthetic at-rest
//! reading that bootstraps convergence, when a re-bootstrap is due (after
//! every gain or period change), and the envelope the estimate is wrapped
//! in (the source sample's timestamp, no fabricated status).

use vstd::prelude::*;

use crate::messages::{Data, EkfQuat, Message, Quat, Sensor, SensorData, Vec3};

verus! {

/// Bit pattern of the filter gain the service starts with (0.1).
pub const DEFAULT_BETA_BITS: u32 = 0x3dcccccd;

/// Bit pattern of the default sample period (0.01, for a 100 Hz feed).
pub const DEFAULT_SAMPLE_PERIOD_BITS: u32 = 0x3c23d70a;

/// Bit pattern of 1.0, the unit component of the identity quaternion.
pub const ONE_BITS: u32 = 0x3f800000;

/// How many at-rest updates bootstrap the filter toward identity.
pub const BOOTSTRAP_UPDATES: usize = 5;

/// The inertial inputs one envelope contributes to the filter: present
/// exactly when the envelope is an inertial sample whose accelerometer and
/// gyroscope measurements are both trustworthy.
pub open spec fn spec_imu_update_inputs(data: Message) -> Option<(Vec3, Vec3, u32)> {
    match data.data {
        Data::Sensor(sensor) => match sensor.data {
            SensorData::Imu(imu) => match (imu.accelerometers, imu.gyroscopes) {
                (Some(accel), Some(gyro)) => Some((accel, gyro, imu.time_stamp)),
                _ => None,
            },
            _ => None,
        },
        _ => None,
    }
}

/// The envelope the service emits for one new estimate: an
/// orientation-quaternion sample under the source envelope's timestamp and
/// node, with no uncertainty and a deliberately unknown status.
pub open spec fn spec_quat_message(data: Message, quat: Quat, time_stamp: u32) -> Message {
    Message {
        timestamp: data.timestamp,
        node: data.node,
        data: Data::Sensor(
            Sensor {
                data: SensorData::EkfQuat(
                    EkfQuat {
                        time_stamp,
                        quaternion: Some(quat),
                        euler_std_dev: None,
                        status: 0,
                    },
                ),
            },
        ),
    }
}

/// Service state around the fusion filter: the latest estimate, the filter
/// parameters, and whether the filter still awaits its bootstrap.
pub struct MadgwickService {
    /// The most recent quaternion estimate, as bit patterns.
    pub latest_quat: Quat,
    /// Bit pattern of the filter gain (how strongly the accelerometer
    /// pulls the estimate).
    pub beta: u32,
    /// Bit pattern of the sample period in seconds.
    pub sample_period: u32,
    /// True while the filter beside the library still has to be fed the
    /// at-rest bootstrap readings; set again by every parameter change.
    pub needs_init: bool,
}

impl MadgwickService {
    /// A fresh service with the default gain and sample period, holding the
    /// identity estimate until the bootstrap has run.
    pub fn new() -> (r: MadgwickService)
        ensures
            r.beta == DEFAULT_BETA_BITS,
            r.sample_period == DEFAULT_SAMPLE_PERIOD_BITS,
            r.latest_quat == (Quat { w: ONE_BITS, x: 0, y: 0, z: 0 }),
            r.needs_init,
    {
        Self::new_with_params(DEFAULT_BETA_BITS, DEFAULT_SAMPLE_PERIOD_BITS)
    }

    /// A fresh service with the given gain and sample period (as bit
    /// patterns), holding the identity estimate until the bootstrap has
    /// run.
    pub fn new_with_params(beta: u32, sample_period: u32) -> (r: MadgwickService)
        ensures
            r.beta == beta,
            r.sample_period == sample_period,
            r.latest_quat == (Quat { w: ONE_BITS, x: 0, y: 0, z: 0 }),
            r.needs_init,
    {
        MadgwickService {
            latest_quat: Quat { w: ONE_BITS, x: 0, y: 0, z: 0 },
            beta,
            sample_period,
            needs_init: true,
        }
    }

    /// The synthetic at-rest accelerometer reading fed during bootstrap:
    /// gravity along the positive vertical axis.
    pub fn bootstrap_accel() -> (r: Vec3)
        ensures
            r == (Vec3 { x: 0u32, y: 0u32, z: ONE_BITS }),
    {
        Vec3 { x: 0, y: 0, z: ONE_BITS }
    }

    /// The synthetic at-rest gyroscope reading fed during bootstrap: no
    /// rotation.
    pub fn bootstrap_gyro() -> (r: Vec3)
        ensures
            r == (Vec3 { x: 0u32, y: 0u32, z: 0u32 }),
    {
        Vec3 { x: 0, y: 0, z: 0 }
    }

    /// The reference magnetic heading fed during bootstrap, along the
    /// positive forward axis.
    pub fn bootstrap_mag() -> (r: Vec3)
        ensures
            r == (Vec3 { x: ONE_BITS, y: 0u32, z: 0u32 }),
    {
        Vec3 { x: ONE_BITS, y: 0, z: 0 }
    }

    /// The zero magnetometer input used for every real update: the filter
    /// runs heading-free, fusing only accelerometer and gyroscope.
    pub fn heading_free_mag() -> (r: Vec3)
        ensures
            r == (Vec3 { x: 0u32, y: 0u32, z: 0u32 }),
    {
        Vec3 { x: 0, y: 0, z: 0 }
    }

    /// Records the estimate the bootstrap converged to; real data is
    /// accepted from here on.
    pub fn bootstrap_done(&mut self, quat: Quat)
        ensures
            *final(self) == (MadgwickService { latest_quat: quat, needs_init: false, ..*old(self) }),
    {
        self.latest_quat = quat;
        self.needs_init = false;
    }

    /// The inputs one envelope contributes to the filter, if any: the
    /// accelerometer and gyroscope bit patterns and the sample's device
    /// timestamp.
    pub fn imu_update_inputs(data: &Message) -> (r: Option<(Vec3, Vec3, u32)>)
        ensures
            r == spec_imu_update_inputs(*data),
    {
        match &data.data {
            Data::Sensor(sensor) => match &sensor.data {
                SensorData::Imu(imu) => match (imu.accelerometers, imu.gyroscopes) {
                    (Some(accel), Some(gyro)) => Some((accel, gyro, imu.time_stamp)),
                    _ => None,
                },
                _ => None,
            },
            _ => None,
        }
    }

    /// Accepts the filter's output for one inertial envelope: stores the
    /// new estimate and wraps it in an orientation envelope under the
    /// source's timestamp.  An envelope that contributed no inputs changes
    /// nothing and yields nothing.
    pub fn process_imu_data(&mut self, data: &Message, updated: Quat) -> (r: Option<Message>)
        ensures
            (match spec_imu_update_inputs(*data) {
                Some(inputs) => *final(self) == (MadgwickService {
                    latest_quat: updated,
                    ..*old(self)
                }) && r == Some(spec_quat_message(*data, updated, inputs.2)),
                None => *final(self) == *old(self) && r is None,
            }),
    {
        match Self::imu_update_inputs(data) {
            Some((_accel, _gyro, time_stamp)) => {
                self.latest_quat = updated;
                Some(
                    Message {
                        timestamp: data.timestamp,
                        node: data.node,
                        data: Data::Sensor(
                            Sensor {
                                data: SensorData::EkfQuat(
                                    EkfQuat {
                                        time_stamp,
                                        quaternion: Some(updated),
                                        euler_std_dev: None,
                                        status: 0,
                                    },
                                ),
                            },
                        ),
                    },
                )
            },
            None => None,
        }
    }

    /// The latest estimate, as bit patterns.
    pub fn get_quaternion(&self) -> (r: Quat)
        ensures
            r == self.latest_quat,
    {
        self.latest_quat
    }

    /// Sets a new filter gain (as a bit pattern) and calls for a
    /// re-bootstrap: the filter must converge again before its output is
    /// trusted.
    pub fn set_beta(&mut self, beta: u32)
        ensures
            *final(self) == (MadgwickService { beta, needs_init: true, ..*old(self) }),
    {
        self.beta = beta;
        self.needs_init = true;
    }

    /// Sets a new sample period (as a bit pattern) and calls for a
    /// re-bootstrap.
    pub fn set_sample_period(&mut self, sample_period: u32)
        ensures
            *final(self) == (MadgwickService { sample_period, needs_init: true, ..*old(self) }),
    {
        self.sample_period = sample_period;
        self.needs_init = true;
    }

    /// The current filter gain, as a bit pattern.
    pub fn get_beta(&self) -> (r: u32)
        ensures
            r == self.beta,
    {
        self.beta
    }

    /// The current sample period, as a bit pattern.
    pub fn get_sample_period(&self) -> (r: u32)
        ensures
            r == self.sample_period,
    {
        self.sample_period
    }
}

} // verus!
