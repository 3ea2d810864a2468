//! Message envelopes exchanged between the flight computer's subsystems.
//!
//! An envelope carries a timestamp, the identifier of the node that produced
//! it, and one payload: a sensor sample, a vehicle state, or a command.
//! Floating-point measurements are carried as their IEEE-754 bit patterns
//! (`u32` for single precision, `u64` for double precision); the store and
//! the codec never interpret them, so the patterns move through the system
//! bit-for-bit.

use vstd::prelude::*;

verus! {

/// Identifier of this flight computer on the CAN bus and the radio link.
pub const COM_ID: u8 = 4;

/// Calendar timestamp attached to every envelope by the real-time clock.
#[derive(Clone, Copy, PartialEq, Eq, Structural, Debug)]
pub struct FormattedTime {
    pub year: u16,
    pub month: u8,
    pub day: u8,
    pub hour: u8,
    pub minute: u8,
    pub second: u8,
}

/// Radio telemetry rate selected by the ground station.
#[derive(Clone, Copy, PartialEq, Eq, Structural, Debug)]
pub enum RadioRate {
    Fast,
    Slow,
}

/// Enumerated vehicle state tracked by the mission logic.
#[derive(Clone, Copy, PartialEq, Eq, Structural, Debug)]
pub enum StateData {
    Initializing,
    WaitForTakeoff,
    Ascent,
    Descent,
    TerminalDescent,
    WaitForRecovery,
    Abort,
}

/// Wrapper carrying one vehicle state value.
#[derive(Clone, Copy, PartialEq, Eq, Structural, Debug)]
pub struct State {
    pub data: StateData,
}

impl State {
    pub fn new(data: StateData) -> (r: State)
        ensures
            r.data == data,
    {
        State { data }
    }
}

/// Request to change the telemetry rate.
#[derive(Clone, Copy, PartialEq, Eq, Structural, Debug)]
pub struct RadioRateChange {
    pub rate: RadioRate,
}

/// Commands understood by the flight computer.
#[derive(Clone, Copy, PartialEq, Eq, Structural, Debug)]
pub enum CommandData {
    RadioRateChange(RadioRateChange),
    DeployDrogue,
    DeployMain,
    PowerDown,
}

/// Wrapper carrying one command.
#[derive(Clone, Copy, PartialEq, Eq, Structural, Debug)]
pub struct Command {
    pub data: CommandData,
}

impl Command {
    pub fn new(data: CommandData) -> (r: Command)
        ensures
            r.data == data,
    {
        Command { data }
    }
}

/// One payload of an envelope.
#[derive(Clone, Copy, PartialEq, Eq, Structural, Debug)]
pub enum Data {
    Sensor(crate::messages::Sensor),
    State(State),
    Command(Command),
}

/// Envelope passed between subsystems: a timestamped, node-tagged payload.
///
/// Envelopes are immutable once constructed; ownership moves from the
/// producer to whichever single consumer receives them.
#[derive(Clone, Copy, PartialEq, Eq, Structural, Debug)]
pub struct Message {
    pub timestamp: FormattedTime,
    pub node: u8,
    pub data: Data,
}

impl Message {
    pub fn new(timestamp: FormattedTime, node: u8, data: Data) -> (r: Message)
        ensures
            r.timestamp == timestamp,
            r.node == node,
            r.data == data,
    {
        Message { timestamp, node, data }
    }
}

/// Wrapper carrying one sensor sample.
#[derive(Clone, Copy, PartialEq, Eq, Structural, Debug)]
pub struct Sensor {
    pub data: SensorData,
}

impl Sensor {
    pub fn new(data: SensorData) -> (r: Sensor)
        ensures
            r.data == data,
    {
        Sensor { data }
    }
}

/// Tagged union of sensor readings.
///
/// Each variant carries a device timestamp and a set of optional measurement
/// fields.  A field is `Some` only when the originating device's status flags
/// assert that the value is trustworthy; stale or invalid readings are
/// represented as absence, never as zero or garbage.
#[derive(Clone, Copy, PartialEq, Eq, Structural, Debug)]
pub enum SensorData {
    Air(Air),
    Imu(Imu),
    EkfNav(EkfNav),
    EkfQuat(EkfQuat),
    GpsPos(GpsPos),
    GpsVel(GpsVel),
    UtcTime(UtcTime),
    Barometer(Barometer),
    ResetReason(ResetReason),
}

/// Three `f32` bit patterns, one per axis.
#[derive(Clone, Copy, PartialEq, Eq, Structural, Debug)]
pub struct Vec3 {
    pub x: u32,
    pub y: u32,
    pub z: u32,
}

/// Three `f64` bit patterns, one per axis.
#[derive(Clone, Copy, PartialEq, Eq, Structural, Debug)]
pub struct Vec3Wide {
    pub x: u64,
    pub y: u64,
    pub z: u64,
}

/// Four `f32` bit patterns: one quaternion.
#[derive(Clone, Copy, PartialEq, Eq, Structural, Debug)]
pub struct Quat {
    pub w: u32,
    pub x: u32,
    pub y: u32,
    pub z: u32,
}

/// Air-data sample.  Measurement fields hold `f32` bit patterns.
#[derive(Clone, Copy, PartialEq, Eq, Structural, Debug)]
pub struct Air {
    pub time_stamp: u32,
    pub status: u16,
    pub pressure_abs: Option<u32>,
    pub altitude: Option<u32>,
    pub pressure_diff: Option<u32>,
    pub true_airspeed: Option<u32>,
    pub air_temperature: Option<u32>,
}

/// Inertial sample.  Vector fields hold three `f32` bit patterns.
#[derive(Clone, Copy, PartialEq, Eq, Structural, Debug)]
pub struct Imu {
    pub time_stamp: u32,
    pub status: u16,
    pub accelerometers: Option<Vec3>,
    pub gyroscopes: Option<Vec3>,
    pub temperature: Option<u32>,
    pub delta_velocity: Option<Vec3>,
    pub delta_angle: Option<Vec3>,
}

/// Navigation solution.  Position holds three `f64` bit patterns.
#[derive(Clone, Copy, PartialEq, Eq, Structural, Debug)]
pub struct EkfNav {
    pub time_stamp: u32,
    pub status: u32,
    pub velocity: Option<Vec3>,
    pub velocity_std_dev: Option<Vec3>,
    pub position: Option<Vec3Wide>,
    pub position_std_dev: Option<Vec3>,
    pub undulation: Option<u32>,
}

/// Orientation quaternion estimate.
#[derive(Clone, Copy, PartialEq, Eq, Structural, Debug)]
pub struct EkfQuat {
    pub time_stamp: u32,
    pub quaternion: Option<Quat>,
    pub euler_std_dev: Option<Vec3>,
    pub status: u32,
}

/// GNSS position fix.  Latitude, longitude and altitude hold `f64` bit
/// patterns.
#[derive(Clone, Copy, PartialEq, Eq, Structural, Debug)]
pub struct GpsPos {
    pub time_stamp: u32,
    pub status: u32,
    pub latitude: Option<u64>,
    pub longitude: Option<u64>,
    pub altitude: Option<u64>,
    pub undulation: Option<u32>,
    pub time_of_week: Option<u32>,
    pub latitude_accuracy: Option<u32>,
    pub longitude_accuracy: Option<u32>,
    pub altitude_accuracy: Option<u32>,
    pub num_sv_used: Option<u8>,
    pub base_station_id: Option<u16>,
    pub differential_age: Option<u16>,
}

/// GNSS velocity fix.
#[derive(Clone, Copy, PartialEq, Eq, Structural, Debug)]
pub struct GpsVel {
    pub time_stamp: u32,
    pub status: u32,
    pub time_of_week: Option<u32>,
    pub velocity: Option<Vec3>,
    pub velocity_acc: Option<Vec3>,
    pub course: Option<u32>,
    pub course_acc: Option<u32>,
}

/// UTC time report from the GNSS receiver.
#[derive(Clone, Copy, PartialEq, Eq, Structural, Debug)]
pub struct UtcTime {
    pub time_stamp: u32,
    pub status: u32,
    pub year: Option<u16>,
    pub month: Option<u8>,
    pub day: Option<u8>,
    pub hour: Option<u8>,
    pub minute: Option<u8>,
    pub second: Option<u8>,
    pub nano_second: Option<u32>,
    pub gps_time_of_week: Option<u32>,
}

/// Compensated onboard barometer reading, in `f32` bit patterns.
#[derive(Clone, Copy, PartialEq, Eq, Structural, Debug)]
pub struct Barometer {
    pub time_stamp: u32,
    pub temperature: Option<u32>,
    pub pressure: Option<u32>,
}

/// Reason reported by the reset controller for the last system reset.
#[derive(Clone, Copy, PartialEq, Eq, Structural, Debug)]
pub enum ResetReason {
    BrownoutReset,
    CpuReset,
    D1EntersDStandbyErroneouslyOrCpuEntersCStopErroneously,
    D1ExitsDStandbyMode,
    D2ExitsDStandbyMode,
    GenericWatchdogReset,
    IndependentWatchdogReset,
    PinReset,
    PowerOnReset,
    SystemReset,
    WindowWatchdogReset,
    Unknown { rcc_rsr: u32 },
}

} // verus!
