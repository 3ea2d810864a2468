//! Central latest-value store for sensor and state data.
//!
//! One slot per sensor-sample kind, plus one slot each for the vehicle
//! state, the reset reason and the telemetry rate.  A new arrival
//! unconditionally overwrites a not-yet-sent prior value (latest wins, no
//! queue).  The telemetry path empties every sensor slot atomically with
//! [`DataManager::take_sensors`], so no reading is ever delivered twice.

use vstd::prelude::*;

use crate::error_manager::HydraError;
use crate::messages::{CommandData, Data, Message, RadioRate, ResetReason, SensorData, StateData};

verus! {

/// Number of sensor slots drained by [`DataManager::take_sensors`].
pub const SENSOR_SLOTS: usize = 9;

/// Latest-value cache shared by every task.
///
/// All methods run under the resource lock of the surrounding scheduler;
/// none of them blocks or allocates.
#[derive(Clone)]
pub struct DataManager {
    pub air: Option<Message>,
    pub imu: Option<Message>,
    pub ekf_nav: Option<Message>,
    pub ekf_quat: Option<Message>,
    pub madgwick_quat: Option<Message>,
    pub utc_time: Option<Message>,
    pub gps_vel: Option<Message>,
    pub gps_pos: Option<Message>,
    pub barometer: Option<Message>,
    pub state: Option<StateData>,
    pub reset_reason: Option<ResetReason>,
    pub logging_rate: Option<RadioRate>,
    /// Set when a power-down command arrives; the scheduler's sleep task
    /// polls it.  In the store itself it is just another latest-wins value.
    pub sleep_requested: bool,
    /// Latest compensated barometer temperature, as an `f32` bit pattern.
    pub baro_temperature: Option<u32>,
    /// Latest compensated barometer pressure, as an `f32` bit pattern.
    pub baro_pressure: Option<u32>,
}

impl DataManager {
    /// The sensor slots in the fixed order that `take_sensors` reports them.
    pub open spec fn spec_sensor_slots(self) -> Seq<Option<Message>> {
        seq![
            self.air,
            self.imu,
            self.ekf_nav,
            self.ekf_quat,
            self.madgwick_quat,
            self.utc_time,
            self.gps_vel,
            self.gps_pos,
            self.barometer,
        ]
    }

    /// The store after a drain: every sensor slot empty, all else kept.
    pub open spec fn spec_taken(self) -> DataManager {
        DataManager {
            air: None,
            imu: None,
            ekf_nav: None,
            ekf_quat: None,
            madgwick_quat: None,
            utc_time: None,
            gps_vel: None,
            gps_pos: None,
            barometer: None,
            ..self
        }
    }

    /// The rate that `get_logging_rate` reports: the stored one, or the
    /// slow default when none was ever set.
    pub open spec fn spec_rate(self) -> RadioRate {
        match self.logging_rate {
            Some(rate) => rate,
            None => RadioRate::Slow,
        }
    }

    /// The store after routing one data envelope: the slot matching the
    /// payload kind is overwritten, everything else is kept.
    pub open spec fn spec_route_data(self, data: Message) -> DataManager {
        match data.data {
            Data::Sensor(sensor) => match sensor.data {
                SensorData::Air(_) => DataManager { air: Some(data), ..self },
                SensorData::Imu(_) => DataManager { imu: Some(data), ..self },
                SensorData::EkfNav(_) => DataManager { ekf_nav: Some(data), ..self },
                SensorData::EkfQuat(_) => DataManager { ekf_quat: Some(data), ..self },
                SensorData::GpsPos(_) => DataManager { gps_pos: Some(data), ..self },
                SensorData::GpsVel(_) => DataManager { gps_vel: Some(data), ..self },
                SensorData::UtcTime(_) => DataManager { utc_time: Some(data), ..self },
                SensorData::Barometer(_) => DataManager { barometer: Some(data), ..self },
                SensorData::ResetReason(_) => self,
            },
            Data::State(state) => DataManager { state: Some(state.data), ..self },
            Data::Command(_) => self,
        }
    }

    /// The store after one command envelope: a rate change replaces the
    /// telemetry rate, a power-down raises the sleep request, every other
    /// payload is ignored.
    pub open spec fn spec_handle_command(self, data: Message) -> DataManager {
        match data.data {
            Data::Command(command) => match command.data {
                CommandData::RadioRateChange(change) => DataManager {
                    logging_rate: Some(change.rate),
                    ..self
                },
                CommandData::PowerDown => DataManager { sleep_requested: true, ..self },
                _ => self,
            },
            _ => self,
        }
    }

    /// A fresh store: everything absent but the telemetry rate, which
    /// starts slow.
    pub fn new() -> (r: DataManager)
        ensures
            r.spec_sensor_slots() =~= Seq::<Option<Message>>::new(
                SENSOR_SLOTS as nat,
                |i: int| None::<Message>,
            ),
            r.state is None,
            r.reset_reason is None,
            r.logging_rate == Some(RadioRate::Slow),
            !r.sleep_requested,
            r.baro_temperature is None,
            r.baro_pressure is None,
    {
        DataManager {
            air: None,
            imu: None,
            ekf_nav: None,
            ekf_quat: None,
            madgwick_quat: None,
            utc_time: None,
            gps_vel: None,
            gps_pos: None,
            barometer: None,
            state: None,
            reset_reason: None,
            logging_rate: Some(RadioRate::Slow),
            sleep_requested: false,
            baro_temperature: None,
            baro_pressure: None,
        }
    }

    /// Reports the current telemetry rate and re-arms it, falling back to
    /// the slow default when no rate was stored.
    pub fn get_logging_rate(&mut self) -> (r: RadioRate)
        ensures
            r == old(self).spec_rate(),
            *final(self) == (DataManager { logging_rate: Some(r), ..*old(self) }),
    {
        if let Some(rate) = self.logging_rate.take() {
            let rate_cln = rate.clone();
            self.logging_rate = Some(rate);
            return rate_cln;
        }
        self.logging_rate = Some(RadioRate::Slow);
        RadioRate::Slow
    }

    /// Atomically drains every sensor slot and returns exactly what was
    /// captured, in the fixed slot order.
    pub fn take_sensors(&mut self) -> (r: [Option<Message>; SENSOR_SLOTS])
        ensures
            r@ =~= old(self).spec_sensor_slots(),
            *final(self) == old(self).spec_taken(),
    {
        [
            self.air.take(),
            self.imu.take(),
            self.ekf_nav.take(),
            self.ekf_quat.take(),
            self.madgwick_quat.take(),
            self.utc_time.take(),
            self.gps_vel.take(),
            self.gps_pos.take(),
            self.barometer.take(),
        ]
    }

    /// Copies the current vehicle state without consuming it.
    pub fn clone_states(&self) -> (r: [Option<StateData>; 1])
        ensures
            r@ =~= seq![self.state],
    {
        [self.state.clone()]
    }

    /// Reads the recorded reset reason without consuming it.
    pub fn clone_reset_reason(&self) -> (r: Option<ResetReason>)
        ensures
            r == self.reset_reason,
    {
        self.reset_reason
    }

    /// Records the reset reason reported at startup.
    pub fn set_reset_reason(&mut self, reset: ResetReason)
        ensures
            *final(self) == (DataManager { reset_reason: Some(reset), ..*old(self) }),
    {
        self.reset_reason = Some(reset);
    }

    /// Inspects a command envelope and applies its local effect; every
    /// other payload kind is ignored.  Never fails.
    pub fn handle_command(&mut self, data: Message) -> (r: Result<(), HydraError>)
        ensures
            r is Ok,
            *final(self) == old(self).spec_handle_command(data),
    {
        match data.data {
            Data::Command(command) => match command.data {
                CommandData::PowerDown => {
                    self.sleep_requested = true;
                }
                CommandData::RadioRateChange(command_data) => {
                    self.logging_rate = Some(command_data.rate);
                }
                _ => {
                    // We don't care about the other commands here.
                }
            },
            _ => {
                // All other payloads are disregarded.
            }
        }
        Ok(())
    }

    /// Routes an incoming data envelope into the slot matching its payload
    /// kind, unconditionally overwriting prior content (latest wins).
    pub fn handle_data(&mut self, data: Message)
        ensures
            *final(self) == old(self).spec_route_data(data),
    {
        match data.data {
            Data::Sensor(ref sensor) => match sensor.data {
                SensorData::Air(_) => {
                    self.air = Some(data);
                }
                SensorData::Imu(_) => {
                    self.imu = Some(data);
                }
                SensorData::EkfNav(_) => {
                    self.ekf_nav = Some(data);
                }
                SensorData::EkfQuat(_) => {
                    self.ekf_quat = Some(data);
                }
                SensorData::GpsPos(_) => {
                    self.gps_pos = Some(data);
                }
                SensorData::GpsVel(_) => {
                    self.gps_vel = Some(data);
                }
                SensorData::UtcTime(_) => {
                    self.utc_time = Some(data);
                }
                SensorData::Barometer(_) => {
                    self.barometer = Some(data);
                }
                SensorData::ResetReason(_) => {}
            },
            Data::State(state) => {
                self.state = Some(state.data);
            }
            _ => {}
        }
    }

    /// Stores the latest orientation estimate produced by the fusion filter.
    pub fn store_madgwick_result(&mut self, result: Message)
        ensures
            *final(self) == (DataManager { madgwick_quat: Some(result), ..*old(self) }),
    {
        self.madgwick_quat = Some(result);
    }

    /// Stores a compensated barometer reading, or clears both values when
    /// the reading failed, exactly as handed in.
    pub fn set_baro(&mut self, reading: Option<(u32, u32)>)
        ensures
            *final(self) == (DataManager {
                baro_temperature: match reading {
                    Some(r) => Some(r.0),
                    None => None,
                },
                baro_pressure: match reading {
                    Some(r) => Some(r.1),
                    None => None,
                },
                ..*old(self)
            }),
    {
        match reading {
            Some((temperature, pressure)) => {
                self.baro_temperature = Some(temperature);
                self.baro_pressure = Some(pressure);
            }
            None => {
                self.baro_temperature = None;
                self.baro_pressure = None;
            }
        }
    }
}

impl Default for DataManager {
    /// Same store as [`DataManager::new`].
    fn default() -> (r: Self)
        ensures
            r.spec_sensor_slots() =~= Seq::<Option<Message>>::new(
                SENSOR_SLOTS as nat,
                |i: int| None::<Message>,
            ),
            r.logging_rate == Some(RadioRate::Slow),
            !r.sleep_requested,
    {
        Self::new()
    }
}

/// Drain semantics: after one drain, a second drain with no intervening
/// `handle_data` reports every slot absent — nothing is delivered twice.
pub proof fn lemma_take_sensors_drains(dm: DataManager)
    ensures
        dm.spec_taken().spec_sensor_slots() =~= Seq::<Option<Message>>::new(
            SENSOR_SLOTS as nat,
            |i: int| None::<Message>,
        ),
{
}

/// Rate changes are atomic at the store: a rate-change command replaces the
/// whole rate value, so a subsequent read observes exactly the commanded
/// rate — never a partial update; and a command that is not a rate change
/// leaves the observed rate untouched.
pub proof fn lemma_rate_change_not_torn(dm: DataManager, data: Message)
    ensures
        (match data.data {
            Data::Command(command) => match command.data {
                CommandData::RadioRateChange(change) => dm.spec_handle_command(
                    data,
                ).spec_rate() == change.rate,
                _ => dm.spec_handle_command(data).spec_rate() == dm.spec_rate(),
            },
            _ => dm.spec_handle_command(data).spec_rate() == dm.spec_rate(),
        }),
{
}

} // verus!
