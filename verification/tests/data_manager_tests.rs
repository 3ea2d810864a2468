//! Tests for the latest-value store: routing, drain semantics, and the
//! telemetry-rate slot.

use phoenix::data_manager::DataManager;
use phoenix::messages::{
    Air, Command, CommandData, Data, FormattedTime, Message, RadioRate, RadioRateChange,
    ResetReason, Sensor, SensorData, State, StateData,
};

fn stamp() -> FormattedTime {
    FormattedTime { year: 2024, month: 5, day: 4, hour: 12, minute: 30, second: 15 }
}

fn air_message() -> Message {
    Message::new(
        stamp(),
        4,
        Data::Sensor(Sensor::new(SensorData::Air(Air {
            time_stamp: 900,
            status: 0x02,
            pressure_abs: Some(0x447a0000),
            altitude: None,
            pressure_diff: None,
            true_airspeed: None,
            air_temperature: None,
        }))),
    )
}

fn rate_command(rate: RadioRate) -> Message {
    Message::new(
        stamp(),
        4,
        Data::Command(Command::new(CommandData::RadioRateChange(RadioRateChange { rate }))),
    )
}

#[test]
fn take_sensors_drains_all_slots() {
    let mut dm = DataManager::new();
    dm.handle_data(air_message());
    let first = dm.take_sensors();
    assert_eq!(first[0], Some(air_message()));
    assert!(first.iter().skip(1).all(|slot| slot.is_none()));
    // A second drain with no intervening handle_data reports every slot
    // absent: nothing is delivered twice.
    let second = dm.take_sensors();
    assert!(second.iter().all(|slot| slot.is_none()));
}

#[test]
fn handle_data_routes_by_kind_latest_wins() {
    let mut dm = DataManager::new();
    dm.handle_data(air_message());
    let mut newer = air_message();
    newer.node = 9;
    dm.handle_data(newer.clone());
    assert_eq!(dm.air, Some(newer));
    assert!(dm.imu.is_none());

    let state_msg = Message::new(stamp(), 4, Data::State(State::new(StateData::Ascent)));
    dm.handle_data(state_msg);
    assert_eq!(dm.state, Some(StateData::Ascent));

    // Commands are not data: handle_data ignores them entirely.
    dm.handle_data(rate_command(RadioRate::Fast));
    assert_eq!(dm.logging_rate, Some(RadioRate::Slow));
}

#[test]
fn logging_rate_defaults_slow_and_rearms() {
    let mut dm = DataManager::new();
    assert_eq!(dm.get_logging_rate(), RadioRate::Slow);
    dm.logging_rate = None;
    assert_eq!(dm.get_logging_rate(), RadioRate::Slow);
    // The read re-armed the slot.
    assert_eq!(dm.logging_rate, Some(RadioRate::Slow));
}

#[test]
fn rate_change_command_is_observed_whole() {
    let mut dm = DataManager::new();
    dm.handle_command(rate_command(RadioRate::Fast)).unwrap();
    // The read observes exactly the commanded rate, never a partial value.
    assert_eq!(dm.get_logging_rate(), RadioRate::Fast);
    dm.handle_command(rate_command(RadioRate::Slow)).unwrap();
    assert_eq!(dm.get_logging_rate(), RadioRate::Slow);
    // A command that is not a rate change leaves the rate untouched.
    let power = Message::new(stamp(), 4, Data::Command(Command::new(CommandData::PowerDown)));
    dm.handle_command(power).unwrap();
    assert_eq!(dm.get_logging_rate(), RadioRate::Slow);
}

#[test]
fn power_down_raises_sleep_request() {
    let mut dm = DataManager::new();
    assert!(!dm.sleep_requested);
    let power = Message::new(stamp(), 4, Data::Command(Command::new(CommandData::PowerDown)));
    dm.handle_command(power).unwrap();
    assert!(dm.sleep_requested);
    // Sensor data never raises it.
    let mut dm2 = DataManager::new();
    dm2.handle_data(air_message());
    assert!(!dm2.sleep_requested);
}

#[test]
fn reset_reason_is_kept_not_drained() {
    let mut dm = DataManager::new();
    assert_eq!(dm.clone_reset_reason(), None);
    dm.set_reset_reason(ResetReason::PowerOnReset);
    assert_eq!(dm.clone_reset_reason(), Some(ResetReason::PowerOnReset));
    let _ = dm.take_sensors();
    assert_eq!(dm.clone_reset_reason(), Some(ResetReason::PowerOnReset));
}

#[test]
fn clone_states_reflects_current_state() {
    let mut dm = DataManager::new();
    assert_eq!(dm.clone_states(), [None]);
    dm.handle_data(Message::new(stamp(), 4, Data::State(State::new(StateData::Descent))));
    assert_eq!(dm.clone_states(), [Some(StateData::Descent)]);
}

#[test]
fn madgwick_result_lands_in_its_own_slot() {
    let mut dm = DataManager::new();
    let msg = air_message();
    dm.store_madgwick_result(msg.clone());
    assert_eq!(dm.madgwick_quat, Some(msg));
    assert!(dm.ekf_quat.is_none());
}

#[test]
fn baro_store_sets_and_clears_pairwise() {
    let mut dm = DataManager::new();
    dm.set_baro(Some((2007, 100009)));
    assert_eq!(dm.baro_temperature, Some(2007));
    assert_eq!(dm.baro_pressure, Some(100009));
    dm.set_baro(None);
    assert_eq!(dm.baro_temperature, None);
    assert_eq!(dm.baro_pressure, None);
}

#[test]
fn default_matches_new() {
    let dm = DataManager::default();
    assert_eq!(dm.logging_rate, Some(RadioRate::Slow));
    assert!(dm.air.is_none());
    assert!(!dm.sleep_requested);
}

#[test]
fn rate_delay_values() {
    assert_eq!(phoenix::rate_delay_millis(RadioRate::Fast), 100);
    assert_eq!(phoenix::rate_delay_millis(RadioRate::Slow), 250);
}
