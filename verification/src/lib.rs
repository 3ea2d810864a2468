//! Flight-computer core for a rocket avionics unit.
//!
//! The crate gathers the pieces of the flight software that have real
//! algorithmic content: the central latest-value data store, the compact
//! binary message codec shared by the CAN bus and the radio link, the
//! ground-link framing with its sequence numbering, the barometer
//! compensation arithmetic, the validity-gated conversion of raw inertial
//! log records into sensor samples, and the bookkeeping around the
//! orientation filter.  Hardware access (SPI, CAN controllers, UART) stays
//! behind small traits or outside the crate entirely.

use vstd::prelude::*;

pub mod can;
pub mod codec;
pub mod conversions;
pub mod data_manager;
pub mod error_manager;
pub mod madgwick_service;
pub mod messages;
pub mod ms5611;
pub mod radio;
pub mod sensor_status;
pub mod wire;

verus! {

/// The pause in milliseconds between telemetry rounds at each radio rate,
/// used to pace the periodic sensor-send task.
pub fn rate_delay_millis(rate: messages::RadioRate) -> (r: u32)
    ensures
        r == (match rate {
            messages::RadioRate::Fast => 100u32,
            messages::RadioRate::Slow => 250u32,
        }),
{
    match rate {
        messages::RadioRate::Fast => 100,
        messages::RadioRate::Slow => 250,
    }
}

} // verus!
