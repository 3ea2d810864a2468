//! Tests for the barometer driver: bring-up over a scripted bus, raw reads,
//! and the exact compensation arithmetic.

use phoenix::ms5611::{
    compensate, CalibrationCoefficients, ChipSelect, DelayUs, Error, Ms5611, OversamplingRatio,
    SpiBus,
};

/// A scripted SPI device: records written command bytes and answers each
/// transfer with the next canned response.
struct MockSpi {
    written: Vec<u8>,
    responses: Vec<Vec<u8>>,
    next: usize,
}

impl MockSpi {
    fn new(responses: Vec<Vec<u8>>) -> MockSpi {
        MockSpi { written: Vec::new(), responses, next: 0 }
    }
}

impl SpiBus for MockSpi {
    type BusError = ();

    fn write_byte(&mut self, byte: u8) -> Result<(), ()> {
        self.written.push(byte);
        Ok(())
    }

    fn transfer(&mut self, data: &mut Vec<u8>) -> Result<(), ()> {
        let response = &self.responses[self.next];
        self.next += 1;
        for (slot, b) in data.iter_mut().zip(response.iter()) {
            *slot = *b;
        }
        Ok(())
    }
}

struct MockCs {
    transitions: u32,
}

impl ChipSelect for MockCs {
    type PinError = ();

    fn set_low(&mut self) -> Result<(), ()> {
        self.transitions += 1;
        Ok(())
    }

    fn set_high(&mut self) -> Result<(), ()> {
        self.transitions += 1;
        Ok(())
    }
}

struct MockDelay {
    total_us: u64,
}

impl DelayUs for MockDelay {
    fn delay_us(&mut self, us: u32) {
        self.total_us += us as u64;
    }
}

/// PROM responses for the datasheet's example coefficients.
fn prom_responses() -> Vec<Vec<u8>> {
    [40127u16, 36924, 23317, 23282, 33464, 28312]
        .iter()
        .map(|c| vec![(c >> 8) as u8, (c & 0xff) as u8])
        .collect()
}

fn new_sensor(extra: Vec<Vec<u8>>) -> Ms5611<MockSpi, MockCs, MockDelay> {
    let mut responses = prom_responses();
    responses.extend(extra);
    Ms5611::new(MockSpi::new(responses), MockCs { transitions: 0 }, MockDelay { total_us: 0 })
        .expect("bring-up over a healthy bus succeeds")
}

#[test]
fn example_test() {
    let sensor = new_sensor(Vec::new());
    assert_eq!(
        sensor.coefficients,
        CalibrationCoefficients {
            c1_sens_t1: 40127,
            c2_off_t1: 36924,
            c3_tcs: 23317,
            c4_tco: 23282,
            c5_t_ref: 33464,
            c6_temp_sens: 28312,
        }
    );
}

#[test]
fn bring_up_fails_outright_on_bus_error() {
    struct BrokenSpi;
    impl SpiBus for BrokenSpi {
        type BusError = u8;
        fn write_byte(&mut self, _byte: u8) -> Result<(), u8> {
            Err(7)
        }
        fn transfer(&mut self, _data: &mut Vec<u8>) -> Result<(), u8> {
            Err(7)
        }
    }
    match Ms5611::new(BrokenSpi, MockCs { transitions: 0 }, MockDelay { total_us: 0 }) {
        Err(Error::Spi(7)) => (),
        Err(_) => panic!("expected the bus error to surface"),
        Ok(_) => panic!("a dead bus must not yield a device"),
    }
}

#[test]
fn raw_reads_use_commands_and_wait() {
    // One temperature then one pressure read; ADC answers 0x7f0001 and
    // 0x123456 (first response byte is clocked out during the command).
    let mut sensor = new_sensor(vec![
        vec![0x00, 0x7f, 0x00, 0x01],
        vec![0x00, 0x12, 0x34, 0x56],
    ]);
    let d2 = sensor.read_raw_temperature(OversamplingRatio::Osr512).unwrap();
    assert_eq!(d2, 0x7f0001);
    let d1 = sensor.read_raw_pressure(OversamplingRatio::Osr4096).unwrap();
    assert_eq!(d1, 0x123456);
    // The conversion commands for those ratios went out, after the reset
    // and the six PROM reads.
    assert_eq!(sensor.spi.written[0], 0x1e);
    assert_eq!(sensor.spi.written[7], 0x52); // temperature at 512
    assert_eq!(sensor.spi.written[8], 0x48); // pressure at 4096
    // Both conversion waits were honoured (plus bring-up delays).
    assert_eq!(sensor.delay.total_us, 100 + 3000 + 1170 + 9040);
}

#[test]
fn oversampling_tables() {
    let ratios = [
        (OversamplingRatio::Osr256, 0x40, 0x50, 600),
        (OversamplingRatio::Osr512, 0x42, 0x52, 1170),
        (OversamplingRatio::Osr1024, 0x44, 0x54, 2280),
        (OversamplingRatio::Osr2048, 0x46, 0x56, 4540),
        (OversamplingRatio::Osr4096, 0x48, 0x58, 9040),
    ];
    for (osr, d1_cmd, d2_cmd, wait) in ratios {
        assert_eq!(osr.pressure_command(), d1_cmd);
        assert_eq!(osr.temperature_command(), d2_cmd);
        assert_eq!(osr.conversion_time_us(), wait);
    }
}

#[test]
fn compensation_matches_datasheet_example() {
    let c = CalibrationCoefficients {
        c1_sens_t1: 40127,
        c2_off_t1: 36924,
        c3_tcs: 23317,
        c4_tco: 23282,
        c5_t_ref: 33464,
        c6_temp_sens: 28312,
    };
    // 20.07 degrees Celsius and 1000.09 millibar.
    assert_eq!(compensate(c, 9085466, 8569150), Some((2007, 100009)));
}

#[test]
fn compensation_is_deterministic() {
    let c = CalibrationCoefficients {
        c1_sens_t1: 40127,
        c2_off_t1: 36924,
        c3_tcs: 23317,
        c4_tco: 23282,
        c5_t_ref: 33464,
        c6_temp_sens: 28312,
    };
    let first = compensate(c, 9085466, 8569150);
    let second = compensate(c, 9085466, 8569150);
    assert_eq!(first, second);
    assert_eq!(first, Some((2007, 100009)));
}

#[test]
fn second_order_skipped_at_exactly_twenty_degrees() {
    // c6 = 0 pins the first-order temperature at exactly 2000; the result
    // is the pure first-order pressure.
    let c = CalibrationCoefficients {
        c1_sens_t1: 1000,
        c2_off_t1: 2000,
        c3_tcs: 3000,
        c4_tco: 4000,
        c5_t_ref: 5000,
        c6_temp_sens: 0,
    };
    assert_eq!(compensate(c, 100000, 1280000), Some((2000, -3953)));
}

#[test]
fn second_order_active_below_twenty_degrees() {
    // dT = -2^23 and c6 = 1 give a first-order temperature of 1999: the
    // quadratic correction applies.
    let c = CalibrationCoefficients {
        c1_sens_t1: 0,
        c2_off_t1: 0,
        c3_tcs: 0,
        c4_tco: 0,
        c5_t_ref: 32768,
        c6_temp_sens: 1,
    };
    assert_eq!(compensate(c, 0, 0), Some((-30769, 0)));
}

#[test]
fn low_temperature_tier_boundary() {
    // First-order temperature of exactly -1500: only the base second-order
    // terms apply.
    let at_boundary = CalibrationCoefficients {
        c1_sens_t1: 0,
        c2_off_t1: 0,
        c3_tcs: 0,
        c4_tco: 0,
        c5_t_ref: 32768,
        c6_temp_sens: 3500,
    };
    assert_eq!(compensate(at_boundary, 0, 0), Some((-34268, 934)));
    // One centidegree colder: the extra low-temperature terms join in.
    let below = CalibrationCoefficients { c6_temp_sens: 3501, ..at_boundary };
    assert_eq!(compensate(below, 0, 0), Some((-34269, 935)));
}

#[test]
fn full_reading_cycle_compensates() {
    // Datasheet raw values, big-endian, answered after the PROM reads.
    let mut sensor = new_sensor(vec![
        vec![0x00, 0x82, 0xc1, 0x3e], // D2 = 8569150
        vec![0x00, 0x8a, 0xa2, 0x1a], // D1 = 9085466
    ]);
    assert_eq!(
        sensor.read_pressure_temperature(OversamplingRatio::Osr1024).ok(),
        Some((2007, 100009))
    );
}
