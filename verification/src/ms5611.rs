//! Driver for the MS5611 barometric pressure sensor.
//!
//! The sensor sits on an SPI bus behind a chip-select pin; both, and the
//! delay source, are abstracted by the small traits below so that the
//! sequencing and arithmetic here are checked independently of any
//! particular hardware.  Bring-up reads six factory calibration
//! coefficients from the sensor's PROM; every reading then converts a
//! 24-bit raw pressure and temperature pair through the datasheet's
//! two-stage compensation formula, carried out exactly in integers: the
//! result is centidegrees Celsius and hundredths of a millibar.

use vstd::prelude::*;

verus! {

/// Command byte: reset the sensor.
pub const CMD_RESET: u8 = 0x1e;

/// Command byte: read the 24-bit ADC result.
pub const CMD_ADC_READ: u8 = 0x00;

/// First PROM read command; coefficient `i` (1 to 6) is at `0xa0 + 2 * i`.
pub const CMD_PROM_READ_C1: u8 = 0xa2;

/// Oversampling ratio options.  Higher ratios give higher precision but
/// longer conversion times and higher power consumption.
#[derive(Clone, Copy, PartialEq, Eq, Structural, Debug)]
pub enum OversamplingRatio {
    /// 256 samples, about 0.60 ms conversion time.
    Osr256,
    /// 512 samples, about 1.17 ms conversion time.
    Osr512,
    /// 1024 samples, about 2.28 ms conversion time.
    Osr1024,
    /// 2048 samples, about 4.54 ms conversion time.
    Osr2048,
    /// 4096 samples, about 9.04 ms conversion time.
    Osr4096,
}

impl OversamplingRatio {
    /// Command byte starting a pressure (D1) conversion at this ratio.
    pub fn pressure_command(self) -> (r: u8)
        ensures
            r == (match self {
                OversamplingRatio::Osr256 => 0x40u8,
                OversamplingRatio::Osr512 => 0x42u8,
                OversamplingRatio::Osr1024 => 0x44u8,
                OversamplingRatio::Osr2048 => 0x46u8,
                OversamplingRatio::Osr4096 => 0x48u8,
            }),
    {
        match self {
            OversamplingRatio::Osr256 => 0x40,
            OversamplingRatio::Osr512 => 0x42,
            OversamplingRatio::Osr1024 => 0x44,
            OversamplingRatio::Osr2048 => 0x46,
            OversamplingRatio::Osr4096 => 0x48,
        }
    }

    /// Command byte starting a temperature (D2) conversion at this ratio.
    pub fn temperature_command(self) -> (r: u8)
        ensures
            r == (match self {
                OversamplingRatio::Osr256 => 0x50u8,
                OversamplingRatio::Osr512 => 0x52u8,
                OversamplingRatio::Osr1024 => 0x54u8,
                OversamplingRatio::Osr2048 => 0x56u8,
                OversamplingRatio::Osr4096 => 0x58u8,
            }),
    {
        match self {
            OversamplingRatio::Osr256 => 0x50,
            OversamplingRatio::Osr512 => 0x52,
            OversamplingRatio::Osr1024 => 0x54,
            OversamplingRatio::Osr2048 => 0x56,
            OversamplingRatio::Osr4096 => 0x58,
        }
    }

    /// Maximum conversion time in microseconds at this ratio, from the
    /// datasheet.
    pub fn conversion_time_us(self) -> (r: u32)
        ensures
            r == (match self {
                OversamplingRatio::Osr256 => 600u32,
                OversamplingRatio::Osr512 => 1170u32,
                OversamplingRatio::Osr1024 => 2280u32,
                OversamplingRatio::Osr2048 => 4540u32,
                OversamplingRatio::Osr4096 => 9040u32,
            }),
    {
        match self {
            OversamplingRatio::Osr256 => 600,
            OversamplingRatio::Osr512 => 1_170,
            OversamplingRatio::Osr1024 => 2_280,
            OversamplingRatio::Osr2048 => 4_540,
            OversamplingRatio::Osr4096 => 9_040,
        }
    }
}

/// Factory calibration coefficients read once from the PROM at bring-up
/// and immutable afterwards.
#[derive(Clone, Copy, PartialEq, Eq, Structural, Debug)]
pub struct CalibrationCoefficients {
    /// C1: pressure sensitivity.
    pub c1_sens_t1: u16,
    /// C2: pressure offset.
    pub c2_off_t1: u16,
    /// C3: temperature coefficient of pressure sensitivity.
    pub c3_tcs: u16,
    /// C4: temperature coefficient of pressure offset.
    pub c4_tco: u16,
    /// C5: reference temperature.
    pub c5_t_ref: u16,
    /// C6: temperature coefficient of the temperature.
    pub c6_temp_sens: u16,
}

/// Driver error.
#[derive(Debug)]
pub enum Error<SPIE, CSE> {
    /// SPI communication error.
    Spi(SPIE),
    /// Chip-select pin error.
    Cs(CSE),
    /// CRC check failed on PROM data.
    CrcError,
    /// The compensation arithmetic left the representable range — a guard
    /// against coefficient corruption or raw-value overflow propagating
    /// downstream.
    CalculationFault,
}

/// The only failures a bus transaction can report: the SPI bus or the
/// chip-select pin, never a CRC or calculation fault.
pub open spec fn spec_is_bus_fault<SPIE, CSE>(e: Error<SPIE, CSE>) -> bool {
    e matches Error::Spi(_) || e matches Error::Cs(_)
}

/// An SPI bus as the driver needs it: write one command byte, or clock a
/// buffer through in place.  Implementations come from outside the
/// library; nothing about the transferred data is assumed beyond its
/// length staying fixed.
pub trait SpiBus {
    type BusError;

    /// Writes one command byte to the device.
    fn write_byte(&mut self, byte: u8) -> Result<(), Self::BusError>;

    /// Full-duplex transfer: sends the buffer's bytes and replaces them
    /// with what the device answers.
    fn transfer(&mut self, data: &mut Vec<u8>) -> (r: Result<(), Self::BusError>)
        ensures
            final(data)@.len() == old(data)@.len(),
    ;
}

/// The chip-select output pin framing every transaction.
pub trait ChipSelect {
    type PinError;

    /// Drives the pin low, opening a transaction.
    fn set_low(&mut self) -> Result<(), Self::PinError>;

    /// Drives the pin high, closing a transaction.
    fn set_high(&mut self) -> Result<(), Self::PinError>;
}

/// A blocking microsecond delay source.
pub trait DelayUs {
    /// Waits at least `us` microseconds.
    fn delay_us(&mut self, us: u32);
}

/// First-order temperature difference: `dT = D2 - C5 * 2^8`.
pub open spec fn spec_dt(c: CalibrationCoefficients, d2_raw: u32) -> int {
    d2_raw - c.c5_t_ref * 0x100
}

/// First-order temperature in centidegrees: `TEMP = 2000 + dT * C6 / 2^23`.
pub open spec fn spec_temp_first_order(c: CalibrationCoefficients, d2_raw: u32) -> int {
    2000 + ((((spec_dt(c, d2_raw) * c.c6_temp_sens) as i64) >> 23) as int)
}

/// Second-order temperature correction, active only below 20.00 degrees.
pub open spec fn spec_t2(c: CalibrationCoefficients, d2_raw: u32) -> int {
    if spec_temp_first_order(c, d2_raw) < 2000 {
        (((spec_dt(c, d2_raw) * spec_dt(c, d2_raw)) as i64) >> 31) as int
    } else {
        0
    }
}

/// Second-order offset correction, with the extra tier that activates
/// below -15.00 degrees.
pub open spec fn spec_off2(c: CalibrationCoefficients, d2_raw: u32) -> int {
    let temp = spec_temp_first_order(c, d2_raw);
    if temp < 2000 {
        let base = (((5 * ((temp - 2000) * (temp - 2000))) as i64) >> 1) as int;
        if temp < -1500 {
            base + 7 * ((temp + 1500) * (temp + 1500))
        } else {
            base
        }
    } else {
        0
    }
}

/// Second-order sensitivity correction, with the extra tier that activates
/// below -15.00 degrees.
pub open spec fn spec_sens2(c: CalibrationCoefficients, d2_raw: u32) -> int {
    let temp = spec_temp_first_order(c, d2_raw);
    if temp < 2000 {
        let base = (((5 * ((temp - 2000) * (temp - 2000))) as i64) >> 2) as int;
        if temp < -1500 {
            base + ((((11 * ((temp + 1500) * (temp + 1500))) as i64) >> 1) as int)
        } else {
            base
        }
    } else {
        0
    }
}

/// First-order pressure offset: `OFF = C2 * 2^16 + C4 * dT / 2^7`.
pub open spec fn spec_off(c: CalibrationCoefficients, d2_raw: u32) -> int {
    c.c2_off_t1 * 0x10000 + ((((c.c4_tco * spec_dt(c, d2_raw)) as i64) >> 7) as int)
}

/// First-order pressure sensitivity: `SENS = C1 * 2^15 + C3 * dT / 2^8`.
pub open spec fn spec_sens(c: CalibrationCoefficients, d2_raw: u32) -> int {
    c.c1_sens_t1 * 0x8000 + ((((c.c3_tcs * spec_dt(c, d2_raw)) as i64) >> 8) as int)
}

/// The whole compensation: calibrated temperature in centidegrees Celsius
/// and pressure in hundredths of a millibar, or nothing when the pressure
/// product leaves the 64-bit range (the calculation-fault case).
pub open spec fn spec_compensate(c: CalibrationCoefficients, d1_raw: u32, d2_raw: u32) -> Option<
    (i32, i32),
> {
    let temp = spec_temp_first_order(c, d2_raw) - spec_t2(c, d2_raw);
    let off_compensated = spec_off(c, d2_raw) - spec_off2(c, d2_raw);
    let sens_compensated = spec_sens(c, d2_raw) - spec_sens2(c, d2_raw);
    let prod = d1_raw * sens_compensated;
    if prod > i64::MAX || prod < i64::MIN {
        None
    } else {
        let p = (((((prod as i64) >> 21) - off_compensated) as i64) >> 15) as int;
        Some((temp as i32, p as i32))
    }
}

/// Calculates compensated temperature and pressure from raw 24-bit ADC
/// values and the calibration coefficients, following the datasheet's
/// first- and second-order formulas exactly in integer arithmetic.
///
/// Returns `(centidegrees Celsius, hundredths of a millibar)`, or `None`
/// exactly when the pressure product overflows 64 bits.  The result is a
/// pure function of the inputs: the same coefficients and raw readings
/// always reproduce the same pair, bit for bit.
pub fn compensate(c: CalibrationCoefficients, d1_raw: u32, d2_raw: u32) -> (r: Option<(i32, i32)>)
    requires
        d1_raw < 0x1000000,
        d2_raw < 0x1000000,
    ensures
        r == spec_compensate(c, d1_raw, d2_raw),
{
    let c1 = c.c1_sens_t1 as i64;
    let c2 = c.c2_off_t1 as i64;
    let c3 = c.c3_tcs as i64;
    let c4 = c.c4_tco as i64;
    let c5 = c.c5_t_ref as i64;
    let c6 = c.c6_temp_sens as i64;
    let d1 = d1_raw as i64;
    let d2 = d2_raw as i64;

    // dT = D2 - C5 * 2^8
    assert(c5 << 8u64 == c5 * 0x100 && 0 <= c5 << 8u64 < 0x1000000) by (bit_vector)
        requires
            0 <= c5 < 0x10000,
    ;
    let c5_shifted = c5 << 8u64;
    let dt = d2 - c5_shifted;
    assert(dt == spec_dt(c, d2_raw));
    assert(-0x1000000 < dt < 0x1000000);

    // TEMP = 2000 + dT * C6 / 2^23
    assert(-0x10000000000 < dt * c6 < 0x10000000000) by (nonlinear_arith)
        requires
            -0x1000000 < dt < 0x1000000 && 0 <= c6 < 0x10000,
    ;
    let p_temp = dt * c6;
    assert(-0x20000 <= p_temp >> 23u64 <= 0x20000) by (bit_vector)
        requires
            -0x10000000000 < p_temp < 0x10000000000,
    ;
    let s_temp = p_temp >> 23u64;
    let temp_i32 = (2000 + s_temp) as i32;

    // OFF = C2 * 2^16 + C4 * dT / 2^7
    assert(c2 << 16u64 == c2 * 0x10000 && 0 <= c2 << 16u64 <= 0xffff0000) by (bit_vector)
        requires
            0 <= c2 < 0x10000,
    ;
    let c2_shifted = c2 << 16u64;
    assert(-0x10000000000 < c4 * dt < 0x10000000000) by (nonlinear_arith)
        requires
            -0x1000000 < dt < 0x1000000 && 0 <= c4 < 0x10000,
    ;
    let p_off = c4 * dt;
    assert(-0x200000000 <= p_off >> 7u64 <= 0x200000000) by (bit_vector)
        requires
            -0x10000000000 < p_off < 0x10000000000,
    ;
    let s_off = p_off >> 7u64;
    let off = c2_shifted + s_off;

    // SENS = C1 * 2^15 + C3 * dT / 2^8
    assert(c1 << 15u64 == c1 * 0x8000 && 0 <= c1 << 15u64 <= 0x7fff8000) by (bit_vector)
        requires
            0 <= c1 < 0x10000,
    ;
    let c1_shifted = c1 << 15u64;
    assert(-0x10000000000 < c3 * dt < 0x10000000000) by (nonlinear_arith)
        requires
            -0x1000000 < dt < 0x1000000 && 0 <= c3 < 0x10000,
    ;
    let p_sens = c3 * dt;
    assert(-0x100000000 <= p_sens >> 8u64 <= 0x100000000) by (bit_vector)
        requires
            -0x10000000000 < p_sens < 0x10000000000,
    ;
    let s_sens = p_sens >> 8u64;
    let sens = c1_shifted + s_sens;

    // Second-order temperature compensation, active below 20.00 degC.
    let mut temp = temp_i32 as i64;
    let mut off2: i64 = 0;
    let mut sens2: i64 = 0;
    let mut t2: i64 = 0;

    if temp < 2000 {
        // T2 = dT^2 / 2^31
        assert(0 <= dt * dt < 0x1000000000000) by (nonlinear_arith)
            requires
                -0x1000000 < dt < 0x1000000,
        ;
        let p_t2 = dt * dt;
        assert(0 <= p_t2 >> 31u64 <= 0x20000) by (bit_vector)
            requires
                0 <= p_t2 < 0x1000000000000,
        ;
        t2 = p_t2 >> 31u64;

        // OFF2 = 5 * (TEMP - 2000)^2 / 2; SENS2 = 5 * (TEMP - 2000)^2 / 4
        let temp_diff = temp - 2000;
        assert(0 <= temp_diff * temp_diff < 0x500000000) by (nonlinear_arith)
            requires
                -0x20001 <= temp_diff < 0,
        ;
        let temp_diff_sq = temp_diff * temp_diff;
        let p_off2 = 5 * temp_diff_sq;
        assert(0 <= p_off2 >> 1u64 <= 0x1900000000 && 0 <= p_off2 >> 2u64 <= 0x1900000000)
            by (bit_vector)
            requires
                0 <= p_off2 < 0x1900000000,
        ;
        off2 = p_off2 >> 1u64;
        sens2 = p_off2 >> 2u64;

        if temp < -1500 {
            // OFF2 += 7 * (TEMP + 1500)^2; SENS2 += 11 * (TEMP + 1500)^2 / 2
            let temp_low = temp + 1500;
            assert(0 <= temp_low * temp_low < 0x500000000) by (nonlinear_arith)
                requires
                    -0x20000 <= temp_low < 0,
            ;
            let temp_low_sq = temp_low * temp_low;
            off2 = off2 + 7 * temp_low_sq;
            let p_sens2 = 11 * temp_low_sq;
            assert(0 <= p_sens2 >> 1u64 <= 0x3700000000) by (bit_vector)
                requires
                    0 <= p_sens2 < 0x3700000000,
            ;
            let s_sens2 = p_sens2 >> 1u64;
            sens2 = sens2 + s_sens2;
        }
    }

    // Apply second-order corrections.
    temp = temp - t2;
    let off_compensated = off - off2;
    let sens_compensated = sens - sens2;
    assert(temp == spec_temp_first_order(c, d2_raw) - spec_t2(c, d2_raw));
    assert(off_compensated == spec_off(c, d2_raw) - spec_off2(c, d2_raw));
    assert(sens_compensated == spec_sens(c, d2_raw) - spec_sens2(c, d2_raw));
    assert(-0x10000000000 < off_compensated < 0x10000000000);
    assert(-0x10000000000 < sens_compensated < 0x10000000000);

    // P = (D1 * SENS / 2^21 - OFF) / 2^15; the product is the one place
    // where corrupt coefficients could leave 64 bits, so it is checked.
    let prod = match d1.checked_mul(sens_compensated) {
        Some(p) => p,
        None => {
            return None;
        },
    };
    assert(-0x40000000000 <= prod >> 21u64 <= 0x40000000000) by (bit_vector);
    let s_p = prod >> 21u64;
    let diff = s_p - off_compensated;
    assert(-0x10000000 <= diff >> 15u64 <= 0x10000000) by (bit_vector)
        requires
            -0x80000000000 <= diff <= 0x80000000000,
    ;
    let p_i64 = diff >> 15u64;
    let p_i32 = p_i64 as i32;

    Some((temp as i32, p_i32))
}

/// Boundary behaviour of the second-order correction: at a first-order
/// temperature of exactly 2000 (20.00 degrees) the whole second-order
/// branch is skipped; the extra low-temperature tier contributes exactly
/// when the first-order temperature is below -1500 (-15.00 degrees).
pub proof fn lemma_second_order_boundary(c: CalibrationCoefficients, d2_raw: u32)
    ensures
        spec_temp_first_order(c, d2_raw) >= 2000 ==> spec_t2(c, d2_raw) == 0 && spec_off2(
            c,
            d2_raw,
        ) == 0 && spec_sens2(c, d2_raw) == 0,
        ({
            let temp = spec_temp_first_order(c, d2_raw);
            -1500 <= temp < 2000 ==> spec_off2(c, d2_raw) == (((5 * ((temp - 2000) * (temp
                - 2000))) as i64) >> 1) as int
        }),
        ({
            let temp = spec_temp_first_order(c, d2_raw);
            temp < -1500 ==> spec_off2(c, d2_raw) == (((5 * ((temp - 2000) * (temp - 2000))) as i64)
                >> 1) as int + 7 * ((temp + 1500) * (temp + 1500))
        }),
{
}

/// For genuine 24-bit raw readings the compensation never leaves the
/// representable range, whatever the six 16-bit coefficients hold: the
/// calculation-fault guard protects only against corrupt raw values wider
/// than the ADC can produce.
#[verifier::spinoff_prover]
#[verifier::rlimit(100)]
pub proof fn lemma_compensate_in_range_never_faults(
    c: CalibrationCoefficients,
    d1_raw: u32,
    d2_raw: u32,
)
    requires
        d1_raw < 0x1000000,
        d2_raw < 0x1000000,
    ensures
        spec_compensate(c, d1_raw, d2_raw) is Some,
{
    let dt = spec_dt(c, d2_raw);
    assert(-0x1000000 < dt < 0x1000000);

    let p_temp = (dt * c.c6_temp_sens) as i64;
    assert(-0x10000000000 < dt * c.c6_temp_sens < 0x10000000000) by (nonlinear_arith)
        requires
            -0x1000000 < dt < 0x1000000 && 0 <= c.c6_temp_sens < 0x10000,
    ;
    assert(-0x20000 <= p_temp >> 23 <= 0x20000) by (bit_vector)
        requires
            -0x10000000000 < p_temp < 0x10000000000,
    ;
    let temp1 = spec_temp_first_order(c, d2_raw);
    assert(2000 - 0x20000 <= temp1 <= 2000 + 0x20000);

    let p_sens = (c.c3_tcs * dt) as i64;
    assert(-0x10000000000 < c.c3_tcs * dt < 0x10000000000) by (nonlinear_arith)
        requires
            -0x1000000 < dt < 0x1000000 && 0 <= c.c3_tcs < 0x10000,
    ;
    assert(-0x100000000 <= p_sens >> 8 <= 0x100000000) by (bit_vector)
        requires
            -0x10000000000 < p_sens < 0x10000000000,
    ;
    let sens = spec_sens(c, d2_raw);
    assert(-0x100000000 <= sens <= 0x7fff8000 + 0x100000000);

    let sens2 = spec_sens2(c, d2_raw);
    if temp1 < 2000 {
        let temp_diff = temp1 - 2000;
        assert(0 <= temp_diff * temp_diff < 0x500000000) by (nonlinear_arith)
            requires
                -0x20001 <= temp_diff < 0,
        ;
        let p_off2 = (5 * (temp_diff * temp_diff)) as i64;
        assert(0 <= p_off2 >> 2 <= 0x1900000000) by (bit_vector)
            requires
                0 <= p_off2 < 0x1900000000,
        ;
        if temp1 < -1500 {
            let temp_low = temp1 + 1500;
            assert(0 <= temp_low * temp_low < 0x500000000) by (nonlinear_arith)
                requires
                    -0x20000 <= temp_low < 0,
            ;
            let p_sens2 = (11 * (temp_low * temp_low)) as i64;
            assert(0 <= p_sens2 >> 1 <= 0x3700000000) by (bit_vector)
                requires
                    0 <= p_sens2 < 0x3700000000,
            ;
            assert(0 <= sens2 <= 0x1900000000 + 0x3700000000);
        } else {
            assert(0 <= sens2 <= 0x1900000000);
        }
    } else {
        assert(sens2 == 0);
    }
    assert(0 <= sens2 <= 0x5000000000);

    let sens_compensated = sens - sens2;
    assert(-0x6000000000 <= sens_compensated <= 0x6000000000);
    let prod = d1_raw * sens_compensated;
    assert(d1_raw * sens_compensated <= d1_raw * 0x6000000000 && d1_raw * (-0x6000000000)
        <= d1_raw * sens_compensated) by (nonlinear_arith)
        requires
            0 <= d1_raw && -0x6000000000 <= sens_compensated <= 0x6000000000,
    ;
    assert(d1_raw * 0x6000000000 <= 0xffffff * 0x6000000000) by (nonlinear_arith)
        requires
            0 <= d1_raw <= 0xffffff,
    ;
    assert(0xffffff * (-0x6000000000) <= d1_raw * (-0x6000000000)) by (nonlinear_arith)
        requires
            0 <= d1_raw <= 0xffffff,
    ;
    assert(i64::MIN <= prod <= i64::MAX);
}

/// MS5611 driver: the SPI bus, the chip-select pin, the delay source, and
/// the calibration coefficients read once at bring-up.
pub struct Ms5611<SPI, CS, DELAY> {
    pub spi: SPI,
    pub cs: CS,
    pub delay: DELAY,
    /// Factory coefficients, fully populated before any conversion is
    /// attempted and immutable afterwards.
    pub coefficients: CalibrationCoefficients,
}

impl<SPI: SpiBus, CS: ChipSelect, DELAY: DelayUs> Ms5611<SPI, CS, DELAY> {
    /// Creates a new driver instance: raises chip select, resets the
    /// sensor, waits out the reset time, and reads the six calibration
    /// coefficients from the PROM.  A bus or pin failure here is fatal —
    /// construction fails outright rather than yielding a half-initialized
    /// device — and is the only failure bring-up can report: never a CRC
    /// or calculation fault.
    pub fn new(spi: SPI, cs: CS, delay: DELAY) -> (r: Result<Self, Error<
        SPI::BusError,
        CS::PinError,
    >>)
        ensures
            (r matches Err(e) ==> spec_is_bus_fault(e)),
    {
        let mut sensor = Ms5611 {
            spi,
            cs,
            delay,
            coefficients: CalibrationCoefficients {
                c1_sens_t1: 0,
                c2_off_t1: 0,
                c3_tcs: 0,
                c4_tco: 0,
                c5_t_ref: 0,
                c6_temp_sens: 0,
            },
        };
        match sensor.cs.set_high() {
            Ok(_) => (),
            Err(e) => {
                return Err(Error::Cs(e));
            },
        }
        // Small delay after power-up before reset.
        sensor.delay.delay_us(100);
        match sensor.reset() {
            Ok(_) => (),
            Err(e) => {
                return Err(e);
            },
        }
        // Datasheet: wait 2.8 ms (max) after reset.
        sensor.delay.delay_us(3000);
        sensor.coefficients = match sensor.read_coefficients() {
            Ok(c) => c,
            Err(e) => {
                return Err(e);
            },
        };
        Ok(sensor)
    }

    /// Sends the reset command inside one chip-select window.
    fn reset(&mut self) -> (r: Result<(), Error<SPI::BusError, CS::PinError>>)
        ensures
            (r matches Err(e) ==> spec_is_bus_fault(e)),
    {
        match self.cs.set_low() {
            Ok(_) => (),
            Err(e) => {
                return Err(Error::Cs(e));
            },
        }
        match self.spi.write_byte(CMD_RESET) {
            Ok(_) => (),
            Err(e) => {
                return Err(Error::Spi(e));
            },
        }
        match self.cs.set_high() {
            Ok(_) => (),
            Err(e) => {
                return Err(Error::Cs(e));
            },
        }
        Ok(())
    }

    /// Reads one 16-bit big-endian word from the given PROM address.
    fn read_prom_word(&mut self, address_command: u8) -> (r: Result<u16, Error<
        SPI::BusError,
        CS::PinError,
    >>)
        ensures
            (r matches Err(e) ==> spec_is_bus_fault(e)),
    {
        match self.cs.set_low() {
            Ok(_) => (),
            Err(e) => {
                return Err(Error::Cs(e));
            },
        }
        match self.spi.write_byte(address_command) {
            Ok(_) => (),
            Err(e) => {
                return Err(Error::Spi(e));
            },
        }
        // Clock out the two result bytes with dummy writes.
        let mut buffer: Vec<u8> = Vec::new();
        buffer.push(0);
        buffer.push(0);
        match self.spi.transfer(&mut buffer) {
            Ok(_) => (),
            Err(e) => {
                return Err(Error::Spi(e));
            },
        }
        let word = (buffer[0] as u16) * 0x100 + (buffer[1] as u16);
        match self.cs.set_high() {
            Ok(_) => (),
            Err(e) => {
                return Err(Error::Cs(e));
            },
        }
        Ok(word)
    }

    /// Reads all six calibration coefficients from the PROM, in order.
    fn read_coefficients(&mut self) -> (r: Result<CalibrationCoefficients, Error<
        SPI::BusError,
        CS::PinError,
    >>)
        ensures
            (r matches Err(e) ==> spec_is_bus_fault(e)),
    {
        let c1_sens_t1 = match self.read_prom_word(CMD_PROM_READ_C1) {
            Ok(w) => w,
            Err(e) => {
                return Err(e);
            },
        };
        let c2_off_t1 = match self.read_prom_word(CMD_PROM_READ_C1 + 2) {
            Ok(w) => w,
            Err(e) => {
                return Err(e);
            },
        };
        let c3_tcs = match self.read_prom_word(CMD_PROM_READ_C1 + 4) {
            Ok(w) => w,
            Err(e) => {
                return Err(e);
            },
        };
        let c4_tco = match self.read_prom_word(CMD_PROM_READ_C1 + 6) {
            Ok(w) => w,
            Err(e) => {
                return Err(e);
            },
        };
        let c5_t_ref = match self.read_prom_word(CMD_PROM_READ_C1 + 8) {
            Ok(w) => w,
            Err(e) => {
                return Err(e);
            },
        };
        let c6_temp_sens = match self.read_prom_word(CMD_PROM_READ_C1 + 10) {
            Ok(w) => w,
            Err(e) => {
                return Err(e);
            },
        };
        Ok(CalibrationCoefficients {
            c1_sens_t1,
            c2_off_t1,
            c3_tcs,
            c4_tco,
            c5_t_ref,
            c6_temp_sens,
        })
    }

    /// Sends one conversion command inside a chip-select window.
    fn start_conversion(&mut self, command: u8) -> (r: Result<(), Error<
        SPI::BusError,
        CS::PinError,
    >>)
        ensures
            final(self).coefficients == old(self).coefficients,
            (r matches Err(e) ==> spec_is_bus_fault(e)),
    {
        match self.cs.set_low() {
            Ok(_) => (),
            Err(e) => {
                return Err(Error::Cs(e));
            },
        }
        match self.spi.write_byte(command) {
            Ok(_) => (),
            Err(e) => {
                return Err(Error::Spi(e));
            },
        }
        match self.cs.set_high() {
            Ok(_) => (),
            Err(e) => {
                return Err(Error::Cs(e));
            },
        }
        Ok(())
    }

    /// Reads the 24-bit raw ADC result: whatever the device answers, the
    /// value fits in 24 bits.
    fn read_adc_raw(&mut self) -> (r: Result<u32, Error<SPI::BusError, CS::PinError>>)
        ensures
            final(self).coefficients == old(self).coefficients,
            (r matches Ok(v) ==> v < 0x1000000),
            (r matches Err(e) ==> spec_is_bus_fault(e)),
    {
        match self.cs.set_low() {
            Ok(_) => (),
            Err(e) => {
                return Err(Error::Cs(e));
            },
        }
        // Send the ADC read command, then clock out three result bytes.
        let mut buffer: Vec<u8> = Vec::new();
        buffer.push(CMD_ADC_READ);
        buffer.push(0);
        buffer.push(0);
        buffer.push(0);
        match self.spi.transfer(&mut buffer) {
            Ok(_) => (),
            Err(e) => {
                return Err(Error::Spi(e));
            },
        }
        let value = (buffer[1] as u32) * 0x10000 + (buffer[2] as u32) * 0x100 + (buffer[3] as u32);
        match self.cs.set_high() {
            Ok(_) => (),
            Err(e) => {
                return Err(Error::Cs(e));
            },
        }
        Ok(value)
    }

    /// Reads the raw temperature (D2): starts a conversion, waits the
    /// ratio's conversion time, and reads the 24-bit ADC result.  A
    /// failure is always the bus or the pin reporting.
    pub fn read_raw_temperature(&mut self, osr: OversamplingRatio) -> (r: Result<u32, Error<
        SPI::BusError,
        CS::PinError,
    >>)
        ensures
            final(self).coefficients == old(self).coefficients,
            (r matches Ok(v) ==> v < 0x1000000),
            (r matches Err(e) ==> spec_is_bus_fault(e)),
    {
        match self.start_conversion(osr.temperature_command()) {
            Ok(_) => (),
            Err(e) => {
                return Err(e);
            },
        }
        self.delay.delay_us(osr.conversion_time_us());
        self.read_adc_raw()
    }

    /// Reads the raw pressure (D1): starts a conversion, waits the ratio's
    /// conversion time, and reads the 24-bit ADC result.  A failure is
    /// always the bus or the pin reporting.
    pub fn read_raw_pressure(&mut self, osr: OversamplingRatio) -> (r: Result<u32, Error<
        SPI::BusError,
        CS::PinError,
    >>)
        ensures
            final(self).coefficients == old(self).coefficients,
            (r matches Ok(v) ==> v < 0x1000000),
            (r matches Err(e) ==> spec_is_bus_fault(e)),
    {
        match self.start_conversion(osr.pressure_command()) {
            Ok(_) => (),
            Err(e) => {
                return Err(e);
            },
        }
        self.delay.delay_us(osr.conversion_time_us());
        self.read_adc_raw()
    }

    /// Applies the compensation formula to one raw pressure/temperature
    /// pair using this device's coefficients.  Fails with a calculation
    /// fault exactly when the arithmetic leaves the representable range.
    pub fn calculate_compensated_values(&self, d1_raw: u32, d2_raw: u32) -> (r: Result<
        (i32, i32),
        Error<SPI::BusError, CS::PinError>,
    >)
        requires
            d1_raw < 0x1000000,
            d2_raw < 0x1000000,
        ensures
            (match r {
                Ok(v) => spec_compensate(self.coefficients, d1_raw, d2_raw) == Some(v),
                Err(e) => spec_compensate(self.coefficients, d1_raw, d2_raw) is None && (
                e matches Error::CalculationFault),
            }),
    {
        match compensate(self.coefficients, d1_raw, d2_raw) {
            Some(v) => Ok(v),
            None => Err(Error::CalculationFault),
        }
    }

    /// One full reading cycle: temperature conversion, pressure
    /// conversion, then compensation.  Any value handed back is the exact
    /// compensation of two 24-bit raw readings under this device's
    /// coefficients, in centidegrees Celsius and hundredths of a millibar.
    pub fn read_pressure_temperature(&mut self, osr: OversamplingRatio) -> (r: Result<
        (i32, i32),
        Error<SPI::BusError, CS::PinError>,
    >)
        ensures
            final(self).coefficients == old(self).coefficients,
            (r matches Ok(v) ==> exists|d1_raw: u32, d2_raw: u32|
                d1_raw < 0x1000000 && d2_raw < 0x1000000 && #[trigger] spec_compensate(
                    old(self).coefficients,
                    d1_raw,
                    d2_raw,
                ) == Some(v)),
            (r matches Err(e) ==> (spec_is_bus_fault(e) || e matches Error::CalculationFault)),
    {
        let d2_raw = match self.read_raw_temperature(osr) {
            Ok(v) => v,
            Err(e) => {
                return Err(e);
            },
        };
        let d1_raw = match self.read_raw_pressure(osr) {
            Ok(v) => v,
            Err(e) => {
                return Err(e);
            },
        };
        self.calculate_compensated_values(d1_raw, d2_raw)
    }
}

} // verus!
