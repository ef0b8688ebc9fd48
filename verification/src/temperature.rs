//! The temperature driver: sensor register decoding and the self-healing
//! calibration state machine.
//!
//! The sensor reports temperature as two register bytes: the upper byte's
//! five low bits and the whole lower byte form a 13-bit two's-complement
//! quantity in units of 1/16 degree Celsius. The driver converts that
//! quantity to hundredths of a degree for the broadcast payload.
//!
//! Each sample cycle runs the bus protocol: configure the sensor's
//! resolution if it is not yet calibrated, then wake the sensor, wait for
//! its conversion, read the temperature register, and shut it down again.
//! Any bus error or timeout abandons the cycle, publishes the failure
//! sentinel, and drops the driver back to [`CalibrationState::Uncalibrated`]
//! so the next cycle re-establishes the configuration first. The bus
//! operations themselves are performed by the caller that owns the bus
//! handle; it reports each outcome to the driver as a plain value.

use vstd::arithmetic::div_mod::lemma_fundamental_div_mod_converse;
use vstd::prelude::*;

verus! {

/// Reported in place of a temperature when a read cycle failed: the
/// maximum representable sample, which no successful decode can produce.
pub const TEMPERATURE_SENTINEL: i16 = i16::MAX;

/// The signed 1/16-degree quantity encoded by a raw two-byte register
/// reading: the upper byte is masked to its five low bits, combined with
/// the lower byte, and interpreted as 13-bit two's complement.
pub open spec fn raw_temperature_value(upper: u8, lower: u8) -> int {
    let combined = (upper & 0x1f) * 256 + lower;
    if combined >= 4096 {
        combined - 8192
    } else {
        combined
    }
}

/// Every raw reading decodes to a value representable in 13 signed bits.
pub proof fn lemma_raw_temperature_value_bounds(upper: u8, lower: u8)
    ensures
        -4096 <= raw_temperature_value(upper, lower) <= 4095,
{
    assert(upper & 0x1f <= 31) by (bit_vector);
}

/// Combines the two temperature register bytes into the signed 1/16-degree
/// quantity they encode.
pub fn raw_to_signed(upper: u8, lower: u8) -> (value: i16)
    ensures
        value as int == raw_temperature_value(upper, lower),
        -4096 <= value <= 4095,
{
    proof {
        lemma_raw_temperature_value_bounds(upper, lower);
    }
    assert(upper & 0x1f <= 31) by (bit_vector);
    let masked: u8 = upper & 0x1f;
    let combined: i16 = (masked as i16) * 256 + (lower as i16);
    if combined >= 4096 {
        combined - 8192
    } else {
        combined
    }
}

/// The two register bytes that encode a signed 1/16-degree quantity:
/// its 13-bit two's-complement representation, split into a five-bit
/// upper byte and an eight-bit lower byte.
pub open spec fn raw_bytes_of(value: int) -> (u8, u8) {
    let bits = if value < 0 {
        value + 8192
    } else {
        value
    };
    (((bits / 256) as u8), ((bits % 256) as u8))
}

/// Splits a signed 1/16-degree quantity back into the two register bytes
/// that encode it.
pub fn signed_to_raw(value: i16) -> (bytes: (u8, u8))
    requires
        -4096 <= value <= 4095,
    ensures
        bytes == raw_bytes_of(value as int),
        bytes.0 <= 31,
{
    let bits: u16 = if value < 0 {
        (value + 8192) as u16
    } else {
        value as u16
    };
    let upper: u8 = (bits / 256) as u8;
    let lower: u8 = (bits % 256) as u8;
    (upper, lower)
}

/// Decoding a raw reading and re-encoding the resulting signed quantity
/// reproduces the masked upper byte and the lower byte exactly; in
/// particular the two encodings stand for the same 1/16-degree value.
pub proof fn lemma_raw_round_trip(upper: u8, lower: u8)
    ensures
        raw_bytes_of(raw_temperature_value(upper, lower)) == ((upper & 0x1f), lower),
{
    let masked = (upper & 0x1f) as int;
    assert(upper & 0x1f <= 31) by (bit_vector);
    let combined = masked * 256 + lower;
    let value = raw_temperature_value(upper, lower);
    let bits = if value < 0 {
        value + 8192
    } else {
        value
    };
    assert(bits == combined);
    lemma_fundamental_div_mod_converse(combined, 256, masked, lower as int);
}

/// A signed 1/16-degree quantity expressed in hundredths of a degree,
/// rounded to the nearest hundredth with ties away from zero.
pub open spec fn temperature_hundredths(value: int) -> int {
    let scaled = value * 25;
    if scaled >= 0 {
        (scaled + 2) / 4
    } else {
        -(((-scaled) + 2) / 4)
    }
}

/// Decodes a raw two-byte register reading into hundredths of a degree
/// Celsius.
pub fn raw_to_temperature(upper: u8, lower: u8) -> (hundredths: i16)
    ensures
        hundredths as int == temperature_hundredths(raw_temperature_value(upper, lower)),
        -25600 <= hundredths <= 25594,
{
    let value: i16 = raw_to_signed(upper, lower);
    if value >= 0 {
        let scaled: u32 = (value as u32) * 25;
        ((scaled + 2) / 4) as i16
    } else {
        let magnitude: u32 = (-(value as i32)) as u32;
        let scaled: u32 = magnitude * 25;
        -(((scaled + 2) / 4) as i16)
    }
}

/// Whether the sensor's resolution register has been configured since the
/// last bus error.
#[derive(Clone, Copy, Debug, PartialEq, Eq, Structural)]
pub enum CalibrationState {
    /// The resolution is not configured; the next cycle must write it
    /// before reading.
    Uncalibrated,
    /// The resolution write succeeded; cycles read the temperature
    /// register directly.
    Calibrated,
}

/// The driver's state after the resolution-configuration write: calibrated
/// exactly when the write succeeded.
pub open spec fn configure_step(ok: bool) -> CalibrationState {
    if ok {
        CalibrationState::Calibrated
    } else {
        CalibrationState::Uncalibrated
    }
}

/// The driver's state after a wake/read/shutdown sequence whose register
/// bytes were `bytes` (`None` for a bus error or timeout at any step).
pub open spec fn read_step_state(bytes: Option<(u8, u8)>) -> CalibrationState {
    if bytes is Some {
        CalibrationState::Calibrated
    } else {
        CalibrationState::Uncalibrated
    }
}

/// The sample a read step publishes: the decoded temperature in hundredths
/// of a degree, or the failure sentinel if the read failed.
pub open spec fn read_step_value(bytes: Option<(u8, u8)>) -> int {
    match bytes {
        Some((upper, lower)) => temperature_hundredths(raw_temperature_value(upper, lower)),
        None => TEMPERATURE_SENTINEL as int,
    }
}

/// The driver's state after one whole sample cycle: a configuration write
/// first if `state` is uncalibrated (a failure there abandons the cycle),
/// then the read sequence.
pub open spec fn cycle_next_state(
    state: CalibrationState,
    configure_ok: bool,
    read_bytes: Option<(u8, u8)>,
) -> CalibrationState {
    if state is Uncalibrated && !configure_ok {
        CalibrationState::Uncalibrated
    } else {
        read_step_state(read_bytes)
    }
}

/// The sample one whole sample cycle publishes to the mailbox: the decoded
/// temperature on success, the failure sentinel on any bus error.
pub open spec fn cycle_publishes(
    state: CalibrationState,
    configure_ok: bool,
    read_bytes: Option<(u8, u8)>,
) -> int {
    if state is Uncalibrated && !configure_ok {
        TEMPERATURE_SENTINEL as int
    } else {
        read_step_value(read_bytes)
    }
}

/// The calibration state machine of the temperature driver. The caller
/// owns the sensor bus handle; it asks the driver what the cycle needs,
/// performs the bus operations, and reports their outcomes back.
#[derive(Clone, Copy, Debug, PartialEq, Eq, Structural)]
pub struct TemperatureDriver {
    /// Whether the sensor is configured; drives what the next cycle does.
    pub state: CalibrationState,
}

impl TemperatureDriver {
    /// A fresh driver: the sensor's resolution has never been written, so
    /// the first cycle starts with a configuration write.
    pub fn new() -> (driver: TemperatureDriver)
        ensures
            driver.state is Uncalibrated,
    {
        TemperatureDriver { state: CalibrationState::Uncalibrated }
    }

    /// Whether the current cycle must begin with a resolution-configuration
    /// write.
    pub fn must_configure(&self) -> (needed: bool)
        ensures
            needed == (self.state is Uncalibrated),
    {
        match self.state {
            CalibrationState::Uncalibrated => true,
            CalibrationState::Calibrated => false,
        }
    }

    /// Records the outcome of the resolution-configuration write. On
    /// success the driver is calibrated and the cycle goes on to the read
    /// sequence; on failure the cycle is abandoned and the returned
    /// sentinel is this cycle's published sample.
    pub fn after_configuration(&mut self, ok: bool) -> (aborted: Option<i16>)
        requires
            old(self).state is Uncalibrated,
        ensures
            final(self).state == configure_step(ok),
            aborted == if ok {
                Option::<i16>::None
            } else {
                Some(TEMPERATURE_SENTINEL)
            },
    {
        if ok {
            self.state = CalibrationState::Calibrated;
            None
        } else {
            Some(TEMPERATURE_SENTINEL)
        }
    }

    /// Records the outcome of the wake/read/shutdown sequence and returns
    /// the sample to publish for this cycle. A failed read publishes the
    /// sentinel and forces re-configuration on the next cycle.
    pub fn after_read(&mut self, bytes: Option<(u8, u8)>) -> (published: i16)
        requires
            old(self).state is Calibrated,
        ensures
            final(self).state == read_step_state(bytes),
            published as int == read_step_value(bytes),
    {
        match bytes {
            Some((upper, lower)) => {
                self.state = CalibrationState::Calibrated;
                raw_to_temperature(upper, lower)
            },
            None => {
                self.state = CalibrationState::Uncalibrated;
                TEMPERATURE_SENTINEL
            },
        }
    }
}

/// After any bus error during a sample cycle — a failed configuration
/// write or a failed read sequence — the driver leaves the cycle
/// uncalibrated and publishes the sentinel, so the very next cycle
/// performs a resolution-configuration write before attempting another
/// temperature read.
pub proof fn lemma_bus_error_forces_reconfiguration(
    state: CalibrationState,
    configure_ok: bool,
    read_bytes: Option<(u8, u8)>,
)
    requires
        (state is Uncalibrated && !configure_ok) || read_bytes is None,
    ensures
        cycle_next_state(state, configure_ok, read_bytes) is Uncalibrated,
        cycle_publishes(state, configure_ok, read_bytes) == TEMPERATURE_SENTINEL as int,
{
}

} // verus!
