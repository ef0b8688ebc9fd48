//! Externally configured timing: sample interval, sensor settle delay,
//! and advertising interval.
//!
//! The core never hard-codes these durations into its logic; a profile is
//! injected at startup so one build can trade responsiveness for power.
//! The debug profile samples and advertises quickly; the production
//! profile stretches both to save the battery.

use vstd::prelude::*;

verus! {

/// Milliseconds in one advertising-interval unit are 5/8: the radio
/// counts the interval in units of 0.625 ms.
pub const ADVERTISING_UNIT_NUMERATOR: u64 = 5;

/// Denominator of the advertising-interval unit, see
/// [`ADVERTISING_UNIT_NUMERATOR`].
pub const ADVERTISING_UNIT_DENOMINATOR: u64 = 8;

/// One timing profile: every duration the core's collaborators wait on.
#[derive(Clone, Copy, Debug, PartialEq, Eq, Structural)]
pub struct Timing {
    /// Pause between two temperature sample cycles, in milliseconds.
    pub sample_interval_ms: u64,
    /// Wait after waking the sensor before its temperature register is
    /// read, so its internal conversion can complete, in milliseconds.
    pub settle_delay_ms: u64,
    /// Length of one broadcast window, in radio units of 0.625 ms.
    pub advertising_interval_units: u32,
}

impl Timing {
    /// The responsive profile for development: one sample per second and
    /// a 250 ms advertising interval.
    pub fn debug_profile() -> (timing: Timing)
        ensures
            timing.sample_interval_ms == 1000,
            timing.settle_delay_ms == 250,
            timing.advertising_interval_units == 400,
    {
        Timing { sample_interval_ms: 1000, settle_delay_ms: 250, advertising_interval_units: 400 }
    }

    /// The power-saving profile for production: one sample every thirty
    /// seconds and a 5000 ms advertising interval.
    pub fn production_profile() -> (timing: Timing)
        ensures
            timing.sample_interval_ms == 30000,
            timing.settle_delay_ms == 250,
            timing.advertising_interval_units == 8000,
    {
        Timing { sample_interval_ms: 30000, settle_delay_ms: 250, advertising_interval_units: 8000 }
    }

    /// The advertising interval in milliseconds, rounded down: the radio
    /// unit is 0.625 ms.
    pub fn advertising_interval_ms(&self) -> (ms: u64)
        ensures
            ms == self.advertising_interval_units * ADVERTISING_UNIT_NUMERATOR / (
            ADVERTISING_UNIT_DENOMINATOR as int),
    {
        (self.advertising_interval_units as u64) * ADVERTISING_UNIT_NUMERATOR
            / ADVERTISING_UNIT_DENOMINATOR
    }
}

} // verus!
