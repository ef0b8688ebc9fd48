use tempsys::temperature::{
    raw_to_signed, raw_to_temperature, signed_to_raw, CalibrationState, TemperatureDriver,
    TEMPERATURE_SENTINEL,
};

#[test]
fn decode_zero_reading() {
    assert_eq!(raw_to_signed(0x00, 0x00), 0);
    assert_eq!(raw_to_temperature(0x00, 0x00), 0);
}

#[test]
fn decode_datasheet_positive_reading() {
    // 0x0190 = 400 sixteenths = 25.00 degrees
    assert_eq!(raw_to_signed(0x01, 0x90), 400);
    assert_eq!(raw_to_temperature(0x01, 0x90), 2500);
}

#[test]
fn decode_eighty_degrees() {
    // 0x0500 = 1280 sixteenths = 80.00 degrees
    assert_eq!(raw_to_signed(0x05, 0x00), 1280);
    assert_eq!(raw_to_temperature(0x05, 0x00), 8000);
}

#[test]
fn decode_negative_reading() {
    // 0x1ff0 = -16 sixteenths = -1.00 degrees
    assert_eq!(raw_to_signed(0x1f, 0xf0), -16);
    assert_eq!(raw_to_temperature(0x1f, 0xf0), -100);
}

#[test]
fn decode_quarter_degree_below_zero() {
    // 0x1ffc = -4 sixteenths = -0.25 degrees
    assert_eq!(raw_to_signed(0x1f, 0xfc), -4);
    assert_eq!(raw_to_temperature(0x1f, 0xfc), -25);
}

#[test]
fn decode_rounds_to_nearest_hundredth() {
    // 7 sixteenths = 43.75 hundredths, rounded to 44
    assert_eq!(raw_to_temperature(0x00, 0x07), 44);
    // -7 sixteenths rounds away from zero to -44
    assert_eq!(raw_to_temperature(0x1f, 0xf9), -44);
}

#[test]
fn decode_ignores_flag_bits_in_upper_byte() {
    // Bits above the five significant ones do not change the value.
    assert_eq!(raw_to_signed(0xe1, 0x90), raw_to_signed(0x01, 0x90));
    assert_eq!(raw_to_temperature(0xe1, 0x90), 2500);
}

#[test]
fn decode_extremes() {
    assert_eq!(raw_to_signed(0x0f, 0xff), 4095);
    assert_eq!(raw_to_temperature(0x0f, 0xff), 25594);
    assert_eq!(raw_to_signed(0x10, 0x00), -4096);
    assert_eq!(raw_to_temperature(0x10, 0x00), -25600);
}

#[test]
fn raw_round_trip_reproduces_signed_value() {
    for upper in 0u8..=0xff {
        for lower in 0u8..=0xff {
            let value = raw_to_signed(upper, lower);
            let (re_upper, re_lower) = signed_to_raw(value);
            assert_eq!(re_upper, upper & 0x1f);
            assert_eq!(re_lower, lower);
            assert_eq!(raw_to_signed(re_upper, re_lower), value);
        }
    }
}

#[test]
fn driver_starts_uncalibrated() {
    let driver = TemperatureDriver::new();
    assert_eq!(driver.state, CalibrationState::Uncalibrated);
    assert!(driver.must_configure());
}

#[test]
fn successful_cycle_keeps_calibration() {
    let mut driver = TemperatureDriver::new();
    assert!(driver.must_configure());
    assert_eq!(driver.after_configuration(true), None);
    let published = driver.after_read(Some((0x01, 0x90)));
    assert_eq!(published, 2500);
    assert_eq!(driver.state, CalibrationState::Calibrated);
    // The next cycle skips the configuration write.
    assert!(!driver.must_configure());
    assert_eq!(driver.after_read(Some((0x00, 0x10))), 100);
}

#[test]
fn configuration_failure_aborts_cycle_with_sentinel() {
    let mut driver = TemperatureDriver::new();
    let aborted = driver.after_configuration(false);
    assert_eq!(aborted, Some(TEMPERATURE_SENTINEL));
    assert_eq!(driver.state, CalibrationState::Uncalibrated);
    // The configuration write is retried every cycle until it succeeds.
    assert!(driver.must_configure());
}

#[test]
fn read_failure_forces_reconfiguration() {
    let mut driver = TemperatureDriver::new();
    assert_eq!(driver.after_configuration(true), None);
    assert_eq!(driver.after_read(Some((0x01, 0x90))), 2500);
    // A bus error during the read publishes the sentinel...
    let published = driver.after_read(None);
    assert_eq!(published, TEMPERATURE_SENTINEL);
    // ...and the very next cycle begins with a configuration write
    // before another read is attempted.
    assert!(driver.must_configure());
    assert_eq!(driver.after_configuration(true), None);
    assert_eq!(driver.after_read(Some((0x1f, 0xf0))), -100);
}

#[test]
fn sentinel_is_not_a_decodable_temperature() {
    // Every successful decode stays well below the failure sentinel.
    assert!(raw_to_temperature(0x0f, 0xff) < TEMPERATURE_SENTINEL);
}
