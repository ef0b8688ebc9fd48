use tempsys::voltage::raw_to_millivolts;

#[test]
fn zero_raw_is_zero_millivolts() {
    assert_eq!(raw_to_millivolts(0), 0);
}

#[test]
fn full_scale_reading() {
    // 4095 * 600 * 6 / 4096 = 3599 mV, rounded down
    assert_eq!(raw_to_millivolts(4095), 3599);
}

#[test]
fn half_scale_reading_is_exact() {
    // 2048 * 600 * 6 / 4096 = 1800 mV exactly
    assert_eq!(raw_to_millivolts(2048), 1800);
}

#[test]
fn one_count_is_under_a_millivolt() {
    // 600 * 6 / 4096 rounds down to 0
    assert_eq!(raw_to_millivolts(1), 0);
}

#[test]
fn negative_raw_rounds_toward_negative_infinity() {
    // -1 * 3600 / 4096 rounds down to -1, as the arithmetic shift does
    assert_eq!(raw_to_millivolts(-1), -1);
    assert_eq!(raw_to_millivolts(-4096), -3600);
}

#[test]
fn extreme_raw_readings_stay_in_range() {
    assert_eq!(raw_to_millivolts(i16::MAX), 28799);
    assert_eq!(raw_to_millivolts(i16::MIN), -28800);
}
