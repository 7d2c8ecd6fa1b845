use i2c_sensors::measurement::{
    pressure_command, pressure_settle_ms, raw_pressure, DEFAULT_OVERSAMPLING, TEMPERATURE_SETTLE_MS,
};

#[test]
fn settle_wait_grows_with_oversampling() {
    let waits: Vec<u64> = (0..4u8).map(pressure_settle_ms).collect();
    assert_eq!(waits, vec![2, 10, 18, 26]);
    for i in 0..3 {
        assert!(waits[i] < waits[i + 1]);
    }
    assert_eq!(TEMPERATURE_SETTLE_MS, 5);
    assert_eq!(DEFAULT_OVERSAMPLING, 3);
}

#[test]
fn pressure_command_carries_oversampling() {
    let commands: Vec<u8> = (0..4u8).map(pressure_command).collect();
    assert_eq!(commands, vec![0x34, 0x74, 0xB4, 0xF4]);
}

#[test]
fn raw_pressure_shift_shrinks_with_oversampling() {
    // 0x5D2300 is 23843 << 8.
    assert_eq!(raw_pressure(0x5D, 0x23, 0x00, 0), 23843);
    assert_eq!(raw_pressure(0x5D, 0x23, 0x00, 1), 47686);
    assert_eq!(raw_pressure(0x5D, 0x23, 0x00, 2), 95372);
    assert_eq!(raw_pressure(0x5D, 0x23, 0x00, 3), 190744);
    assert_eq!(raw_pressure(0x5D, 0x23, 0x80, 0), 23843);
    assert_eq!(raw_pressure(0x5D, 0x23, 0x80, 3), 190748);
    assert_eq!(raw_pressure(0xFF, 0xFF, 0xFF, 3), 0xFFFFFF >> 5);
    assert_eq!(raw_pressure(0, 0, 0x7F, 0), 0);
}
