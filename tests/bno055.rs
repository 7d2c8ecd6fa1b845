use i2c_sensors::bno055::{
    axis_register, power_on_sequence, reports_error, Bno055Status, EULER_VECTOR_REGISTER,
    MODE_NDOF, OPR_MODE_REGISTER,
};

#[test]
fn status_error_is_read_only_when_reported() {
    assert!(reports_error(0x01));
    assert!(!reports_error(0x05));
    assert_eq!(Bno055Status::new(0x01, Some(3)), Bno055Status { status: 1, error: Some(3) });
    assert_eq!(Bno055Status::new(0x05, Some(3)), Bno055Status { status: 5, error: None });
}

#[test]
fn vector_axes_are_two_registers_apart() {
    assert_eq!(axis_register(EULER_VECTOR_REGISTER, 0), 0x1A);
    assert_eq!(axis_register(EULER_VECTOR_REGISTER, 1), 0x1C);
    assert_eq!(axis_register(EULER_VECTOR_REGISTER, 2), 0x1E);
}

#[test]
fn power_on_ends_in_fusion_mode() {
    let steps = power_on_sequence();
    assert_eq!(steps.len(), 7);
    let last = steps[6];
    assert_eq!((last.register, last.value, last.checked), (OPR_MODE_REGISTER, MODE_NDOF, true));
    assert_eq!(steps.iter().map(|s| s.settle_ms).sum::<u64>(), 690);
    assert_eq!(steps.iter().filter(|s| !s.checked).count(), 3);
}
