use i2c_sensors::averaging::PressureWindow;

#[test]
fn empty_window_has_no_average() {
    let w = PressureWindow::new();
    assert_eq!(w.len(), 0);
    assert_eq!(w.average(), None);
}

#[test]
fn window_keeps_nine_latest_samples() {
    let mut w = PressureWindow::new();
    for p in 1..=9 {
        w.push(p * 10);
    }
    assert_eq!(w.len(), 9);
    assert_eq!(w.average(), Some(50));
    w.push(190);
    assert_eq!(w.len(), 9);
    // 20..=90 and 190
    assert_eq!(w.average(), Some((20 + 30 + 40 + 50 + 60 + 70 + 80 + 90 + 190) / 9));
}

#[test]
fn average_truncates_toward_zero() {
    let mut w = PressureWindow::new();
    w.push(-7);
    w.push(-8);
    assert_eq!(w.average(), Some(-7));
    let mut w = PressureWindow::new();
    w.push(7);
    w.push(8);
    assert_eq!(w.average(), Some(7));
}

#[test]
fn average_of_extreme_samples_does_not_overflow() {
    let mut w = PressureWindow::new();
    for _ in 0..9 {
        w.push(i32::MAX);
    }
    assert_eq!(w.average(), Some(i32::MAX));
    let mut w = PressureWindow::new();
    for _ in 0..9 {
        w.push(i32::MIN);
    }
    assert_eq!(w.average(), Some(i32::MIN));
}
