use current_logger::battery::{battery_level, BatteryWindow, USB_POWER};

#[test]
fn window_sums_last_ten() {
    let mut w = BatteryWindow::new();
    assert_eq!(w.sum(), 0);
    for _ in 0..10 {
        w.push(370);
    }
    assert_eq!(w.sum(), 3700);
    w.push(380);
    assert_eq!(w.sum(), 3710);
}

#[test]
fn level_rises_past_threshold_and_falls_below_lower_one() {
    assert_eq!(battery_level(0, 3750), 0);
    assert_eq!(battery_level(0, 3751), 20);
    assert_eq!(battery_level(20, 3720), 20);
    assert_eq!(battery_level(20, 3699), 0);
    assert_eq!(battery_level(80, 4151), 100);
    assert_eq!(battery_level(100, 4600), USB_POWER);
    assert_eq!(battery_level(USB_POWER, 4520), USB_POWER);
    assert_eq!(battery_level(USB_POWER, 4499), 100);
    assert_eq!(battery_level(33, 5000), 0);
}
