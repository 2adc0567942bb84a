use dev_monitor::emc2101::{lut_duty_code, percent_to_duty_code};

#[test]
fn duty_code_reference_points() {
    assert_eq!(percent_to_duty_code(0), 0);
    assert_eq!(percent_to_duty_code(50), 32);
    assert_eq!(percent_to_duty_code(100), 63);
}

#[test]
fn duty_code_rounds_to_nearest() {
    // 39% of 64 is 24.96: nearest code is 25
    assert_eq!(percent_to_duty_code(39), 25);
}

#[test]
fn duty_code_clamps_above_hundred() {
    assert_eq!(percent_to_duty_code(101), 63);
    assert_eq!(percent_to_duty_code(255), 63);
}

#[test]
fn duty_code_is_monotonic() {
    let mut prev = percent_to_duty_code(0);
    let mut p: u16 = 1;
    while p <= 255 {
        let cur = percent_to_duty_code(p as u8);
        assert!(prev <= cur);
        prev = cur;
        p += 1;
    }
}

#[test]
fn lut_duty_code_reference_points() {
    assert_eq!(lut_duty_code(0), 0);
    // 50% of the table's max code 63 rounds to 32
    assert_eq!(lut_duty_code(50), 32);
    assert_eq!(lut_duty_code(100), 63);
}
