use dev_monitor::adc::{channel_scaled, BoardAdc, BoardAdcData};

#[test]
fn channel_zero_reference_current() {
    // raw 1024 is 3.072 units over the 2.5 shunt divisor: 1228.8 mA
    assert_eq!(
        channel_scaled(1024, 0),
        Some(BoardAdcData::MicroAmps(1_228_800))
    );
}

#[test]
fn channel_one_is_a_direct_current() {
    assert_eq!(
        channel_scaled(1024, 1),
        Some(BoardAdcData::MicroAmps(3_072_000))
    );
}

#[test]
fn channel_two_applies_the_resistor_divider() {
    assert_eq!(
        channel_scaled(1024, 2),
        Some(BoardAdcData::MicroVolts(31_516_444))
    );
    // a raw code of 9 makes the division exact: 277000 microvolts
    assert_eq!(channel_scaled(9, 2), Some(BoardAdcData::MicroVolts(277_000)));
}

#[test]
fn channel_three_doubles_the_voltage() {
    assert_eq!(
        channel_scaled(1024, 3),
        Some(BoardAdcData::MicroVolts(6_144_000))
    );
}

#[test]
fn channels_outside_the_four_roles_are_invalid() {
    assert_eq!(channel_scaled(1024, 4), None);
    assert_eq!(channel_scaled(0, 255), None);
}

#[test]
fn full_scale_raw_code_stays_exact() {
    assert_eq!(
        channel_scaled(65535, 0),
        Some(BoardAdcData::MicroAmps(78_642_000))
    );
}

#[test]
fn trait_methods_agree_with_the_free_function() {
    let raw: u16 = 1024;
    assert_eq!(raw.to_humman(0), Some(BoardAdcData::MicroAmps(1_228_800)));
    assert_eq!(raw.to_humman(7), None);
    assert_eq!(raw.to_data(2), 31_516_444);
    assert_eq!(raw.to_data(3), 6_144_000);
}
