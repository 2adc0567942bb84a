use dev_monitor::emc2101::{
    device_id_valid, fan_speed_from_bytes, min_rpm_tach_limit, Emc2101Error, RegData,
};

#[test]
fn both_tach_bytes_all_ones_means_stalled() {
    assert_eq!(fan_speed_from_bytes(0xFF, 0xFF), Some(0));
}

#[test]
fn fan_speed_divides_the_numerator_by_the_count() {
    // count 0x0140 = 320: 5400000 / 320 = 16875
    assert_eq!(fan_speed_from_bytes(0x40, 0x01), Some(16875));
}

#[test]
fn tach_msb_is_masked_to_six_bits() {
    // msb 0xFF masks to 0x3F: count 0x3F00 = 16128, 5400000 / 16128 = 334
    assert_eq!(fan_speed_from_bytes(0x00, 0xFF), Some(334));
    assert_eq!(fan_speed_from_bytes(0xFF, 0x3F), Some(329));
}

#[test]
fn zero_tach_count_has_no_speed() {
    assert_eq!(fan_speed_from_bytes(0x00, 0x00), None);
    // the masked msb alone can make the count zero
    assert_eq!(fan_speed_from_bytes(0x00, 0xC0), None);
}

#[test]
fn fan_speed_truncates_to_sixteen_bits() {
    // count 1: 5400000 keeps only its low 16 bits, 26048
    assert_eq!(fan_speed_from_bytes(0x01, 0x00), Some(26048));
}

#[test]
fn tach_limit_reference_points() {
    assert_eq!(min_rpm_tach_limit(150), 36000);
    assert_eq!(min_rpm_tach_limit(5400), 1000);
    // 5400000 / 83 = 65060 still fits; 5400000 / 1 keeps its low 16 bits
    assert_eq!(min_rpm_tach_limit(83), 65060);
    assert_eq!(min_rpm_tach_limit(1), 26048);
}

#[test]
fn set_bit_sets_and_clears_one_bit() {
    assert_eq!(0u8.set_bit(true, 2), 0b0000_0100);
    assert_eq!(0xFFu8.set_bit(false, 4), 0b1110_1111);
}

#[test]
fn set_bit_preserves_unrelated_bits() {
    let reg: u8 = 0b1010_0101;
    assert_eq!(reg.set_bit(true, 3), 0b1010_1101);
    assert_eq!(reg.set_bit(false, 0), 0b1010_0100);
    assert_eq!(reg.set_bit(true, 0), reg);
}

#[test]
fn fan_error_texts_name_their_condition() {
    assert_eq!(Emc2101Error::InvalidDeviceId.describe(), "InvalidDeviceId");
    assert_eq!(Emc2101Error::UnkonwnStatus.describe(), "UnkonwnStatus");
}

#[test]
fn only_the_two_known_device_ids_are_accepted() {
    assert!(device_id_valid(0x16));
    assert!(device_id_valid(0x28));
    assert!(!device_id_valid(0x15));
    assert!(!device_id_valid(0x00));
    assert!(!device_id_valid(0xFF));
}
