use dev_monitor::aht20::{Aht20Decoder, Aht20Error, SensorReading};

#[test]
fn zero_frame_decodes_to_floor_values() {
    let frame = [0u8; 6];
    let r = SensorReading::decode(&frame);
    assert_eq!(r.humidity_raw, 0);
    assert_eq!(r.temp_raw, 0);
    assert_eq!(r.humidity_milli_percent(), 0);
    assert_eq!(r.temp_milli_celsius(), -50000);
}

#[test]
fn bit_packing_matches_the_frame_layout() {
    let frame = [0x1C, 0x12, 0x34, 0x56, 0x78, 0x9A];
    let r = SensorReading::decode(&frame);
    // humidity: 0x12 << 12 | 0x34 << 4 | high nibble of 0x56
    assert_eq!(r.humidity_raw, 0x12345);
    // temperature: low nibble of 0x56 << 16 | 0x78 << 8 | 0x9A
    assert_eq!(r.temp_raw, 0x6789A);
    assert_eq!(r.humidity_milli_percent(), 7111);
    assert_eq!(r.temp_milli_celsius(), 30888);
}

#[test]
fn saturated_frame_decodes_to_ceiling_values() {
    let frame = [0x00, 0xFF, 0xFF, 0xFF, 0xFF, 0xFF];
    let r = SensorReading::decode(&frame);
    assert_eq!(r.humidity_raw, 0xFFFFF);
    assert_eq!(r.temp_raw, 0xFFFFF);
    assert_eq!(r.humidity_milli_percent(), 99999);
    assert_eq!(r.temp_milli_celsius(), 149999);
}

#[test]
fn byte_zero_does_not_enter_the_decoding() {
    let a = SensorReading::decode(&[0x00, 1, 2, 3, 4, 5]);
    let b = SensorReading::decode(&[0xFF, 1, 2, 3, 4, 5]);
    assert_eq!(a.humidity_raw, b.humidity_raw);
    assert_eq!(a.temp_raw, b.temp_raw);
}

#[test]
fn frame_to_human_gives_milli_units() {
    let frame: [u8; 6] = [0x1C, 0x12, 0x34, 0x56, 0x78, 0x9A];
    assert_eq!(frame.to_human(), (7111, 30888));
    assert_eq!([0u8; 6].to_human(), (0, -50000));
}

#[test]
fn sensor_error_texts_name_their_condition() {
    assert_eq!(Aht20Error::Timeout.describe(), "Timeout");
    assert_eq!(Aht20Error::UnkonwnStatus.describe(), "UnkonwnStatus");
}

#[test]
fn humidity_and_temperature_nibbles_split_byte_three() {
    // byte 3 carries the humidity's low nibble high and the temperature's
    // top nibble low
    let r = SensorReading::decode(&[0, 0, 0, 0xAB, 0, 0]);
    assert_eq!(r.humidity_raw, 0xA);
    assert_eq!(r.temp_raw, 0xB0000);
}
