use bulb_core::codec::decimal_string;
use bulb_core::codec::decode_hex4;
use bulb_core::codec::encode_color;
use bulb_core::codec::hsv_to_hex;
use bulb_core::codec::midi_to_hue;
use bulb_core::codec::parse_mod_wheel;
use bulb_core::BulbError;

#[test]
fn midi_to_hue_endpoints() {
    assert_eq!(midi_to_hue(0), 0);
    assert_eq!(midi_to_hue(127), 360);
    assert_eq!(midi_to_hue(64), 181);
}

#[test]
fn midi_to_hue_is_monotonic_and_in_range() {
    let mut previous: u16 = 0;
    for value in 0..=127u8 {
        let hue = midi_to_hue(value);
        assert!(hue <= 360);
        assert!(hue >= previous);
        previous = hue;
    }
}

#[test]
fn hsv_to_hex_exact() {
    assert_eq!(hsv_to_hex(180, 1000, 1000), "00b403e803e8");
    assert_eq!(hsv_to_hex(0, 0, 0), "000000000000");
    assert_eq!(hsv_to_hex(360, 1, 16), "016800010010");
}

#[test]
fn encode_color_layout_and_flag() {
    let immediate = encode_color(120, 1000, 1000, true).unwrap();
    assert_eq!(immediate, "0007803e803e800000000");
    assert_eq!(immediate.len(), 21);
    assert!(immediate.starts_with('0'));

    let transitioned = encode_color(120, 1000, 1000, false).unwrap();
    assert_eq!(transitioned.len(), 21);
    assert!(transitioned.starts_with('1'));
    assert_eq!(immediate[1..], transitioned[1..]);
}

#[test]
fn encode_color_rejects_out_of_range() {
    assert_eq!(encode_color(361, 0, 0, true), Err(BulbError::InvalidInput));
    assert_eq!(encode_color(0, 1001, 0, true), Err(BulbError::InvalidInput));
    assert_eq!(encode_color(0, 0, 1001, false), Err(BulbError::InvalidInput));
    assert_eq!(encode_color(u16::MAX, u16::MAX, u16::MAX, true), Err(BulbError::InvalidInput));
}

#[test]
fn hue_hex_round_trip_over_whole_range() {
    for hue in 0..=360u16 {
        let hex = hsv_to_hex(hue, 0, 0);
        assert_eq!(decode_hex4(&hex[0..4]), Some(hue));
    }
}

#[test]
fn decode_hex4_rejects_malformed_input() {
    assert_eq!(decode_hex4(""), None);
    assert_eq!(decode_hex4("012"), None);
    assert_eq!(decode_hex4("01234"), None);
    assert_eq!(decode_hex4("01g4"), None);
    assert_eq!(decode_hex4("00FF"), None);
    assert_eq!(decode_hex4("ffff"), Some(0xffff));
}

#[test]
fn mod_wheel_filter() {
    assert_eq!(parse_mod_wheel(&[0xb0, 0x01, 64]), Some(64));
    assert_eq!(parse_mod_wheel(&[0xb0, 0x01, 0]), Some(0));
    assert_eq!(parse_mod_wheel(&[0xb0, 0x01, 127]), Some(127));
    assert_eq!(parse_mod_wheel(&[0xb1, 0x01, 64]), None);
    assert_eq!(parse_mod_wheel(&[0xb0, 0x02, 64]), None);
    assert_eq!(parse_mod_wheel(&[0xb0, 0x01]), None);
    assert_eq!(parse_mod_wheel(&[0xb0, 0x01, 64, 0]), None);
    assert_eq!(parse_mod_wheel(&[0xb0, 0x01, 200]), None);
}

#[test]
fn timestamp_decimal_encoding() {
    assert_eq!(decimal_string(0), "0");
    assert_eq!(decimal_string(7), "7");
    assert_eq!(decimal_string(10), "10");
    assert_eq!(decimal_string(1700000000), "1700000000");
    assert_eq!(decimal_string(u64::MAX), "18446744073709551615");
}
