use wol_nas_listener::hardware_address::{hex_digit, parse_hardware_address, parse_hex_byte};

#[test]
fn lower_case_address_is_read() {
    assert_eq!(
        parse_hardware_address("aa:bb:cc:dd:ee:ff"),
        Some([0xAA, 0xBB, 0xCC, 0xDD, 0xEE, 0xFF])
    );
}

#[test]
fn upper_case_address_is_read() {
    assert_eq!(
        parse_hardware_address("01:23:45:67:89:AB"),
        Some([0x01, 0x23, 0x45, 0x67, 0x89, 0xAB])
    );
}

#[test]
fn surrounding_white_space_is_ignored() {
    assert_eq!(
        parse_hardware_address("  aa:bb:cc:dd:ee:ff\n"),
        Some([0xAA, 0xBB, 0xCC, 0xDD, 0xEE, 0xFF])
    );
    assert_eq!(
        parse_hardware_address("\t01:02:03:04:05:06\r\n"),
        Some([1, 2, 3, 4, 5, 6])
    );
}

#[test]
fn malformed_segment_becomes_zero() {
    assert_eq!(
        parse_hardware_address("aa:zz:cc:dd:ee:ff"),
        Some([0xAA, 0x00, 0xCC, 0xDD, 0xEE, 0xFF])
    );
    assert_eq!(
        parse_hardware_address(":::::"),
        Some([0, 0, 0, 0, 0, 0])
    );
    assert_eq!(
        parse_hardware_address("100:bb:cc:dd:ee:-1"),
        Some([0x00, 0xBB, 0xCC, 0xDD, 0xEE, 0x00])
    );
}

#[test]
fn wrong_segment_count_is_refused() {
    assert_eq!(parse_hardware_address(""), None);
    assert_eq!(parse_hardware_address("aa:bb:cc:dd:ee"), None);
    assert_eq!(parse_hardware_address("aa:bb:cc:dd:ee:ff:00"), None);
    assert_eq!(parse_hardware_address("aa-bb-cc-dd-ee-ff"), None);
}

#[test]
fn hex_bytes_follow_radix_parsing() {
    assert_eq!(parse_hex_byte("ff"), Some(255));
    assert_eq!(parse_hex_byte("FF"), Some(255));
    assert_eq!(parse_hex_byte("0"), Some(0));
    assert_eq!(parse_hex_byte("+a"), Some(10));
    assert_eq!(parse_hex_byte("000ff"), Some(255));
    assert_eq!(parse_hex_byte("100"), None);
    assert_eq!(parse_hex_byte("fff0000"), None);
    assert_eq!(parse_hex_byte(""), None);
    assert_eq!(parse_hex_byte("+"), None);
    assert_eq!(parse_hex_byte("-1"), None);
    assert_eq!(parse_hex_byte("++1"), None);
    assert_eq!(parse_hex_byte(" 1"), None);
    assert_eq!(parse_hex_byte("g"), None);
    assert_eq!(parse_hex_byte("é"), None);
    for s in ["0", "7f", "80", "fe", "+3", "0a", "ZZ", "1_0", "256", "00000001"] {
        assert_eq!(parse_hex_byte(s), u8::from_str_radix(s, 16).ok(), "{}", s);
    }
}

#[test]
fn hex_digits_have_their_values() {
    assert_eq!(hex_digit('0'), Some(0));
    assert_eq!(hex_digit('9'), Some(9));
    assert_eq!(hex_digit('a'), Some(10));
    assert_eq!(hex_digit('F'), Some(15));
    assert_eq!(hex_digit('g'), None);
    assert_eq!(hex_digit(':'), None);
}
